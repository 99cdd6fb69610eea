use vstd::prelude::*;
use crate::seed::SerializeSeed;
use crate::token::{decode_unsigned, unsigned_decoding, CodecError, Expected, Token};

verus! {

/// A single-byte value whose encoded form depends on a key held by its seed.
#[derive(Debug, Clone, Copy, PartialEq, Eq, Structural)]
pub struct ComplexType(pub u8);

/// Seed for `ComplexType`: the payload is encoded as `payload ^ xor`, and the
/// stored byte is decoded by the same transform, so one stored byte stands for
/// different values under different keys.
#[derive(Debug, Clone, Copy, PartialEq, Eq, Structural)]
pub struct ComplexTypeSerde {
    pub xor: u8,
}

impl SerializeSeed for ComplexTypeSerde {
    type Value = ComplexType;

    type Model = u8;

    open spec fn model(v: ComplexType) -> u8 {
        v.0
    }

    open spec fn encoding(&self, m: u8) -> Seq<Token> {
        seq![Token::Unsigned((m ^ self.xor) as u64)]
    }

    open spec fn decoding(&self, ts: Seq<Token>) -> Result<(u8, Seq<Token>), CodecError> {
        match unsigned_decoding(ts, 255, Expected::U8) {
            Ok((x, rest)) => Ok(((x as u8) ^ self.xor, rest)),
            Err(e) => Err(e),
        }
    }

    proof fn lemma_round_trip(&self, m: u8, rest: Seq<Token>) {
        let k = self.xor;
        let ts = self.encoding(m) + rest;
        assert(((m ^ k) as u64) <= 255 && (((m ^ k) as u64) as u8) ^ k == m) by (bit_vector);
        assert(ts[0] == Token::Unsigned((m ^ k) as u64));
        assert(ts.skip(1) =~= rest);
    }

    fn serialize(&self, value: &ComplexType, out: &mut Vec<Token>) {
        out.push(Token::Unsigned((value.0 ^ self.xor) as u64));
    }

    fn deserialize(&self, ts: &Vec<Token>, pos: usize) -> (r: Result<(ComplexType, usize), CodecError>) {
        let (x, p) = decode_unsigned(ts, pos, 255, Expected::U8)?;
        Ok((ComplexType((x as u8) ^ self.xor), p))
    }
}

} // verus!
