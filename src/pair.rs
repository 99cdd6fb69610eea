use vstd::prelude::*;
use crate::frame::{
    close_tuple, lemma_slot_round_trip, open_tuple, read_slot, slot_decoding, tuple_close,
    tuple_open,
};
use crate::seed::{SerializeSeed, ValueWithSeed};
use crate::token::{CodecError, Expected, Token};

verus! {

/// Seed for a pair: slot 0 with the first seed, slot 1 with the second, in a
/// tuple frame of arity 2.
#[derive(Debug, Clone, Copy)]
pub struct PairSerde<U, V>(pub U, pub V);

impl<U: SerializeSeed, V: SerializeSeed> SerializeSeed for PairSerde<U, V> {
    type Value = (U::Value, V::Value);

    type Model = (U::Model, V::Model);

    open spec fn model(v: (U::Value, V::Value)) -> (U::Model, V::Model) {
        (U::model(v.0), V::model(v.1))
    }

    open spec fn encoding(&self, m: (U::Model, V::Model)) -> Seq<Token> {
        seq![Token::TupleStart(2)] + self.0.encoding(m.0) + self.1.encoding(m.1) + seq![Token::End]
    }

    open spec fn decoding(&self, ts: Seq<Token>) -> Result<((U::Model, V::Model), Seq<Token>), CodecError> {
        match tuple_open(ts, Expected::Pair) {
            Err(e) => Err(e),
            Ok(r0) => match slot_decoding(self.0, r0, 0, Expected::Pair) {
                Err(e) => Err(e),
                Ok((u, r1)) => match slot_decoding(self.1, r1, 1, Expected::Pair) {
                    Err(e) => Err(e),
                    Ok((v, r2)) => match tuple_close(r2, Expected::Pair) {
                        Err(e) => Err(e),
                        Ok(r3) => Ok(((u, v), r3)),
                    },
                },
            },
        }
    }

    proof fn lemma_round_trip(&self, m: (U::Model, V::Model), rest: Seq<Token>) {
        let e0 = self.0.encoding(m.0);
        let e1 = self.1.encoding(m.1);
        let end = seq![Token::End];
        let ts = self.encoding(m) + rest;
        assert(ts.skip(1) =~= e0 + (e1 + (end + rest)));
        lemma_slot_round_trip(self.0, m.0, e1 + (end + rest), 0, Expected::Pair);
        lemma_slot_round_trip(self.1, m.1, end + rest, 1, Expected::Pair);
        assert((end + rest).skip(1) =~= rest);
    }

    fn serialize(&self, value: &(U::Value, V::Value), out: &mut Vec<Token>) {
        out.push(Token::TupleStart(2));
        ValueWithSeed(&value.0, &self.0).serialize(out);
        ValueWithSeed(&value.1, &self.1).serialize(out);
        out.push(Token::End);
        proof {
            let m = Self::model(*value);
            assert(final(out)@ =~= old(out)@ + self.encoding(m));
        }
    }

    fn deserialize(&self, ts: &Vec<Token>, pos: usize) -> (r: Result<((U::Value, V::Value), usize), CodecError>) {
        let p0 = open_tuple(ts, pos, Expected::Pair)?;
        let (u, p1) = read_slot(&self.0, ts, p0, 0, Expected::Pair)?;
        let (v, p2) = read_slot(&self.1, ts, p1, 1, Expected::Pair)?;
        let p3 = close_tuple(ts, p2, Expected::Pair)?;
        Ok(((u, v), p3))
    }
}

} // verus!
