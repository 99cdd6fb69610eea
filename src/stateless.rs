use vstd::prelude::*;
use phantom_type::PhantomType;
use crate::seed::SerializeSeed;
use crate::token::{decode_unsigned, unsigned_decoding, CodecError, Expected, Token};

verus! {

/// phantom-type's zero-size marker, held by `StatelessSerde` to fix its value
/// type; its contents are never read.
#[verifier::external_type_specification]
#[verifier::external_body]
#[verifier::reject_recursive_types(T)]
pub struct ExPhantomType<T: ?Sized>(PhantomType<T>);

/// Relies on phantom_type::PhantomType::new to build the marker; nothing is
/// claimed of the marker.
pub assume_specification<T: ?Sized>[ PhantomType::<T>::new ]() -> PhantomType<T>;

/// A value that encodes and decodes itself, with no outside context.
pub trait SelfDescribing: Sized {
    /// The tokens that encode this value.
    spec fn tokens(self) -> Seq<Token>;

    /// Decoding of a value from the front of `ts`: the value and what follows.
    spec fn parse(ts: Seq<Token>) -> Result<(Self, Seq<Token>), CodecError>;

    /// Parsing takes back what `tokens` wrote, whatever follows; the tokens are
    /// never empty and never start by closing a frame.
    proof fn lemma_parse_tokens(self, rest: Seq<Token>)
        ensures
            self.tokens().len() > 0,
            self.tokens()[0] != Token::End,
            Self::parse(self.tokens() + rest) == Ok::<(Self, Seq<Token>), CodecError>((self, rest)),
    ;

    /// Appends the encoding of this value to `out`.
    fn encode(&self, out: &mut Vec<Token>)
        ensures
            final(out)@ == old(out)@ + self.tokens(),
    ;

    /// Decodes a value from the tokens from `pos` on; on success returns it and
    /// the position after it.
    fn decode(ts: &Vec<Token>, pos: usize) -> (r: Result<(Self, usize), CodecError>)
        requires
            pos <= ts@.len(),
        ensures
            match r {
                Ok((v, p)) => pos < p <= ts@.len() && Self::parse(ts@.skip(pos as int)) == Ok::<
                    (Self, Seq<Token>),
                    CodecError,
                >((v, ts@.skip(p as int))),
                Err(e) => Self::parse(ts@.skip(pos as int)) == Err::<(Self, Seq<Token>), CodecError>(
                    e,
                ),
            },
    ;
}

/// A one-token encoding decodes back, whatever follows.
proof fn lemma_single_token(t: Token, rest: Seq<Token>)
    ensures
        (seq![t] + rest)[0] == t,
        (seq![t] + rest).skip(1) == rest,
{
    assert((seq![t] + rest).skip(1) =~= rest);
}

impl SelfDescribing for u8 {
    open spec fn tokens(self) -> Seq<Token> {
        seq![Token::Unsigned(self as u64)]
    }

    open spec fn parse(ts: Seq<Token>) -> Result<(u8, Seq<Token>), CodecError> {
        match unsigned_decoding(ts, 0xff, Expected::U8) {
            Ok((x, r)) => Ok((x as u8, r)),
            Err(e) => Err(e),
        }
    }

    proof fn lemma_parse_tokens(self, rest: Seq<Token>) {
        lemma_single_token(Token::Unsigned(self as u64), rest);
    }

    fn encode(&self, out: &mut Vec<Token>) {
        out.push(Token::Unsigned(*self as u64));
    }

    fn decode(ts: &Vec<Token>, pos: usize) -> (r: Result<(u8, usize), CodecError>) {
        let (x, p) = decode_unsigned(ts, pos, 0xff, Expected::U8)?;
        Ok((x as u8, p))
    }
}

impl SelfDescribing for u16 {
    open spec fn tokens(self) -> Seq<Token> {
        seq![Token::Unsigned(self as u64)]
    }

    open spec fn parse(ts: Seq<Token>) -> Result<(u16, Seq<Token>), CodecError> {
        match unsigned_decoding(ts, 0xffff, Expected::U16) {
            Ok((x, r)) => Ok((x as u16, r)),
            Err(e) => Err(e),
        }
    }

    proof fn lemma_parse_tokens(self, rest: Seq<Token>) {
        lemma_single_token(Token::Unsigned(self as u64), rest);
    }

    fn encode(&self, out: &mut Vec<Token>) {
        out.push(Token::Unsigned(*self as u64));
    }

    fn decode(ts: &Vec<Token>, pos: usize) -> (r: Result<(u16, usize), CodecError>) {
        let (x, p) = decode_unsigned(ts, pos, 0xffff, Expected::U16)?;
        Ok((x as u16, p))
    }
}

impl SelfDescribing for u32 {
    open spec fn tokens(self) -> Seq<Token> {
        seq![Token::Unsigned(self as u64)]
    }

    open spec fn parse(ts: Seq<Token>) -> Result<(u32, Seq<Token>), CodecError> {
        match unsigned_decoding(ts, 0xffff_ffff, Expected::U32) {
            Ok((x, r)) => Ok((x as u32, r)),
            Err(e) => Err(e),
        }
    }

    proof fn lemma_parse_tokens(self, rest: Seq<Token>) {
        lemma_single_token(Token::Unsigned(self as u64), rest);
    }

    fn encode(&self, out: &mut Vec<Token>) {
        out.push(Token::Unsigned(*self as u64));
    }

    fn decode(ts: &Vec<Token>, pos: usize) -> (r: Result<(u32, usize), CodecError>) {
        let (x, p) = decode_unsigned(ts, pos, 0xffff_ffff, Expected::U32)?;
        Ok((x as u32, p))
    }
}

impl SelfDescribing for u64 {
    open spec fn tokens(self) -> Seq<Token> {
        seq![Token::Unsigned(self)]
    }

    open spec fn parse(ts: Seq<Token>) -> Result<(u64, Seq<Token>), CodecError> {
        unsigned_decoding(ts, 0xffff_ffff_ffff_ffff, Expected::U64)
    }

    proof fn lemma_parse_tokens(self, rest: Seq<Token>) {
        lemma_single_token(Token::Unsigned(self), rest);
    }

    fn encode(&self, out: &mut Vec<Token>) {
        out.push(Token::Unsigned(*self));
    }

    fn decode(ts: &Vec<Token>, pos: usize) -> (r: Result<(u64, usize), CodecError>) {
        decode_unsigned(ts, pos, 0xffff_ffff_ffff_ffff, Expected::U64)
    }
}

/// Seed for a self-describing value: it holds no context and lets the value
/// encode and decode itself, so such values compose with context-carrying ones.
#[derive(Debug)]
#[verifier::reject_recursive_types(T)]
pub struct StatelessSerde<T: ?Sized>(pub PhantomType<T>);

impl<T> StatelessSerde<T> {
    /// The seed for values of type `T`.
    pub fn new() -> (r: StatelessSerde<T>) {
        StatelessSerde(PhantomType::new())
    }
}

impl<T: SelfDescribing> SerializeSeed for StatelessSerde<T> {
    type Value = T;

    type Model = T;

    open spec fn model(v: T) -> T {
        v
    }

    open spec fn encoding(&self, m: T) -> Seq<Token> {
        m.tokens()
    }

    open spec fn decoding(&self, ts: Seq<Token>) -> Result<(T, Seq<Token>), CodecError> {
        T::parse(ts)
    }

    proof fn lemma_round_trip(&self, m: T, rest: Seq<Token>) {
        m.lemma_parse_tokens(rest);
    }

    fn serialize(&self, value: &T, out: &mut Vec<Token>) {
        value.encode(out)
    }

    fn deserialize(&self, ts: &Vec<Token>, pos: usize) -> (r: Result<(T, usize), CodecError>) {
        T::decode(ts, pos)
    }
}

} // verus!
