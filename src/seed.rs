use vstd::prelude::*;
use crate::token::{CodecError, Token};

verus! {

/// A context object that knows how to encode and decode values of one type.
///
/// `Value` is the executable value type and `Model` what an observer can tell
/// of such a value; two values with the same model are observably equal.
/// `encoding` and `decoding` describe the token form of a model, and every seed
/// proves that they are a matched pair (`lemma_round_trip`).
pub trait SerializeSeed {
    type Value;

    type Model;

    /// What is observable of a value.
    spec fn model(v: Self::Value) -> Self::Model;

    /// The tokens that encode a value with model `m` under this seed.
    spec fn encoding(&self, m: Self::Model) -> Seq<Token>;

    /// Decoding of a value from the front of `ts`: its model and the tokens
    /// that follow it, or the error that stops it.
    spec fn decoding(&self, ts: Seq<Token>) -> Result<(Self::Model, Seq<Token>), CodecError>;

    /// Decoding takes back what encoding wrote, whatever follows; an encoding
    /// is never empty and never starts by closing a frame.
    proof fn lemma_round_trip(&self, m: Self::Model, rest: Seq<Token>)
        ensures
            self.encoding(m).len() > 0,
            self.encoding(m)[0] != Token::End,
            self.decoding(self.encoding(m) + rest) == Ok::<
                (Self::Model, Seq<Token>),
                CodecError,
            >((m, rest)),
    ;

    /// Appends the encoding of `value` to `out`.
    fn serialize(&self, value: &Self::Value, out: &mut Vec<Token>)
        ensures
            final(out)@ == old(out)@ + self.encoding(Self::model(*value)),
    ;

    /// Decodes a value from the tokens from `pos` on; on success returns it and
    /// the position after it.
    fn deserialize(&self, ts: &Vec<Token>, pos: usize) -> (r: Result<(Self::Value, usize), CodecError>)
        requires
            pos <= ts@.len(),
        ensures
            match r {
                Ok((v, p)) => pos < p <= ts@.len() && self.decoding(ts@.skip(pos as int)) == Ok::<
                    (Self::Model, Seq<Token>),
                    CodecError,
                >((Self::model(v), ts@.skip(p as int))),
                Err(e) => self.decoding(ts@.skip(pos as int)) == Err::<
                    (Self::Model, Seq<Token>),
                    CodecError,
                >(e),
            },
    ;
}

/// A borrowed seed works as the seed itself, so composite seeds can hold
/// either owned or borrowed children.
impl<'s, T: SerializeSeed> SerializeSeed for &'s T {
    type Value = T::Value;

    type Model = T::Model;

    open spec fn model(v: T::Value) -> T::Model {
        T::model(v)
    }

    open spec fn encoding(&self, m: T::Model) -> Seq<Token> {
        (**self).encoding(m)
    }

    open spec fn decoding(&self, ts: Seq<Token>) -> Result<(T::Model, Seq<Token>), CodecError> {
        (**self).decoding(ts)
    }

    proof fn lemma_round_trip(&self, m: T::Model, rest: Seq<Token>) {
        (**self).lemma_round_trip(m, rest);
    }

    fn serialize(&self, value: &T::Value, out: &mut Vec<Token>) {
        (**self).serialize(value, out)
    }

    fn deserialize(&self, ts: &Vec<Token>, pos: usize) -> (r: Result<(T::Value, usize), CodecError>) {
        (**self).deserialize(ts, pos)
    }
}

/// A borrowed value bound to the seed that encodes it, for one encode call.
#[derive(Debug, Clone, Copy)]
pub struct ValueWithSeed<'a, Value, Seed>(pub &'a Value, pub Seed);

impl<'a, Value, Seed: SerializeSeed<Value = Value>> ValueWithSeed<'a, Value, Seed> {
    /// Appends the encoding of the held value under the held seed to `out`.
    pub fn serialize(&self, out: &mut Vec<Token>)
        ensures
            final(out)@ == old(out)@ + self.1.encoding(Seed::model(*self.0)),
    {
        self.1.serialize(self.0, out)
    }
}

} // verus!

verus! {

/// Decoding of one whole value from `ts`: its model, provided no token is left
/// over.
pub open spec fn whole_decoding<S: SerializeSeed>(seed: S, ts: Seq<Token>) -> Result<S::Model, CodecError> {
    match seed.decoding(ts) {
        Ok((m, r)) => if r.len() == 0 {
            Ok(m)
        } else {
            Err(CodecError::TrailingTokens)
        },
        Err(e) => Err(e),
    }
}

/// The tokens that encode `value` under `seed`.
pub fn to_tokens<S: SerializeSeed>(seed: &S, value: &S::Value) -> (r: Vec<Token>)
    ensures
        r@ == seed.encoding(S::model(*value)),
{
    let mut out: Vec<Token> = Vec::new();
    ValueWithSeed(value, seed).serialize(&mut out);
    assert(out@ =~= seed.encoding(S::model(*value)));
    out
}

/// Decodes one whole value from `ts` with `seed`; tokens left over after it
/// are an error.
pub fn from_tokens<S: SerializeSeed>(seed: &S, ts: &Vec<Token>) -> (r: Result<S::Value, CodecError>)
    ensures
        match r {
            Ok(v) => whole_decoding(*seed, ts@) == Ok::<S::Model, CodecError>(S::model(v)),
            Err(e) => whole_decoding(*seed, ts@) == Err::<S::Model, CodecError>(e),
        },
{
    assert(ts@.skip(0) =~= ts@);
    let (v, p) = seed.deserialize(ts, 0)?;
    if p < ts.len() {
        return Err(CodecError::TrailingTokens);
    }
    Ok(v)
}

} // verus!
