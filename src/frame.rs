use vstd::prelude::*;
use crate::seed::SerializeSeed;
use crate::token::{CodecError, Expected, Token};

verus! {

/// Opening of a tuple frame at the front of `ts`: what follows the opening token.
pub open spec fn tuple_open(ts: Seq<Token>, expected: Expected) -> Result<Seq<Token>, CodecError> {
    if ts.len() == 0 {
        Err(CodecError::UnexpectedEnd)
    } else {
        match ts[0] {
            Token::TupleStart(_) => Ok(ts.skip(1)),
            _ => Err(CodecError::InvalidType { expected }),
        }
    }
}

/// Closing of a fixed-arity frame once all its slots were read.
pub open spec fn tuple_close(ts: Seq<Token>, expected: Expected) -> Result<Seq<Token>, CodecError> {
    if ts.len() == 0 {
        Err(CodecError::UnexpectedEnd)
    } else if ts[0] == Token::End {
        Ok(ts.skip(1))
    } else {
        Err(CodecError::TrailingElements { expected })
    }
}

/// Decoding of slot `index` of a fixed-arity frame: a closed frame there means
/// the slot is missing.
pub open spec fn slot_decoding<S: SerializeSeed>(
    seed: S,
    ts: Seq<Token>,
    index: usize,
    expected: Expected,
) -> Result<(S::Model, Seq<Token>), CodecError> {
    if ts.len() == 0 {
        Err(CodecError::UnexpectedEnd)
    } else if ts[0] == Token::End {
        Err(CodecError::InvalidLength { index, expected })
    } else {
        seed.decoding(ts)
    }
}

/// A slot that holds an encoding decodes to it, whatever follows.
pub proof fn lemma_slot_round_trip<S: SerializeSeed>(
    seed: S,
    m: S::Model,
    rest: Seq<Token>,
    index: usize,
    expected: Expected,
)
    ensures
        slot_decoding(seed, seed.encoding(m) + rest, index, expected) == Ok::<
            (S::Model, Seq<Token>),
            CodecError,
        >((m, rest)),
{
    seed.lemma_round_trip(m, rest);
    assert((seed.encoding(m) + rest)[0] == seed.encoding(m)[0]);
}

/// Reads the token that opens a tuple frame at `pos`.
pub fn open_tuple(ts: &Vec<Token>, pos: usize, expected: Expected) -> (r: Result<usize, CodecError>)
    requires
        pos <= ts@.len(),
    ensures
        match r {
            Ok(p) => p == pos + 1 && tuple_open(ts@.skip(pos as int), expected) == Ok::<
                Seq<Token>,
                CodecError,
            >(ts@.skip(p as int)),
            Err(e) => tuple_open(ts@.skip(pos as int), expected) == Err::<Seq<Token>, CodecError>(e),
        },
{
    if pos == ts.len() {
        return Err(CodecError::UnexpectedEnd);
    }
    assert(ts@.skip(pos as int)[0] == ts@[pos as int]);
    match ts[pos] {
        Token::TupleStart(_) => {
            assert(ts@.skip(pos as int).skip(1) =~= ts@.skip(pos + 1));
            Ok(pos + 1)
        },
        _ => Err(CodecError::InvalidType { expected }),
    }
}

/// Reads the token that closes a fixed-arity frame at `pos`.
pub fn close_tuple(ts: &Vec<Token>, pos: usize, expected: Expected) -> (r: Result<usize, CodecError>)
    requires
        pos <= ts@.len(),
    ensures
        match r {
            Ok(p) => p == pos + 1 && tuple_close(ts@.skip(pos as int), expected) == Ok::<
                Seq<Token>,
                CodecError,
            >(ts@.skip(p as int)),
            Err(e) => tuple_close(ts@.skip(pos as int), expected) == Err::<Seq<Token>, CodecError>(e),
        },
{
    if pos == ts.len() {
        return Err(CodecError::UnexpectedEnd);
    }
    assert(ts@.skip(pos as int)[0] == ts@[pos as int]);
    match ts[pos] {
        Token::End => {
            assert(ts@.skip(pos as int).skip(1) =~= ts@.skip(pos + 1));
            Ok(pos + 1)
        },
        _ => Err(CodecError::TrailingElements { expected }),
    }
}

/// Reads slot `index` of a fixed-arity frame at `pos` with `seed`.
pub fn read_slot<S: SerializeSeed>(
    seed: &S,
    ts: &Vec<Token>,
    pos: usize,
    index: usize,
    expected: Expected,
) -> (r: Result<(S::Value, usize), CodecError>)
    requires
        pos <= ts@.len(),
    ensures
        match r {
            Ok((v, p)) => pos < p <= ts@.len() && slot_decoding(
                *seed,
                ts@.skip(pos as int),
                index,
                expected,
            ) == Ok::<(S::Model, Seq<Token>), CodecError>((S::model(v), ts@.skip(p as int))),
            Err(e) => slot_decoding(*seed, ts@.skip(pos as int), index, expected) == Err::<
                (S::Model, Seq<Token>),
                CodecError,
            >(e),
        },
{
    if pos == ts.len() {
        return Err(CodecError::UnexpectedEnd);
    }
    assert(ts@.skip(pos as int)[0] == ts@[pos as int]);
    if let Token::End = ts[pos] {
        return Err(CodecError::InvalidLength { index, expected });
    }
    seed.deserialize(ts, pos)
}

} // verus!
