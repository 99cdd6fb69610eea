use vstd::prelude::*;

verus! {

/// One unit of the host codec's data model: an unsigned scalar, the start of a
/// fixed-arity tuple frame or of a sequence frame, or the end of the frame that
/// is open.
///
/// A value is written as a flat run of tokens; frames nest by `TupleStart` /
/// `SeqStart` ... `End`.
#[derive(Clone, Copy, Debug, PartialEq, Eq, Structural)]
pub enum Token {
    /// An unsigned integer scalar.
    Unsigned(u64),
    /// Opens a tuple frame; the number is the arity the encoder announced.
    TupleStart(usize),
    /// Opens a sequence frame; the number is the element count the encoder
    /// announced, which a decoder may use as a size hint.
    SeqStart(usize),
    /// Closes the innermost open frame.
    End,
}

/// What a decoder was expecting when it failed.
#[derive(Clone, Copy, Debug, PartialEq, Eq, Structural)]
pub enum Expected {
    U8,
    U16,
    U32,
    U64,
    Pair,
    Tuple4,
    Vector,
}

impl Expected {
    /// The name of the expected shape, as text.
    pub open spec fn spec_label(self) -> Seq<char> {
        match self {
            Expected::U8 => "u8"@,
            Expected::U16 => "u16"@,
            Expected::U32 => "u32"@,
            Expected::U64 => "u64"@,
            Expected::Pair => "pair"@,
            Expected::Tuple4 => "tuple 4"@,
            Expected::Vector => "vector"@,
        }
    }

    /// The human-readable name of the expected shape.
    pub fn label(&self) -> (r: &'static str)
        ensures
            r@ == self.spec_label(),
    {
        match self {
            Expected::U8 => "u8",
            Expected::U16 => "u16",
            Expected::U32 => "u32",
            Expected::U64 => "u64",
            Expected::Pair => "pair",
            Expected::Tuple4 => "tuple 4",
            Expected::Vector => "vector",
        }
    }
}

/// The ways an encoding can fail to decode.
#[derive(Clone, Copy, Debug, PartialEq, Eq, Structural)]
pub enum CodecError {
    /// A fixed-arity frame closed before slot `index` (zero-based) was read.
    InvalidLength { index: usize, expected: Expected },
    /// A scalar lies outside the range of the value being decoded.
    InvalidValue { value: u64, expected: Expected },
    /// A token of another kind than the one the decoder needed.
    InvalidType { expected: Expected },
    /// A fixed-arity frame holds more elements than its arity.
    TrailingElements { expected: Expected },
    /// The tokens ran out inside a value.
    UnexpectedEnd,
    /// Tokens remain after the top-level value.
    TrailingTokens,
}

/// Decoding of one unsigned scalar no greater than `max`: the value and what
/// follows it.
pub open spec fn unsigned_decoding(ts: Seq<Token>, max: u64, expected: Expected) -> Result<
    (u64, Seq<Token>),
    CodecError,
> {
    if ts.len() == 0 {
        Err(CodecError::UnexpectedEnd)
    } else {
        match ts[0] {
            Token::Unsigned(x) => if x <= max {
                Ok((x, ts.skip(1)))
            } else {
                Err(CodecError::InvalidValue { value: x, expected })
            },
            _ => Err(CodecError::InvalidType { expected }),
        }
    }
}

/// Reads the unsigned scalar at `pos`, which may be no greater than `max`.
pub fn decode_unsigned(ts: &Vec<Token>, pos: usize, max: u64, expected: Expected) -> (r: Result<
    (u64, usize),
    CodecError,
>)
    requires
        pos <= ts@.len(),
    ensures
        match r {
            Ok((x, p)) => p == pos + 1 && unsigned_decoding(ts@.skip(pos as int), max, expected)
                == Ok::<(u64, Seq<Token>), CodecError>((x, ts@.skip(p as int))),
            Err(e) => unsigned_decoding(ts@.skip(pos as int), max, expected) == Err::<
                (u64, Seq<Token>),
                CodecError,
            >(e),
        },
{
    if pos == ts.len() {
        return Err(CodecError::UnexpectedEnd);
    }
    assert(ts@.skip(pos as int)[0] == ts@[pos as int]);
    match ts[pos] {
        Token::Unsigned(x) => {
            if x <= max {
                assert(ts@.skip(pos as int).skip(1) =~= ts@.skip(pos + 1));
                Ok((x, pos + 1))
            } else {
                Err(CodecError::InvalidValue { value: x, expected })
            }
        },
        _ => Err(CodecError::InvalidType { expected }),
    }
}

} // verus!
