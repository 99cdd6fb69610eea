use vstd::prelude::*;
use crate::seed::{SerializeSeed, ValueWithSeed};
use crate::token::{CodecError, Expected, Token};

verus! {

/// Seed for a variable-length sequence whose elements all share one seed.
#[derive(Debug, Clone, Copy)]
pub struct VecSerde<T>(pub T);

/// The element encodings of `ms`, one after another.
pub open spec fn elements_encoding<T: SerializeSeed>(seed: T, ms: Seq<T::Model>) -> Seq<Token>
    decreases ms.len(),
{
    if ms.len() == 0 {
        Seq::empty()
    } else {
        seed.encoding(ms[0]) + elements_encoding(seed, ms.skip(1))
    }
}

/// Decoding of the elements of an open sequence frame up to the `End` that
/// closes it: the element models in order and what follows the `End`.
pub open spec fn elements_decoding<T: SerializeSeed>(seed: T, ts: Seq<Token>) -> Result<
    (Seq<T::Model>, Seq<Token>),
    CodecError,
>
    decreases ts.len(),
{
    if ts.len() == 0 {
        Err(CodecError::UnexpectedEnd)
    } else if ts[0] == Token::End {
        Ok((Seq::empty(), ts.skip(1)))
    } else {
        match seed.decoding(ts) {
            Err(e) => Err(e),
            Ok((m, r)) => if r.len() < ts.len() {
                match elements_decoding(seed, r) {
                    Err(e) => Err(e),
                    Ok((ms, r2)) => Ok((seq![m] + ms, r2)),
                }
            } else {
                // an element decoding always consumes tokens
                Err(CodecError::UnexpectedEnd)
            },
        }
    }
}

/// `res` with `ms` put in front of the elements it decoded.
pub open spec fn prepend_models<M>(ms: Seq<M>, res: Result<(Seq<M>, Seq<Token>), CodecError>) -> Result<
    (Seq<M>, Seq<Token>),
    CodecError,
> {
    match res {
        Ok((xs, r)) => Ok((ms + xs, r)),
        Err(e) => Err(e),
    }
}

/// Encoding one more element appends its encoding.
pub proof fn lemma_elements_encoding_push<T: SerializeSeed>(seed: T, ms: Seq<T::Model>, m: T::Model)
    ensures
        elements_encoding(seed, ms.push(m)) == elements_encoding(seed, ms) + seed.encoding(m),
    decreases ms.len(),
{
    if ms.len() == 0 {
        assert(ms.push(m).skip(1) =~= Seq::<T::Model>::empty());
        assert(elements_encoding(seed, ms.push(m).skip(1)) == Seq::<Token>::empty());
        assert(elements_encoding(seed, ms.push(m)) =~= seed.encoding(m));
    } else {
        assert(ms.push(m).skip(1) =~= ms.skip(1).push(m));
        lemma_elements_encoding_push(seed, ms.skip(1), m);
        assert(elements_encoding(seed, ms.push(m)) =~= elements_encoding(seed, ms) + seed.encoding(
            m,
        ));
    }
}

/// The element encodings of `ms`, closed by `End`, decode back to `ms`,
/// whatever follows.
pub proof fn lemma_elements_round_trip<T: SerializeSeed>(seed: T, ms: Seq<T::Model>, rest: Seq<Token>)
    ensures
        elements_decoding(seed, elements_encoding(seed, ms) + seq![Token::End] + rest) == Ok::<
            (Seq<T::Model>, Seq<Token>),
            CodecError,
        >((ms, rest)),
    decreases ms.len(),
{
    let end = seq![Token::End];
    let ts = elements_encoding(seed, ms) + end + rest;
    if ms.len() == 0 {
        assert(elements_encoding(seed, ms) == Seq::<Token>::empty());
        assert(ts =~= end + rest);
        assert(ts.skip(1) =~= rest);
        assert(ms =~= Seq::<T::Model>::empty());
    } else {
        let tail = elements_encoding(seed, ms.skip(1)) + end + rest;
        assert(ts =~= seed.encoding(ms[0]) + tail);
        seed.lemma_round_trip(ms[0], tail);
        assert(ts[0] == seed.encoding(ms[0])[0]);
        assert(tail.len() < ts.len());
        lemma_elements_round_trip(seed, ms.skip(1), rest);
        assert(seq![ms[0]] + ms.skip(1) =~= ms);
    }
}

impl<T: SerializeSeed> SerializeSeed for VecSerde<T> {
    type Value = Vec<T::Value>;

    type Model = Seq<T::Model>;

    open spec fn model(v: Vec<T::Value>) -> Seq<T::Model> {
        v@.map_values(|x: T::Value| T::model(x))
    }

    open spec fn encoding(&self, m: Seq<T::Model>) -> Seq<Token> {
        seq![Token::SeqStart(m.len() as usize)] + elements_encoding(self.0, m) + seq![Token::End]
    }

    open spec fn decoding(&self, ts: Seq<Token>) -> Result<(Seq<T::Model>, Seq<Token>), CodecError> {
        if ts.len() == 0 {
            Err(CodecError::UnexpectedEnd)
        } else {
            match ts[0] {
                Token::SeqStart(_) => elements_decoding(self.0, ts.skip(1)),
                _ => Err(CodecError::InvalidType { expected: Expected::Vector }),
            }
        }
    }

    proof fn lemma_round_trip(&self, m: Seq<T::Model>, rest: Seq<Token>) {
        let ts = self.encoding(m) + rest;
        assert(ts.skip(1) =~= elements_encoding(self.0, m) + seq![Token::End] + rest);
        lemma_elements_round_trip(self.0, m, rest);
    }

    fn serialize(&self, value: &Vec<T::Value>, out: &mut Vec<Token>) {
        let ghost ms = Self::model(*value);
        let ghost start = out@.push(Token::SeqStart(value@.len() as usize));
        out.push(Token::SeqStart(value.len()));
        let mut i: usize = 0;
        while i < value.len()
            invariant
                i <= value@.len(),
                ms == Self::model(*value),
                out@ == start + elements_encoding(self.0, ms.take(i as int)),
            decreases value@.len() - i,
        {
            ValueWithSeed(&value[i], &self.0).serialize(out);
            proof {
                lemma_elements_encoding_push(self.0, ms.take(i as int), ms[i as int]);
                assert(ms.take(i as int).push(ms[i as int]) =~= ms.take(i + 1));
            }
            i = i + 1;
        }
        out.push(Token::End);
        proof {
            assert(ms.take(i as int) =~= ms);
            assert(final(out)@ =~= old(out)@ + self.encoding(ms));
        }
    }

    fn deserialize(&self, ts: &Vec<Token>, pos: usize) -> (r: Result<(Vec<T::Value>, usize), CodecError>) {
        if pos == ts.len() {
            return Err(CodecError::UnexpectedEnd);
        }
        assert(ts@.skip(pos as int)[0] == ts@[pos as int]);
        let hint = match ts[pos] {
            Token::SeqStart(n) => n,
            _ => {
                return Err(CodecError::InvalidType { expected: Expected::Vector });
            },
        };
        let mut p = pos + 1;
        assert(ts@.skip(pos as int).skip(1) =~= ts@.skip(p as int));
        // every element takes at least one token, so no more than the tokens
        // left can follow
        let room = ts.len() - p;
        let mut items: Vec<T::Value> = Vec::with_capacity(if hint <= room { hint } else { room });
        let ghost first = ts@.skip(p as int);
        loop
            invariant
                pos < p <= ts@.len(),
                first == ts@.skip(pos as int + 1),
                self.decoding(ts@.skip(pos as int)) == elements_decoding(self.0, first),
                elements_decoding(self.0, first) == prepend_models(
                    Self::model(items),
                    elements_decoding(self.0, ts@.skip(p as int)),
                ),
            decreases ts@.len() - p,
        {
            if p == ts.len() {
                proof {
                    assert(ts@.skip(p as int).len() == 0);
                }
                return Err(CodecError::UnexpectedEnd);
            }
            assert(ts@.skip(p as int)[0] == ts@[p as int]);
            if let Token::End = ts[p] {
                proof {
                    assert(ts@.skip(p as int).skip(1) =~= ts@.skip(p + 1));
                    assert(Self::model(items) + Seq::<T::Model>::empty() =~= Self::model(items));
                }
                return Ok((items, p + 1));
            }
            let ghost before = Self::model(items);
            let (x, q) = self.0.deserialize(ts, p)?;
            items.push(x);
            proof {
                let rest_res = elements_decoding(self.0, ts@.skip(q as int));
                assert(Self::model(items) =~= before.push(T::model(x)));
                assert(before + (seq![T::model(x)] + Seq::<T::Model>::empty()) =~= before.push(T::model(x)) + Seq::<T::Model>::empty());
                match rest_res {
                    Ok((xs, r2)) => {
                        assert(before + (seq![T::model(x)] + xs) =~= before.push(T::model(x)) + xs);
                    },
                    Err(_) => {},
                }
            }
            p = q;
        }
    }
}

} // verus!
