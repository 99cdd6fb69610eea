use vstd::prelude::*;
use crate::frame::{
    close_tuple, lemma_slot_round_trip, open_tuple, read_slot, slot_decoding, tuple_close,
    tuple_open,
};
use crate::seed::{SerializeSeed, ValueWithSeed};
use crate::token::{CodecError, Expected, Token};

verus! {

/// Seed for a 4-tuple: slot `i` with seed `i`, in a tuple frame of arity 4.
#[derive(Debug, Clone, Copy)]
pub struct Tuple4Serde<T1, T2, T3, T4>(pub T1, pub T2, pub T3, pub T4);

impl<
    T1: SerializeSeed,
    T2: SerializeSeed,
    T3: SerializeSeed,
    T4: SerializeSeed,
> SerializeSeed for Tuple4Serde<T1, T2, T3, T4> {
    type Value = (T1::Value, T2::Value, T3::Value, T4::Value);

    type Model = (T1::Model, T2::Model, T3::Model, T4::Model);

    open spec fn model(v: (T1::Value, T2::Value, T3::Value, T4::Value)) -> (
        T1::Model,
        T2::Model,
        T3::Model,
        T4::Model,
    ) {
        (T1::model(v.0), T2::model(v.1), T3::model(v.2), T4::model(v.3))
    }

    open spec fn encoding(&self, m: (T1::Model, T2::Model, T3::Model, T4::Model)) -> Seq<Token> {
        seq![Token::TupleStart(4)] + self.0.encoding(m.0) + self.1.encoding(m.1) + self.2.encoding(
            m.2,
        ) + self.3.encoding(m.3) + seq![Token::End]
    }

    open spec fn decoding(&self, ts: Seq<Token>) -> Result<
        ((T1::Model, T2::Model, T3::Model, T4::Model), Seq<Token>),
        CodecError,
    > {
        match tuple_open(ts, Expected::Tuple4) {
            Err(e) => Err(e),
            Ok(r0) => match slot_decoding(self.0, r0, 0, Expected::Tuple4) {
                Err(e) => Err(e),
                Ok((t1, r1)) => match slot_decoding(self.1, r1, 1, Expected::Tuple4) {
                    Err(e) => Err(e),
                    Ok((t2, r2)) => match slot_decoding(self.2, r2, 2, Expected::Tuple4) {
                        Err(e) => Err(e),
                        Ok((t3, r3)) => match slot_decoding(self.3, r3, 3, Expected::Tuple4) {
                            Err(e) => Err(e),
                            Ok((t4, r4)) => match tuple_close(r4, Expected::Tuple4) {
                                Err(e) => Err(e),
                                Ok(r5) => Ok(((t1, t2, t3, t4), r5)),
                            },
                        },
                    },
                },
            },
        }
    }

    proof fn lemma_round_trip(&self, m: (T1::Model, T2::Model, T3::Model, T4::Model), rest: Seq<Token>) {
        let e0 = self.0.encoding(m.0);
        let e1 = self.1.encoding(m.1);
        let e2 = self.2.encoding(m.2);
        let e3 = self.3.encoding(m.3);
        let end = seq![Token::End];
        let ts = self.encoding(m) + rest;
        assert(ts.skip(1) =~= e0 + (e1 + (e2 + (e3 + (end + rest)))));
        lemma_slot_round_trip(self.0, m.0, e1 + (e2 + (e3 + (end + rest))), 0, Expected::Tuple4);
        lemma_slot_round_trip(self.1, m.1, e2 + (e3 + (end + rest)), 1, Expected::Tuple4);
        lemma_slot_round_trip(self.2, m.2, e3 + (end + rest), 2, Expected::Tuple4);
        lemma_slot_round_trip(self.3, m.3, end + rest, 3, Expected::Tuple4);
        assert((end + rest).skip(1) =~= rest);
    }

    fn serialize(&self, value: &(T1::Value, T2::Value, T3::Value, T4::Value), out: &mut Vec<Token>) {
        out.push(Token::TupleStart(4));
        ValueWithSeed(&value.0, &self.0).serialize(out);
        ValueWithSeed(&value.1, &self.1).serialize(out);
        ValueWithSeed(&value.2, &self.2).serialize(out);
        ValueWithSeed(&value.3, &self.3).serialize(out);
        out.push(Token::End);
        proof {
            let m = Self::model(*value);
            assert(final(out)@ =~= old(out)@ + self.encoding(m));
        }
    }

    fn deserialize(&self, ts: &Vec<Token>, pos: usize) -> (r: Result<
        ((T1::Value, T2::Value, T3::Value, T4::Value), usize),
        CodecError,
    >) {
        let p0 = open_tuple(ts, pos, Expected::Tuple4)?;
        let (t1, p1) = read_slot(&self.0, ts, p0, 0, Expected::Tuple4)?;
        let (t2, p2) = read_slot(&self.1, ts, p1, 1, Expected::Tuple4)?;
        let (t3, p3) = read_slot(&self.2, ts, p2, 2, Expected::Tuple4)?;
        let (t4, p4) = read_slot(&self.3, ts, p3, 3, Expected::Tuple4)?;
        let p5 = close_tuple(ts, p4, Expected::Tuple4)?;
        Ok(((t1, t2, t3, t4), p5))
    }
}

} // verus!
