use vstd::prelude::*;
use crate::frame::lemma_slot_round_trip;
use crate::keyed::ComplexTypeSerde;
use crate::pair::PairSerde;
use crate::seed::{whole_decoding, SerializeSeed};
use crate::sequence::VecSerde;
use crate::token::{CodecError, Expected, Token};
use crate::tuple4::Tuple4Serde;

verus! {

/// Every seed, leaf or composite, decodes the encoding of a value back to a
/// value observably equal to it.
pub proof fn round_trip<S: SerializeSeed>(seed: S, v: S::Value)
    ensures
        whole_decoding(seed, seed.encoding(S::model(v))) == Ok::<S::Model, CodecError>(S::model(v)),
{
    let m = S::model(v);
    seed.lemma_round_trip(m, Seq::empty());
    assert(seed.encoding(m) + Seq::<Token>::empty() =~= seed.encoding(m));
}

/// Under two different keys one payload has two different encodings, and
/// decoding one of them under the other key gives a different payload.
pub proof fn keyed_context_sensitivity(payload: u8, key: u8, other: u8)
    requires
        key != other,
    ensures
        (ComplexTypeSerde { xor: key }).encoding(payload) != (ComplexTypeSerde { xor: other }).encoding(payload),
        whole_decoding((ComplexTypeSerde { xor: other }), (ComplexTypeSerde { xor: key }).encoding(payload))
            != Ok::<u8, CodecError>(payload),
        whole_decoding((ComplexTypeSerde { xor: other }), (ComplexTypeSerde { xor: key }).encoding(payload))
            is Ok,
{
    let right = ComplexTypeSerde { xor: key };
    let wrong = ComplexTypeSerde { xor: other };
    assert(key != other ==> (payload ^ key) != (payload ^ other)) by (bit_vector);
    assert(((payload ^ key) as u64) <= 255) by (bit_vector);
    assert(key != other ==> (((payload ^ key) as u64) as u8) ^ other != payload) by (bit_vector);
    assert(right.encoding(payload)[0] != wrong.encoding(payload)[0]);
    assert(right.encoding(payload).skip(1) =~= Seq::<Token>::empty());
}

/// A pair frame that closes before a slot fails naming that slot; with both
/// slots it decodes.
pub proof fn pair_arity<U: SerializeSeed, V: SerializeSeed>(
    seed: PairSerde<U, V>,
    m: (U::Model, V::Model),
    announced: usize,
    rest: Seq<Token>,
)
    ensures
        seed.decoding(seq![Token::TupleStart(announced), Token::End] + rest) == Err::<
            ((U::Model, V::Model), Seq<Token>),
            CodecError,
        >(CodecError::InvalidLength { index: 0, expected: Expected::Pair }),
        seed.decoding(
            seq![Token::TupleStart(announced)] + seed.0.encoding(m.0) + seq![Token::End] + rest,
        ) == Err::<((U::Model, V::Model), Seq<Token>), CodecError>(
            CodecError::InvalidLength { index: 1, expected: Expected::Pair },
        ),
        seed.decoding(
            seq![Token::TupleStart(announced)] + seed.0.encoding(m.0) + seed.1.encoding(m.1) + seq![
                Token::End,
            ] + rest,
        ) == Ok::<((U::Model, V::Model), Seq<Token>), CodecError>((m, rest)),
{
    let open = seq![Token::TupleStart(announced)];
    let end = seq![Token::End];
    let e0 = seed.0.encoding(m.0);
    let e1 = seed.1.encoding(m.1);
    assert((open + end + rest).skip(1) =~= end + rest);
    assert((open + e0 + end + rest).skip(1) =~= e0 + (end + rest));
    lemma_slot_round_trip(seed.0, m.0, end + rest, 0, Expected::Pair);
    assert((open + e0 + e1 + end + rest).skip(1) =~= e0 + (e1 + (end + rest)));
    lemma_slot_round_trip(seed.0, m.0, e1 + (end + rest), 0, Expected::Pair);
    lemma_slot_round_trip(seed.1, m.1, end + rest, 1, Expected::Pair);
    assert((end + rest).skip(1) =~= rest);
}

/// A 4-tuple frame that closes before a slot fails naming the first missing
/// slot; with all four slots it decodes.
pub proof fn tuple4_arity<T1: SerializeSeed, T2: SerializeSeed, T3: SerializeSeed, T4: SerializeSeed>(
    seed: Tuple4Serde<T1, T2, T3, T4>,
    m: (T1::Model, T2::Model, T3::Model, T4::Model),
    announced: usize,
    rest: Seq<Token>,
)
    ensures
        seed.decoding(seq![Token::TupleStart(announced), Token::End] + rest) == Err::<
            ((T1::Model, T2::Model, T3::Model, T4::Model), Seq<Token>),
            CodecError,
        >(CodecError::InvalidLength { index: 0, expected: Expected::Tuple4 }),
        seed.decoding(
            seq![Token::TupleStart(announced)] + seed.0.encoding(m.0) + seq![Token::End] + rest,
        ) == Err::<((T1::Model, T2::Model, T3::Model, T4::Model), Seq<Token>), CodecError>(
            CodecError::InvalidLength { index: 1, expected: Expected::Tuple4 },
        ),
        seed.decoding(
            seq![Token::TupleStart(announced)] + seed.0.encoding(m.0) + seed.1.encoding(m.1) + seq![
                Token::End,
            ] + rest,
        ) == Err::<((T1::Model, T2::Model, T3::Model, T4::Model), Seq<Token>), CodecError>(
            CodecError::InvalidLength { index: 2, expected: Expected::Tuple4 },
        ),
        seed.decoding(
            seq![Token::TupleStart(announced)] + seed.0.encoding(m.0) + seed.1.encoding(m.1)
                + seed.2.encoding(m.2) + seq![Token::End] + rest,
        ) == Err::<((T1::Model, T2::Model, T3::Model, T4::Model), Seq<Token>), CodecError>(
            CodecError::InvalidLength { index: 3, expected: Expected::Tuple4 },
        ),
        seed.decoding(
            seq![Token::TupleStart(announced)] + seed.0.encoding(m.0) + seed.1.encoding(m.1)
                + seed.2.encoding(m.2) + seed.3.encoding(m.3) + seq![Token::End] + rest,
        ) == Ok::<((T1::Model, T2::Model, T3::Model, T4::Model), Seq<Token>), CodecError>(
            (m, rest),
        ),
{
    let open = seq![Token::TupleStart(announced)];
    let end = seq![Token::End];
    let e0 = seed.0.encoding(m.0);
    let e1 = seed.1.encoding(m.1);
    let e2 = seed.2.encoding(m.2);
    let e3 = seed.3.encoding(m.3);
    let k = Expected::Tuple4;
    assert((open + end + rest).skip(1) =~= end + rest);

    assert((open + e0 + end + rest).skip(1) =~= e0 + (end + rest));
    lemma_slot_round_trip(seed.0, m.0, end + rest, 0, k);

    assert((open + e0 + e1 + end + rest).skip(1) =~= e0 + (e1 + (end + rest)));
    lemma_slot_round_trip(seed.0, m.0, e1 + (end + rest), 0, k);
    lemma_slot_round_trip(seed.1, m.1, end + rest, 1, k);

    assert((open + e0 + e1 + e2 + end + rest).skip(1) =~= e0 + (e1 + (e2 + (end + rest))));
    lemma_slot_round_trip(seed.0, m.0, e1 + (e2 + (end + rest)), 0, k);
    lemma_slot_round_trip(seed.1, m.1, e2 + (end + rest), 1, k);
    lemma_slot_round_trip(seed.2, m.2, end + rest, 2, k);

    assert((open + e0 + e1 + e2 + e3 + end + rest).skip(1) =~= e0 + (e1 + (e2 + (e3 + (end
        + rest)))));
    lemma_slot_round_trip(seed.0, m.0, e1 + (e2 + (e3 + (end + rest))), 0, k);
    lemma_slot_round_trip(seed.1, m.1, e2 + (e3 + (end + rest)), 1, k);
    lemma_slot_round_trip(seed.2, m.2, e3 + (end + rest), 2, k);
    lemma_slot_round_trip(seed.3, m.3, end + rest, 3, k);
    assert((end + rest).skip(1) =~= rest);
}

/// The empty sequence decodes to the empty sequence, and any sequence decodes
/// to the same elements in the same order, so its length is kept.
pub proof fn sequence_identity<T: SerializeSeed>(seed: VecSerde<T>, ms: Seq<T::Model>)
    ensures
        whole_decoding(seed, seed.encoding(Seq::empty())) == Ok::<Seq<T::Model>, CodecError>(
            Seq::empty(),
        ),
        whole_decoding(seed, seed.encoding(ms)) == Ok::<Seq<T::Model>, CodecError>(ms),
        match whole_decoding(seed, seed.encoding(ms)) {
            Ok(d) => d.len() == ms.len() && forall|i: int| 0 <= i < ms.len() ==> d[i] == ms[i],
            Err(_) => false,
        },
{
    seed.lemma_round_trip(Seq::empty(), Seq::empty());
    assert(seed.encoding(Seq::empty()) + Seq::<Token>::empty() =~= seed.encoding(Seq::empty()));
    seed.lemma_round_trip(ms, Seq::empty());
    assert(seed.encoding(ms) + Seq::<Token>::empty() =~= seed.encoding(ms));
}

/// A pair frame puts the first value in slot 0 and the second in slot 1: the
/// frame with the two slots swapped decodes, under the same seeds, to the
/// swapped pair, which differs from the encoded pair when the two values do.
pub proof fn pair_position_fidelity<S: SerializeSeed>(seed: S, u: S::Model, v: S::Model)
    requires
        u != v,
    ensures
        PairSerde(seed, seed).encoding((u, v)) == seq![Token::TupleStart(2)] + seed.encoding(u)
            + seed.encoding(v) + seq![Token::End],
        whole_decoding(PairSerde(seed, seed), PairSerde(seed, seed).encoding((u, v))) == Ok::<
            (S::Model, S::Model),
            CodecError,
        >((u, v)),
        whole_decoding(
            PairSerde(seed, seed),
            seq![Token::TupleStart(2)] + seed.encoding(v) + seed.encoding(u) + seq![Token::End],
        ) == Ok::<(S::Model, S::Model), CodecError>((v, u)),
        (v, u) != (u, v),
{
    let pair = PairSerde(seed, seed);
    pair.lemma_round_trip((u, v), Seq::empty());
    assert(pair.encoding((u, v)) + Seq::<Token>::empty() =~= pair.encoding((u, v)));
    pair.lemma_round_trip((v, u), Seq::empty());
    assert(pair.encoding((v, u)) + Seq::<Token>::empty() =~= pair.encoding((v, u)));
}

} // verus!
