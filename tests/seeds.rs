use phantom_type::PhantomType;
use serde_serialize_seed::{
    from_tokens, to_tokens, CodecError, ComplexType, ComplexTypeSerde, Expected, PairSerde,
    SerializeSeed, StatelessSerde, Token, Tuple4Serde, ValueWithSeed, VecSerde,
};

fn keyed(xor: u8) -> ComplexTypeSerde {
    ComplexTypeSerde { xor }
}

#[test]
fn keyed_byte_scenario() {
    let seed = keyed(0x34);
    let tokens = to_tokens(&seed, &ComplexType(10));
    assert_eq!(tokens, vec![Token::Unsigned(0x3E)]);
    let back = from_tokens(&seed, &vec![Token::Unsigned(0x3E)]).unwrap();
    assert_eq!(back, ComplexType(10));
}

#[test]
fn keyed_sequence_scenario() {
    let seed = VecSerde(keyed(0xFF));
    let values = vec![ComplexType(1), ComplexType(2), ComplexType(3)];
    let tokens = to_tokens(&seed, &values);
    assert_eq!(
        tokens,
        vec![
            Token::SeqStart(3),
            Token::Unsigned(0xFE),
            Token::Unsigned(0xFD),
            Token::Unsigned(0xFC),
            Token::End,
        ]
    );
    let back = from_tokens(&seed, &tokens).unwrap();
    assert_eq!(back, vec![ComplexType(1), ComplexType(2), ComplexType(3)]);
}

#[test]
fn keyed_round_trip_every_byte() {
    for key in [0u8, 1, 0x34, 0x80, 0xFF] {
        for b in 0..=255u8 {
            let seed = keyed(key);
            let tokens = to_tokens(&seed, &ComplexType(b));
            assert_eq!(from_tokens(&seed, &tokens), Ok(ComplexType(b)));
        }
    }
}

#[test]
fn keyed_context_sensitivity_example() {
    let under_a = to_tokens(&keyed(0x0F), &ComplexType(0x42));
    let under_b = to_tokens(&keyed(0xF0), &ComplexType(0x42));
    assert_ne!(under_a, under_b);
    let wrong = from_tokens(&keyed(0xF0), &under_a).unwrap();
    assert_ne!(wrong, ComplexType(0x42));
    assert_eq!(wrong, ComplexType(0x42 ^ 0x0F ^ 0xF0));
}

#[test]
fn keyed_rejects_wide_scalar() {
    let r = from_tokens(&keyed(1), &vec![Token::Unsigned(256)]);
    assert_eq!(r, Err(CodecError::InvalidValue { value: 256, expected: Expected::U8 }));
}

#[test]
fn keyed_rejects_frame_token() {
    let r = from_tokens(&keyed(1), &vec![Token::TupleStart(1), Token::End]);
    assert_eq!(r, Err(CodecError::InvalidType { expected: Expected::U8 }));
}

#[test]
fn empty_input_is_unexpected_end() {
    assert_eq!(from_tokens(&keyed(1), &vec![]), Err(CodecError::UnexpectedEnd));
}

#[test]
fn leftover_tokens_are_rejected() {
    let r = from_tokens(&keyed(1), &vec![Token::Unsigned(3), Token::Unsigned(4)]);
    assert_eq!(r, Err(CodecError::TrailingTokens));
}

#[test]
fn stateless_round_trip() {
    let seed: StatelessSerde<u32> = StatelessSerde::new();
    let tokens = to_tokens(&seed, &70_000u32);
    assert_eq!(tokens, vec![Token::Unsigned(70_000)]);
    assert_eq!(from_tokens(&seed, &tokens), Ok(70_000u32));
    let wide = StatelessSerde::<u64>(PhantomType::new());
    let tokens = to_tokens(&wide, &u64::MAX);
    assert_eq!(from_tokens(&wide, &tokens), Ok(u64::MAX));
}

#[test]
fn stateless_range_limits() {
    let small: StatelessSerde<u16> = StatelessSerde::new();
    assert_eq!(
        from_tokens(&small, &vec![Token::Unsigned(70_000)]),
        Err(CodecError::InvalidValue { value: 70_000, expected: Expected::U16 })
    );
    let byte: StatelessSerde<u8> = StatelessSerde::new();
    assert_eq!(
        from_tokens(&byte, &vec![Token::End]),
        Err(CodecError::InvalidType { expected: Expected::U8 })
    );
}

#[test]
fn pair_round_trip_and_layout() {
    let seed = PairSerde(keyed(0x10), StatelessSerde::<u8>::new());
    let value = (ComplexType(1), 2u8);
    let tokens = to_tokens(&seed, &value);
    assert_eq!(
        tokens,
        vec![Token::TupleStart(2), Token::Unsigned(0x11), Token::Unsigned(2), Token::End]
    );
    assert_eq!(from_tokens(&seed, &tokens), Ok((ComplexType(1), 2u8)));
}

#[test]
fn pair_position_fidelity_example() {
    let seed = PairSerde(StatelessSerde::<u8>::new(), StatelessSerde::<u8>::new());
    let tokens = to_tokens(&seed, &(7u8, 9u8));
    assert_eq!(tokens[1], Token::Unsigned(7));
    assert_eq!(tokens[2], Token::Unsigned(9));
    let swapped = vec![Token::TupleStart(2), tokens[2], tokens[1], Token::End];
    let decoded = from_tokens(&seed, &swapped).unwrap();
    assert_eq!(decoded, (9u8, 7u8));
    assert_ne!(decoded, (7u8, 9u8));
}

#[test]
fn pair_missing_slots() {
    let seed = PairSerde(keyed(0), keyed(0));
    assert_eq!(
        from_tokens(&seed, &vec![Token::TupleStart(2), Token::End]),
        Err(CodecError::InvalidLength { index: 0, expected: Expected::Pair })
    );
    assert_eq!(
        from_tokens(&seed, &vec![Token::TupleStart(2), Token::Unsigned(1), Token::End]),
        Err(CodecError::InvalidLength { index: 1, expected: Expected::Pair })
    );
    assert!(from_tokens(
        &seed,
        &vec![Token::TupleStart(2), Token::Unsigned(1), Token::Unsigned(2), Token::End]
    )
    .is_ok());
}

#[test]
fn pair_frame_errors() {
    let seed = PairSerde(keyed(0), keyed(0));
    assert_eq!(
        from_tokens(&seed, &vec![Token::SeqStart(2), Token::End]),
        Err(CodecError::InvalidType { expected: Expected::Pair })
    );
    assert_eq!(
        from_tokens(
            &seed,
            &vec![
                Token::TupleStart(3),
                Token::Unsigned(1),
                Token::Unsigned(2),
                Token::Unsigned(3),
                Token::End,
            ]
        ),
        Err(CodecError::TrailingElements { expected: Expected::Pair })
    );
    assert_eq!(
        from_tokens(&seed, &vec![Token::TupleStart(2), Token::Unsigned(1)]),
        Err(CodecError::UnexpectedEnd)
    );
    assert_eq!(
        from_tokens(&seed, &vec![Token::TupleStart(2), Token::Unsigned(300), Token::End]),
        Err(CodecError::InvalidValue { value: 300, expected: Expected::U8 })
    );
}

#[test]
fn tuple4_round_trip_and_arity() {
    let seed = Tuple4Serde(
        keyed(1),
        StatelessSerde::<u16>::new(),
        keyed(2),
        StatelessSerde::<u64>::new(),
    );
    let value = (ComplexType(5), 600u16, ComplexType(6), 1u64 << 40);
    let tokens = to_tokens(&seed, &value);
    assert_eq!(tokens.len(), 6);
    assert_eq!(tokens[0], Token::TupleStart(4));
    assert_eq!(tokens[5], Token::End);
    assert_eq!(from_tokens(&seed, &tokens), Ok(value));

    let short = vec![Token::TupleStart(4), tokens[1], tokens[2], Token::End];
    assert_eq!(
        from_tokens(&seed, &short),
        Err(CodecError::InvalidLength { index: 2, expected: Expected::Tuple4 })
    );
    let three = vec![Token::TupleStart(4), tokens[1], tokens[2], tokens[3], Token::End];
    assert_eq!(
        from_tokens(&seed, &three),
        Err(CodecError::InvalidLength { index: 3, expected: Expected::Tuple4 })
    );
}

#[test]
fn sequence_empty_and_order() {
    let seed = VecSerde(StatelessSerde::<u8>::new());
    let empty: Vec<u8> = Vec::new();
    let tokens = to_tokens(&seed, &empty);
    assert_eq!(tokens, vec![Token::SeqStart(0), Token::End]);
    assert_eq!(from_tokens(&seed, &tokens), Ok(Vec::new()));

    let abc = vec![b'a', b'b', b'c'];
    let tokens = to_tokens(&seed, &abc);
    let back = from_tokens(&seed, &tokens).unwrap();
    assert_eq!(back.len(), 3);
    assert_eq!(back, vec![b'a', b'b', b'c']);
}

#[test]
fn sequence_ignores_wrong_length_hint() {
    let seed = VecSerde(StatelessSerde::<u8>::new());
    let tokens = vec![Token::SeqStart(usize::MAX), Token::Unsigned(4), Token::End];
    assert_eq!(from_tokens(&seed, &tokens), Ok(vec![4u8]));
}

#[test]
fn sequence_element_error_aborts() {
    let seed = VecSerde(keyed(0));
    let tokens = vec![Token::SeqStart(2), Token::Unsigned(1), Token::Unsigned(999), Token::End];
    assert_eq!(
        from_tokens(&seed, &tokens),
        Err(CodecError::InvalidValue { value: 999, expected: Expected::U8 })
    );
    assert_eq!(
        from_tokens(&seed, &vec![Token::SeqStart(1), Token::Unsigned(1)]),
        Err(CodecError::UnexpectedEnd)
    );
    assert_eq!(
        from_tokens(&seed, &vec![Token::TupleStart(1), Token::End]),
        Err(CodecError::InvalidType { expected: Expected::Vector })
    );
}

#[test]
fn nested_composites_round_trip() {
    let seed = VecSerde(PairSerde(keyed(0xAA), VecSerde(StatelessSerde::<u32>::new())));
    let value = vec![
        (ComplexType(1), vec![10u32, 20]),
        (ComplexType(2), vec![]),
        (ComplexType(3), vec![u32::MAX]),
    ];
    let tokens = to_tokens(&seed, &value);
    let back = from_tokens(&seed, &tokens).unwrap();
    assert_eq!(back, value);
}

#[test]
fn borrowed_seed_and_value_with_seed() {
    let seed = keyed(0x34);
    let by_ref = &seed;
    let mut out = Vec::new();
    ValueWithSeed(&ComplexType(10), by_ref).serialize(&mut out);
    assert_eq!(out, vec![Token::Unsigned(0x3E)]);
    let mut more = vec![Token::End];
    by_ref.serialize(&ComplexType(0), &mut more);
    assert_eq!(more, vec![Token::End, Token::Unsigned(0x34)]);
    assert_eq!(by_ref.deserialize(&more, 1), Ok((ComplexType(0), 2)));
}

#[test]
fn expected_labels() {
    assert_eq!(Expected::Pair.label(), "pair");
    assert_eq!(Expected::Tuple4.label(), "tuple 4");
    assert_eq!(Expected::Vector.label(), "vector");
    assert_eq!(Expected::U8.label(), "u8");
}
