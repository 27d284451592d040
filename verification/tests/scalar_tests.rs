use bls12_381_algebra::{AlgebraError, ComparisonOp, Scalar};

#[test]
fn scalar_arithmetic_matches_integers() {
    let three = Scalar::new(3);
    let four = Scalar::new(4);
    assert!(three.add(&four).equals(&Scalar::new(7)));
    assert!(Scalar::new(9).sub(&four).equals(&Scalar::new(5)));
    assert!(three.mul(&four).equals(&Scalar::new(12)));
    assert!(three.square().equals(&Scalar::new(9)));
}

#[test]
fn scalar_negation_cancels() {
    let one = Scalar::new(1);
    let sum = one.negate().add(&one);
    assert!(sum.is_zero());
}

#[test]
fn scalar_inverse_times_self_is_one() {
    let x = Scalar::new(5);
    assert!(x.inverse().mul(&x).equals(&Scalar::new(1)));
}

#[test]
fn scalar_inverse_of_zero_is_zero() {
    assert!(Scalar::new(0).inverse().is_zero());
}

#[test]
fn scalar_one_has_pinned_encoding() {
    let one = Scalar::new(1);
    let expected = "0100000000000000000000000000000000000000000000000000000000000000";
    assert_eq!(one.to_hex_string(), expected);
    let bytes = one.to_le_bytes();
    assert_eq!(bytes.len(), 32);
    assert_eq!(bytes[0], 1);
    for i in 1..32 {
        assert_eq!(bytes[i], 0);
    }
}

#[test]
fn scalar_round_trips_through_bytes() {
    let x = Scalar::new(123456789123456789);
    let bytes = x.to_le_bytes();
    let back = Scalar::from_le_bytes(&bytes).unwrap();
    assert!(x.equals(&back));
    assert!(x.codec_round_trip().equals(&x));
}

#[test]
fn scalar_rejects_value_at_or_above_order() {
    // The field order ends in ...ffffffff00000001 (little endian: 01 00 00
    // 00 ff ff ff ff ...), so 32 bytes of 0xff encode an integer above it.
    let bytes = vec![0xffu8; 32];
    match Scalar::from_le_bytes(&bytes) {
        Err(AlgebraError::MalformedInput) => {}
        _ => panic!("an unreduced encoding must be refused as malformed"),
    }
}

#[test]
fn scalar_rejects_wrong_length() {
    let bytes = vec![0u8; 31];
    match Scalar::from_le_bytes(&bytes) {
        Err(AlgebraError::MalformedInput) => {}
        _ => panic!("a short encoding must be refused as malformed"),
    }
}

#[test]
fn scalar_comparisons_support_equality_only() {
    let x = Scalar::new(2);
    let y = Scalar::new(2);
    assert_eq!(x.richcmp(&y, ComparisonOp::Equal), Ok(true));
    assert_eq!(x.richcmp(&y, ComparisonOp::NotEqual), Ok(false));
    assert_eq!(
        x.richcmp(&y, ComparisonOp::Less),
        Err(AlgebraError::UnsupportedComparison)
    );
    assert_eq!(
        x.richcmp(&y, ComparisonOp::GreaterOrEqual),
        Err(AlgebraError::UnsupportedComparison)
    );
}

#[test]
fn scalar_encode_into_respects_buffer_size() {
    let x = Scalar::new(42);
    let mut small = vec![0u8; 16];
    assert_eq!(
        x.encode_into(&mut small),
        Err(AlgebraError::InsufficientBuffer)
    );
    let mut big = vec![0xaau8; 40];
    assert_eq!(x.encode_into(&mut big), Ok(()));
    assert_eq!(&big[0..32], &x.to_le_bytes()[..]);
    for i in 32..40 {
        assert_eq!(big[i], 0xaa);
    }
}

#[test]
fn error_messages_are_fixed() {
    assert_eq!(
        AlgebraError::InsufficientBuffer.message(),
        "Err From Rust: not enough space has been allocated to serialise the object"
    );
    assert_eq!(
        AlgebraError::MalformedInput.message(),
        "Err From Rust: serialised data seems to be invalid"
    );
    assert_eq!(
        AlgebraError::IoFailure.message(),
        "Err From Rust: the underlying byte-stream operation failed"
    );
    assert_eq!(
        AlgebraError::UnsupportedComparison.message(),
        "comparison operator not implemented"
    );
}

#[test]
fn wrap_err_string_prefixes() {
    let wrapped = bls12_381_algebra::codec::wrap_err_string(String::from("boom"));
    assert_eq!(wrapped, "Err From Rust: boom");
}
