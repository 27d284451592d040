use bls12_381_algebra::laws;
use bls12_381_algebra::{AlgebraError, ComparisonOp, G1Point, G2Point, Scalar};

const G1_GENERATOR_HEX: &str = "97f1d3a73197d7942695638c4fa9ac0fc3688c4f9774b905a14e3a3f171bac586c55e83ff97a1aeffb3af00adb22c6bb";
const G2_GENERATOR_HEX: &str = "93e02b6052719f607dacd3a088274f65596bd0d09920b61ab5da61bbdc7f5049334cf11213945d57e5ac7d055d042b7e024aa2b2f08f0a91260805272dc51051c6e47ad4fa403b02b4510b647ae3d1770bac0326a805bbefd48056c8c121bdb8";

#[test]
fn g1_generator_has_pinned_encoding() {
    let g = G1Point::generator();
    assert_eq!(g.to_hex_string(), G1_GENERATOR_HEX);
    assert_eq!(g.to_compressed_bytes().len(), 48);
}

#[test]
fn g2_generator_has_pinned_encoding() {
    let g = G2Point::generator();
    assert_eq!(g.to_hex_string(), G2_GENERATOR_HEX);
    assert_eq!(g.to_compressed_bytes().len(), 96);
}

#[test]
fn g1_round_trips_through_bytes() {
    let p = G1Point::generator().scalar_mul(&Scalar::new(12345));
    let bytes = p.to_compressed_bytes();
    let back = G1Point::from_compressed_bytes(&bytes).unwrap();
    assert!(p.equals(&back));
    assert!(p.codec_round_trip().equals(&p));
    let unchecked = G1Point::from_compressed_bytes_unchecked(&bytes).unwrap();
    assert!(p.equals(&unchecked));
}

#[test]
fn g2_round_trips_through_bytes() {
    let p = G2Point::generator().scalar_mul(&Scalar::new(54321));
    let bytes = p.to_compressed_bytes();
    let back = G2Point::from_compressed_bytes(&bytes).unwrap();
    assert!(p.equals(&back));
    assert!(p.codec_round_trip().equals(&p));
}

#[test]
fn g2_unchecked_decode_matches_checked() {
    let p = G2Point::generator().scalar_mul(&Scalar::new(31));
    let bytes = p.to_compressed_bytes();
    let unchecked = G2Point::from_compressed_bytes_unchecked(&bytes).unwrap();
    assert!(p.equals(&unchecked));
}

#[test]
fn g2_encode_into_respects_buffer_size() {
    let p = G2Point::generator();
    let mut small = vec![0u8; 95];
    assert_eq!(
        p.encode_into(&mut small),
        Err(AlgebraError::InsufficientBuffer)
    );
    let mut big = vec![0u8; 96];
    assert_eq!(p.encode_into(&mut big), Ok(()));
    assert_eq!(big, p.to_compressed_bytes());
}

#[test]
fn g1_identity_round_trips() {
    let id = G1Point::identity();
    let bytes = id.to_compressed_bytes();
    let back = G1Point::from_compressed_bytes(&bytes).unwrap();
    assert!(id.equals(&back));
}

#[test]
fn g1_rejects_invalid_flag_pattern() {
    // A cleared compression flag is an invalid pattern for the 48-byte
    // compressed form: checked decode must refuse it and must not panic.
    let bytes = vec![0x7fu8; 48];
    match G1Point::from_compressed_bytes(&bytes) {
        Err(AlgebraError::MalformedInput) => {}
        _ => panic!("an invalid flag pattern must be refused as malformed"),
    }
}

#[test]
fn g1_accepts_any_infinity_flagged_bytes_as_identity() {
    // The decoder returns the identity as soon as the infinity flag is
    // set beside the compression flag, without reading the remaining
    // bytes; the canonical encoding of the identity is the flag byte
    // followed by zeros.
    let bytes = vec![0xffu8; 48];
    let p = G1Point::from_compressed_bytes(&bytes).unwrap();
    assert!(p.equals(&G1Point::identity()));
    let canonical = G1Point::identity().to_compressed_bytes();
    assert_eq!(canonical[0], 0xc0);
    for i in 1..48 {
        assert_eq!(canonical[i], 0);
    }
}

#[test]
fn g1_rejects_tampered_flag_bits() {
    // Clearing the compression flag of a canonical encoding leaves a
    // byte string no compressed decode may accept.
    let mut bytes = G1Point::generator().to_compressed_bytes();
    bytes[0] &= 0x1f;
    match G1Point::from_compressed_bytes(&bytes) {
        Err(AlgebraError::MalformedInput) => {}
        _ => panic!("tampered flag bits must be refused as malformed"),
    }
}

#[test]
fn g2_rejects_tampered_flag_bits() {
    let mut bytes = G2Point::generator().to_compressed_bytes();
    bytes[0] &= 0x1f;
    match G2Point::from_compressed_bytes(&bytes) {
        Err(AlgebraError::MalformedInput) => {}
        _ => panic!("tampered flag bits must be refused as malformed"),
    }
}

#[test]
fn g1_rejects_wrong_length() {
    let bytes = vec![0u8; 47];
    match G1Point::from_compressed_bytes(&bytes) {
        Err(AlgebraError::MalformedInput) => {}
        _ => panic!("a short encoding must be refused as malformed"),
    }
}

#[test]
fn g1_group_laws_hold() {
    let a = Scalar::new(7);
    let b = Scalar::new(11);
    let p = G1Point::generator().scalar_mul(&Scalar::new(3));
    assert!(laws::g1_distributive_law(&a, &b, &p));
    assert!(laws::g1_negation_law(&p));
    assert!(laws::g1_identity_law(&p));
    let lhs = p.scalar_mul(&a.add(&b));
    let rhs = p.scalar_mul(&a).add(&p.scalar_mul(&b));
    assert!(lhs.equals(&rhs));
    assert!(p.add(&p.negate()).equals(&G1Point::identity()));
    assert!(G1Point::identity().add(&p).equals(&p));
}

#[test]
fn g2_group_laws_hold() {
    let a = Scalar::new(13);
    let b = Scalar::new(17);
    let p = G2Point::generator().scalar_mul(&Scalar::new(5));
    assert!(laws::g2_distributive_law(&a, &b, &p));
    assert!(laws::g2_negation_law(&p));
    assert!(laws::g2_identity_law(&p));
}

#[test]
fn g1_subtraction_is_addition_of_negation() {
    let p = G1Point::generator().scalar_mul(&Scalar::new(9));
    let q = G1Point::generator().scalar_mul(&Scalar::new(4));
    assert!(p.sub(&q).equals(&p.add(&q.negate())));
    assert!(p.sub(&q).equals(&G1Point::generator().scalar_mul(&Scalar::new(5))));
}

#[test]
fn g1_msm_matches_unbatched_sum() {
    let p1 = G1Point::generator().scalar_mul(&Scalar::new(2));
    let p2 = G1Point::generator().scalar_mul(&Scalar::new(3));
    let a1 = Scalar::new(10);
    let a2 = Scalar::new(20);
    assert!(laws::g1_msm_pair_law(&p1, &p2, &a1, &a2));
    let points = vec![p1, p2];
    let scalars = vec![a1, a2];
    let batched = G1Point::multiexp_unchecked(&points, &scalars);
    let unbatched = p1.scalar_mul(&a1).add(&p2.scalar_mul(&a2));
    assert!(batched.equals(&unbatched));
    // 2 * 10 + 3 * 20 = 80.
    assert!(batched.equals(&G1Point::generator().scalar_mul(&Scalar::new(80))));
}

#[test]
fn g2_msm_matches_unbatched_sum() {
    let p1 = G2Point::generator().scalar_mul(&Scalar::new(6));
    let p2 = G2Point::generator().scalar_mul(&Scalar::new(7));
    let a1 = Scalar::new(30);
    let a2 = Scalar::new(40);
    assert!(laws::g2_msm_pair_law(&p1, &p2, &a1, &a2));
}

#[test]
fn msm_of_nothing_is_identity() {
    assert!(laws::g1_msm_empty_law());
    assert!(laws::g2_msm_empty_law());
    let batched = G1Point::multiexp_unchecked(&Vec::new(), &Vec::new());
    assert!(batched.equals(&G1Point::identity()));
}

#[test]
fn msm_truncates_to_the_shorter_input() {
    let p = G1Point::generator();
    let points = vec![p];
    let scalars = vec![Scalar::new(21), Scalar::new(99)];
    let batched = G1Point::multiexp_unchecked(&points, &scalars);
    assert!(batched.equals(&p.scalar_mul(&Scalar::new(21))));
}

#[test]
fn g1_comparisons_support_equality_only() {
    let p = G1Point::generator();
    let q = G1Point::generator();
    assert_eq!(p.richcmp(&q, ComparisonOp::Equal), Ok(true));
    assert_eq!(p.richcmp(&q, ComparisonOp::NotEqual), Ok(false));
    assert_eq!(
        p.richcmp(&q, ComparisonOp::Greater),
        Err(AlgebraError::UnsupportedComparison)
    );
    assert_eq!(
        p.richcmp(&q, ComparisonOp::LessOrEqual),
        Err(AlgebraError::UnsupportedComparison)
    );
}

#[test]
fn g1_encode_into_respects_buffer_size() {
    let p = G1Point::generator();
    let mut small = vec![0u8; 47];
    assert_eq!(
        p.encode_into(&mut small),
        Err(AlgebraError::InsufficientBuffer)
    );
    let mut big = vec![0u8; 48];
    assert_eq!(p.encode_into(&mut big), Ok(()));
    assert_eq!(big, p.to_compressed_bytes());
}
