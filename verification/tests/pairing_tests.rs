use bls12_381_algebra::laws;
use bls12_381_algebra::{AlgebraError, ComparisonOp, G1Point, G2Point, Scalar, GT};

#[test]
fn pairing_is_bilinear() {
    let a = Scalar::new(6);
    let b = Scalar::new(9);
    let p = G1Point::generator();
    let q = G2Point::generator();
    assert!(laws::pairing_bilinearity_law(&a, &b, &p, &q));
    let lhs = GT::pairing(&p.scalar_mul(&a), &q.scalar_mul(&b));
    let rhs = GT::pairing(&p.scalar_mul(&a.mul(&b)), &q);
    assert!(lhs.equals(&rhs));
}

#[test]
fn pairing_of_generators_is_gt_generator() {
    let e = GT::pairing(&G1Point::generator(), &G2Point::generator());
    assert!(e.equals(&GT::generator()));
}

#[test]
fn pairing_with_identity_is_one() {
    let e = GT::pairing(&G1Point::identity(), &G2Point::generator());
    assert!(e.equals(&GT::one()));
}

#[test]
fn multi_pairing_is_product_of_pairings() {
    let p1 = G1Point::generator().scalar_mul(&Scalar::new(3));
    let p2 = G1Point::generator().scalar_mul(&Scalar::new(5));
    let q1 = G2Point::generator().scalar_mul(&Scalar::new(7));
    let q2 = G2Point::generator().scalar_mul(&Scalar::new(2));
    assert!(laws::multi_pairing_pair_law(&p1, &p2, &q1, &q2));
    let lhs = GT::multi_pairing(&vec![p1, p2], &vec![q1, q2]);
    let rhs = GT::pairing(&p1, &q1).mul(&GT::pairing(&p2, &q2));
    assert!(lhs.equals(&rhs));
}

#[test]
fn multi_pairing_of_nothing_is_one() {
    let lhs = GT::multi_pairing(&Vec::new(), &Vec::new());
    assert!(lhs.equals(&GT::one()));
}

#[test]
fn gt_field_identities_behave() {
    let one = GT::one();
    let zero = GT::zero();
    assert!(one.mul(&one).equals(&one));
    assert!(zero.add(&one).equals(&one));
    assert!(one.sub(&one).equals(&zero));
    assert!(one.negate().add(&one).equals(&zero));
    assert!(!one.equals(&zero));
}

#[test]
fn gt_round_trips_through_bytes() {
    let e = GT::pairing(
        &G1Point::generator().scalar_mul(&Scalar::new(8)),
        &G2Point::generator(),
    );
    let bytes = e.to_compressed_bytes();
    assert_eq!(bytes.len(), 576);
    let back = GT::from_compressed_bytes(&bytes).unwrap();
    assert!(e.equals(&back));
    assert!(e.codec_round_trip().equals(&e));
    assert_eq!(e.to_hex_string().len(), 1152);
}

#[test]
fn gt_rejects_wrong_length() {
    let bytes = vec![0u8; 100];
    match GT::from_compressed_bytes(&bytes) {
        Err(AlgebraError::MalformedInput) => {}
        _ => panic!("a short encoding must be refused as malformed"),
    }
}

#[test]
fn gt_rejects_unreduced_coordinates() {
    // A coordinate of 48 bytes of 0xff is at or above the base field
    // order, so the element is refused.
    let bytes = vec![0xffu8; 576];
    match GT::from_compressed_bytes(&bytes) {
        Err(AlgebraError::MalformedInput) => {}
        _ => panic!("an unreduced coordinate must be refused as malformed"),
    }
}

#[test]
fn gt_comparisons_support_equality_only() {
    let one = GT::one();
    assert_eq!(one.richcmp(&one, ComparisonOp::Equal), Ok(true));
    assert_eq!(one.richcmp(&one, ComparisonOp::NotEqual), Ok(false));
    assert_eq!(
        one.richcmp(&one, ComparisonOp::Less),
        Err(AlgebraError::UnsupportedComparison)
    );
}

#[test]
fn scalar_inverse_laws_hold() {
    assert!(laws::scalar_inverse_law(&Scalar::new(5)));
    assert!(laws::scalar_inverse_zero_law());
}
