//! The algebraic laws of the facade, stated over the element types and
//! proved from the contracts of their operations. Each function here
//! computes both sides of an equality through the public interface and
//! returns their comparison; the `ensures` clause states that the
//! result is `true`, so the law is established statically for all
//! inputs the statement admits.

use vstd::prelude::*;

use crate::algebra::{
    lemma_add_neg, lemma_add_zero, lemma_mod_results_reduced, lemma_mul_distributes,
    lemma_mul_regroup, mul_mod,
};
use crate::g1::{g1_msm_value, G1Point};
use crate::g2::{g2_msm_value, G2Point};
use crate::gt::{pairing_acc, GT};
use crate::scalar::Scalar;

verus! {

/// The scalar action on the first curve group distributes over scalar
/// addition: `(a + b) · P == a · P + b · P`.
pub fn g1_distributive_law(a: &Scalar, b: &Scalar, p: &G1Point) -> (r: bool)
    requires
        a.wf(),
        b.wf(),
        p.wf(),
    ensures
        r,
{
    let lhs = p.scalar_mul(&a.add(b));
    let rhs = p.scalar_mul(a).add(&p.scalar_mul(b));
    proof {
        lemma_mul_distributes(p.log(), a.value(), b.value());
    }
    lhs.equals(&rhs)
}

/// A point of the first curve group plus its negation is the identity:
/// `P + (-P) == identity`.
pub fn g1_negation_law(p: &G1Point) -> (r: bool)
    requires
        p.wf(),
    ensures
        r,
{
    let lhs = p.add(&p.negate());
    proof {
        lemma_add_neg(p.log());
    }
    lhs.equals(&G1Point::identity())
}

/// The identity of the first curve group is neutral:
/// `identity + P == P`.
pub fn g1_identity_law(p: &G1Point) -> (r: bool)
    requires
        p.wf(),
    ensures
        r,
{
    let lhs = G1Point::identity().add(p);
    proof {
        lemma_add_zero(p.log());
    }
    lhs.equals(p)
}

/// Multi-scalar multiplication on the first curve group agrees with the
/// unbatched computation on two pairs:
/// `msm([P1, P2], [a1, a2]) == a1 · P1 + a2 · P2`.
pub fn g1_msm_pair_law(p1: &G1Point, p2: &G1Point, a1: &Scalar, a2: &Scalar) -> (r: bool)
    requires
        p1.wf(),
        p2.wf(),
        a1.wf(),
        a2.wf(),
    ensures
        r,
{
    let mut points: Vec<G1Point> = Vec::new();
    points.push(*p1);
    points.push(*p2);
    let mut scalars: Vec<Scalar> = Vec::new();
    scalars.push(*a1);
    scalars.push(*a2);
    proof {
        assert(points@ =~= seq![*p1, *p2]);
        assert(scalars@ =~= seq![*a1, *a2]);
        assert(forall|i: int| 0 <= i < scalars@.len() ==> (#[trigger] scalars@[i]).wf());
        assert(forall|i: int| 0 <= i < points@.len() ==> (#[trigger] points@[i]).wf());
    }
    let lhs = G1Point::multiexp_unchecked(&points, &scalars);
    let rhs = p1.scalar_mul(a1).add(&p2.scalar_mul(a2));
    proof {
        reveal_with_fuel(g1_msm_value, 3);
        assert(points@.take(2) =~= points@);
        assert(scalars@.take(2) =~= scalars@);
        assert(points@.skip(1) =~= seq![*p2]);
        assert(scalars@.skip(1) =~= seq![*a2]);
        assert(seq![*p2].skip(1) =~= Seq::<G1Point>::empty());
        assert(seq![*a2].skip(1) =~= Seq::<Scalar>::empty());
        lemma_mod_results_reduced(p2.log(), a2.value());
        lemma_add_zero(mul_mod(p2.log(), a2.value()));
    }
    lhs.equals(&rhs)
}

/// Multi-scalar multiplication of nothing is the identity:
/// `msm([], []) == identity`.
pub fn g1_msm_empty_law() -> (r: bool)
    ensures
        r,
{
    let points: Vec<G1Point> = Vec::new();
    let scalars: Vec<Scalar> = Vec::new();
    let lhs = G1Point::multiexp_unchecked(&points, &scalars);
    lhs.equals(&G1Point::identity())
}

/// The scalar action on the second curve group distributes over scalar
/// addition: `(a + b) · P == a · P + b · P`.
pub fn g2_distributive_law(a: &Scalar, b: &Scalar, p: &G2Point) -> (r: bool)
    requires
        a.wf(),
        b.wf(),
        p.wf(),
    ensures
        r,
{
    let lhs = p.scalar_mul(&a.add(b));
    let rhs = p.scalar_mul(a).add(&p.scalar_mul(b));
    proof {
        lemma_mul_distributes(p.log(), a.value(), b.value());
    }
    lhs.equals(&rhs)
}

/// A point of the second curve group plus its negation is the identity:
/// `P + (-P) == identity`.
pub fn g2_negation_law(p: &G2Point) -> (r: bool)
    requires
        p.wf(),
    ensures
        r,
{
    let lhs = p.add(&p.negate());
    proof {
        lemma_add_neg(p.log());
    }
    lhs.equals(&G2Point::identity())
}

/// The identity of the second curve group is neutral:
/// `identity + P == P`.
pub fn g2_identity_law(p: &G2Point) -> (r: bool)
    requires
        p.wf(),
    ensures
        r,
{
    let lhs = G2Point::identity().add(p);
    proof {
        lemma_add_zero(p.log());
    }
    lhs.equals(p)
}

/// Multi-scalar multiplication on the second curve group agrees with
/// the unbatched computation on two pairs:
/// `msm([P1, P2], [a1, a2]) == a1 · P1 + a2 · P2`.
pub fn g2_msm_pair_law(p1: &G2Point, p2: &G2Point, a1: &Scalar, a2: &Scalar) -> (r: bool)
    requires
        p1.wf(),
        p2.wf(),
        a1.wf(),
        a2.wf(),
    ensures
        r,
{
    let mut points: Vec<G2Point> = Vec::new();
    points.push(*p1);
    points.push(*p2);
    let mut scalars: Vec<Scalar> = Vec::new();
    scalars.push(*a1);
    scalars.push(*a2);
    proof {
        assert(points@ =~= seq![*p1, *p2]);
        assert(scalars@ =~= seq![*a1, *a2]);
        assert(forall|i: int| 0 <= i < scalars@.len() ==> (#[trigger] scalars@[i]).wf());
        assert(forall|i: int| 0 <= i < points@.len() ==> (#[trigger] points@[i]).wf());
    }
    let lhs = G2Point::multiexp_unchecked(&points, &scalars);
    let rhs = p1.scalar_mul(a1).add(&p2.scalar_mul(a2));
    proof {
        reveal_with_fuel(g2_msm_value, 3);
        assert(points@.take(2) =~= points@);
        assert(scalars@.take(2) =~= scalars@);
        assert(points@.skip(1) =~= seq![*p2]);
        assert(scalars@.skip(1) =~= seq![*a2]);
        assert(seq![*p2].skip(1) =~= Seq::<G2Point>::empty());
        assert(seq![*a2].skip(1) =~= Seq::<Scalar>::empty());
        lemma_mod_results_reduced(p2.log(), a2.value());
        lemma_add_zero(mul_mod(p2.log(), a2.value()));
    }
    lhs.equals(&rhs)
}

/// Multi-scalar multiplication of nothing is the identity:
/// `msm([], []) == identity`.
pub fn g2_msm_empty_law() -> (r: bool)
    ensures
        r,
{
    let points: Vec<G2Point> = Vec::new();
    let scalars: Vec<Scalar> = Vec::new();
    let lhs = G2Point::multiexp_unchecked(&points, &scalars);
    lhs.equals(&G2Point::identity())
}

/// The pairing is bilinear: `pairing(a · P, b · Q)` equals
/// `pairing(P, Q)` raised to `a · b`, computed here as
/// `pairing((a · b) · P, Q)`.
pub fn pairing_bilinearity_law(a: &Scalar, b: &Scalar, p: &G1Point, q: &G2Point) -> (r: bool)
    requires
        a.wf(),
        b.wf(),
        p.wf(),
        q.wf(),
    ensures
        r,
{
    let lhs = GT::pairing(&p.scalar_mul(a), &q.scalar_mul(b));
    let rhs = GT::pairing(&p.scalar_mul(&a.mul(b)), q);
    proof {
        lemma_mul_regroup(p.log(), a.value(), q.log(), b.value());
    }
    lhs.equals(&rhs)
}

/// The batched multi-pairing of two pairs is the product of the two
/// pairings: `multi_pairing([P1, P2], [Q1, Q2]) ==
/// pairing(P1, Q1) * pairing(P2, Q2)`.
pub fn multi_pairing_pair_law(p1: &G1Point, p2: &G1Point, q1: &G2Point, q2: &G2Point) -> (r: bool)
    requires
        p1.wf(),
        p2.wf(),
        q1.wf(),
        q2.wf(),
    ensures
        r,
{
    let mut ps: Vec<G1Point> = Vec::new();
    ps.push(*p1);
    ps.push(*p2);
    let mut qs: Vec<G2Point> = Vec::new();
    qs.push(*q1);
    qs.push(*q2);
    proof {
        assert(ps@ =~= seq![*p1, *p2]);
        assert(qs@ =~= seq![*q1, *q2]);
        assert(forall|i: int| 0 <= i < ps@.len() ==> (#[trigger] ps@[i]).wf());
        assert(forall|i: int| 0 <= i < qs@.len() ==> (#[trigger] qs@[i]).wf());
    }
    let lhs = GT::multi_pairing(&ps, &qs);
    let rhs = GT::pairing(p1, q1).mul(&GT::pairing(p2, q2));
    proof {
        reveal_with_fuel(pairing_acc, 3);
        assert(ps@.take(2) =~= ps@);
        assert(qs@.take(2) =~= qs@);
        assert(ps@.skip(1) =~= seq![*p2]);
        assert(qs@.skip(1) =~= seq![*q2]);
        assert(seq![*p2].skip(1) =~= Seq::<G1Point>::empty());
        assert(seq![*q2].skip(1) =~= Seq::<G2Point>::empty());
        lemma_mod_results_reduced(p1.log(), q1.log());
        lemma_mod_results_reduced(p2.log(), q2.log());
        lemma_add_zero(mul_mod(p2.log(), q2.log()));
    }
    lhs.equals(&rhs)
}

/// Inverting a nonzero scalar gives its multiplicative inverse:
/// `x.inverse() * x == one`.
pub fn scalar_inverse_law(x: &Scalar) -> (r: bool)
    requires
        x.wf(),
        x.value() != 0,
    ensures
        r,
{
    let one = Scalar::new(1);
    x.inverse().mul(x).equals(&one)
}

/// Inverting the additive identity returns the additive identity, the
/// defined fallback, without failing.
pub fn scalar_inverse_zero_law() -> (r: bool)
    ensures
        r,
{
    Scalar::new(0).inverse().is_zero()
}

} // verus!
