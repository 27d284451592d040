//! Points of the second curve group, whose coordinates live in an
//! extension of the base field: the group law, scalar action,
//! equality, the canonical 96-byte compressed encoding, and batched
//! multi-scalar multiplication.
//!
//! The prime-order subgroup is cyclic, so a valid point is modelled by
//! its discrete logarithm with respect to the fixed generator: a ghost
//! residue modulo the group order, maintained solely by the trusted
//! wrappers in this file. A point obtained by unchecked decoding may lie
//! outside the subgroup; such a value has no model, and the contracts
//! promise nothing of it beyond what the byte format guarantees.

use vstd::prelude::*;

use ark_ec::{AffineRepr, Group, ScalarMul, VariableBaseMSM};
use ark_serialize::{CanonicalDeserialize, CanonicalSerialize};
use rayon::iter::{IntoParallelRefIterator, ParallelIterator};
use vstd::pervasive::{arbitrary, unreached};

use crate::algebra::{add_mod, group_order, lemma_mod_results_reduced, mul_mod, neg_mod, sub_mod};
use crate::backend::G2Raw;
use crate::codec::{hex_encode, hex_of, write_encoding, AlgebraError, ComparisonOp};
use crate::scalar::Scalar;

verus! {

/// The canonical 96-byte compressed encoding of the subgroup point with
/// the given discrete logarithm.
pub uninterp spec fn g2_compressed(k: nat) -> Seq<u8>;

/// Whether checked decoding accepts the byte string: well-formed flags,
/// a valid curve abscissa, and subgroup membership of the decoded point.
pub uninterp spec fn g2_decodable(bytes: Seq<u8>) -> bool;

/// Whether unchecked decoding accepts the byte string: the same
/// structural validation without the subgroup-membership test.
pub uninterp spec fn g2_decodable_unchecked(bytes: Seq<u8>) -> bool;

/// A point on the second curve group, in projective internal form (the
/// internal form is observably irrelevant).
#[derive(Clone, Copy)]
pub struct G2Point {
    pub(crate) raw: G2Raw,
    pub(crate) model: Ghost<nat>,
}

/// The weighted sum of a sequence of points: the discrete logarithm of
/// `sum scalar_i * point_i`, reduced modulo the group order.
pub open spec fn g2_msm_value(ps: Seq<G2Point>, ss: Seq<Scalar>) -> nat
    decreases ps.len(),
{
    if ps.len() == 0 {
        0
    } else {
        add_mod(mul_mod(ps[0].log(), ss[0].value()), g2_msm_value(ps.skip(1), ss.skip(1)))
    }
}

impl G2Point {
    /// The discrete logarithm of this point with respect to the fixed
    /// generator, when the point lies in the prime-order subgroup.
    pub closed spec fn log(self) -> nat {
        self.model@
    }

    /// Validity: the point lies in the prime-order subgroup and is
    /// modelled by a reduced discrete logarithm. Every point this
    /// library constructs satisfies it, except possibly those obtained
    /// by unchecked decoding of untrusted bytes.
    pub open spec fn wf(self) -> bool {
        self.log() < group_order()
    }

    /// The fixed base point of the group.
    pub fn generator() -> (r: G2Point)
        ensures
            r.wf(),
            r.log() == 1,
    {
        g2_generator_raw()
    }

    /// The neutral element of the group law.
    pub fn identity() -> (r: G2Point)
        ensures
            r.wf(),
            r.log() == 0,
    {
        g2_identity_raw()
    }

    /// The group law: point addition.
    pub fn add(&self, rhs: &G2Point) -> (r: G2Point)
        ensures
            self.wf() && rhs.wf() ==> r.wf() && r.log() == add_mod(self.log(), rhs.log()),
    {
        proof {
            lemma_mod_results_reduced(self.log(), rhs.log());
        }
        g2_add_raw(self, rhs)
    }

    /// Point subtraction.
    pub fn sub(&self, rhs: &G2Point) -> (r: G2Point)
        ensures
            self.wf() && rhs.wf() ==> r.wf() && r.log() == sub_mod(self.log(), rhs.log()),
    {
        proof {
            lemma_mod_results_reduced(self.log(), rhs.log());
        }
        g2_sub_raw(self, rhs)
    }

    /// Point negation.
    pub fn negate(&self) -> (r: G2Point)
        ensures
            self.wf() ==> r.wf() && r.log() == neg_mod(self.log()),
    {
        proof {
            lemma_mod_results_reduced(self.log(), self.log());
        }
        g2_neg_raw(self)
    }

    /// The scalar action: multiplication of this point by a scalar.
    pub fn scalar_mul(&self, rhs: &Scalar) -> (r: G2Point)
        requires
            rhs.wf(),
        ensures
            self.wf() ==> r.wf() && r.log() == mul_mod(self.log(), rhs.value()),
    {
        proof {
            lemma_mod_results_reduced(self.log(), rhs.value());
        }
        g2_smul_raw(self, rhs)
    }

    /// Whether the two points are equal. Valid points are equal exactly
    /// when their discrete logarithms agree.
    pub fn equals(&self, other: &G2Point) -> (r: bool)
        ensures
            self.wf() && other.wf() ==> r == (self.log() == other.log()),
    {
        g2_eq_raw(self, other)
    }

    /// Answers a comparison request. Only equality and inequality are
    /// supported; an ordering request is a contract violation and is
    /// refused with `UnsupportedComparison`.
    pub fn richcmp(&self, other: &G2Point, op: ComparisonOp) -> (r: Result<bool, AlgebraError>)
        ensures
            match r {
                Ok(b) => op.supported() && (self.wf() && other.wf() ==> b == if op
                    == ComparisonOp::Equal {
                    self.log() == other.log()
                } else {
                    self.log() != other.log()
                }),
                Err(e) => !op.supported() && e == AlgebraError::UnsupportedComparison,
            },
    {
        match op {
            ComparisonOp::Equal => Ok(self.equals(other)),
            ComparisonOp::NotEqual => Ok(!self.equals(other)),
            _ => Err(AlgebraError::UnsupportedComparison),
        }
    }

    /// The canonical 96-byte compressed encoding. Encoding is total and
    /// infallible.
    pub fn to_compressed_bytes(&self) -> (r: Vec<u8>)
        ensures
            r@.len() == 96,
            self.wf() ==> r@ == g2_compressed(self.log()) && g2_decodable(r@)
                && g2_decodable_unchecked(r@),
    {
        g2_to_bytes_raw(self)
    }

    /// Writes the canonical encoding into a caller-supplied buffer,
    /// refusing one that is too small for the 96 bytes.
    pub fn encode_into(&self, dest: &mut Vec<u8>) -> (r: Result<(), AlgebraError>)
        ensures
            match r {
                Ok(()) => old(dest)@.len() >= 96 && (self.wf() ==> final(dest)@ == g2_compressed(
                    self.log(),
                ) + old(dest)@.skip(96)),
                Err(e) => old(dest)@.len() < 96 && e == AlgebraError::InsufficientBuffer
                    && final(dest)@ == old(dest)@,
            },
    {
        let bytes = self.to_compressed_bytes();
        write_encoding(&bytes, dest)
    }

    /// Checked decoding of a compressed point: accepts exactly the
    /// 96-byte strings with well-formed flags that denote a point on the
    /// curve and in the prime-order subgroup, and in particular the
    /// canonical encoding of every valid point. Anything else is
    /// malformed input.
    pub fn from_compressed_bytes(bytes: &Vec<u8>) -> (r: Result<G2Point, AlgebraError>)
        ensures
            match r {
                Ok(p) => bytes@.len() == 96 && g2_decodable(bytes@) && p.wf() && (forall|k: nat|
                    k < group_order() && bytes@ == #[trigger] g2_compressed(k) ==> p.log() == k),
                Err(e) => (bytes@.len() != 96 || !g2_decodable(bytes@))
                    && e == AlgebraError::MalformedInput,
            },
    {
        if bytes.len() != 96 {
            return Err(AlgebraError::MalformedInput);
        }
        g2_from_bytes_raw(bytes)
    }

    /// Unchecked decoding: skips the subgroup-membership test for
    /// performance when the caller trusts the source, but still rejects
    /// structurally invalid byte patterns. On the canonical encoding of
    /// a valid point it returns that point. Unsafe with respect to
    /// protocol soundness on untrusted input: callers must document why
    /// the source is trusted.
    pub fn from_compressed_bytes_unchecked(bytes: &Vec<u8>) -> (r: Result<G2Point, AlgebraError>)
        ensures
            match r {
                Ok(p) => bytes@.len() == 96 && g2_decodable_unchecked(bytes@) && (forall|k: nat|
                    k < group_order() && bytes@ == #[trigger] g2_compressed(k) ==> p.wf()
                        && p.log() == k),
                Err(e) => (bytes@.len() != 96 || !g2_decodable_unchecked(bytes@))
                    && e == AlgebraError::MalformedInput,
            },
    {
        if bytes.len() != 96 {
            return Err(AlgebraError::MalformedInput);
        }
        g2_from_bytes_unchecked_raw(bytes)
    }

    /// Batched multi-scalar multiplication: the weighted sum of the
    /// points by the scalars, computed over a shared affine conversion
    /// and a parallel batched algorithm. Mismatched lengths are a caller
    /// contract violation; the sequences are truncated to the shorter,
    /// as the underlying batched multiplication does.
    pub fn multiexp_unchecked(points: &Vec<G2Point>, scalars: &Vec<Scalar>) -> (r: G2Point)
        requires
            forall|i: int| 0 <= i < scalars@.len() ==> (#[trigger] scalars@[i]).wf(),
        ensures
            ({
                let n = if points@.len() <= scalars@.len() {
                    points@.len() as int
                } else {
                    scalars@.len() as int
                };
                (forall|i: int| 0 <= i < points@.len() ==> (#[trigger] points@[i]).wf())
                    ==> r.wf() && r.log() == g2_msm_value(points@.take(n), scalars@.take(n))
            }),
    {
        let n: usize = if points.len() <= scalars.len() {
            points.len()
        } else {
            scalars.len()
        };
        let mut ps: Vec<G2Point> = Vec::new();
        let mut ss: Vec<Scalar> = Vec::new();
        let mut i: usize = 0;
        while i < n
            invariant
                n <= points@.len(),
                n <= scalars@.len(),
                i <= n,
                ps@.len() == i,
                ss@.len() == i,
                forall|j: int| 0 <= j < i ==> ps@[j] == points@[j],
                forall|j: int| 0 <= j < i ==> ss@[j] == scalars@[j],
                forall|j: int| 0 <= j < scalars@.len() ==> (#[trigger] scalars@[j]).wf(),
            decreases n - i,
        {
            let p = points[i];
            let s = scalars[i];
            ps.push(p);
            ss.push(s);
            i = i + 1;
        }
        proof {
            assert(ps@ =~= points@.take(n as int));
            assert(ss@ =~= scalars@.take(n as int));
        }
        g2_msm_raw(&ps, &ss)
    }

    /// Witnesses the round-trip law: checked decoding of the canonical
    /// encoding of any valid point returns an equal point, and in
    /// particular the decode cannot fail.
    pub fn codec_round_trip(&self) -> (r: G2Point)
        requires
            self.wf(),
        ensures
            r.wf(),
            r.log() == self.log(),
    {
        let bytes = self.to_compressed_bytes();
        match G2Point::from_compressed_bytes(&bytes) {
            Ok(p) => p,
            Err(_) => unreached(),
        }
    }

    /// The lowercase hexadecimal rendering of the canonical compressed
    /// encoding, with no prefix.
    pub fn to_hex_string(&self) -> (r: String)
        ensures
            self.wf() ==> r@ == hex_of(g2_compressed(self.log())),
    {
        let bytes = self.to_compressed_bytes();
        hex_encode(&bytes)
    }

}

/// Relies on the fixed generator constant of the second curve group: the
/// subgroup point with discrete logarithm one.
#[verifier::external_body]
fn g2_generator_raw() -> (r: G2Point)
    ensures
        r.wf(),
        r.log() == 1,
{
    G2Point { raw: G2Raw { v: ark_bls12_381::G2Projective::generator() }, model: Ghost(arbitrary()) }
}

/// Relies on the point at infinity being the neutral element: the
/// subgroup point with discrete logarithm zero.
#[verifier::external_body]
fn g2_identity_raw() -> (r: G2Point)
    ensures
        r.wf(),
        r.log() == 0,
{
    G2Point { raw: G2Raw { v: ark_bls12_381::G2Affine::identity().into() }, model: Ghost(arbitrary()) }
}

/// Relies on the curve group law: adding subgroup points adds their
/// discrete logarithms modulo the group order.
#[verifier::external_body]
fn g2_add_raw(a: &G2Point, b: &G2Point) -> (r: G2Point)
    ensures
        a.wf() && b.wf() ==> r.log() == add_mod(a.log(), b.log()),
{
    G2Point { raw: G2Raw { v: a.raw.v + b.raw.v }, model: Ghost(arbitrary()) }
}

/// Relies on curve-point subtraction: the difference of the discrete
/// logarithms modulo the group order.
#[verifier::external_body]
fn g2_sub_raw(a: &G2Point, b: &G2Point) -> (r: G2Point)
    ensures
        a.wf() && b.wf() ==> r.log() == sub_mod(a.log(), b.log()),
{
    G2Point { raw: G2Raw { v: a.raw.v - b.raw.v }, model: Ghost(arbitrary()) }
}

/// Relies on curve-point negation: the additive inverse of the discrete
/// logarithm modulo the group order.
#[verifier::external_body]
fn g2_neg_raw(a: &G2Point) -> (r: G2Point)
    ensures
        a.wf() ==> r.log() == neg_mod(a.log()),
{
    G2Point { raw: G2Raw { v: -a.raw.v }, model: Ghost(arbitrary()) }
}

/// Relies on the scalar action of the curve group: multiplying a
/// subgroup point by a scalar multiplies its discrete logarithm by the
/// scalar's reduced value, modulo the group order.
#[verifier::external_body]
fn g2_smul_raw(a: &G2Point, s: &Scalar) -> (r: G2Point)
    requires
        s.wf(),
    ensures
        a.wf() ==> r.log() == mul_mod(a.log(), s.value()),
{
    G2Point { raw: G2Raw { v: a.raw.v * s.raw.v }, model: Ghost(arbitrary()) }
}

/// Relies on curve-point equality, and on the cyclic prime-order
/// structure of the subgroup: two subgroup points are equal exactly when
/// their discrete logarithms agree.
#[verifier::external_body]
fn g2_eq_raw(a: &G2Point, b: &G2Point) -> (r: bool)
    ensures
        a.wf() && b.wf() ==> r == (a.log() == b.log()),
{
    a.raw.v == b.raw.v
}

/// Relies on compressed serialization of curve points: exactly 96 bytes
/// (the extension-field abscissa with embedded flag bits), a pure
/// function of the point,
/// accepted back by both decode modes. Writing into an exactly-sized
/// in-memory buffer cannot fail.
#[verifier::external_body]
fn g2_to_bytes_raw(a: &G2Point) -> (r: Vec<u8>)
    ensures
        r@.len() == 96,
        a.wf() ==> r@ == g2_compressed(a.log()) && g2_decodable(r@) && g2_decodable_unchecked(r@),
{
    let mut out = vec![0u8; 96];
    a.raw.v
        .serialize_compressed(&mut out[..])
        .expect("a 96-byte buffer holds the compressed point encoding");
    out
}

/// Relies on checked deserialization of compressed curve points: flag
/// validation, abscissa validation, and the subgroup-membership test.
/// On an exactly-sized in-memory buffer every failure is a malformed
/// input; the canonical encoding of a subgroup point decodes to that
/// point.
#[verifier::external_body]
fn g2_from_bytes_raw(bytes: &Vec<u8>) -> (r: Result<G2Point, AlgebraError>)
    requires
        bytes@.len() == 96,
    ensures
        match r {
            Ok(p) => g2_decodable(bytes@) && p.wf() && (forall|k: nat|
                k < group_order() && bytes@ == #[trigger] g2_compressed(k) ==> p.log() == k),
            Err(e) => !g2_decodable(bytes@) && e == AlgebraError::MalformedInput,
        },
{
    match ark_bls12_381::G2Projective::deserialize_compressed(&bytes[..]) {
        Ok(v) => Ok(G2Point { raw: G2Raw { v }, model: Ghost(arbitrary()) }),
        Err(_) => Err(AlgebraError::MalformedInput),
    }
}

/// Relies on unchecked deserialization of compressed curve points: the
/// same structural validation without the subgroup-membership test, so
/// the result may lie outside the subgroup and is only modelled when the
/// bytes are the canonical encoding of a subgroup point.
#[verifier::external_body]
fn g2_from_bytes_unchecked_raw(bytes: &Vec<u8>) -> (r: Result<G2Point, AlgebraError>)
    requires
        bytes@.len() == 96,
    ensures
        match r {
            Ok(p) => g2_decodable_unchecked(bytes@) && (forall|k: nat|
                k < group_order() && bytes@ == #[trigger] g2_compressed(k) ==> p.wf() && p.log()
                    == k),
            Err(e) => !g2_decodable_unchecked(bytes@) && e == AlgebraError::MalformedInput,
        },
{
    match ark_bls12_381::G2Projective::deserialize_compressed_unchecked(&bytes[..]) {
        Ok(v) => Ok(G2Point { raw: G2Raw { v }, model: Ghost(arbitrary()) }),
        Err(_) => Err(AlgebraError::MalformedInput),
    }
}

/// Relies on the batched variable-base multi-scalar multiplication over
/// a shared affine conversion: for equal-length inputs of subgroup
/// points it returns the weighted sum of the points by the scalars. The
/// per-element conversions fan out across the worker-thread pool and the
/// reduction is deterministic.
#[verifier::external_body]
fn g2_msm_raw(points: &Vec<G2Point>, scalars: &Vec<Scalar>) -> (r: G2Point)
    requires
        points@.len() == scalars@.len(),
        forall|i: int| 0 <= i < scalars@.len() ==> (#[trigger] scalars@[i]).wf(),
    ensures
        (forall|i: int| 0 <= i < points@.len() ==> (#[trigger] points@[i]).wf()) ==> r.wf()
            && r.log() == g2_msm_value(points@, scalars@),
{
    let pts: Vec<ark_bls12_381::G2Projective> = points.par_iter().map(|p| p.raw.v).collect();
    let scs: Vec<ark_bls12_381::Fr> = scalars.par_iter().map(|s| s.raw.v).collect();
    let affine = ark_bls12_381::G2Projective::batch_convert_to_mul_base(&pts);
    let result = ark_bls12_381::G2Projective::msm_unchecked(&affine, &scs);
    G2Point { raw: G2Raw { v: result }, model: Ghost(arbitrary()) }
}

} // verus!
