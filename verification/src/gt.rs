//! Elements of the pairing target group: a multiplicative group inside
//! the degree-twelve extension field, reached from pairs of curve points
//! through the bilinear pairing, together with the full field arithmetic
//! of the extension and its canonical 576-byte encoding.
//!
//! Every extension-field element has exactly one canonical encoding, so
//! a value is modelled by that byte string, a ghost model maintained
//! solely by the trusted wrappers in this file. Powers of the pairing of
//! the two generators carry the abstract name `gt_pairing_power`, which
//! is what the bilinearity of the pairing is stated over.

use vstd::prelude::*;

use ark_ec::pairing::{Pairing, PairingOutput};
use ark_ec::Group;
use ark_serialize::{CanonicalDeserialize, CanonicalSerialize};
use rayon::iter::{IntoParallelRefIterator, ParallelIterator};
use vstd::pervasive::{arbitrary, unreached};

use crate::algebra::{add_mod, group_order, mul_mod};
use crate::backend::GtRaw;
use crate::codec::{hex_encode, hex_of, write_encoding, AlgebraError, ComparisonOp};
use crate::g1::G1Point;
use crate::g2::G2Point;

verus! {

/// The canonical encoding of the sum of two extension-field elements.
pub uninterp spec fn gt_add_repr(a: Seq<u8>, b: Seq<u8>) -> Seq<u8>;

/// The canonical encoding of the difference of two extension-field
/// elements.
pub uninterp spec fn gt_sub_repr(a: Seq<u8>, b: Seq<u8>) -> Seq<u8>;

/// The canonical encoding of the product of two extension-field
/// elements.
pub uninterp spec fn gt_mul_repr(a: Seq<u8>, b: Seq<u8>) -> Seq<u8>;

/// The canonical encoding of the additive inverse of an extension-field
/// element.
pub uninterp spec fn gt_neg_repr(a: Seq<u8>) -> Seq<u8>;

/// The canonical encoding of the `k`-th power of the pairing of the two
/// fixed generators, the generator of the pairing target group.
pub uninterp spec fn gt_pairing_power(k: nat) -> Seq<u8>;

/// Whether decoding accepts the byte string as the canonical encoding
/// of an extension-field element.
pub uninterp spec fn gt_decodable(bytes: Seq<u8>) -> bool;

/// The canonical encoding of the additive identity of the extension
/// field: every coordinate zero.
pub open spec fn gt_zero_repr() -> Seq<u8> {
    Seq::new(576, |i: int| 0u8)
}

/// The canonical encoding of the multiplicative identity of the
/// extension field: the constant coordinate one, every other zero.
pub open spec fn gt_one_repr() -> Seq<u8> {
    Seq::new(576, |i: int| if i == 0 { 1u8 } else { 0u8 })
}

/// An element of the pairing target group. The group identity is the
/// multiplicative identity of the extension field, not the additive
/// zero.
#[derive(Clone, Copy)]
pub struct GT {
    pub(crate) raw: GtRaw,
    pub(crate) model: Ghost<Seq<u8>>,
}

/// The accumulated pairing exponent of parallel sequences of points:
/// the sum over the pairs of the products of their discrete logarithms,
/// reduced modulo the group order.
pub open spec fn pairing_acc(ps: Seq<G1Point>, qs: Seq<G2Point>) -> nat
    decreases ps.len(),
{
    if ps.len() == 0 {
        0
    } else {
        add_mod(mul_mod(ps[0].log(), qs[0].log()), pairing_acc(ps.skip(1), qs.skip(1)))
    }
}

impl GT {
    /// The canonical encoding of this element, its mathematical model.
    pub closed spec fn repr(self) -> Seq<u8> {
        self.model@
    }

    /// The designated generator of the target group: the pairing of the
    /// two curve generators.
    pub fn generator() -> (r: GT)
        ensures
            r.repr() == gt_pairing_power(1),
    {
        gt_generator_raw()
    }

    /// The additive identity of the extension field. This is not the
    /// group identity of the target group.
    pub fn zero() -> (r: GT)
        ensures
            r.repr() == gt_zero_repr(),
    {
        gt_zero_raw()
    }

    /// The multiplicative identity of the extension field: the identity
    /// of the target group.
    pub fn one() -> (r: GT)
        ensures
            r.repr() == gt_one_repr(),
            r.repr() == gt_pairing_power(0),
    {
        gt_one_raw()
    }

    /// The bilinear pairing of a point of each curve group. For valid
    /// points the result is the generator power of the product of the
    /// two discrete logarithms. Deterministic, with no failure mode.
    pub fn pairing(g1: &G1Point, g2: &G2Point) -> (r: GT)
        ensures
            g1.wf() && g2.wf() ==> r.repr() == gt_pairing_power(mul_mod(g1.log(), g2.log())),
    {
        gt_pairing_raw(g1, g2)
    }

    /// The product of the pairings of parallel sequences of points,
    /// computed by a shared batched accumulation rather than independent
    /// pairings. Mismatched lengths are a caller contract violation; the
    /// sequences are truncated to the shorter, as the underlying batched
    /// accumulation does.
    pub fn multi_pairing(g1s: &Vec<G1Point>, g2s: &Vec<G2Point>) -> (r: GT)
        ensures
            ({
                let n = if g1s@.len() <= g2s@.len() {
                    g1s@.len() as int
                } else {
                    g2s@.len() as int
                };
                (forall|i: int| 0 <= i < g1s@.len() ==> (#[trigger] g1s@[i]).wf()) && (forall|
                    i: int,
                |
                    0 <= i < g2s@.len() ==> (#[trigger] g2s@[i]).wf()) ==> r.repr()
                    == gt_pairing_power(pairing_acc(g1s@.take(n), g2s@.take(n)))
            }),
    {
        let n: usize = if g1s.len() <= g2s.len() {
            g1s.len()
        } else {
            g2s.len()
        };
        let mut ps: Vec<G1Point> = Vec::new();
        let mut qs: Vec<G2Point> = Vec::new();
        let mut i: usize = 0;
        while i < n
            invariant
                n <= g1s@.len(),
                n <= g2s@.len(),
                i <= n,
                ps@.len() == i,
                qs@.len() == i,
                forall|j: int| 0 <= j < i ==> ps@[j] == g1s@[j],
                forall|j: int| 0 <= j < i ==> qs@[j] == g2s@[j],
            decreases n - i,
        {
            let p = g1s[i];
            let q = g2s[i];
            ps.push(p);
            qs.push(q);
            i = i + 1;
        }
        proof {
            assert(ps@ =~= g1s@.take(n as int));
            assert(qs@ =~= g2s@.take(n as int));
        }
        gt_multi_pairing_raw(&ps, &qs)
    }

    /// Extension-field addition.
    pub fn add(&self, rhs: &GT) -> (r: GT)
        ensures
            r.repr() == gt_add_repr(self.repr(), rhs.repr()),
    {
        gt_add_raw(self, rhs)
    }

    /// Extension-field subtraction.
    pub fn sub(&self, rhs: &GT) -> (r: GT)
        ensures
            r.repr() == gt_sub_repr(self.repr(), rhs.repr()),
    {
        gt_sub_raw(self, rhs)
    }

    /// Extension-field multiplication: the group operation of the
    /// target group. On generator powers it adds the exponents modulo
    /// the group order.
    pub fn mul(&self, rhs: &GT) -> (r: GT)
        ensures
            r.repr() == gt_mul_repr(self.repr(), rhs.repr()),
            forall|j: nat, k: nat|
                j < group_order() && k < group_order() && self.repr() == #[trigger] gt_pairing_power(j)
                    && rhs.repr() == #[trigger] gt_pairing_power(k) ==> r.repr()
                    == gt_pairing_power(add_mod(j, k)),
    {
        gt_mul_raw(self, rhs)
    }

    /// Extension-field negation.
    pub fn negate(&self) -> (r: GT)
        ensures
            r.repr() == gt_neg_repr(self.repr()),
    {
        gt_neg_raw(self)
    }

    /// Whether the two elements are equal: exactly when their canonical
    /// encodings agree.
    pub fn equals(&self, other: &GT) -> (r: bool)
        ensures
            r == (self.repr() == other.repr()),
    {
        gt_eq_raw(self, other)
    }

    /// Answers a comparison request. Only equality and inequality are
    /// supported; an ordering request is a contract violation and is
    /// refused with `UnsupportedComparison`.
    pub fn richcmp(&self, other: &GT, op: ComparisonOp) -> (r: Result<bool, AlgebraError>)
        ensures
            match r {
                Ok(b) => op.supported() && b == if op == ComparisonOp::Equal {
                    self.repr() == other.repr()
                } else {
                    self.repr() != other.repr()
                },
                Err(e) => !op.supported() && e == AlgebraError::UnsupportedComparison,
            },
    {
        match op {
            ComparisonOp::Equal => Ok(self.equals(other)),
            ComparisonOp::NotEqual => Ok(!self.equals(other)),
            _ => Err(AlgebraError::UnsupportedComparison),
        }
    }

    /// The canonical compressed encoding of this element: its model
    /// byte string, 576 bytes. Encoding is total and infallible.
    pub fn to_compressed_bytes(&self) -> (r: Vec<u8>)
        ensures
            r@ == self.repr(),
            r@.len() == 576,
            gt_decodable(r@),
    {
        gt_to_bytes_raw(self)
    }

    /// Writes the canonical encoding into a caller-supplied buffer,
    /// refusing one that is too small for the 576 bytes.
    pub fn encode_into(&self, dest: &mut Vec<u8>) -> (r: Result<(), AlgebraError>)
        ensures
            match r {
                Ok(()) => old(dest)@.len() >= 576 && final(dest)@ == self.repr() + old(
                    dest,
                )@.skip(576),
                Err(e) => old(dest)@.len() < 576 && e == AlgebraError::InsufficientBuffer
                    && final(dest)@ == old(dest)@,
            },
    {
        let bytes = self.to_compressed_bytes();
        write_encoding(&bytes, dest)
    }

    /// Checked decoding of the canonical encoding: accepts exactly the
    /// 576-byte strings in which every coordinate is a reduced base
    /// field element, and returns the element so encoded. Anything else
    /// is malformed input.
    pub fn from_compressed_bytes(bytes: &Vec<u8>) -> (r: Result<GT, AlgebraError>)
        ensures
            match r {
                Ok(g) => bytes@.len() == 576 && gt_decodable(bytes@) && g.repr() == bytes@,
                Err(e) => (bytes@.len() != 576 || !gt_decodable(bytes@))
                    && e == AlgebraError::MalformedInput,
            },
    {
        if bytes.len() != 576 {
            return Err(AlgebraError::MalformedInput);
        }
        gt_from_bytes_raw(bytes)
    }

    /// Witnesses the round-trip law: decoding the canonical encoding of
    /// any element returns an equal element, and in particular the
    /// decode cannot fail.
    pub fn codec_round_trip(&self) -> (r: GT)
        ensures
            r.repr() == self.repr(),
    {
        let bytes = self.to_compressed_bytes();
        match GT::from_compressed_bytes(&bytes) {
            Ok(g) => g,
            Err(_) => unreached(),
        }
    }

    /// The lowercase hexadecimal rendering of the canonical encoding.
    pub fn to_hex_string(&self) -> (r: String)
        ensures
            r@ == hex_of(self.repr()),
    {
        let bytes = self.to_compressed_bytes();
        hex_encode(&bytes)
    }
}

/// Relies on the generator of the pairing output group: the pairing of
/// the two curve generators, whose discrete logarithms are one.
#[verifier::external_body]
fn gt_generator_raw() -> (r: GT)
    ensures
        r.repr() == gt_pairing_power(1),
{
    GT {
        raw: GtRaw { v: PairingOutput::<ark_bls12_381::Bls12_381>::generator().0 },
        model: Ghost(arbitrary()),
    }
}

/// Relies on the additive identity of the extension field: every
/// coordinate zero, so its canonical encoding is all zero bytes.
#[verifier::external_body]
fn gt_zero_raw() -> (r: GT)
    ensures
        r.repr() == gt_zero_repr(),
{
    GT { raw: GtRaw { v: num_traits::Zero::zero() }, model: Ghost(arbitrary()) }
}

/// Relies on the multiplicative identity of the extension field: the
/// constant coordinate one and every other zero, which is also the
/// zeroth power of the pairing of the generators.
#[verifier::external_body]
fn gt_one_raw() -> (r: GT)
    ensures
        r.repr() == gt_one_repr(),
        r.repr() == gt_pairing_power(0),
{
    GT { raw: GtRaw { v: ark_ff::One::one() }, model: Ghost(arbitrary()) }
}

/// Relies on the bilinear pairing: for subgroup points with discrete
/// logarithms `a` and `b` it returns the pairing of the generators
/// raised to `a * b`.
#[verifier::external_body]
fn gt_pairing_raw(g1: &G1Point, g2: &G2Point) -> (r: GT)
    ensures
        g1.wf() && g2.wf() ==> r.repr() == gt_pairing_power(mul_mod(g1.log(), g2.log())),
{
    GT {
        raw: GtRaw { v: ark_bls12_381::Bls12_381::pairing(g1.raw.v, g2.raw.v).0 },
        model: Ghost(arbitrary()),
    }
}

/// Relies on the batched multi-pairing (one shared accumulation loop
/// followed by a single final exponentiation): for equal-length inputs
/// of subgroup points it returns the product of the individual
/// pairings, the generator power of the accumulated exponent. The
/// per-element conversions fan out across the worker-thread pool and
/// the reduction is deterministic.
#[verifier::external_body]
fn gt_multi_pairing_raw(g1s: &Vec<G1Point>, g2s: &Vec<G2Point>) -> (r: GT)
    requires
        g1s@.len() == g2s@.len(),
    ensures
        (forall|i: int| 0 <= i < g1s@.len() ==> (#[trigger] g1s@[i]).wf()) && (forall|i: int|
            0 <= i < g2s@.len() ==> (#[trigger] g2s@[i]).wf()) ==> r.repr() == gt_pairing_power(
            pairing_acc(g1s@, g2s@),
        ),
{
    let a: Vec<ark_bls12_381::G1Affine> = g1s.par_iter().map(|p| p.raw.v.into()).collect();
    let b: Vec<ark_bls12_381::G2Affine> = g2s.par_iter().map(|q| q.raw.v.into()).collect();
    GT {
        raw: GtRaw { v: ark_bls12_381::Bls12_381::multi_pairing(a, b).0 },
        model: Ghost(arbitrary()),
    }
}

/// Relies on extension-field addition.
#[verifier::external_body]
fn gt_add_raw(a: &GT, b: &GT) -> (r: GT)
    ensures
        r.repr() == gt_add_repr(a.repr(), b.repr()),
{
    GT { raw: GtRaw { v: a.raw.v + b.raw.v }, model: Ghost(arbitrary()) }
}

/// Relies on extension-field subtraction.
#[verifier::external_body]
fn gt_sub_raw(a: &GT, b: &GT) -> (r: GT)
    ensures
        r.repr() == gt_sub_repr(a.repr(), b.repr()),
{
    GT { raw: GtRaw { v: a.raw.v - b.raw.v }, model: Ghost(arbitrary()) }
}

/// Relies on extension-field multiplication, and on the cyclic
/// structure of the pairing target group: multiplying generator powers
/// adds their exponents modulo the group order.
#[verifier::external_body]
fn gt_mul_raw(a: &GT, b: &GT) -> (r: GT)
    ensures
        r.repr() == gt_mul_repr(a.repr(), b.repr()),
        forall|j: nat, k: nat|
            j < group_order() && k < group_order() && a.repr() == #[trigger] gt_pairing_power(j)
                && b.repr() == #[trigger] gt_pairing_power(k) ==> r.repr() == gt_pairing_power(
                add_mod(j, k),
            ),
{
    GT { raw: GtRaw { v: a.raw.v * b.raw.v }, model: Ghost(arbitrary()) }
}

/// Relies on extension-field negation.
#[verifier::external_body]
fn gt_neg_raw(a: &GT) -> (r: GT)
    ensures
        r.repr() == gt_neg_repr(a.repr()),
{
    GT { raw: GtRaw { v: -a.raw.v }, model: Ghost(arbitrary()) }
}

/// Relies on extension-field equality: canonical encodings agree
/// exactly when the elements are equal.
#[verifier::external_body]
fn gt_eq_raw(a: &GT, b: &GT) -> (r: bool)
    ensures
        r == (a.repr() == b.repr()),
{
    a.raw.v == b.raw.v
}

/// Relies on compressed serialization of extension-field elements: the
/// 576-byte concatenation of the canonical little-endian coordinate
/// encodings, a pure function of the element, accepted back by the
/// decoder. Writing into a growable buffer cannot fail.
#[verifier::external_body]
fn gt_to_bytes_raw(a: &GT) -> (r: Vec<u8>)
    ensures
        r@ == a.repr(),
        r@.len() == 576,
        gt_decodable(r@),
{
    let mut out = Vec::new();
    a.raw.v
        .serialize_compressed(&mut out)
        .expect("writing into a growable buffer cannot fail");
    out
}

/// Relies on checked deserialization of extension-field elements: reads
/// the 576 bytes coordinate by coordinate, refusing any coordinate at
/// or above the base field order, the only failure an exactly-sized
/// in-memory buffer can produce; re-encoding the element returns the
/// same bytes.
#[verifier::external_body]
fn gt_from_bytes_raw(bytes: &Vec<u8>) -> (r: Result<GT, AlgebraError>)
    requires
        bytes@.len() == 576,
    ensures
        match r {
            Ok(g) => gt_decodable(bytes@) && g.repr() == bytes@,
            Err(e) => !gt_decodable(bytes@) && e == AlgebraError::MalformedInput,
        },
{
    match ark_bls12_381::Fq12::deserialize_compressed(&bytes[..]) {
        Ok(v) => Ok(GT { raw: GtRaw { v }, model: Ghost(arbitrary()) }),
        Err(_) => Err(AlgebraError::MalformedInput),
    }
}

} // verus!
