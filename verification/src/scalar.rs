//! The scalar field element type: arithmetic modulo the group order,
//! equality, and the canonical 32-byte little-endian encoding.
//!
//! Each value carries, beside the opaque field element of the
//! curve-arithmetic library, a ghost model: its reduced integer value.
//! The model is maintained solely by the trusted wrappers in this file;
//! everything else about the type is proved from their contracts.

use vstd::prelude::*;

use ark_ff::Field;
use ark_serialize::{CanonicalDeserialize, CanonicalSerialize};
use vstd::pervasive::{arbitrary, unreached};

use crate::algebra::{
    add_mod, group_order, lemma_mod_results_reduced, mul_mod, neg_mod, sub_mod,
};
use crate::backend::ScalarRaw;
use crate::codec::{
    hex_encode, hex_of, le_bytes, le_int, lemma_le_bytes_len, lemma_le_round_trip,
    lemma_order_fits_32_bytes, write_encoding, AlgebraError, ComparisonOp,
};

verus! {

/// An element of the curve's scalar field: an immutable value whose
/// canonical form is reduced modulo the field order.
#[derive(Clone, Copy)]
pub struct Scalar {
    pub(crate) raw: ScalarRaw,
    pub(crate) model: Ghost<nat>,
}

impl Scalar {
    /// The reduced integer value of this field element.
    pub closed spec fn value(self) -> nat {
        self.model@
    }

    /// Validity: the value is a reduced residue. Every scalar this
    /// library hands out satisfies it.
    pub open spec fn wf(self) -> bool {
        self.value() < group_order()
    }

    /// Constructs the field element of a nonnegative integer, reduced
    /// modulo the field order. The order exceeds 2^128, so a 128-bit
    /// integer is never actually reduced.
    pub fn new(integer: u128) -> (r: Scalar)
        ensures
            r.wf(),
            r.value() == integer as nat,
    {
        fr_from_u128(integer)
    }

    /// Field addition.
    pub fn add(&self, rhs: &Scalar) -> (r: Scalar)
        ensures
            r.wf(),
            r.value() == add_mod(self.value(), rhs.value()),
    {
        proof {
            lemma_mod_results_reduced(self.value(), rhs.value());
        }
        fr_add(self, rhs)
    }

    /// Field subtraction.
    pub fn sub(&self, rhs: &Scalar) -> (r: Scalar)
        ensures
            r.wf(),
            r.value() == sub_mod(self.value(), rhs.value()),
    {
        proof {
            lemma_mod_results_reduced(self.value(), rhs.value());
        }
        fr_sub(self, rhs)
    }

    /// Field multiplication.
    pub fn mul(&self, rhs: &Scalar) -> (r: Scalar)
        ensures
            r.wf(),
            r.value() == mul_mod(self.value(), rhs.value()),
    {
        proof {
            lemma_mod_results_reduced(self.value(), rhs.value());
        }
        fr_mul(self, rhs)
    }

    /// Field negation.
    pub fn negate(&self) -> (r: Scalar)
        ensures
            r.wf(),
            r.value() == neg_mod(self.value()),
    {
        proof {
            lemma_mod_results_reduced(self.value(), self.value());
        }
        fr_neg(self)
    }

    /// The square of this element.
    pub fn square(&self) -> (r: Scalar)
        ensures
            r.wf(),
            r.value() == mul_mod(self.value(), self.value()),
    {
        proof {
            lemma_mod_results_reduced(self.value(), self.value());
        }
        fr_square(self)
    }

    /// The multiplicative inverse for nonzero input. Inverting the
    /// additive identity returns the additive identity rather than
    /// failing: a deliberate fallback policy, not an error.
    pub fn inverse(&self) -> (r: Scalar)
        requires
            self.wf(),
        ensures
            r.wf(),
            self.value() == 0 ==> r.value() == 0,
            self.value() != 0 ==> mul_mod(r.value(), self.value()) == 1,
    {
        fr_inverse(self)
    }

    /// Whether this element is the additive identity.
    pub fn is_zero(&self) -> (r: bool)
        ensures
            r == (self.value() == 0),
    {
        fr_is_zero(self)
    }

    /// Whether the two elements are equal.
    pub fn equals(&self, other: &Scalar) -> (r: bool)
        ensures
            r == (self.value() == other.value()),
    {
        fr_eq(self, other)
    }

    /// Answers a comparison request. Only equality and inequality are
    /// supported; an ordering request is a contract violation and is
    /// refused with `UnsupportedComparison`.
    pub fn richcmp(&self, other: &Scalar, op: ComparisonOp) -> (r: Result<bool, AlgebraError>)
        ensures
            match r {
                Ok(b) => op.supported() && b == if op == ComparisonOp::Equal {
                    self.value() == other.value()
                } else {
                    self.value() != other.value()
                },
                Err(e) => !op.supported() && e == AlgebraError::UnsupportedComparison,
            },
    {
        match op {
            ComparisonOp::Equal => Ok(self.equals(other)),
            ComparisonOp::NotEqual => Ok(!self.equals(other)),
            _ => Err(AlgebraError::UnsupportedComparison),
        }
    }

    /// The canonical 32-byte little-endian encoding of this element.
    /// Encoding is total and infallible.
    pub fn to_le_bytes(&self) -> (r: Vec<u8>)
        requires
            self.wf(),
        ensures
            r@ == le_bytes(self.value(), 32),
            r@.len() == 32,
    {
        proof {
            lemma_le_bytes_len(self.value(), 32);
        }
        fr_to_le_bytes(self)
    }

    /// Writes the canonical encoding into a caller-supplied buffer,
    /// refusing one that is too small for the 32 bytes.
    pub fn encode_into(&self, dest: &mut Vec<u8>) -> (r: Result<(), AlgebraError>)
        requires
            self.wf(),
        ensures
            match r {
                Ok(()) => old(dest)@.len() >= 32 && final(dest)@ == le_bytes(self.value(), 32)
                    + old(dest)@.skip(32),
                Err(e) => old(dest)@.len() < 32 && e == AlgebraError::InsufficientBuffer
                    && final(dest)@ == old(dest)@,
            },
    {
        let bytes = self.to_le_bytes();
        write_encoding(&bytes, dest)
    }

    /// Checked decoding of the canonical 32-byte little-endian form.
    /// Succeeds exactly on 32-byte strings whose integer value is below
    /// the field order; anything else is malformed input.
    pub fn from_le_bytes(bytes: &Vec<u8>) -> (r: Result<Scalar, AlgebraError>)
        ensures
            match r {
                Ok(s) => bytes@.len() == 32 && le_int(bytes@) < group_order() && s.wf()
                    && s.value() == le_int(bytes@),
                Err(e) => (bytes@.len() != 32 || le_int(bytes@) >= group_order())
                    && e == AlgebraError::MalformedInput,
            },
    {
        if bytes.len() != 32 {
            return Err(AlgebraError::MalformedInput);
        }
        fr_from_le_bytes(bytes)
    }

    /// Witnesses the round-trip law: decoding the canonical encoding of
    /// any scalar returns an equal scalar, and in particular the decode
    /// cannot fail.
    pub fn codec_round_trip(&self) -> (r: Scalar)
        requires
            self.wf(),
        ensures
            r.wf(),
            r.value() == self.value(),
    {
        let bytes = self.to_le_bytes();
        proof {
            lemma_order_fits_32_bytes();
            lemma_le_round_trip(self.value(), 32);
        }
        match Scalar::from_le_bytes(&bytes) {
            Ok(s) => s,
            Err(_) => unreached(),
        }
    }

    /// The lowercase hexadecimal rendering of the canonical encoding.
    pub fn to_hex_string(&self) -> (r: String)
        requires
            self.wf(),
        ensures
            r@ == hex_of(le_bytes(self.value(), 32)),
    {
        let bytes = self.to_le_bytes();
        hex_encode(&bytes)
    }
}

/// Relies on `Fr::from` on a 128-bit integer: the reduction of the
/// integer modulo the field order, which exceeds 2^128 and so leaves the
/// integer unchanged.
#[verifier::external_body]
fn fr_from_u128(x: u128) -> (r: Scalar)
    ensures
        r.value() == x as nat,
{
    Scalar { raw: ScalarRaw { v: ark_bls12_381::Fr::from(x) }, model: Ghost(arbitrary()) }
}

/// Relies on scalar-field addition: the sum of the reduced values,
/// reduced modulo the field order.
#[verifier::external_body]
fn fr_add(a: &Scalar, b: &Scalar) -> (r: Scalar)
    ensures
        r.value() == add_mod(a.value(), b.value()),
{
    Scalar { raw: ScalarRaw { v: a.raw.v + b.raw.v }, model: Ghost(arbitrary()) }
}

/// Relies on scalar-field subtraction: the difference of the reduced
/// values, reduced modulo the field order.
#[verifier::external_body]
fn fr_sub(a: &Scalar, b: &Scalar) -> (r: Scalar)
    ensures
        r.value() == sub_mod(a.value(), b.value()),
{
    Scalar { raw: ScalarRaw { v: a.raw.v - b.raw.v }, model: Ghost(arbitrary()) }
}

/// Relies on scalar-field multiplication: the product of the reduced
/// values, reduced modulo the field order.
#[verifier::external_body]
fn fr_mul(a: &Scalar, b: &Scalar) -> (r: Scalar)
    ensures
        r.value() == mul_mod(a.value(), b.value()),
{
    Scalar { raw: ScalarRaw { v: a.raw.v * b.raw.v }, model: Ghost(arbitrary()) }
}

/// Relies on scalar-field negation: the additive inverse of the reduced
/// value modulo the field order.
#[verifier::external_body]
fn fr_neg(a: &Scalar) -> (r: Scalar)
    ensures
        r.value() == neg_mod(a.value()),
{
    Scalar { raw: ScalarRaw { v: -a.raw.v }, model: Ghost(arbitrary()) }
}

/// Relies on `Field::square`: the square of the reduced value modulo the
/// field order.
#[verifier::external_body]
fn fr_square(a: &Scalar) -> (r: Scalar)
    ensures
        r.value() == mul_mod(a.value(), a.value()),
{
    Scalar { raw: ScalarRaw { v: a.raw.v.square() }, model: Ghost(arbitrary()) }
}

/// Relies on `Field::inverse` combined with `unwrap_or_default`: the
/// multiplicative inverse of a nonzero element, and the zero element
/// (the field's default) when the input is zero.
#[verifier::external_body]
fn fr_inverse(a: &Scalar) -> (r: Scalar)
    requires
        a.wf(),
    ensures
        r.wf(),
        a.value() == 0 ==> r.value() == 0,
        a.value() != 0 ==> mul_mod(r.value(), a.value()) == 1,
{
    Scalar { raw: ScalarRaw { v: a.raw.v.inverse().unwrap_or_default() }, model: Ghost(arbitrary()) }
}

/// Relies on `Field::is_zero` (through the zero test of the field
/// element): true exactly when the reduced value is zero.
#[verifier::external_body]
fn fr_is_zero(a: &Scalar) -> (r: bool)
    ensures
        r == (a.value() == 0),
{
    num_traits::Zero::is_zero(&a.raw.v)
}

/// Relies on field-element equality: canonical internal representations
/// are equal exactly when the reduced values are equal.
#[verifier::external_body]
fn fr_eq(a: &Scalar, b: &Scalar) -> (r: bool)
    ensures
        r == (a.value() == b.value()),
{
    a.raw.v == b.raw.v
}

/// Relies on canonical serialization of scalar field elements: exactly
/// 32 bytes, the reduced value in little-endian base 256. Writing into
/// an exactly-sized in-memory buffer cannot fail.
#[verifier::external_body]
fn fr_to_le_bytes(a: &Scalar) -> (r: Vec<u8>)
    requires
        a.wf(),
    ensures
        r@ == le_bytes(a.value(), 32),
{
    let mut out = vec![0u8; 32];
    a.raw.v
        .serialize_compressed(&mut out[..])
        .expect("a 32-byte buffer holds the compressed scalar encoding");
    out
}

/// Relies on checked deserialization of scalar field elements: reads 32
/// little-endian bytes and refuses an integer at or above the field
/// order, the only failure an exactly-sized in-memory buffer can
/// produce.
#[verifier::external_body]
fn fr_from_le_bytes(bytes: &Vec<u8>) -> (r: Result<Scalar, AlgebraError>)
    requires
        bytes@.len() == 32,
    ensures
        match r {
            Ok(s) => le_int(bytes@) < group_order() && s.value() == le_int(bytes@),
            Err(e) => le_int(bytes@) >= group_order() && e == AlgebraError::MalformedInput,
        },
{
    match ark_bls12_381::Fr::deserialize_compressed(&bytes[..]) {
        Ok(v) => Ok(Scalar { raw: ScalarRaw { v }, model: Ghost(arbitrary()) }),
        Err(_) => Err(AlgebraError::MalformedInput),
    }
}

} // verus!
