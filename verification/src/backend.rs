//! Opaque holders for the values of the curve-arithmetic library.
//!
//! Verus refuses a direct declaration of the library's generic field and
//! curve types (their trait bounds are outside traits), so each value is
//! kept in a holder struct whose body is hidden. Nothing is assumed of a
//! holder here; the trusted wrappers beside each element type say what the
//! library's calls return, in terms of ghost models carried beside the
//! holders.

use vstd::prelude::*;

verus! {

/// Holds one element of the scalar field of the curve.
#[verifier::external_body]
pub struct ScalarRaw {
    pub(crate) v: ark_bls12_381::Fr,
}

/// Holds one point of the first curve group, in projective form.
#[verifier::external_body]
pub struct G1Raw {
    pub(crate) v: ark_bls12_381::G1Projective,
}

/// Holds one point of the second curve group, in projective form.
#[verifier::external_body]
pub struct G2Raw {
    pub(crate) v: ark_bls12_381::G2Projective,
}

/// Holds one element of the degree-twelve extension field that the
/// pairing maps into.
#[verifier::external_body]
pub struct GtRaw {
    pub(crate) v: ark_bls12_381::Fq12,
}

impl Clone for ScalarRaw {
    /// Relies on the scalar field element being a plain copyable value.
    #[verifier::external_body]
    fn clone(&self) -> (r: Self)
        ensures
            r == *self,
    {
        ScalarRaw { v: self.v }
    }
}

impl Copy for ScalarRaw {

}

impl Clone for G1Raw {
    /// Relies on the curve point being a plain copyable value.
    #[verifier::external_body]
    fn clone(&self) -> (r: Self)
        ensures
            r == *self,
    {
        G1Raw { v: self.v }
    }
}

impl Copy for G1Raw {

}

impl Clone for G2Raw {
    /// Relies on the curve point being a plain copyable value.
    #[verifier::external_body]
    fn clone(&self) -> (r: Self)
        ensures
            r == *self,
    {
        G2Raw { v: self.v }
    }
}

impl Copy for G2Raw {

}

impl Clone for GtRaw {
    /// Relies on the extension-field element being a plain copyable value.
    #[verifier::external_body]
    fn clone(&self) -> (r: Self)
        ensures
            r == *self,
    {
        GtRaw { v: self.v }
    }
}

impl Copy for GtRaw {

}

} // verus!
