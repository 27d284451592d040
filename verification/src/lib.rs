//! A facade exposing pairing-friendly elliptic-curve algebra over the
//! BLS12-381 curve family: two curve point groups, a scalar field, and
//! a pairing target group, with canonical compressed byte encodings,
//! batched multi-scalar multiplication and multi-pairing.
//!
//! The underlying finite-field and curve-point arithmetic is consumed
//! from a curve-arithmetic library through trusted wrappers; everything
//! the facade itself promises — operator semantics over the mathematical
//! models, the error taxonomy, the byte formats, and the algebraic laws
//! in `laws` — is stated in contracts and proved.

use vstd::prelude::*;

pub mod algebra;
mod backend;
pub mod codec;
pub mod g1;
pub mod g2;
pub mod gt;
pub mod laws;
pub mod scalar;

pub use codec::AlgebraError;
pub use codec::ComparisonOp;
pub use g1::G1Point;
pub use g2::G2Point;
pub use gt::GT;
pub use scalar::Scalar;

verus! {

} // verus!
