//! Shared canonical byte-encoding logic: the error taxonomy, the
//! little-endian integer encoding used by the scalar field, hexadecimal
//! rendering, and buffered writes of already-encoded values.

use vstd::prelude::*;

use vstd::string::StringExecFns;

use crate::algebra::group_order;

verus! {

/// The error taxonomy of the facade. Decode and comparison failures are
/// returned to the immediate caller as one of these kinds; no operation
/// retries, and no failure corrupts any other value.
#[derive(Clone, Copy, Debug, PartialEq, Eq, Structural)]
pub enum AlgebraError {
    /// A destination buffer is too small to hold a canonical encoding.
    InsufficientBuffer,
    /// Decoded bytes fail structural validation or, in checked mode, the
    /// subgroup-membership test.
    MalformedInput,
    /// An underlying byte-stream operation failed independent of the
    /// encoded value's validity.
    IoFailure,
    /// An ordering comparison was requested on values that only support
    /// equality and inequality.
    UnsupportedComparison,
}

/// The comparison operators a caller may request of the element types.
/// Only equality and inequality are supported; the others are refused
/// with `AlgebraError::UnsupportedComparison`.
#[derive(Clone, Copy, Debug, PartialEq, Eq, Structural)]
pub enum ComparisonOp {
    Less,
    LessOrEqual,
    Equal,
    NotEqual,
    Greater,
    GreaterOrEqual,
}

impl AlgebraError {
    /// The caller-facing message of this error kind. The serialization
    /// kinds carry the prefix that marks them as raised by the library;
    /// a refused comparison reports the operator as unimplemented.
    pub open spec fn message_view(self) -> Seq<char> {
        match self {
            AlgebraError::InsufficientBuffer => "Err From Rust: "@
                + "not enough space has been allocated to serialise the object"@,
            AlgebraError::MalformedInput => "Err From Rust: "@
                + "serialised data seems to be invalid"@,
            AlgebraError::IoFailure => "Err From Rust: "@
                + "the underlying byte-stream operation failed"@,
            AlgebraError::UnsupportedComparison => "comparison operator not implemented"@,
        }
    }

    /// Renders the caller-facing message of this error kind.
    pub fn message(&self) -> (r: String)
        ensures
            r@ == self.message_view(),
    {
        match self {
            AlgebraError::InsufficientBuffer => wrap_err_string(
                String::from_str("not enough space has been allocated to serialise the object"),
            ),
            AlgebraError::MalformedInput => wrap_err_string(
                String::from_str("serialised data seems to be invalid"),
            ),
            AlgebraError::IoFailure => wrap_err_string(
                String::from_str("the underlying byte-stream operation failed"),
            ),
            AlgebraError::UnsupportedComparison => String::from_str(
                "comparison operator not implemented",
            ),
        }
    }
}

/// Prefixes an error description with the marker that identifies the
/// library as its origin.
pub fn wrap_err_string(err: String) -> (r: String)
    ensures
        r@ == "Err From Rust: "@ + err@,
{
    let prefix = String::from_str("Err From Rust: ");
    prefix.concat(err.as_str())
}

impl ComparisonOp {
    /// Whether the facade supports this operator at all.
    pub open spec fn supported(self) -> bool {
        self == ComparisonOp::Equal || self == ComparisonOp::NotEqual
    }
}

/// The value of a byte string read as a little-endian base-256 integer.
pub open spec fn le_int(bytes: Seq<u8>) -> nat
    decreases bytes.len(),
{
    if bytes.len() == 0 {
        0
    } else {
        (bytes[0] + 256 * le_int(bytes.skip(1))) as nat
    }
}

/// The `n`-byte little-endian base-256 encoding of `v` (mod 256^n).
pub open spec fn le_bytes(v: nat, n: nat) -> Seq<u8>
    decreases n,
{
    if n == 0 {
        Seq::empty()
    } else {
        seq![(v % 256) as u8] + le_bytes(v / 256, (n - 1) as nat)
    }
}

/// 256 raised to the power `n`.
pub open spec fn pow256(n: nat) -> nat
    decreases n,
{
    if n == 0 {
        1
    } else {
        256 * pow256((n - 1) as nat)
    }
}

/// The little-endian encoding has the stated width.
pub proof fn lemma_le_bytes_len(v: nat, n: nat)
    ensures
        le_bytes(v, n).len() == n,
    decreases n,
{
    if n > 0 {
        lemma_le_bytes_len(v / 256, (n - 1) as nat);
    }
}

/// Reading back the little-endian encoding of a value below 256^n
/// returns that value: the encoding round-trips.
pub proof fn lemma_le_round_trip(v: nat, n: nat)
    requires
        v < pow256(n),
    ensures
        le_int(le_bytes(v, n)) == v,
    decreases n,
{
    if n > 0 {
        let rest = le_bytes(v / 256, (n - 1) as nat);
        assert(le_bytes(v, n).skip(1) =~= rest);
        assert(v / 256 < pow256((n - 1) as nat)) by {
            assert(v < 256 * pow256((n - 1) as nat));
        };
        lemma_le_round_trip(v / 256, (n - 1) as nat);
        assert(v == 256 * (v / 256) + v % 256) by {
            vstd::arithmetic::div_mod::lemma_fundamental_div_mod(v as int, 256);
        };
    }
}

/// The group order is below 256^32, so every reduced scalar value has a
/// 32-byte little-endian encoding that round-trips.
pub proof fn lemma_order_fits_32_bytes()
    ensures
        group_order() < pow256(32),
{
    assert(pow256(32) == 0x10000000000000000000000000000000000000000000000000000000000000000nat)
        by {
        reveal_with_fuel(pow256, 33);
    };
}

/// The lowercase hexadecimal digit for a value below 16.
pub open spec fn hex_digit(v: u8) -> char {
    if v < 10 {
        (('0' as u8) + v) as char
    } else {
        (('a' as u8) + (v - 10)) as char
    }
}

/// The lowercase hexadecimal rendering of a byte string, two digits for
/// each byte, high nibble first, no prefix.
pub open spec fn hex_of(bytes: Seq<u8>) -> Seq<char>
    decreases bytes.len(),
{
    if bytes.len() == 0 {
        Seq::empty()
    } else {
        seq![hex_digit(bytes[0] / 16), hex_digit(bytes[0] % 16)] + hex_of(bytes.skip(1))
    }
}

/// Relies on `hex::encode`: the rendering of each byte is its two
/// lowercase hexadecimal digits, high nibble first, with no prefix.
#[verifier::external_body]
pub(crate) fn hex_encode(bytes: &Vec<u8>) -> (r: String)
    ensures
        r@ == hex_of(bytes@),
{
    hex::encode(bytes)
}

/// Copies an already-encoded value into a caller-supplied buffer,
/// refusing a buffer that is too small. The buffer's remainder past the
/// encoding is left as it was.
pub fn write_encoding(src: &Vec<u8>, dest: &mut Vec<u8>) -> (r: Result<(), AlgebraError>)
    ensures
        match r {
            Ok(()) => old(dest)@.len() >= src@.len() && final(dest)@ == src@
                + old(dest)@.skip(src@.len() as int),
            Err(e) => old(dest)@.len() < src@.len() && e == AlgebraError::InsufficientBuffer
                && final(dest)@ == old(dest)@,
        },
{
    if dest.len() < src.len() {
        return Err(AlgebraError::InsufficientBuffer);
    }
    let n = src.len();
    let mut i: usize = 0;
    while i < n
        invariant
            n == src@.len(),
            i <= n,
            dest@.len() == old(dest)@.len(),
            n <= dest@.len(),
            forall|j: int| 0 <= j < i ==> dest@[j] == src@[j],
            forall|j: int| i <= j < dest@.len() ==> dest@[j] == old(dest)@[j],
        decreases n - i,
    {
        let b = src[i];
        dest.set(i, b);
        i = i + 1;
    }
    proof {
        assert(dest@ =~= src@ + old(dest)@.skip(src@.len() as int));
    }
    Ok(())
}

} // verus!
