use vstd::prelude::*;

use vstd::arithmetic::div_mod::{
    lemma_add_mod_noop, lemma_mod_self_0, lemma_mul_mod_noop_general, lemma_mul_mod_noop_left,
    lemma_mul_mod_noop_right, lemma_small_mod,
};
use vstd::arithmetic::mul::lemma_mul_is_distributive_add;

verus! {

/// Order of the prime-order subgroup shared by both curve groups and the
/// pairing target group; equally the number of elements of the scalar field.
pub open spec fn group_order() -> nat {
    0x73eda753299d7d483339d80809a1d80553bda402fffe5bfeffffffff00000001nat
}

/// Addition of residues modulo the group order.
pub open spec fn add_mod(a: nat, b: nat) -> nat {
    (a + b) % group_order()
}

/// Multiplication of residues modulo the group order.
pub open spec fn mul_mod(a: nat, b: nat) -> nat {
    (a * b) % group_order()
}

/// Additive inverse of a residue modulo the group order.
pub open spec fn neg_mod(a: nat) -> nat {
    (((group_order() - a) % (group_order() as int))) as nat
}

/// Subtraction of residues modulo the group order.
pub open spec fn sub_mod(a: nat, b: nat) -> nat {
    add_mod(a, neg_mod(b))
}

/// Every modular result is itself a reduced residue.
pub proof fn lemma_mod_results_reduced(a: nat, b: nat)
    ensures
        add_mod(a, b) < group_order(),
        mul_mod(a, b) < group_order(),
        neg_mod(a) < group_order(),
        sub_mod(a, b) < group_order(),
{
}

/// The group neutral element is neutral: adding the zero residue to a
/// reduced residue returns it unchanged.
pub proof fn lemma_add_zero(x: nat)
    requires
        x < group_order(),
    ensures
        add_mod(0, x) == x,
        add_mod(x, 0) == x,
{
    lemma_small_mod(x, group_order());
}

/// Adding the additive inverse of a reduced residue gives the zero
/// residue: a point plus its negation is the identity.
pub proof fn lemma_add_neg(x: nat)
    requires
        x < group_order(),
    ensures
        add_mod(x, neg_mod(x)) == 0,
{
    let m = group_order();
    if x == 0 {
        assert(neg_mod(0) == 0) by {
            lemma_mod_self_0(m as int);
        };
        lemma_small_mod(0, m);
    } else {
        assert(neg_mod(x) == m - x) by {
            lemma_small_mod((m - x) as nat, m);
        };
        lemma_mod_self_0(m as int);
    }
}

/// Scalar action distributes over scalar addition: multiplying a residue
/// by a sum of residues equals the sum of the two products.
pub proof fn lemma_mul_distributes(p: nat, a: nat, b: nat)
    ensures
        mul_mod(p, add_mod(a, b)) == add_mod(mul_mod(p, a), mul_mod(p, b)),
{
    let m = group_order() as int;
    let p = p as int;
    let a = a as int;
    let b = b as int;
    assert((p * ((a + b) % m)) % m == (p * (a + b)) % m) by {
        lemma_mul_mod_noop_right(p, a + b, m);
    };
    assert(p * (a + b) == p * a + p * b) by {
        lemma_mul_is_distributive_add(p, a, b);
    };
    assert(((p * a) % m + (p * b) % m) % m == (p * a + p * b) % m) by {
        lemma_add_mod_noop(p * a, p * b, m);
    };
}

/// Modular multiplication commutes and associates after reduction:
/// the product of two reduced products equals the product obtained by
/// regrouping the four factors. Stated in the shape the bilinearity of
/// the pairing takes over discrete logarithms.
pub proof fn lemma_mul_regroup(p: nat, a: nat, q: nat, b: nat)
    ensures
        mul_mod(mul_mod(p, a), mul_mod(q, b)) == mul_mod(mul_mod(p, mul_mod(a, b)), q),
{
    let m = group_order() as int;
    let p = p as int;
    let a = a as int;
    let q = q as int;
    let b = b as int;
    assert((((p * a) % m) * ((q * b) % m)) % m == ((p * a) * (q * b)) % m) by {
        lemma_mul_mod_noop_general(p * a, q * b, m);
    };
    assert((p * ((a * b) % m)) % m == (p * (a * b)) % m) by {
        lemma_mul_mod_noop_right(p, a * b, m);
    };
    assert((((p * (a * b)) % m) * q) % m == ((p * (a * b)) * q) % m) by {
        lemma_mul_mod_noop_left(p * (a * b), q, m);
    };
    assert((p * a) * (q * b) == (p * (a * b)) * q) by (nonlinear_arith);
}

} // verus!
