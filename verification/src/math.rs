//! Facts about integer (floor) division used by the pricing proofs.

use vstd::prelude::*;
use vstd::arithmetic::div_mod::{
    lemma_div_is_ordered, lemma_fundamental_div_mod, lemma_div_by_multiple,
};
use vstd::arithmetic::mul::{lemma_mul_inequality, lemma_mul_is_commutative};

verus! {

/// A quotient is at least `c` as soon as the numerator reaches `c * d`.
pub proof fn lemma_div_at_least(x: int, d: int, c: int)
    requires
        0 <= c,
        0 < d,
        c * d <= x,
    ensures
        c <= x / d,
{
    lemma_div_is_ordered(c * d, x, d);
    lemma_div_by_multiple(c, d);
}

/// A quotient stays below `c` as long as the numerator stays below `c * d`.
pub proof fn lemma_div_below(x: int, d: int, c: int)
    requires
        0 <= x,
        0 < d,
        x < c * d,
    ensures
        x / d < c,
{
    lemma_mul_is_commutative(c, d);
    vstd::arithmetic::div_mod::lemma_multiply_divide_lt(x, d, c);
}

/// Cross-multiplied fractions compare the same way their quotients do:
/// from `p * s <= r * q` follows `p / q <= r / s`.
pub proof fn lemma_div_cross_le(p: int, q: int, r: int, s: int)
    requires
        0 <= p,
        0 < q,
        0 <= r,
        0 < s,
        p * s <= r * q,
    ensures
        p / q <= r / s,
{
    let k = p / q;
    vstd::arithmetic::div_mod::lemma_div_pos_is_pos(p, q);
    lemma_fundamental_div_mod(p, q);
    assert(q * k <= p);
    lemma_mul_is_commutative(q, k);
    lemma_mul_inequality(k * q, p, s);
    assert((k * q) * s <= p * s);
    assert((k * s) * q == (k * q) * s) by (nonlinear_arith);
    assert((k * s) * q <= r * q);
    assert(k * s <= r) by (nonlinear_arith)
        requires
            (k * s) * q <= r * q,
            0 < q;
    lemma_div_at_least(r, s, k);
}

} // verus!
