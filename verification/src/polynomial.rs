//! Identities between polynomials over the integers on which the laws of the
//! group rest. Each is proved by multiplying out both sides: the distributive
//! law on every product of sums, and the order of the factors in every
//! product of monomials.

use vstd::prelude::*;
use vstd::arithmetic::mul::{
    lemma_mul_is_distributive_add, lemma_mul_is_distributive_add_other_way,
    lemma_mul_is_distributive_sub, lemma_mul_is_distributive_sub_other_way,
};
use crate::monomial::lemma_mul_equals;

verus! {

/// With `H = y1 y2 + x1 x2` and `E = (x1 + y1)(x2 + y2) - H`:
/// `H^2 - E^2 = (y1^2 - x1^2)(y2^2 - x2^2)`.
pub proof fn lemma_h2_minus_e2(x1: int, y1: int, x2: int, y2: int)
    ensures
        (y1 * y2 + x1 * x2) * (y1 * y2 + x1 * x2) - ((x1 + y1) * (x2 + y2) - (y1 * y2 + x1 * x2)) * ((x1 + y1) * (x2 + y2) - (y1 * y2 + x1 * x2)) == (y1 * y1 - x1 * x1) * (y2 * y2 - x2 * x2),
{
    assert((y1 * y2 + x1 * x2) * (y1 * y2 + x1 * x2) == x1 * x1 * x2 * x2 + 2 * (x1 * x2 * y1 * y2) + y1 * y1 * y2 * y2) by {
        lemma_mul_equals(y1 * y2 + x1 * x2, x1 * x2 + y1 * y2, y1 * y2 + x1 * x2, x1 * x2 + y1 * y2);
        lemma_mul_is_distributive_add(x1 * x2 + y1 * y2, x1 * x2, y1 * y2);
        lemma_mul_is_distributive_add_other_way(x1 * x2, x1 * x2, y1 * y2);
        lemma_mul_is_distributive_add_other_way(y1 * y2, x1 * x2, y1 * y2);
        assert((x1 * x2) * (x1 * x2) == x1 * x1 * x2 * x2
            && (x1 * x2) * (y1 * y2) == x1 * x2 * y1 * y2
            && (y1 * y2) * (x1 * x2) == x1 * x2 * y1 * y2) by (nonlinear_arith);
        assert((y1 * y2) * (y1 * y2) == y1 * y1 * y2 * y2) by (nonlinear_arith);
    };
    assert((x1 + y1) * (x2 + y2) == x1 * x2 + x1 * y2 + x2 * y1 + y1 * y2) by {
        lemma_mul_is_distributive_add(x1 + y1, x2, y2);
        lemma_mul_is_distributive_add_other_way(x2, x1, y1);
        lemma_mul_is_distributive_add_other_way(y2, x1, y1);
        assert(y1 * x2 == x2 * y1) by (nonlinear_arith);
    };
    assert(((x1 + y1) * (x2 + y2) - (y1 * y2 + x1 * x2)) * ((x1 + y1) * (x2 + y2) - (y1 * y2 + x1 * x2)) == x1 * x1 * y2 * y2 + 2 * (x1 * x2 * y1 * y2) + x2 * x2 * y1 * y1) by {
        lemma_mul_equals((x1 + y1) * (x2 + y2) - (y1 * y2 + x1 * x2), x1 * y2 + x2 * y1, (x1 + y1) * (x2 + y2) - (y1 * y2 + x1 * x2), x1 * y2 + x2 * y1);
        lemma_mul_is_distributive_add(x1 * y2 + x2 * y1, x1 * y2, x2 * y1);
        lemma_mul_is_distributive_add_other_way(x1 * y2, x1 * y2, x2 * y1);
        lemma_mul_is_distributive_add_other_way(x2 * y1, x1 * y2, x2 * y1);
        assert((x1 * y2) * (x1 * y2) == x1 * x1 * y2 * y2
            && (x1 * y2) * (x2 * y1) == x1 * x2 * y1 * y2
            && (x2 * y1) * (x1 * y2) == x1 * x2 * y1 * y2) by (nonlinear_arith);
        assert((x2 * y1) * (x2 * y1) == x2 * x2 * y1 * y1) by (nonlinear_arith);
    };
    assert((y1 * y1 - x1 * x1) * (y2 * y2 - x2 * x2) == x1 * x1 * x2 * x2 + y1 * y1 * y2 * y2 - x1 * x1 * y2 * y2 - x2 * x2 * y1 * y1) by {
        lemma_mul_is_distributive_sub(y1 * y1 - x1 * x1, y2 * y2, x2 * x2);
        lemma_mul_is_distributive_sub_other_way(y2 * y2, y1 * y1, x1 * x1);
        lemma_mul_is_distributive_sub_other_way(x2 * x2, y1 * y1, x1 * x1);
        assert((y1 * y1) * (y2 * y2) == y1 * y1 * y2 * y2
            && (y1 * y1) * (x2 * x2) == x2 * x2 * y1 * y1
            && (x1 * x1) * (y2 * y2) == x1 * x1 * y2 * y2) by (nonlinear_arith);
        assert((x1 * x1) * (x2 * x2) == x1 * x1 * x2 * x2) by (nonlinear_arith);
    };
}

/// With `F = z1 z2 - d t1 t2` and `M = z1 t2 + t1 z2`:
/// `(z1^2 + d t1^2)(z2^2 + d t2^2) = F^2 + d M^2`.
pub proof fn lemma_f2_plus_dm2(z1: int, t1: int, z2: int, t2: int, d: int)
    ensures
        (z1 * z1 + d * (t1 * t1)) * (z2 * z2 + d * (t2 * t2)) == (z1 * z2 - d * t1 * t2) * (z1 * z2 - d * t1 * t2) + d * ((z1 * t2 + t1 * z2) * (z1 * t2 + t1 * z2)),
{
    assert(d * (t1 * t1) == d * t1 * t1) by (nonlinear_arith);
    assert(d * (t2 * t2) == d * t2 * t2) by (nonlinear_arith);
    assert((z1 * z1 + d * (t1 * t1)) * (z2 * z2 + d * (t2 * t2)) == d * d * t1 * t1 * t2 * t2 + d * t1 * t1 * z2 * z2 + d * t2 * t2 * z1 * z1
        + z1 * z1 * z2 * z2) by {
        lemma_mul_equals(z1 * z1 + d * (t1 * t1), d * t1 * t1 + z1 * z1, z2 * z2 + d * (t2 * t2), d * t2 * t2 + z2 * z2);
        lemma_mul_is_distributive_add(d * t1 * t1 + z1 * z1, d * t2 * t2, z2 * z2);
        lemma_mul_is_distributive_add_other_way(d * t2 * t2, d * t1 * t1, z1 * z1);
        lemma_mul_is_distributive_add_other_way(z2 * z2, d * t1 * t1, z1 * z1);
        assert((d * t1 * t1) * (d * t2 * t2) == d * d * t1 * t1 * t2 * t2
            && (d * t1 * t1) * (z2 * z2) == d * t1 * t1 * z2 * z2
            && (z1 * z1) * (d * t2 * t2) == d * t2 * t2 * z1 * z1) by (nonlinear_arith);
        assert((z1 * z1) * (z2 * z2) == z1 * z1 * z2 * z2) by (nonlinear_arith);
    };
    assert(d * t1 * t2 == d * t1 * t2) by {
        assert((d * t1) * t2 == d * t1 * t2) by (nonlinear_arith);
    };
    assert((z1 * z2 - d * t1 * t2) * (z1 * z2 - d * t1 * t2) == d * d * t1 * t1 * t2 * t2 + z1 * z1 * z2 * z2 - 2 * (d * t1 * t2 * z1 * z2)) by {
        lemma_mul_is_distributive_sub(z1 * z2 - d * t1 * t2, z1 * z2, d * t1 * t2);
        lemma_mul_is_distributive_sub_other_way(z1 * z2, z1 * z2, d * t1 * t2);
        lemma_mul_is_distributive_sub_other_way(d * t1 * t2, z1 * z2, d * t1 * t2);
        assert((z1 * z2) * (z1 * z2) == z1 * z1 * z2 * z2
            && (z1 * z2) * (d * t1 * t2) == d * t1 * t2 * z1 * z2
            && (d * t1 * t2) * (z1 * z2) == d * t1 * t2 * z1 * z2) by (nonlinear_arith);
        assert((d * t1 * t2) * (d * t1 * t2) == d * d * t1 * t1 * t2 * t2) by (nonlinear_arith);
    };
    assert(z1 * t2 == t2 * z1) by (nonlinear_arith);
    assert((z1 * t2 + t1 * z2) * (z1 * t2 + t1 * z2) == t1 * t1 * z2 * z2 + 2 * (t1 * t2 * z1 * z2) + t2 * t2 * z1 * z1) by {
        lemma_mul_equals(z1 * t2 + t1 * z2, t1 * z2 + t2 * z1, z1 * t2 + t1 * z2, t1 * z2 + t2 * z1);
        lemma_mul_is_distributive_add(t1 * z2 + t2 * z1, t1 * z2, t2 * z1);
        lemma_mul_is_distributive_add_other_way(t1 * z2, t1 * z2, t2 * z1);
        lemma_mul_is_distributive_add_other_way(t2 * z1, t1 * z2, t2 * z1);
        assert((t1 * z2) * (t1 * z2) == t1 * t1 * z2 * z2
            && (t1 * z2) * (t2 * z1) == t1 * t2 * z1 * z2
            && (t2 * z1) * (t1 * z2) == t1 * t2 * z1 * z2) by (nonlinear_arith);
        assert((t2 * z1) * (t2 * z1) == t2 * t2 * z1 * z1) by (nonlinear_arith);
    };
    assert(d * ((z1 * t2 + t1 * z2) * (z1 * t2 + t1 * z2)) == d * t1 * t1 * z2 * z2 + 2 * (d * t1 * t2 * z1 * z2) + d * t2 * t2 * z1 * z1) by {
        let b2 = t1 * t1 * z2 * z2 + 2 * (t1 * t2 * z1 * z2);
        let b3 = b2 + t2 * t2 * z1 * z1;
        lemma_mul_equals(d, d, (z1 * t2 + t1 * z2) * (z1 * t2 + t1 * z2), b3);
        lemma_mul_is_distributive_add(d, b2, t2 * t2 * z1 * z1);
        lemma_mul_is_distributive_add(d, t1 * t1 * z2 * z2, 2 * (t1 * t2 * z1 * z2));
        assert(d * (t1 * t1 * z2 * z2) == d * t1 * t1 * z2 * z2
            && d * (2 * (t1 * t2 * z1 * z2)) == 2 * (d * t1 * t2 * z1 * z2)
            && d * (t2 * t2 * z1 * z1) == d * t2 * t2 * z1 * z1) by (nonlinear_arith);
    };
}

/// With `E = (x1 + y1)(x2 + y2) - (y1 y2 + x1 x2)`:
/// `E (x1 x2 - y1 y2) = -(x2 y2)(y1^2 - x1^2) - (x1 y1)(y2^2 - x2^2)`.
pub proof fn lemma_e_times_a_minus_b(x1: int, y1: int, x2: int, y2: int)
    ensures
        ((x1 + y1) * (x2 + y2) - (y1 * y2 + x1 * x2)) * (x1 * x2 - y1 * y2) == (-(x2 * y2 * (y1 * y1 - x1 * x1))) - x1 * y1 * (y2 * y2 - x2 * x2),
{
    assert((x1 + y1) * (x2 + y2) == x1 * x2 + x1 * y2 + x2 * y1 + y1 * y2) by {
        lemma_mul_is_distributive_add(x1 + y1, x2, y2);
        lemma_mul_is_distributive_add_other_way(x2, x1, y1);
        lemma_mul_is_distributive_add_other_way(y2, x1, y1);
        assert(y1 * x2 == x2 * y1) by (nonlinear_arith);
    };
    assert(((x1 + y1) * (x2 + y2) - (y1 * y2 + x1 * x2)) * (x1 * x2 - y1 * y2) == x1 * x1 * x2 * y2 + x1 * x2 * x2 * y1 - x1 * y1 * y2 * y2 - x2 * y1 * y1 * y2) by {
        lemma_mul_equals((x1 + y1) * (x2 + y2) - (y1 * y2 + x1 * x2), x1 * y2 + x2 * y1, x1 * x2 - y1 * y2, x1 * x2 - y1 * y2);
        lemma_mul_is_distributive_sub(x1 * y2 + x2 * y1, x1 * x2, y1 * y2);
        lemma_mul_is_distributive_add_other_way(x1 * x2, x1 * y2, x2 * y1);
        lemma_mul_is_distributive_add_other_way(y1 * y2, x1 * y2, x2 * y1);
        assert((x1 * y2) * (x1 * x2) == x1 * x1 * x2 * y2
            && (x1 * y2) * (y1 * y2) == x1 * y1 * y2 * y2
            && (x2 * y1) * (x1 * x2) == x1 * x2 * x2 * y1) by (nonlinear_arith);
        assert((x2 * y1) * (y1 * y2) == x2 * y1 * y1 * y2) by (nonlinear_arith);
    };
    assert(x2 * y2 * (y1 * y1 - x1 * x1) == x2 * y1 * y1 * y2 - x1 * x1 * x2 * y2) by {
        lemma_mul_is_distributive_sub(x2 * y2, y1 * y1, x1 * x1);
        assert((x2 * y2) * (y1 * y1) == x2 * y1 * y1 * y2
            && (x2 * y2) * (x1 * x1) == x1 * x1 * x2 * y2) by (nonlinear_arith);
    };
    assert(x1 * y1 * (y2 * y2 - x2 * x2) == x1 * y1 * y2 * y2 - x1 * x2 * x2 * y1) by {
        lemma_mul_is_distributive_sub(x1 * y1, y2 * y2, x2 * x2);
        assert((x1 * y1) * (y2 * y2) == x1 * y1 * y2 * y2
            && (x1 * y1) * (x2 * x2) == x1 * x2 * x2 * y1) by (nonlinear_arith);
    };
}

/// With `G = z1 z2 + d t1 t2` and `M = z1 t2 + t1 z2`:
/// `(t2 z2)(z1^2 + d t1^2) + (t1 z1)(z2^2 + d t2^2) = G M`.
pub proof fn lemma_g_times_m(z1: int, t1: int, z2: int, t2: int, d: int)
    ensures
        t2 * z2 * (z1 * z1 + d * (t1 * t1)) + t1 * z1 * (z2 * z2 + d * (t2 * t2)) == (z1 * z2 + d * t1 * t2) * (z1 * t2 + t1 * z2),
{
    assert(d * (t1 * t1) == d * t1 * t1) by (nonlinear_arith);
    assert(t2 * z2 * (z1 * z1 + d * (t1 * t1)) == d * t1 * t1 * t2 * z2 + t2 * z1 * z1 * z2) by {
        lemma_mul_equals(t2 * z2, t2 * z2, z1 * z1 + d * (t1 * t1), d * t1 * t1 + z1 * z1);
        lemma_mul_is_distributive_add(t2 * z2, d * t1 * t1, z1 * z1);
        assert((t2 * z2) * (d * t1 * t1) == d * t1 * t1 * t2 * z2
            && (t2 * z2) * (z1 * z1) == t2 * z1 * z1 * z2) by (nonlinear_arith);
    };
    assert(d * (t2 * t2) == d * t2 * t2) by (nonlinear_arith);
    assert(t1 * z1 * (z2 * z2 + d * (t2 * t2)) == d * t1 * t2 * t2 * z1 + t1 * z1 * z2 * z2) by {
        lemma_mul_equals(t1 * z1, t1 * z1, z2 * z2 + d * (t2 * t2), d * t2 * t2 + z2 * z2);
        lemma_mul_is_distributive_add(t1 * z1, d * t2 * t2, z2 * z2);
        assert((t1 * z1) * (d * t2 * t2) == d * t1 * t2 * t2 * z1
            && (t1 * z1) * (z2 * z2) == t1 * z1 * z2 * z2) by (nonlinear_arith);
    };
    assert(d * t1 * t2 == d * t1 * t2) by {
        assert((d * t1) * t2 == d * t1 * t2) by (nonlinear_arith);
    };
    assert(z1 * t2 == t2 * z1) by (nonlinear_arith);
    assert((z1 * z2 + d * t1 * t2) * (z1 * t2 + t1 * z2) == d * t1 * t1 * t2 * z2 + d * t1 * t2 * t2 * z1 + t1 * z1 * z2 * z2 + t2 * z1 * z1 * z2) by {
        lemma_mul_equals(z1 * z2 + d * t1 * t2, d * t1 * t2 + z1 * z2, z1 * t2 + t1 * z2, t1 * z2 + t2 * z1);
        lemma_mul_is_distributive_add(d * t1 * t2 + z1 * z2, t1 * z2, t2 * z1);
        lemma_mul_is_distributive_add_other_way(t1 * z2, d * t1 * t2, z1 * z2);
        lemma_mul_is_distributive_add_other_way(t2 * z1, d * t1 * t2, z1 * z2);
        assert((d * t1 * t2) * (t1 * z2) == d * t1 * t1 * t2 * z2
            && (d * t1 * t2) * (t2 * z1) == d * t1 * t2 * t2 * z1
            && (z1 * z2) * (t1 * z2) == t1 * z1 * z2 * z2) by (nonlinear_arith);
        assert((z1 * z2) * (t2 * z1) == t2 * z1 * z1 * z2) by (nonlinear_arith);
    };
}

/// With `A = x1 x2`, `B = y1 y2`, `H = B + A`, `F = z1 z2 - d t1 t2` and
/// `G = z1 z2 + d t1 t2`:
/// `F^2 + d H^2 - (G^2 + d (A - B)^2) = 4 d ((x1 y1)(x2 y2) - (t1 z1)(t2 z2))`.
pub proof fn lemma_f2_plus_dh2(x1: int, y1: int, t1: int, z1: int, x2: int, y2: int, t2: int, z2: int, d: int)
    ensures
        (z1 * z2 - d * t1 * t2) * (z1 * z2 - d * t1 * t2) + d * ((y1 * y2 + x1 * x2) * (y1 * y2 + x1 * x2)) - ((z1 * z2 + d * t1 * t2) * (z1 * z2 + d * t1 * t2) + d * ((x1 * x2 - y1 * y2) * (x1 * x2 - y1 * y2))) == 4 * d * (x1 * y1 * (x2 * y2) - t1 * z1 * (t2 * z2)),
{
    assert(d * t1 * t2 == d * t1 * t2) by {
        assert((d * t1) * t2 == d * t1 * t2) by (nonlinear_arith);
    };
    assert((z1 * z2 - d * t1 * t2) * (z1 * z2 - d * t1 * t2) == d * d * t1 * t1 * t2 * t2 + z1 * z1 * z2 * z2 - 2 * (d * t1 * t2 * z1 * z2)) by {
        lemma_mul_is_distributive_sub(z1 * z2 - d * t1 * t2, z1 * z2, d * t1 * t2);
        lemma_mul_is_distributive_sub_other_way(z1 * z2, z1 * z2, d * t1 * t2);
        lemma_mul_is_distributive_sub_other_way(d * t1 * t2, z1 * z2, d * t1 * t2);
        assert((z1 * z2) * (z1 * z2) == z1 * z1 * z2 * z2
            && (z1 * z2) * (d * t1 * t2) == d * t1 * t2 * z1 * z2
            && (d * t1 * t2) * (z1 * z2) == d * t1 * t2 * z1 * z2) by (nonlinear_arith);
        assert((d * t1 * t2) * (d * t1 * t2) == d * d * t1 * t1 * t2 * t2) by (nonlinear_arith);
    };
    assert((y1 * y2 + x1 * x2) * (y1 * y2 + x1 * x2) == x1 * x1 * x2 * x2 + 2 * (x1 * x2 * y1 * y2) + y1 * y1 * y2 * y2) by {
        lemma_mul_equals(y1 * y2 + x1 * x2, x1 * x2 + y1 * y2, y1 * y2 + x1 * x2, x1 * x2 + y1 * y2);
        lemma_mul_is_distributive_add(x1 * x2 + y1 * y2, x1 * x2, y1 * y2);
        lemma_mul_is_distributive_add_other_way(x1 * x2, x1 * x2, y1 * y2);
        lemma_mul_is_distributive_add_other_way(y1 * y2, x1 * x2, y1 * y2);
        assert((x1 * x2) * (x1 * x2) == x1 * x1 * x2 * x2
            && (x1 * x2) * (y1 * y2) == x1 * x2 * y1 * y2
            && (y1 * y2) * (x1 * x2) == x1 * x2 * y1 * y2) by (nonlinear_arith);
        assert((y1 * y2) * (y1 * y2) == y1 * y1 * y2 * y2) by (nonlinear_arith);
    };
    assert(d * ((y1 * y2 + x1 * x2) * (y1 * y2 + x1 * x2)) == d * x1 * x1 * x2 * x2 + 2 * (d * x1 * x2 * y1 * y2) + d * y1 * y1 * y2 * y2) by {
        let b2 = x1 * x1 * x2 * x2 + 2 * (x1 * x2 * y1 * y2);
        let b3 = b2 + y1 * y1 * y2 * y2;
        lemma_mul_equals(d, d, (y1 * y2 + x1 * x2) * (y1 * y2 + x1 * x2), b3);
        lemma_mul_is_distributive_add(d, b2, y1 * y1 * y2 * y2);
        lemma_mul_is_distributive_add(d, x1 * x1 * x2 * x2, 2 * (x1 * x2 * y1 * y2));
        assert(d * (x1 * x1 * x2 * x2) == d * x1 * x1 * x2 * x2
            && d * (2 * (x1 * x2 * y1 * y2)) == 2 * (d * x1 * x2 * y1 * y2)
            && d * (y1 * y1 * y2 * y2) == d * y1 * y1 * y2 * y2) by (nonlinear_arith);
    };
    assert((z1 * z2 + d * t1 * t2) * (z1 * z2 + d * t1 * t2) == d * d * t1 * t1 * t2 * t2 + 2 * (d * t1 * t2 * z1 * z2) + z1 * z1 * z2 * z2) by {
        lemma_mul_equals(z1 * z2 + d * t1 * t2, d * t1 * t2 + z1 * z2, z1 * z2 + d * t1 * t2, d * t1 * t2 + z1 * z2);
        lemma_mul_is_distributive_add(d * t1 * t2 + z1 * z2, d * t1 * t2, z1 * z2);
        lemma_mul_is_distributive_add_other_way(d * t1 * t2, d * t1 * t2, z1 * z2);
        lemma_mul_is_distributive_add_other_way(z1 * z2, d * t1 * t2, z1 * z2);
        assert((d * t1 * t2) * (d * t1 * t2) == d * d * t1 * t1 * t2 * t2
            && (d * t1 * t2) * (z1 * z2) == d * t1 * t2 * z1 * z2
            && (z1 * z2) * (d * t1 * t2) == d * t1 * t2 * z1 * z2) by (nonlinear_arith);
        assert((z1 * z2) * (z1 * z2) == z1 * z1 * z2 * z2) by (nonlinear_arith);
    };
    assert((x1 * x2 - y1 * y2) * (x1 * x2 - y1 * y2) == x1 * x1 * x2 * x2 + y1 * y1 * y2 * y2 - 2 * (x1 * x2 * y1 * y2)) by {
        lemma_mul_is_distributive_sub(x1 * x2 - y1 * y2, x1 * x2, y1 * y2);
        lemma_mul_is_distributive_sub_other_way(x1 * x2, x1 * x2, y1 * y2);
        lemma_mul_is_distributive_sub_other_way(y1 * y2, x1 * x2, y1 * y2);
        assert((x1 * x2) * (x1 * x2) == x1 * x1 * x2 * x2
            && (x1 * x2) * (y1 * y2) == x1 * x2 * y1 * y2
            && (y1 * y2) * (x1 * x2) == x1 * x2 * y1 * y2) by (nonlinear_arith);
        assert((y1 * y2) * (y1 * y2) == y1 * y1 * y2 * y2) by (nonlinear_arith);
    };
    assert(d * ((x1 * x2 - y1 * y2) * (x1 * x2 - y1 * y2)) == d * x1 * x1 * x2 * x2 + d * y1 * y1 * y2 * y2 - 2 * (d * x1 * x2 * y1 * y2)) by {
        let b2 = x1 * x1 * x2 * x2 + y1 * y1 * y2 * y2;
        let b3 = b2 - 2 * (x1 * x2 * y1 * y2);
        lemma_mul_equals(d, d, (x1 * x2 - y1 * y2) * (x1 * x2 - y1 * y2), b3);
        lemma_mul_is_distributive_sub(d, b2, 2 * (x1 * x2 * y1 * y2));
        lemma_mul_is_distributive_add(d, x1 * x1 * x2 * x2, y1 * y1 * y2 * y2);
        assert(d * (x1 * x1 * x2 * x2) == d * x1 * x1 * x2 * x2
            && d * (y1 * y1 * y2 * y2) == d * y1 * y1 * y2 * y2
            && d * (2 * (x1 * x2 * y1 * y2)) == 2 * (d * x1 * x2 * y1 * y2)) by (nonlinear_arith);
    };
    assert(x1 * y1 * (x2 * y2) == x1 * x2 * y1 * y2) by {
        assert((x1 * y1) * (x2 * y2) == x1 * x2 * y1 * y2) by (nonlinear_arith);
    };
    assert(t1 * z1 * (t2 * z2) == t1 * t2 * z1 * z2) by {
        assert((t1 * z1) * (t2 * z2) == t1 * t2 * z1 * z2) by (nonlinear_arith);
    };
    assert(4 * d * (x1 * y1 * (x2 * y2) - t1 * z1 * (t2 * z2)) == 4 * (d * x1 * x2 * y1 * y2) - 4 * (d * t1 * t2 * z1 * z2)) by {
        lemma_mul_equals(4 * d, 4 * d, x1 * y1 * (x2 * y2) - t1 * z1 * (t2 * z2), x1 * x2 * y1 * y2 - t1 * t2 * z1 * z2);
        lemma_mul_is_distributive_sub(4 * d, x1 * x2 * y1 * y2, t1 * t2 * z1 * z2);
        assert((4 * d) * (x1 * x2 * y1 * y2) == 4 * (d * x1 * x2 * y1 * y2)
            && (4 * d) * (t1 * t2 * z1 * z2) == 4 * (d * t1 * t2 * z1 * z2)) by (nonlinear_arith);
    };
}

/// `G^2 (E^2 + d M^2) = G^2 E^2 + d (G M)^2`.
pub proof fn lemma_g2_times_e2_plus_dm2(e: int, g: int, m: int, d: int)
    ensures
        g * g * (e * e + d * (m * m)) == g * g * (e * e) + d * (g * m * (g * m)),
{
    assert(d * (m * m) == d * m * m) by (nonlinear_arith);
    assert(g * g * (e * e + d * (m * m)) == d * g * g * m * m + e * e * g * g) by {
        lemma_mul_equals(g * g, g * g, e * e + d * (m * m), d * m * m + e * e);
        lemma_mul_is_distributive_add(g * g, d * m * m, e * e);
        assert((g * g) * (d * m * m) == d * g * g * m * m
            && (g * g) * (e * e) == e * e * g * g) by (nonlinear_arith);
    };
    assert(g * g * (e * e) == e * e * g * g) by {
        assert((g * g) * (e * e) == e * e * g * g) by (nonlinear_arith);
    };
    assert(g * m * (g * m) == g * g * m * m) by {
        assert((g * m) * (g * m) == g * g * m * m) by (nonlinear_arith);
    };
    assert(d * (g * m * (g * m)) == d * g * g * m * m) by {
        lemma_mul_equals(d, d, g * m * (g * m), g * g * m * m);
        assert(d * (g * g * m * m) == d * g * g * m * m) by (nonlinear_arith);
    };
}

/// `G^2 E^2 + d (E ab)^2 = E^2 (G^2 + d ab^2)`.
pub proof fn lemma_e2_times_g2_plus_dab2(e: int, g: int, ab: int, d: int)
    ensures
        g * g * (e * e) + d * (e * ab * (e * ab)) == e * e * (g * g + d * (ab * ab)),
{
    assert(g * g * (e * e) == e * e * g * g) by {
        assert((g * g) * (e * e) == e * e * g * g) by (nonlinear_arith);
    };
    assert(e * ab == ab * e) by (nonlinear_arith);
    assert(e * ab * (e * ab) == ab * ab * e * e) by {
        lemma_mul_equals(e * ab, ab * e, e * ab, ab * e);
        assert((ab * e) * (ab * e) == ab * ab * e * e) by (nonlinear_arith);
    };
    assert(d * (e * ab * (e * ab)) == ab * ab * d * e * e) by {
        lemma_mul_equals(d, d, e * ab * (e * ab), ab * ab * e * e);
        assert(d * (ab * ab * e * e) == ab * ab * d * e * e) by (nonlinear_arith);
    };
    assert(d * (ab * ab) == ab * ab * d) by (nonlinear_arith);
    assert(e * e * (g * g + d * (ab * ab)) == ab * ab * d * e * e + e * e * g * g) by {
        lemma_mul_equals(e * e, e * e, g * g + d * (ab * ab), ab * ab * d + g * g);
        lemma_mul_is_distributive_add(e * e, ab * ab * d, g * g);
        assert((e * e) * (ab * ab * d) == ab * ab * d * e * e
            && (e * e) * (g * g) == e * e * g * g) by (nonlinear_arith);
    };
}

/// The equation of the curve at `(E F, G H, E H, F G)`:
/// `(G H)^2 - (E F)^2 - ((F G)^2 + d (E H)^2) = G^2 (H^2 - F^2) - E^2 (F^2 + d H^2)`.
pub proof fn lemma_curve_equation_of_sum(e: int, f: int, g: int, h: int, d: int)
    ensures
        g * h * (g * h) - e * f * (e * f) - (f * g * (f * g) + d * (e * h * (e * h))) == g * g * (h * h - f * f) - e * e * (f * f + d * (h * h)),
{
    assert(g * h * (g * h) == g * g * h * h) by {
        assert((g * h) * (g * h) == g * g * h * h) by (nonlinear_arith);
    };
    assert(e * f * (e * f) == e * e * f * f) by {
        assert((e * f) * (e * f) == e * e * f * f) by (nonlinear_arith);
    };
    assert(f * g * (f * g) == f * f * g * g) by {
        assert((f * g) * (f * g) == f * f * g * g) by (nonlinear_arith);
    };
    assert(e * h * (e * h) == e * e * h * h) by {
        assert((e * h) * (e * h) == e * e * h * h) by (nonlinear_arith);
    };
    assert(d * (e * h * (e * h)) == d * e * e * h * h) by {
        lemma_mul_equals(d, d, e * h * (e * h), e * e * h * h);
        assert(d * (e * e * h * h) == d * e * e * h * h) by (nonlinear_arith);
    };
    assert(g * g * (h * h - f * f) == g * g * h * h - f * f * g * g) by {
        lemma_mul_is_distributive_sub(g * g, h * h, f * f);
        assert((g * g) * (h * h) == g * g * h * h
            && (g * g) * (f * f) == f * f * g * g) by (nonlinear_arith);
    };
    assert(d * (h * h) == d * h * h) by (nonlinear_arith);
    assert(e * e * (f * f + d * (h * h)) == d * e * e * h * h + e * e * f * f) by {
        lemma_mul_equals(e * e, e * e, f * f + d * (h * h), d * h * h + f * f);
        lemma_mul_is_distributive_add(e * e, d * h * h, f * f);
        assert((e * e) * (d * h * h) == d * e * e * h * h
            && (e * e) * (f * f) == e * e * f * f) by (nonlinear_arith);
    };
}

/// The abscissas `E F / (F G)` of two sums differ by
/// `(El Fl)(Fr Gr) - (Er Fr)(Fl Gl) = (Fl Fr)(El Gr - Er Gl)`.
pub proof fn lemma_cross_difference_x(el: int, fl: int, gl: int, er: int, fr: int, gr: int)
    ensures
        el * fl * (fr * gr) - er * fr * (fl * gl) == fl * fr * (el * gr - er * gl),
{
    assert(el * fl * (fr * gr) == el * fl * fr * gr) by {
        assert((el * fl) * (fr * gr) == el * fl * fr * gr) by (nonlinear_arith);
    };
    assert(er * fr * (fl * gl) == er * fl * fr * gl) by {
        assert((er * fr) * (fl * gl) == er * fl * fr * gl) by (nonlinear_arith);
    };
    assert(fl * fr * (el * gr - er * gl) == el * fl * fr * gr - er * fl * fr * gl) by {
        lemma_mul_is_distributive_sub(fl * fr, el * gr, er * gl);
        assert((fl * fr) * (el * gr) == el * fl * fr * gr
            && (fl * fr) * (er * gl) == er * fl * fr * gl) by (nonlinear_arith);
    };
}

/// The ordinates `G H / (F G)` of two sums differ by
/// `(Gl Hl)(Fr Gr) - (Gr Hr)(Fl Gl) = (Gl Gr)(Hl Fr - Hr Fl)`.
pub proof fn lemma_cross_difference_y(fl: int, gl: int, hl: int, fr: int, gr: int, hr: int)
    ensures
        gl * hl * (fr * gr) - gr * hr * (fl * gl) == gl * gr * (hl * fr - hr * fl),
{
    assert(gl * hl * (fr * gr) == fr * gl * gr * hl) by {
        assert((gl * hl) * (fr * gr) == fr * gl * gr * hl) by (nonlinear_arith);
    };
    assert(gr * hr * (fl * gl) == fl * gl * gr * hr) by {
        assert((gr * hr) * (fl * gl) == fl * gl * gr * hr) by (nonlinear_arith);
    };
    assert(hl * fr == fr * hl) by (nonlinear_arith);
    assert(hr * fl == fl * hr) by (nonlinear_arith);
    assert(gl * gr * (hl * fr - hr * fl) == fr * gl * gr * hl - fl * gl * gr * hr) by {
        lemma_mul_equals(gl * gr, gl * gr, hl * fr - hr * fl, fr * hl - fl * hr);
        lemma_mul_is_distributive_sub(gl * gr, fr * hl, fl * hr);
        assert((gl * gr) * (fr * hl) == fr * gl * gr * hl
            && (gl * gr) * (fl * hr) == fl * gl * gr * hr) by (nonlinear_arith);
    };
}

/// What the equation of the Edwards curve leaves at the image
/// `(x s (x + 1), y (x - 1), x s (x - 1), y (x + 1))` of a Montgomery point `(x, y)` is a
/// combination of what the equation `y^2 = x^3 + a x^2 + x` leaves and of
/// `s^2 + (a + 2)` and `d (a + 2) + (a - 2)`.
pub proof fn lemma_montgomery_image_residue(x: int, y: int, s: int, d: int, a: int)
    ensures
        (x - 1) * y * ((x - 1) * y) - x * s * (x + 1) * (x * s * (x + 1)) - ((x + 1) * y * ((x + 1) * y) + d * (x * s * (x - 1) * (x * s * (x - 1)))) == x * x * ((x - 1) * (x - 1)) * (d * (a + 2) + (a - 2)) - 4 * x * (y * y - (x * x * x + a * (x * x) + x)) - x * x * ((x + 1) * (x + 1) + d * ((x - 1) * (x - 1))) * (s * s + (a + 2)),
{
    assert((x - 1) * y == x * y - y) by {
        lemma_mul_is_distributive_sub_other_way(y, x, 1);
        assert(1 * y == y) by (nonlinear_arith);
    };
    assert((x - 1) * y * ((x - 1) * y) == x * x * y * y + y * y - 2 * (x * y * y)) by {
        lemma_mul_equals((x - 1) * y, x * y - y, (x - 1) * y, x * y - y);
        lemma_mul_is_distributive_sub(x * y - y, x * y, y);
        lemma_mul_is_distributive_sub_other_way(x * y, x * y, y);
        lemma_mul_is_distributive_sub_other_way(y, x * y, y);
        assert((x * y) * (x * y) == x * x * y * y
            && (x * y) * y == x * y * y
            && y * (x * y) == x * y * y) by (nonlinear_arith);
    };
    assert(x * s == s * x) by (nonlinear_arith);
    assert(x * s * (x + 1) == s * x * x + s * x) by {
        lemma_mul_equals(x * s, s * x, x + 1, x + 1);
        lemma_mul_is_distributive_add(s * x, x, 1);
        assert((s * x) * x == s * x * x
            && (s * x) * 1 == s * x) by (nonlinear_arith);
    };
    assert(x * s * (x + 1) * (x * s * (x + 1)) == s * s * x * x * x * x + 2 * (s * s * x * x * x) + s * s * x * x) by {
        lemma_mul_equals(x * s * (x + 1), s * x * x + s * x, x * s * (x + 1), s * x * x + s * x);
        lemma_mul_is_distributive_add(s * x * x + s * x, s * x * x, s * x);
        lemma_mul_is_distributive_add_other_way(s * x * x, s * x * x, s * x);
        lemma_mul_is_distributive_add_other_way(s * x, s * x * x, s * x);
        assert((s * x * x) * (s * x * x) == s * s * x * x * x * x
            && (s * x * x) * (s * x) == s * s * x * x * x
            && (s * x) * (s * x * x) == s * s * x * x * x) by (nonlinear_arith);
        assert((s * x) * (s * x) == s * s * x * x) by (nonlinear_arith);
    };
    assert((x + 1) * y == x * y + y) by {
        lemma_mul_is_distributive_add_other_way(y, x, 1);
        assert(1 * y == y) by (nonlinear_arith);
    };
    assert((x + 1) * y * ((x + 1) * y) == x * x * y * y + 2 * (x * y * y) + y * y) by {
        lemma_mul_equals((x + 1) * y, x * y + y, (x + 1) * y, x * y + y);
        lemma_mul_is_distributive_add(x * y + y, x * y, y);
        lemma_mul_is_distributive_add_other_way(x * y, x * y, y);
        lemma_mul_is_distributive_add_other_way(y, x * y, y);
        assert((x * y) * (x * y) == x * x * y * y
            && (x * y) * y == x * y * y
            && y * (x * y) == x * y * y) by (nonlinear_arith);
    };
    assert(x * s * (x - 1) == s * x * x - s * x) by {
        lemma_mul_equals(x * s, s * x, x - 1, x - 1);
        lemma_mul_is_distributive_sub(s * x, x, 1);
        assert((s * x) * x == s * x * x
            && (s * x) * 1 == s * x) by (nonlinear_arith);
    };
    assert(x * s * (x - 1) * (x * s * (x - 1)) == s * s * x * x * x * x + s * s * x * x - 2 * (s * s * x * x * x)) by {
        lemma_mul_equals(x * s * (x - 1), s * x * x - s * x, x * s * (x - 1), s * x * x - s * x);
        lemma_mul_is_distributive_sub(s * x * x - s * x, s * x * x, s * x);
        lemma_mul_is_distributive_sub_other_way(s * x * x, s * x * x, s * x);
        lemma_mul_is_distributive_sub_other_way(s * x, s * x * x, s * x);
        assert((s * x * x) * (s * x * x) == s * s * x * x * x * x
            && (s * x * x) * (s * x) == s * s * x * x * x
            && (s * x) * (s * x * x) == s * s * x * x * x) by (nonlinear_arith);
        assert((s * x) * (s * x) == s * s * x * x) by (nonlinear_arith);
    };
    assert(d * (x * s * (x - 1) * (x * s * (x - 1))) == d * s * s * x * x * x * x + d * s * s * x * x - 2 * (d * s * s * x * x * x)) by {
        let b2 = s * s * x * x * x * x + s * s * x * x;
        let b3 = b2 - 2 * (s * s * x * x * x);
        lemma_mul_equals(d, d, x * s * (x - 1) * (x * s * (x - 1)), b3);
        lemma_mul_is_distributive_sub(d, b2, 2 * (s * s * x * x * x));
        lemma_mul_is_distributive_add(d, s * s * x * x * x * x, s * s * x * x);
        assert(d * (s * s * x * x * x * x) == d * s * s * x * x * x * x
            && d * (s * s * x * x) == d * s * s * x * x
            && d * (2 * (s * s * x * x * x)) == 2 * (d * s * s * x * x * x)) by (nonlinear_arith);
    };
    assert((x - 1) * (x - 1) == x * x + 1 - 2 * x) by {
        lemma_mul_is_distributive_sub(x - 1, x, 1);
        lemma_mul_is_distributive_sub_other_way(x, x, 1);
        lemma_mul_is_distributive_sub_other_way(1, x, 1);
        assert(x * 1 == x
            && 1 * x == x
            && 1 * 1 == 1) by (nonlinear_arith);
    };
    assert(x * x * ((x - 1) * (x - 1)) == x * x * x * x + x * x - 2 * (x * x * x)) by {
        let b2 = x * x + 1;
        let b3 = b2 - 2 * x;
        lemma_mul_equals(x * x, x * x, (x - 1) * (x - 1), b3);
        lemma_mul_is_distributive_sub(x * x, b2, 2 * x);
        lemma_mul_is_distributive_add(x * x, x * x, 1);
        assert((x * x) * (x * x) == x * x * x * x
            && (x * x) * 1 == x * x
            && (x * x) * (2 * x) == 2 * (x * x * x)) by (nonlinear_arith);
    };
    assert(d * (a + 2) == a * d + 2 * d) by {
        lemma_mul_is_distributive_add(d, a, 2);
        assert(d * a == a * d
            && d * 2 == 2 * d) by (nonlinear_arith);
    };
    assert(x * x * ((x - 1) * (x - 1)) * (d * (a + 2) + (a - 2)) == a * d * x * x * x * x + a * x * x * x * x + 2 * (d * x * x * x * x) + a * d * x * x
        + a * x * x + 2 * (d * x * x) + 4 * (x * x * x) - 2 * (a * d * x * x * x)
        - 2 * (a * x * x * x) - 4 * (d * x * x * x) - 2 * (x * x * x * x) - 2 * (x * x)) by {
        let a2 = x * x * x * x + x * x;
        let a3 = a2 - 2 * (x * x * x);
        let b2 = a * d + a;
        let b3 = b2 + 2 * d;
        let b4 = b3 - 2;
        lemma_mul_equals(x * x * ((x - 1) * (x - 1)), a3, d * (a + 2) + (a - 2), b4);
        lemma_mul_is_distributive_sub(a3, b3, 2);
        lemma_mul_is_distributive_add(a3, b2, 2 * d);
        lemma_mul_is_distributive_add(a3, a * d, a);
        lemma_mul_is_distributive_sub_other_way(a * d, a2, 2 * (x * x * x));
        lemma_mul_is_distributive_add_other_way(a * d, x * x * x * x, x * x);
        lemma_mul_is_distributive_sub_other_way(a, a2, 2 * (x * x * x));
        lemma_mul_is_distributive_add_other_way(a, x * x * x * x, x * x);
        lemma_mul_is_distributive_sub_other_way(2 * d, a2, 2 * (x * x * x));
        lemma_mul_is_distributive_add_other_way(2 * d, x * x * x * x, x * x);
        lemma_mul_is_distributive_sub_other_way(2, a2, 2 * (x * x * x));
        lemma_mul_is_distributive_add_other_way(2, x * x * x * x, x * x);
        assert((x * x * x * x) * (a * d) == a * d * x * x * x * x
            && (x * x * x * x) * a == a * x * x * x * x
            && (x * x * x * x) * (2 * d) == 2 * (d * x * x * x * x)) by (nonlinear_arith);
        assert((x * x * x * x) * 2 == 2 * (x * x * x * x)
            && (x * x) * (a * d) == a * d * x * x
            && (x * x) * a == a * x * x) by (nonlinear_arith);
        assert((x * x) * (2 * d) == 2 * (d * x * x)
            && (x * x) * 2 == 2 * (x * x)
            && (2 * (x * x * x)) * (a * d) == 2 * (a * d * x * x * x)) by (nonlinear_arith);
        assert((2 * (x * x * x)) * a == 2 * (a * x * x * x)
            && (2 * (x * x * x)) * (2 * d) == 4 * (d * x * x * x)
            && (2 * (x * x * x)) * 2 == 4 * (x * x * x)) by (nonlinear_arith);
    };
    assert(x * x * x == x * x * x) by {
        assert((x * x) * x == x * x * x) by (nonlinear_arith);
    };
    assert(a * (x * x) == a * x * x) by (nonlinear_arith);
    assert(4 * x * (y * y - (x * x * x + a * (x * x) + x)) == 4 * (x * y * y) - 4 * (a * x * x * x) - 4 * (x * x * x * x) - 4 * (x * x)) by {
        let b2 = y * y - a * x * x;
        let b3 = b2 - x * x * x;
        let b4 = b3 - x;
        lemma_mul_equals(4 * x, 4 * x, y * y - (x * x * x + a * (x * x) + x), b4);
        lemma_mul_is_distributive_sub(4 * x, b3, x);
        lemma_mul_is_distributive_sub(4 * x, b2, x * x * x);
        lemma_mul_is_distributive_sub(4 * x, y * y, a * x * x);
        assert((4 * x) * (y * y) == 4 * (x * y * y)
            && (4 * x) * (a * x * x) == 4 * (a * x * x * x)
            && (4 * x) * (x * x * x) == 4 * (x * x * x * x)) by (nonlinear_arith);
        assert((4 * x) * x == 4 * (x * x)) by (nonlinear_arith);
    };
    assert((x + 1) * (x + 1) == x * x + 2 * x + 1) by {
        lemma_mul_is_distributive_add(x + 1, x, 1);
        lemma_mul_is_distributive_add_other_way(x, x, 1);
        lemma_mul_is_distributive_add_other_way(1, x, 1);
        assert(x * 1 == x
            && 1 * x == x
            && 1 * 1 == 1) by (nonlinear_arith);
    };
    assert(d * ((x - 1) * (x - 1)) == d * x * x + d - 2 * (d * x)) by {
        let b2 = x * x + 1;
        let b3 = b2 - 2 * x;
        lemma_mul_equals(d, d, (x - 1) * (x - 1), b3);
        lemma_mul_is_distributive_sub(d, b2, 2 * x);
        lemma_mul_is_distributive_add(d, x * x, 1);
        assert(d * (x * x) == d * x * x
            && d * 1 == d
            && d * (2 * x) == 2 * (d * x)) by (nonlinear_arith);
    };
    assert(x * x * ((x + 1) * (x + 1) + d * ((x - 1) * (x - 1))) == d * x * x * x * x + x * x * x * x + d * x * x + 2 * (x * x * x) + x * x
        - 2 * (d * x * x * x)) by {
        let b2 = d * x * x + x * x;
        let b3 = b2 + d;
        let b4 = b3 + 2 * x;
        let b5 = b4 + 1;
        let b6 = b5 - 2 * (d * x);
        lemma_mul_equals(x * x, x * x, (x + 1) * (x + 1) + d * ((x - 1) * (x - 1)), b6);
        lemma_mul_is_distributive_sub(x * x, b5, 2 * (d * x));
        lemma_mul_is_distributive_add(x * x, b4, 1);
        lemma_mul_is_distributive_add(x * x, b3, 2 * x);
        lemma_mul_is_distributive_add(x * x, b2, d);
        lemma_mul_is_distributive_add(x * x, d * x * x, x * x);
        assert((x * x) * (d * x * x) == d * x * x * x * x
            && (x * x) * (x * x) == x * x * x * x
            && (x * x) * d == d * x * x) by (nonlinear_arith);
        assert((x * x) * (2 * x) == 2 * (x * x * x)
            && (x * x) * 1 == x * x
            && (x * x) * (2 * (d * x)) == 2 * (d * x * x * x)) by (nonlinear_arith);
    };
    assert(x * x * ((x + 1) * (x + 1) + d * ((x - 1) * (x - 1))) * (s * s + (a + 2)) == d * s * s * x * x * x * x + a * d * x * x * x * x + s * s * x * x * x * x
        + a * x * x * x * x + d * s * s * x * x + 2 * (d * x * x * x * x) + 2 * (s * s * x * x * x)
        + a * d * x * x + 2 * (a * x * x * x) + s * s * x * x + 2 * (x * x * x * x) + a * x * x
        + 2 * (d * x * x) + 4 * (x * x * x) + 2 * (x * x) - 2 * (d * s * s * x * x * x)
        - 2 * (a * d * x * x * x) - 4 * (d * x * x * x)) by {
        let a2 = d * x * x * x * x + x * x * x * x;
        let a3 = a2 + d * x * x;
        let a4 = a3 + 2 * (x * x * x);
        let a5 = a4 + x * x;
        let a6 = a5 - 2 * (d * x * x * x);
        let b2 = s * s + a;
        let b3 = b2 + 2;
        lemma_mul_equals(x * x * ((x + 1) * (x + 1) + d * ((x - 1) * (x - 1))), a6, s * s + (a + 2), b3);
        lemma_mul_is_distributive_add(a6, b2, 2);
        lemma_mul_is_distributive_add(a6, s * s, a);
        lemma_mul_is_distributive_sub_other_way(s * s, a5, 2 * (d * x * x * x));
        lemma_mul_is_distributive_add_other_way(s * s, a4, x * x);
        lemma_mul_is_distributive_add_other_way(s * s, a3, 2 * (x * x * x));
        lemma_mul_is_distributive_add_other_way(s * s, a2, d * x * x);
        lemma_mul_is_distributive_add_other_way(s * s, d * x * x * x * x, x * x * x * x);
        lemma_mul_is_distributive_sub_other_way(a, a5, 2 * (d * x * x * x));
        lemma_mul_is_distributive_add_other_way(a, a4, x * x);
        lemma_mul_is_distributive_add_other_way(a, a3, 2 * (x * x * x));
        lemma_mul_is_distributive_add_other_way(a, a2, d * x * x);
        lemma_mul_is_distributive_add_other_way(a, d * x * x * x * x, x * x * x * x);
        lemma_mul_is_distributive_sub_other_way(2, a5, 2 * (d * x * x * x));
        lemma_mul_is_distributive_add_other_way(2, a4, x * x);
        lemma_mul_is_distributive_add_other_way(2, a3, 2 * (x * x * x));
        lemma_mul_is_distributive_add_other_way(2, a2, d * x * x);
        lemma_mul_is_distributive_add_other_way(2, d * x * x * x * x, x * x * x * x);
        assert((d * x * x * x * x) * (s * s) == d * s * s * x * x * x * x
            && (d * x * x * x * x) * a == a * d * x * x * x * x
            && (d * x * x * x * x) * 2 == 2 * (d * x * x * x * x)) by (nonlinear_arith);
        assert((x * x * x * x) * (s * s) == s * s * x * x * x * x
            && (x * x * x * x) * a == a * x * x * x * x
            && (x * x * x * x) * 2 == 2 * (x * x * x * x)) by (nonlinear_arith);
        assert((d * x * x) * (s * s) == d * s * s * x * x
            && (d * x * x) * a == a * d * x * x
            && (d * x * x) * 2 == 2 * (d * x * x)) by (nonlinear_arith);
        assert((2 * (x * x * x)) * (s * s) == 2 * (s * s * x * x * x)
            && (2 * (x * x * x)) * a == 2 * (a * x * x * x)
            && (2 * (x * x * x)) * 2 == 4 * (x * x * x)) by (nonlinear_arith);
        assert((x * x) * (s * s) == s * s * x * x
            && (x * x) * a == a * x * x
            && (x * x) * 2 == 2 * (x * x)) by (nonlinear_arith);
        assert((2 * (d * x * x * x)) * (s * s) == 2 * (d * s * s * x * x * x)
            && (2 * (d * x * x * x)) * a == 2 * (a * d * x * x * x)
            && (2 * (d * x * x * x)) * 2 == 4 * (d * x * x * x)) by (nonlinear_arith);
    };
}

/// `(d a^2)(1 + d b^2) = d a^2 + (d a b)^2`.
pub proof fn lemma_product_of_d_terms(d: int, a: int, b: int)
    ensures
        d * (a * a) * (1 + d * (b * b)) == d * (a * a) + d * a * b * (d * a * b),
{
    assert(d * (a * a) == a * a * d) by (nonlinear_arith);
    assert(d * (b * b) == b * b * d) by (nonlinear_arith);
    assert(d * (a * a) * (1 + d * (b * b)) == a * a * b * b * d * d + a * a * d) by {
        lemma_mul_equals(d * (a * a), a * a * d, 1 + d * (b * b), b * b * d + 1);
        lemma_mul_is_distributive_add(a * a * d, b * b * d, 1);
        assert((a * a * d) * (b * b * d) == a * a * b * b * d * d
            && (a * a * d) * 1 == a * a * d) by (nonlinear_arith);
    };
    assert(d * a == a * d) by (nonlinear_arith);
    assert(d * a * b == a * b * d) by {
        lemma_mul_equals(d * a, a * d, b, b);
        assert((a * d) * b == a * b * d) by (nonlinear_arith);
    };
    assert(d * a * b * (d * a * b) == a * a * b * b * d * d) by {
        lemma_mul_equals(d * a * b, a * b * d, d * a * b, a * b * d);
        assert((a * b * d) * (a * b * d) == a * a * b * b * d * d) by (nonlinear_arith);
    };
}

/// `(i x + s y)^2 = i^2 x^2 + 2 s i (x y) + s^2 y^2`.
pub proof fn lemma_square_of_mixed_sum(i: int, x: int, y: int, s: int)
    ensures
        (i * x + s * y) * (i * x + s * y) == i * i * (x * x) + 2 * (s * (i * (x * y))) + s * s * (y * y),
{
    assert((i * x + s * y) * (i * x + s * y) == i * i * x * x + 2 * (i * s * x * y) + s * s * y * y) by {
        lemma_mul_is_distributive_add(i * x + s * y, i * x, s * y);
        lemma_mul_is_distributive_add_other_way(i * x, i * x, s * y);
        lemma_mul_is_distributive_add_other_way(s * y, i * x, s * y);
        assert((i * x) * (i * x) == i * i * x * x
            && (i * x) * (s * y) == i * s * x * y
            && (s * y) * (i * x) == i * s * x * y) by (nonlinear_arith);
        assert((s * y) * (s * y) == s * s * y * y) by (nonlinear_arith);
    };
    assert(i * i * (x * x) == i * i * x * x) by {
        assert((i * i) * (x * x) == i * i * x * x) by (nonlinear_arith);
    };
    assert(i * (x * y) == i * x * y) by (nonlinear_arith);
    assert(s * (i * (x * y)) == i * s * x * y) by {
        lemma_mul_equals(s, s, i * (x * y), i * x * y);
        assert(s * (i * x * y) == i * s * x * y) by (nonlinear_arith);
    };
    assert(2 * (s * (i * (x * y))) == 2 * (i * s * x * y)) by {
        lemma_mul_equals(2, 2, s * (i * (x * y)), i * s * x * y);
    };
    assert(s * s * (y * y) == s * s * y * y) by {
        assert((s * s) * (y * y) == s * s * y * y) by (nonlinear_arith);
    };
}

/// `(d a^2)(2 s i b) = 2 s i a (d a b)`.
pub proof fn lemma_d_times_mixed_term(d: int, a: int, b: int, i: int, s: int)
    ensures
        d * (a * a) * (2 * (s * (i * b))) == 2 * (s * (i * (a * (d * a * b)))),
{
    assert(d * (a * a) == a * a * d) by (nonlinear_arith);
    assert(i * b == b * i) by (nonlinear_arith);
    assert(s * (i * b) == b * i * s) by {
        lemma_mul_equals(s, s, i * b, b * i);
        assert(s * (b * i) == b * i * s) by (nonlinear_arith);
    };
    assert(2 * (s * (i * b)) == 2 * (b * i * s)) by {
        lemma_mul_equals(2, 2, s * (i * b), b * i * s);
    };
    assert(d * (a * a) * (2 * (s * (i * b))) == 2 * (a * a * b * d * i * s)) by {
        lemma_mul_equals(d * (a * a), a * a * d, 2 * (s * (i * b)), 2 * (b * i * s));
        assert((a * a * d) * (2 * (b * i * s)) == 2 * (a * a * b * d * i * s)) by (nonlinear_arith);
    };
    assert(d * a == a * d) by (nonlinear_arith);
    assert(d * a * b == a * b * d) by {
        lemma_mul_equals(d * a, a * d, b, b);
        assert((a * d) * b == a * b * d) by (nonlinear_arith);
    };
    assert(a * (d * a * b) == a * a * b * d) by {
        lemma_mul_equals(a, a, d * a * b, a * b * d);
        assert(a * (a * b * d) == a * a * b * d) by (nonlinear_arith);
    };
    assert(i * (a * (d * a * b)) == a * a * b * d * i) by {
        lemma_mul_equals(i, i, a * (d * a * b), a * a * b * d);
        assert(i * (a * a * b * d) == a * a * b * d * i) by (nonlinear_arith);
    };
    assert(s * (i * (a * (d * a * b))) == a * a * b * d * i * s) by {
        lemma_mul_equals(s, s, i * (a * (d * a * b)), a * a * b * d * i);
        assert(s * (a * a * b * d * i) == a * a * b * d * i * s) by (nonlinear_arith);
    };
    assert(2 * (s * (i * (a * (d * a * b)))) == 2 * (a * a * b * d * i * s)) by {
        lemma_mul_equals(2, 2, s * (i * (a * (d * a * b))), a * a * b * d * i * s);
    };
}

/// The equation of the curve, brought to affine coordinates with the inverse `w` of `z`:
/// `w^2 (y^2 - x^2 - (z^2 + d t^2)) = (y w)^2 - (x w)^2 - ((z w)^2 + d (t w)^2)`.
pub proof fn lemma_affine_equation(x: int, y: int, t: int, z: int, d: int, w: int)
    ensures
        w * w * (y * y - x * x - (z * z + d * (t * t))) == y * w * (y * w) - x * w * (x * w) - (z * w * (z * w) + d * (t * w * (t * w))),
{
    assert(d * (t * t) == d * t * t) by (nonlinear_arith);
    assert(w * w * (y * y - x * x - (z * z + d * (t * t))) == w * w * y * y - d * t * t * w * w - w * w * x * x - w * w * z * z) by {
        let b2 = y * y - d * t * t;
        let b3 = b2 - x * x;
        let b4 = b3 - z * z;
        lemma_mul_equals(w * w, w * w, y * y - x * x - (z * z + d * (t * t)), b4);
        lemma_mul_is_distributive_sub(w * w, b3, z * z);
        lemma_mul_is_distributive_sub(w * w, b2, x * x);
        lemma_mul_is_distributive_sub(w * w, y * y, d * t * t);
        assert((w * w) * (y * y) == w * w * y * y
            && (w * w) * (d * t * t) == d * t * t * w * w
            && (w * w) * (x * x) == w * w * x * x) by (nonlinear_arith);
        assert((w * w) * (z * z) == w * w * z * z) by (nonlinear_arith);
    };
    assert(y * w == w * y) by (nonlinear_arith);
    assert(y * w * (y * w) == w * w * y * y) by {
        lemma_mul_equals(y * w, w * y, y * w, w * y);
        assert((w * y) * (w * y) == w * w * y * y) by (nonlinear_arith);
    };
    assert(x * w == w * x) by (nonlinear_arith);
    assert(x * w * (x * w) == w * w * x * x) by {
        lemma_mul_equals(x * w, w * x, x * w, w * x);
        assert((w * x) * (w * x) == w * w * x * x) by (nonlinear_arith);
    };
    assert(z * w == w * z) by (nonlinear_arith);
    assert(z * w * (z * w) == w * w * z * z) by {
        lemma_mul_equals(z * w, w * z, z * w, w * z);
        assert((w * z) * (w * z) == w * w * z * z) by (nonlinear_arith);
    };
    assert(t * w * (t * w) == t * t * w * w) by {
        assert((t * w) * (t * w) == t * t * w * w) by (nonlinear_arith);
    };
    assert(d * (t * w * (t * w)) == d * t * t * w * w) by {
        lemma_mul_equals(d, d, t * w * (t * w), t * t * w * w);
        assert(d * (t * t * w * w) == d * t * t * w * w) by (nonlinear_arith);
    };
}

} // verus!
