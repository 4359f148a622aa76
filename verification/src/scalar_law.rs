//! Multiplication by a scalar: how doubling and adding walks the bits of the
//! scalar, and, where the addition law is complete, that it is repeated
//! addition: the multiple by a sum of scalars is the sum of the multiples.

use vstd::prelude::*;
use crate::curve::{
    complete, equiv, on_curve, point_add, point_double, point_zero, proper, same_point,
    scalar_mul, Coords,
};
use crate::equivalence::{
    lemma_add_associative_equiv, lemma_add_equiv, lemma_add_proper, lemma_add_zero_equiv,
    lemma_equiv_transitive, lemma_zero_proper,
};
use crate::fs::{bit_of, lemma_shift_step};
use crate::group_law::{
    lemma_add_commutative, lemma_add_on_curve, lemma_add_zero_left, lemma_zero_on_curve,
};
use crate::modular::{fadd, fmul, fsub};
use vstd::arithmetic::power2::pow2;

verus! {

/// Twice the neutral element is the neutral element, coordinate by coordinate.
pub proof fn lemma_double_zero(d: int)
    ensures
        point_double(point_zero(), d) == point_zero(),
{
    assert(fmul(d, 0) == 0);
    assert(fmul(0, 0) == 0);
    assert(fmul(1, 1) == 1);
    assert(fadd(0, 1) == 1);
    assert(fadd(1, 0) == 1);
    assert(fsub(1, 1) == 0);
    assert(fsub(1, 0) == 1);
    assert(fmul(0, 1) == 0);
}

/// One round of doubling and adding: how the multiple by the scalar without
/// its lowest `k` bits comes from the multiple by the scalar without its
/// lowest `k + 1` bits.
pub proof fn lemma_scalar_mul_step(p: Coords, n: int, k: nat, d: int)
    requires
        0 <= n,
    ensures
        scalar_mul(p, n / (pow2(k) as int), d) == ({
            let h = point_double(scalar_mul(p, n / (pow2(k + 1) as int), d), d);
            if bit_of(n, k) {
                point_add(h, p, d)
            } else {
                h
            }
        }),
{
    lemma_shift_step(n, k);
    let m = n / (pow2(k) as int);
    if m == 0 {
        lemma_double_zero(d);
        assert(scalar_mul(p, 0, d) == point_zero());
    }
}

/// Every multiple of a point of the curve satisfies the equations of the
/// curve.
pub proof fn lemma_scalar_mul_on_curve(p: Coords, n: int, d: int)
    requires
        on_curve(p, d),
    ensures
        on_curve(scalar_mul(p, n, d), d),
    decreases n,
{
    if n <= 0 {
        lemma_zero_on_curve(d);
    } else {
        let half = scalar_mul(p, n / 2, d);
        lemma_scalar_mul_on_curve(p, n / 2, d);
        lemma_add_on_curve(half, half, d);
        lemma_add_on_curve(point_double(half, d), p, d);
    }
}

/// Where the addition law is complete, every multiple of a finite point of
/// the curve is a finite point of the curve.
pub proof fn lemma_scalar_mul_proper(p: Coords, n: int, d: int)
    requires
        complete(d),
        proper(p, d),
    ensures
        proper(scalar_mul(p, n, d), d),
    decreases n,
{
    if n <= 0 {
        lemma_zero_proper(d);
    } else {
        let half = scalar_mul(p, n / 2, d);
        lemma_scalar_mul_proper(p, n / 2, d);
        lemma_add_proper(half, half, d);
        lemma_add_proper(point_double(half, d), p, d);
    }
}

/// Where the addition law is complete, `((a + a) + p) + p` and
/// `(a + p) + (a + p)` stand for the same affine point.
proof fn lemma_double_of_successor(a: Coords, p: Coords, d: int)
    requires
        complete(d),
        proper(a, d),
        proper(p, d),
    ensures
        equiv(
            point_add(point_add(a, p, d), point_add(a, p, d), d),
            point_add(point_add(point_add(a, a, d), p, d), p, d),
            d,
        ),
{
    let aa = point_add(a, a, d);
    let pp = point_add(p, p, d);
    let u = point_add(a, p, d);
    lemma_add_proper(a, a, d);
    lemma_add_proper(p, p, d);
    lemma_add_proper(a, p, d);
    lemma_add_proper(u, p, d);
    lemma_add_proper(a, pp, d);
    // ((a + a) + p) + p ~ (a + a) + (p + p) ~ a + (a + (p + p))
    let t1 = point_add(point_add(aa, p, d), p, d);
    let t2 = point_add(aa, pp, d);
    let t3 = point_add(a, point_add(a, pp, d), d);
    lemma_add_associative_equiv(aa, p, p, d);
    lemma_add_associative_equiv(a, a, pp, d);
    lemma_equiv_transitive(t1, t2, t3, d);
    // a + (p + p) ~ (a + p) + p, so a + (a + (p + p)) ~ a + (u + p)
    lemma_add_associative_equiv(a, p, p, d);
    let t4 = point_add(a, point_add(u, p, d), d);
    lemma_add_equiv(a, a, point_add(a, pp, d), point_add(u, p, d), d);
    lemma_equiv_transitive(t1, t3, t4, d);
    // a + (p + u) ~ (a + p) + u
    lemma_add_commutative(u, p, d);
    lemma_add_associative_equiv(a, p, u, d);
    let t5 = point_add(u, u, d);
    lemma_equiv_transitive(t1, t4, t5, d);
}

/// Where the addition law is complete, the multiple by `n + 1` is the
/// multiple by `n` with the point added once more.
pub proof fn lemma_scalar_mul_successor(p: Coords, n: int, d: int)
    requires
        complete(d),
        proper(p, d),
        0 <= n,
    ensures
        equiv(scalar_mul(p, n + 1, d), point_add(scalar_mul(p, n, d), p, d), d),
    decreases n,
{
    lemma_scalar_mul_proper(p, n, d);
    lemma_scalar_mul_proper(p, n + 1, d);
    lemma_add_proper(scalar_mul(p, n, d), p, d);
    if n == 0 {
        lemma_double_zero(d);
        assert(scalar_mul(p, 0, d) == point_zero());
        assert(scalar_mul(p, 1, d) == point_add(point_double(scalar_mul(p, 0, d), d), p, d));
    } else if n % 2 == 0 {
        assert((n + 1) / 2 == n / 2);
    } else {
        let m = n / 2;
        assert((n + 1) / 2 == m + 1);
        let a = scalar_mul(p, m, d);
        let b = scalar_mul(p, m + 1, d);
        let u = point_add(a, p, d);
        lemma_scalar_mul_proper(p, m, d);
        lemma_scalar_mul_successor(p, m, d);
        // twice the multiple by m + 1 ~ (a + p) + (a + p) ~ ((a + a) + p) + p
        lemma_add_equiv(b, u, b, u, d);
        lemma_double_of_successor(a, p, d);
        lemma_equiv_transitive(
            point_add(b, b, d),
            point_add(u, u, d),
            point_add(point_add(point_add(a, a, d), p, d), p, d),
            d,
        );
    }
}

/// Where the addition law is complete, the multiple of a finite point of the
/// curve by a sum of scalars is the sum of its multiples by the scalars.
pub proof fn lemma_scalar_mul_distributes(p: Coords, a: int, b: int, d: int)
    requires
        complete(d),
        proper(p, d),
        0 <= a,
        0 <= b,
    ensures
        equiv(
            scalar_mul(p, a + b, d),
            point_add(scalar_mul(p, a, d), scalar_mul(p, b, d), d),
            d,
        ),
    decreases b,
{
    let sa = scalar_mul(p, a, d);
    lemma_scalar_mul_proper(p, a, d);
    if b == 0 {
        lemma_add_zero_equiv(sa, d);
    } else {
        let c = b - 1;
        let sc = scalar_mul(p, c, d);
        let sb = scalar_mul(p, b, d);
        let sac = scalar_mul(p, a + c, d);
        lemma_scalar_mul_proper(p, c, d);
        lemma_scalar_mul_distributes(p, a, c, d);
        // (a + c + 1) p ~ (a + c) p + p ~ (a p + c p) + p ~ a p + (c p + p) ~ a p + b p
        lemma_scalar_mul_successor(p, a + c, d);
        lemma_add_equiv(sac, point_add(sa, sc, d), p, p, d);
        lemma_add_associative_equiv(sa, sc, p, d);
        lemma_scalar_mul_successor(p, c, d);
        lemma_add_equiv(sa, sa, point_add(sc, p, d), sb, d);
        let t1 = point_add(sac, p, d);
        let t2 = point_add(point_add(sa, sc, d), p, d);
        let t3 = point_add(sa, point_add(sc, p, d), d);
        let t4 = point_add(sa, sb, d);
        lemma_equiv_transitive(scalar_mul(p, a + b, d), t1, t2, d);
        lemma_equiv_transitive(scalar_mul(p, a + b, d), t2, t3, d);
        lemma_equiv_transitive(scalar_mul(p, a + b, d), t3, t4, d);
    }
}

/// Where the addition law is complete and the multiple of a finite point of
/// the curve by `order` is the neutral element, adding `order` to a scalar
/// does not change the multiple by it.
pub proof fn lemma_scalar_mul_modulo_order(p: Coords, a: int, order: int, d: int)
    requires
        complete(d),
        proper(p, d),
        0 <= a,
        0 <= order,
        equiv(scalar_mul(p, order, d), point_zero(), d),
    ensures
        equiv(scalar_mul(p, a + order, d), scalar_mul(p, a, d), d),
{
    let sa = scalar_mul(p, a, d);
    let so = scalar_mul(p, order, d);
    lemma_scalar_mul_proper(p, a, d);
    lemma_scalar_mul_distributes(p, a, order, d);
    lemma_add_equiv(sa, sa, so, point_zero(), d);
    lemma_add_zero_equiv(sa, d);
    lemma_equiv_transitive(
        scalar_mul(p, a + order, d),
        point_add(sa, so, d),
        point_add(sa, point_zero(), d),
        d,
    );
    lemma_equiv_transitive(scalar_mul(p, a + order, d), point_add(sa, point_zero(), d), sa, d);
}

/// Where the addition law is complete, the multiples of two points that
/// stand for the same affine point stand for the same affine point.
pub proof fn lemma_scalar_mul_equiv(p: Coords, p2: Coords, n: int, d: int)
    requires
        complete(d),
        equiv(p, p2, d),
    ensures
        equiv(scalar_mul(p, n, d), scalar_mul(p2, n, d), d),
    decreases n,
{
    if n <= 0 {
        lemma_zero_proper(d);
    } else {
        let h = scalar_mul(p, n / 2, d);
        let h2 = scalar_mul(p2, n / 2, d);
        lemma_scalar_mul_equiv(p, p2, n / 2, d);
        lemma_add_equiv(h, h2, h, h2, d);
        lemma_add_equiv(point_double(h, d), point_double(h2, d), p, p2, d);
    }
}

/// Where the addition law is complete, the multiple of a finite point of the
/// curve by one stands for the same affine point as the point.
pub proof fn lemma_scalar_mul_one(p: Coords, d: int)
    requires
        complete(d),
        proper(p, d),
    ensures
        equiv(scalar_mul(p, 1, d), p, d),
{
    lemma_double_zero(d);
    assert(scalar_mul(p, 0, d) == point_zero());
    assert(scalar_mul(p, 1, d) == point_add(point_double(scalar_mul(p, 0, d), d), p, d));
    lemma_zero_proper(d);
    lemma_add_proper(point_zero(), p, d);
    lemma_add_zero_left(p, d);
}

/// Where the addition law is complete, the multiple by a product of scalars
/// is the multiple by one of them of the multiple by the other.
pub proof fn lemma_scalar_mul_product(p: Coords, a: int, b: int, d: int)
    requires
        complete(d),
        proper(p, d),
        0 <= a,
        0 <= b,
    ensures
        equiv(scalar_mul(p, a * b, d), scalar_mul(scalar_mul(p, a, d), b, d), d),
    decreases b,
{
    let q = scalar_mul(p, a, d);
    lemma_scalar_mul_proper(p, a, d);
    if b == 0 {
        assert(a * 0 == 0);
        lemma_zero_proper(d);
    } else {
        let c = b - 1;
        assert(a * b == a * c + a) by (nonlinear_arith)
            requires
                c == b - 1,
        ;
        assert(0 <= a * c) by (nonlinear_arith)
            requires
                0 <= a,
                0 <= c,
        ;
        lemma_scalar_mul_product(p, a, c, d);
        // (a c + a) p ~ (a c) p + a p ~ c q + q ~ (c + 1) q
        lemma_scalar_mul_distributes(p, a * c, a, d);
        lemma_add_equiv(scalar_mul(p, a * c, d), scalar_mul(q, c, d), q, q, d);
        lemma_scalar_mul_successor(q, c, d);
        let t1 = point_add(scalar_mul(p, a * c, d), q, d);
        let t2 = point_add(scalar_mul(q, c, d), q, d);
        lemma_equiv_transitive(scalar_mul(p, a * b, d), t1, t2, d);
        lemma_equiv_transitive(scalar_mul(p, a * b, d), t2, scalar_mul(q, b, d), d);
    }
}

/// Where the addition law is complete, three doublings of a finite point of
/// the curve give its multiple by eight.
pub proof fn lemma_three_doublings(p: Coords, d: int)
    requires
        complete(d),
        proper(p, d),
    ensures
        equiv(
            scalar_mul(p, 8, d),
            point_double(point_double(point_double(p, d), d), d),
            d,
        ),
{
    let one = scalar_mul(p, 1, d);
    let two = scalar_mul(p, 2, d);
    let four = scalar_mul(p, 4, d);
    assert(two == point_double(one, d));
    assert(four == point_double(two, d));
    assert(scalar_mul(p, 8, d) == point_double(four, d));
    lemma_scalar_mul_one(p, d);
    lemma_add_equiv(one, p, one, p, d);
    let p2 = point_double(p, d);
    lemma_add_equiv(two, p2, two, p2, d);
    let p4 = point_double(p2, d);
    lemma_add_equiv(four, p4, four, p4, d);
}

/// Where the addition law is complete, clearing the cofactor takes a finite
/// point of the curve into the subgroup of the points that `order` kills, if
/// eight times `order` kills the point. On a curve of eight times `order`
/// points that is so of every point.
pub proof fn lemma_cofactor_clearing(p: Coords, order: int, d: int)
    requires
        complete(d),
        proper(p, d),
        0 <= order,
        same_point(scalar_mul(p, 8 * order, d), point_zero()),
    ensures
        same_point(
            scalar_mul(point_double(point_double(point_double(p, d), d), d), order, d),
            point_zero(),
        ),
{
    let cleared = point_double(point_double(point_double(p, d), d), d);
    let eight = scalar_mul(p, 8, d);
    lemma_zero_proper(d);
    lemma_scalar_mul_proper(p, 8 * order, d);
    lemma_three_doublings(p, d);
    lemma_scalar_mul_equiv(eight, cleared, order, d);
    lemma_scalar_mul_product(p, 8, order, d);
    // order (8 p) ~ (8 order) p ~ 0
    lemma_equiv_transitive(
        scalar_mul(cleared, order, d),
        scalar_mul(eight, order, d),
        scalar_mul(p, 8 * order, d),
        d,
    );
    lemma_equiv_transitive(
        scalar_mul(cleared, order, d),
        scalar_mul(p, 8 * order, d),
        point_zero(),
        d,
    );
}

} // verus!
