//! Equality of points up to the scale of their coordinates, as a relation
//! that the group law respects.

use vstd::prelude::*;
use crate::curve::{
    complete, coords_cong, equiv, point_add, point_zero, proper, raw_add,
    raw_e, raw_f, raw_g, raw_h, raw_scale, same_point, Coords,
};
use crate::group_law::{
    lemma_add_associative, lemma_add_commutative, lemma_add_on_curve, lemma_add_zero_right,
    lemma_zero_on_curve,
};
use crate::lifting::{lemma_add_cong, lemma_on_curve_cong, lemma_same_point_cong};
use crate::modular::{invertible, cong, fmul, lemma_canonical, lemma_cong_mul, lemma_fmul_cong};
use crate::monomial::lemma_mul_pairs;
use vstd::arithmetic::mul::{lemma_mul_is_distributive_add, lemma_mul_is_distributive_sub};

verus! {

/// The parts of the addition formula at a scaled first argument.
proof fn lemma_parts_scaled(
    x: int,
    y: int,
    t: int,
    z: int,
    qx: int,
    qy: int,
    qt: int,
    qz: int,
    d: int,
    k: int,
)
    ensures
        (k * x + k * y) * (qx + qy) - ((k * y) * qy + (k * x) * qx) == k * ((x + y) * (qx + qy) - (y
            * qy + x * qx)),
        (k * z) * qz - d * (k * t) * qt == k * (z * qz - d * t * qt),
        (k * z) * qz + d * (k * t) * qt == k * (z * qz + d * t * qt),
        (k * y) * qy + (k * x) * qx == k * (y * qy + x * qx),
{
    lemma_mul_is_distributive_add(k, x, y);
    lemma_swap_last(k, x + y, qx + qy);
    lemma_swap_last(k, y, qy);
    lemma_swap_last(k, x, qx);
    lemma_mul_is_distributive_add(k, y * qy, x * qx);
    lemma_mul_is_distributive_sub(k, (x + y) * (qx + qy), y * qy + x * qx);
    lemma_swap_last(k, z, qz);
    lemma_swap_last(d, k, t);
    lemma_swap_last(k, d, t);
    lemma_swap_last(k, d * t, qt);
    assert(d * (k * t) * qt == k * (d * t * qt)) by {
        assert(d * (k * t) == (d * k) * t);
        assert((d * k) == k * d);
        assert((k * d) * t == k * (d * t));
    }
    lemma_mul_is_distributive_sub(k, z * qz, d * t * qt);
    lemma_mul_is_distributive_add(k, z * qz, d * t * qt);
}

/// `(a b) c = (a c) b`.
proof fn lemma_swap_last(a: int, b: int, c: int) by (nonlinear_arith)
    ensures
        (a * b) * c == (a * c) * b,
        (a * b) * c == a * (b * c),
        a * b == b * a,
{
}

/// A factor that has an inverse can be cancelled.
pub proof fn lemma_cancel(z: int, a: int, b: int)
    requires
        invertible(z),
        cong(z * a, z * b),
    ensures
        cong(a, b),
{
    let w = choose|w: int| fmul(z, w) == 1;
    assert(cong(z * w, 1));
    // a = 1 a = (z w) a = w (z a) = w (z b) = (z w) b = b
    lemma_cong_mul(w, z * a, w, z * b);
    lemma_swap_last(z, w, a);
    lemma_swap_last(z, a, w);
    lemma_swap_last(z * a, w, 1);
    lemma_swap_last(z, w, b);
    lemma_swap_last(z, b, w);
    lemma_swap_last(z * b, w, 1);
    assert(w * (z * a) == (z * w) * a);
    assert(w * (z * b) == (z * w) * b);
    lemma_cong_mul(z * w, a, 1, a);
    lemma_cong_mul(z * w, b, 1, b);
}

/// A point stands for the same affine point as itself.
pub proof fn lemma_same_point_reflexive(p: Coords)
    ensures
        same_point(p, p),
{
}

/// Standing for the same affine point does not depend on the order.
pub proof fn lemma_same_point_symmetric(p: Coords, q: Coords)
    ensures
        same_point(p, q) == same_point(q, p),
{
}

/// Two points that stand for the same affine point as a finite third one
/// stand for the same affine point.
pub proof fn lemma_same_point_transitive(p: Coords, q: Coords, r: Coords)
    requires
        same_point(p, q),
        same_point(q, r),
        invertible(q.z),
    ensures
        same_point(p, r),
{
    lemma_same_point_cong(p, q, p, q);
    lemma_same_point_cong(q, r, q, r);
    lemma_same_point_cong(p, r, p, r);
    lemma_transitive_coordinate(p.x, p.z, q.x, q.z, r.x, r.z);
    lemma_transitive_coordinate(p.y, p.z, q.y, q.z, r.y, r.z);
}

/// From `a / u = b / v` and `b / v = c / w` with `v` invertible:
/// `a / u = c / w`, all written without division.
proof fn lemma_transitive_coordinate(a: int, u: int, b: int, v: int, c: int, w: int)
    requires
        cong(a * v, b * u),
        cong(b * w, c * v),
        invertible(v),
    ensures
        cong(a * w, c * u),
{
    // v (a w) = (a v) w = (b u) w = (b w) u = (c v) u = v (c u)
    lemma_cong_mul(a * v, w, b * u, w);
    lemma_cong_mul(b * w, u, c * v, u);
    lemma_swap_last(a, v, w);
    lemma_swap_last(a, w, v);
    lemma_swap_last(a * w, v, 1);
    lemma_swap_last(b, u, w);
    lemma_swap_last(c, v, u);
    lemma_swap_last(c, u, v);
    lemma_swap_last(c * u, v, 1);
    assert(v * (a * w) == (a * v) * w);
    assert((b * u) * w == (b * w) * u);
    assert((c * v) * u == v * (c * u));
    lemma_cancel(v, a * w, c * u);
}

/// With `u s = 1` and `v w = 1`: `a v = b u` exactly if `a s = b w`.
proof fn lemma_affine_coordinate(a: int, u: int, s: int, b: int, v: int, w: int)
    requires
        cong(u * s, 1),
        cong(v * w, 1),
    ensures
        cong(a * v, b * u) == cong(a * s, b * w),
{
    let sw = s * w;
    let uv = u * v;
    if cong(a * v, b * u) {
        // (a v)(s w) = (a s)(v w) = a s, and (b u)(s w) = (b w)(u s) = b w
        lemma_cong_mul(a * v, sw, b * u, sw);
        lemma_mul_pairs(a, v, s, w);
        lemma_mul_pairs(b, u, w, s);
        lemma_swap_last(w, s, 1);
        lemma_cong_mul(a * s, v * w, a * s, 1);
        lemma_cong_mul(b * w, u * s, b * w, 1);
    }
    if cong(a * s, b * w) {
        // (a s)(u v) = (a v)(u s) = a v, and (b w)(u v) = (b u)(v w) = b u
        lemma_cong_mul(a * s, uv, b * w, uv);
        lemma_mul_pairs(a, s, v, u);
        lemma_swap_last(v, u, 1);
        lemma_mul_pairs(b, w, u, v);
        lemma_cong_mul(a * v, u * s, a * v, 1);
        lemma_cong_mul(b * u, v * w, b * u, 1);
    }
}

/// Two finite points stand for the same affine point exactly if their affine
/// coordinates `X/Z` and `Y/Z` are equal.
pub proof fn lemma_same_point_is_affine_equality(p: Coords, q: Coords, s: int, w: int)
    requires
        fmul(p.z, s) == 1,
        fmul(q.z, w) == 1,
    ensures
        same_point(p, q) == (fmul(p.x, s) == fmul(q.x, w) && fmul(p.y, s) == fmul(q.y, w)),
{
    lemma_same_point_cong(p, q, p, q);
    assert(cong(p.z * s, 1) && cong(q.z * w, 1));
    lemma_affine_coordinate(p.x, p.z, s, q.x, q.z, w);
    lemma_affine_coordinate(p.y, p.z, s, q.y, q.z, w);
    lemma_fmul_cong(p.x, s, p.x, s);
    lemma_fmul_cong(q.x, w, q.x, w);
    lemma_fmul_cong(p.y, s, p.y, s);
    lemma_fmul_cong(q.y, w, q.y, w);
    lemma_canonical(fmul(p.x, s));
    lemma_canonical(fmul(q.x, w));
    lemma_canonical(fmul(p.y, s));
    lemma_canonical(fmul(q.y, w));
}

/// From `a / u = b / v` with `u w = 1`: `b = (v w) a`.
proof fn lemma_scaled_coordinate(a: int, u: int, b: int, v: int, w: int)
    requires
        cong(a * v, b * u),
        cong(u * w, 1),
    ensures
        cong(b, (v * w) * a),
{
    // (v w) a = w (a v) = w (b u) = b (u w) = b
    lemma_cong_mul(w, a * v, w, b * u);
    lemma_swap_last(v, w, a);
    lemma_swap_last(v, a, w);
    lemma_swap_last(a, v, 1);
    lemma_swap_last(a * v, w, 1);
    assert((v * w) * a == w * (a * v));
    lemma_swap_last(b, u, w);
    lemma_swap_last(b * u, w, 1);
    assert(w * (b * u) == b * (u * w));
    lemma_cong_mul(b, u * w, b, 1);
}

/// Two finite points of the curve that stand for the same affine point
/// differ by a common factor of their coordinates, which is returned.
pub proof fn lemma_same_point_is_scaling(p: Coords, p2: Coords, d: int) -> (k: int)
    requires
        proper(p, d),
        proper(p2, d),
        same_point(p, p2),
    ensures
        coords_cong(p2, raw_scale(p, k)),
{
    let w = choose|w: int| fmul(p.z, w) == 1;
    assert(cong(p.z * w, 1));
    let k = p2.z * w;
    lemma_same_point_cong(p, p2, p, p2);
    lemma_on_curve_cong(p, d, p, d);
    lemma_on_curve_cong(p2, d, p2, d);
    lemma_scaled_coordinate(p.x, p.z, p2.x, p2.z, w);
    lemma_scaled_coordinate(p.y, p.z, p2.y, p2.z, w);
    lemma_scaled_coordinate(p.z, p.z, p2.z, p2.z, w);
    // p2.z p2.t = p2.x p2.y = (k p.x)(k p.y) = (k k)(p.x p.y) = (k k)(p.t p.z)
    //           = (k p.z)(k p.t) = p2.z (k p.t)
    lemma_cong_mul(p2.x, p2.y, k * p.x, k * p.y);
    lemma_mul_pairs(k, p.x, k, p.y);
    lemma_cong_mul(k * k, p.x * p.y, k * k, p.t * p.z);
    lemma_mul_pairs(k, k, p.z, p.t);
    lemma_swap_last(p.t, p.z, 1);
    lemma_cong_mul(k * p.z, k * p.t, p2.z, k * p.t);
    lemma_swap_last(p2.t, p2.z, 1);
    assert(cong(p2.z * p2.t, p2.z * (k * p.t)));
    lemma_cancel(p2.z, p2.t, k * p.t);
    k
}

/// The addition formula over the integers at a scaled first argument gives
/// the same coordinates scaled by the square of the factor.
proof fn lemma_raw_add_scaled(p: Coords, q: Coords, d: int, k: int)
    ensures
        raw_add(raw_scale(p, k), q, d) == raw_scale(raw_add(p, q, d), k * k),
{
    let s = raw_scale(p, k);
    lemma_parts_scaled(p.x, p.y, p.t, p.z, q.x, q.y, q.t, q.z, d, k);
    lemma_mul_pairs(k, raw_e(p, q), k, raw_f(p, q, d));
    lemma_mul_pairs(k, raw_g(p, q, d), k, raw_h(p, q));
    lemma_mul_pairs(k, raw_e(p, q), k, raw_h(p, q));
    lemma_mul_pairs(k, raw_f(p, q, d), k, raw_g(p, q, d));
}

/// Adding to a point of the curve and to another that stands for the same
/// affine point gives sums that stand for the same affine point.
pub proof fn lemma_add_respects_left(p: Coords, p2: Coords, q: Coords, d: int)
    requires
        proper(p, d),
        proper(p2, d),
        same_point(p, p2),
    ensures
        same_point(point_add(p, q, d), point_add(p2, q, d)),
{
    let k = lemma_same_point_is_scaling(p, p2, d);
    let r = raw_add(p, q, d);
    lemma_add_cong(p, q, d, p, q, d);
    lemma_add_cong(p2, q, d, raw_scale(p, k), q, d);
    lemma_raw_add_scaled(p, q, d, k);
    let r2 = raw_scale(r, k * k);
    lemma_same_point_cong(point_add(p, q, d), point_add(p2, q, d), r, r2);
    let kk = k * k;
    lemma_swap_last(kk, r.z, r.x);
    lemma_swap_last(kk, r.x, r.z);
    lemma_swap_last(r.x, kk * r.z, 1);
    lemma_swap_last(kk, r.z, r.y);
    lemma_swap_last(kk, r.y, r.z);
    lemma_swap_last(r.y, kk * r.z, 1);
    assert(r.x * (kk * r.z) == (kk * r.x) * r.z);
    assert(r.y * (kk * r.z) == (kk * r.y) * r.z);
}

/// A finite point of the curve stands for the same affine point as itself.
pub proof fn lemma_equiv_reflexive(p: Coords, d: int)
    requires
        proper(p, d),
    ensures
        equiv(p, p, d),
{
}

/// The relation does not depend on the order.
pub proof fn lemma_equiv_symmetric(p: Coords, q: Coords, d: int)
    ensures
        equiv(p, q, d) == equiv(q, p, d),
{
}

/// The relation is transitive.
pub proof fn lemma_equiv_transitive(p: Coords, q: Coords, r: Coords, d: int)
    requires
        equiv(p, q, d),
        equiv(q, r, d),
    ensures
        equiv(p, r, d),
{
    lemma_same_point_transitive(p, q, r);
}

/// The neutral element is a finite point of the curve.
pub proof fn lemma_zero_proper(d: int)
    ensures
        proper(point_zero(), d),
{
    lemma_zero_on_curve(d);
    assert(fmul(1, 1) == 1);
}

/// Where the addition law is complete, the sum of two finite points of the
/// curve is a finite point of the curve.
pub proof fn lemma_add_proper(p: Coords, q: Coords, d: int)
    requires
        complete(d),
        proper(p, d),
        proper(q, d),
    ensures
        proper(point_add(p, q, d), d),
{
    lemma_add_on_curve(p, q, d);
}

/// Where the addition law is complete, sums of points that stand for the
/// same affine points stand for the same affine point.
pub proof fn lemma_add_equiv(p: Coords, p2: Coords, q: Coords, q2: Coords, d: int)
    requires
        complete(d),
        equiv(p, p2, d),
        equiv(q, q2, d),
    ensures
        equiv(point_add(p, q, d), point_add(p2, q2, d), d),
{
    lemma_add_proper(p, q, d);
    lemma_add_proper(p2, q, d);
    lemma_add_proper(p2, q2, d);
    lemma_add_respects_left(p, p2, q, d);
    lemma_add_respects_left(q, q2, p2, d);
    lemma_add_commutative(q, p2, d);
    lemma_add_commutative(q2, p2, d);
    lemma_same_point_transitive(point_add(p, q, d), point_add(p2, q, d), point_add(p2, q2, d));
}

/// Where the addition law is complete, the two ways of adding three finite
/// points of the curve stand for the same affine point.
pub proof fn lemma_add_associative_equiv(p: Coords, q: Coords, r: Coords, d: int)
    requires
        complete(d),
        proper(p, d),
        proper(q, d),
        proper(r, d),
    ensures
        equiv(point_add(point_add(p, q, d), r, d), point_add(p, point_add(q, r, d), d), d),
{
    lemma_add_proper(p, q, d);
    lemma_add_proper(q, r, d);
    lemma_add_proper(point_add(p, q, d), r, d);
    lemma_add_proper(p, point_add(q, r, d), d);
    lemma_add_associative(p, q, r, d);
}

/// Adding the neutral element to a finite point of the curve gives a point
/// that stands for the same affine point.
pub proof fn lemma_add_zero_equiv(p: Coords, d: int)
    requires
        complete(d),
        proper(p, d),
    ensures
        equiv(point_add(p, point_zero(), d), p, d),
{
    lemma_zero_proper(d);
    lemma_add_proper(p, point_zero(), d);
    lemma_add_zero_right(p, d);
}

} // verus!
