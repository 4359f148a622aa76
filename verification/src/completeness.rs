//! The addition law is complete: the sum of two finite points of the curve
//! is finite, because the coefficient `d` is not a square in the field while
//! `-1` is one. Were `Z` of a sum zero, a square root of `d` could be written
//! down.
//!
//! That the integers modulo `modulus()` are a field and that `d` is not a
//! square are taken as hypotheses here.

use vstd::prelude::*;
use vstd::arithmetic::mul::lemma_mul_is_distributive_add;
use crate::curve::{
    complete, curve_residue, on_curve, point_add, product_residue, proper, raw_add, raw_f, raw_g,
    Coords,
};
use crate::equivalence::lemma_cancel;
use crate::lifting::{lemma_add_cong, lemma_on_curve_raw};
use crate::modular::{
    cong, fmul, invertible, is_field, is_square, lemma_cong_add, lemma_cong_difference,
    lemma_cong_mul, lemma_cong_sub, lemma_cong_zero_multiple, modulus,
};
use crate::monomial::lemma_mul_pairs;
use crate::polynomial::{
    lemma_affine_equation, lemma_d_times_mixed_term, lemma_product_of_d_terms,
    lemma_square_of_mixed_sum,
};

verus! {

/// `(a b) c = a (b c)` and `a b = b a`.
proof fn lemma_regroup(a: int, b: int, c: int) by (nonlinear_arith)
    ensures
        (a * b) * c == a * (b * c),
        a * b == b * a,
        a * 1 == a,
        1 * a == a,
{
}

/// What stands for the same field element as an invertible element is
/// invertible.
pub proof fn lemma_invertible_cong(a: int, a2: int)
    requires
        invertible(a),
        cong(a, a2),
    ensures
        invertible(a2),
{
    let w = choose|w: int| fmul(a, w) == 1;
    lemma_cong_mul(a, w, a2, w);
    assert(fmul(a2, w) == 1);
}

/// The product of two invertible elements is invertible.
pub proof fn lemma_invertible_product(a: int, b: int)
    requires
        invertible(a),
        invertible(b),
    ensures
        invertible(a * b),
{
    let u = choose|u: int| fmul(a, u) == 1;
    let v = choose|v: int| fmul(b, v) == 1;
    lemma_mul_pairs(a, b, u, v);
    lemma_cong_mul(a * u, b * v, 1, 1);
    assert(fmul(a * b, u * v) == 1);
}

/// The factors of an invertible product are invertible.
pub proof fn lemma_invertible_factor(a: int, b: int)
    requires
        invertible(a * b),
    ensures
        invertible(a),
        invertible(b),
{
    let ab = a * b;
    let w = choose|w: int| fmul(ab, w) == 1;
    lemma_regroup(a, b, w);
    assert(fmul(a, b * w) == 1);
    lemma_regroup(b, a, w);
    lemma_regroup(a, b, 1);
    assert((a * b) * w == b * (a * w));
    assert(fmul(b, a * w) == 1);
}

/// An invertible element is not zero.
pub proof fn lemma_invertible_not_zero(a: int)
    requires
        invertible(a),
    ensures
        !cong(a, 0),
{
    let w = choose|w: int| fmul(a, w) == 1;
    if cong(a, 0) {
        lemma_cong_mul(a, w, 0, w);
        assert(0 * w == 0);
    }
}

/// In a field a product is zero only if a factor is.
pub proof fn lemma_zero_product(a: int, b: int)
    requires
        is_field(),
        cong(a * b, 0),
    ensures
        cong(a, 0) || cong(b, 0),
{
    if !cong(a, 0) {
        assert(invertible(a));
        assert(a * 0 == 0);
        lemma_cancel(a, b, 0);
    }
}

/// A multiple of what stands for `-1` stands for the negative.
proof fn lemma_times_minus_one(k: int, v: int)
    requires
        cong(k, -1),
    ensures
        cong(k * v, -v),
{
    lemma_cong_add(k, 1, -1, 1);
    lemma_cong_zero_multiple(v, k + 1);
    lemma_mul_is_distributive_add(v, k, 1);
    lemma_regroup(v, k, 1);
    lemma_cong_sub(v * k + v, v, 0, v);
}

/// For affine points `(x1, y1)` and `(x2, y2)` of the curve with
/// `e d x1 y1 x2 y2 = 1`, where `e` and `s` are signs and `i^2 = -1`:
/// `d (x1 y1)^2 (i x2 + s y2)^2 = (i x1 + s e y1)^2`.
proof fn lemma_exceptional_squares(
    x1: int,
    y1: int,
    x2: int,
    y2: int,
    d: int,
    i: int,
    e: int,
    s: int,
)
    requires
        cong(i * i, -1),
        e * e == 1,
        s * s == 1,
        cong(y1 * y1 - x1 * x1, 1 + d * ((x1 * y1) * (x1 * y1))),
        cong(y2 * y2 - x2 * x2, 1 + d * ((x2 * y2) * (x2 * y2))),
        cong(e * (d * (x1 * y1) * (x2 * y2)), 1),
    ensures
        cong(
            (d * ((x1 * y1) * (x1 * y1))) * ((i * x2 + s * y2) * (i * x2 + s * y2)),
            (i * x1 + (s * e) * y1) * (i * x1 + (s * e) * y1),
        ),
{
    let a = x1 * y1;
    let b = x2 * y2;
    let u = d * a * b;
    let da = d * (a * a);
    let h1 = y1 * y1 - x1 * x1;
    let h2 = y2 * y2 - x2 * x2;
    // u^2 = 1 and u = e
    lemma_cong_mul(e * u, e * u, 1, 1);
    lemma_mul_pairs(e, u, e, u);
    lemma_regroup(u * u, 1, 1);
    assert(cong(u * u, 1));
    lemma_cong_mul(e, e * u, e, 1);
    lemma_regroup(e, e, u);
    lemma_regroup(u, 1, 1);
    lemma_regroup(e, 1, 1);
    assert(cong(u, e));
    // (d a^2) h2 = d a^2 + u^2 = d a^2 + 1 = h1
    lemma_cong_mul(da, h2, da, 1 + d * (b * b));
    lemma_product_of_d_terms(d, a, b);
    lemma_cong_add(da, u * u, da, 1);
    assert(cong(da * h2, h1));
    // (i x2 + s y2)^2 = h2 + 2 s i b
    let ss = i * x2 + s * y2;
    let mixed = 2 * (s * (i * b));
    lemma_square_of_mixed_sum(i, x2, y2, s);
    lemma_times_minus_one(i * i, x2 * x2);
    lemma_regroup(y2 * y2, 1, 1);
    lemma_cong_add((i * i) * (x2 * x2), mixed + y2 * y2, -(x2 * x2), mixed + y2 * y2);
    assert(cong(ss * ss, h2 + mixed));
    // (d a^2)(i x2 + s y2)^2 = h1 + 2 s i a u = h1 + 2 s i a e
    lemma_cong_mul(da, ss * ss, da, h2 + mixed);
    lemma_mul_is_distributive_add(da, h2, mixed);
    lemma_d_times_mixed_term(d, a, b, i, s);
    lemma_cong_mul(a, u, a, e);
    lemma_cong_mul(i, a * u, i, a * e);
    lemma_cong_mul(s, i * (a * u), s, i * (a * e));
    lemma_cong_mul(2, s * (i * (a * u)), 2, s * (i * (a * e)));
    let target = 2 * (s * (i * (a * e)));
    lemma_cong_add(da * h2, 2 * (s * (i * (a * u))), h1, target);
    assert(cong(da * (ss * ss), h1 + target));
    // (i x1 + s e y1)^2 = h1 + 2 (s e) i a
    let n = i * x1 + (s * e) * y1;
    lemma_square_of_mixed_sum(i, x1, y1, s * e);
    lemma_times_minus_one(i * i, x1 * x1);
    lemma_mul_pairs(s, e, s, e);
    lemma_regroup(y1 * y1, 1, 1);
    let mixed1 = 2 * ((s * e) * (i * a));
    lemma_cong_add((i * i) * (x1 * x1), mixed1 + y1 * y1, -(x1 * x1), mixed1 + y1 * y1);
    assert(cong(n * n, h1 + mixed1));
    assert((s * e) * (i * a) == s * (i * (a * e))) by {
        lemma_regroup(s, e, i * a);
        lemma_regroup(e, i, a);
        lemma_regroup(e, i * a, 1);
        lemma_regroup(i, a, e);
    }
}

/// If `d m^2 = n^2` with `m` invertible, then `d` is a square.
proof fn lemma_quotient_is_root(d: int, m: int, n: int)
    requires
        invertible(m),
        cong(d * (m * m), n * n),
    ensures
        is_square(d % modulus()),
{
    let w = choose|w: int| fmul(m, w) == 1;
    let root = n * w;
    // root^2 = n^2 w^2 = d m^2 w^2 = d (m w)^2 = d
    lemma_mul_pairs(n, w, n, w);
    lemma_cong_mul(n * n, w * w, d * (m * m), w * w);
    lemma_regroup(d, m * m, w * w);
    lemma_mul_pairs(m, m, w, w);
    lemma_cong_mul(m * w, m * w, 1, 1);
    lemma_cong_mul(d, (m * w) * (m * w), d, 1);
    lemma_regroup(d, 1, 1);
    assert(cong(root * root, d));
    assert(fmul(root, root) == d % modulus());
}

/// The affine coordinates `x = X w` and `y = Y w` of a finite point of the
/// curve, with `w` the inverse of `Z`, satisfy the affine equation
/// `y^2 - x^2 = 1 + d (x y)^2`, and `x y = T w`.
proof fn lemma_affine_point(p: Coords, d: int, w: int)
    requires
        on_curve(p, d),
        fmul(p.z, w) == 1,
    ensures
        cong(
            (p.y * w) * (p.y * w) - (p.x * w) * (p.x * w),
            1 + d * (((p.x * w) * (p.y * w)) * ((p.x * w) * (p.y * w))),
        ),
        cong((p.x * w) * (p.y * w), p.t * w),
{
    let x = p.x * w;
    let y = p.y * w;
    let zw = p.z * w;
    let tw = p.t * w;
    assert(cong(zw, 1));
    lemma_on_curve_raw(p, d);
    // x y = (X Y) w^2 = (T Z) w^2 = (T w)(Z w) = T w
    lemma_mul_pairs(p.x, w, p.y, w);
    lemma_cong_difference(p.t * p.z, p.x * p.y);
    lemma_cong_mul(p.x * p.y, w * w, p.t * p.z, w * w);
    lemma_mul_pairs(p.t, p.z, w, w);
    lemma_cong_mul(tw, zw, tw, 1);
    lemma_regroup(tw, 1, 1);
    assert(cong(x * y, tw));
    // the first equation, multiplied by w^2
    lemma_affine_equation(p.x, p.y, p.t, p.z, d, w);
    lemma_cong_zero_multiple(w * w, curve_residue(p, d));
    let right = zw * zw + d * (tw * tw);
    lemma_cong_difference(y * y - x * x, right);
    lemma_cong_mul(zw, zw, 1, 1);
    lemma_cong_mul(tw, tw, x * y, x * y);
    lemma_cong_mul(d, tw * tw, d, (x * y) * (x * y));
    lemma_cong_add(zw * zw, d * (tw * tw), 1, d * ((x * y) * (x * y)));
}

/// A sign times a number.
proof fn lemma_sign(e: int, v: int) by (nonlinear_arith)
    requires
        e == 1 || e == -1,
    ensures
        e * e == 1,
        e == 1 ==> e * v == v,
        e == -1 ==> e * v == -v,
{
}

/// In a field where `i^2 = -1`, two affine points `(x1, y1)` and `(x2, y2)`
/// of the curve with `e d x1 y1 x2 y2 = 1` for a sign `e` make `d` a square.
proof fn lemma_exceptional_makes_square(
    x1: int,
    y1: int,
    x2: int,
    y2: int,
    d: int,
    i: int,
    e: int,
)
    requires
        is_field(),
        cong(i * i, -1),
        e == 1 || e == -1,
        cong(y1 * y1 - x1 * x1, 1 + d * ((x1 * y1) * (x1 * y1))),
        cong(y2 * y2 - x2 * x2, 1 + d * ((x2 * y2) * (x2 * y2))),
        cong(e * (d * (x1 * y1) * (x2 * y2)), 1),
    ensures
        is_square(d % modulus()),
{
    let a = x1 * y1;
    let b = x2 * y2;
    let u = d * a * b;
    lemma_sign(e, u);
    // whatever divides one is invertible
    let eu = e * u;
    lemma_regroup(eu, 1, 1);
    assert(fmul(eu, 1) == 1);
    lemma_invertible_factor(e, u);
    lemma_invertible_factor(d * a, b);
    lemma_invertible_factor(d, a);
    lemma_invertible_factor(x2, y2);
    let plus = i * x2 + 1 * y2;
    let minus_one: int = -1;
    let minus = i * x2 + minus_one * y2;
    lemma_sign(1, y2);
    lemma_sign(minus_one, y2);
    if !cong(plus, 0) {
        let s: int = 1;
        lemma_sign(s, e);
        assert(invertible(plus));
        lemma_invertible_product(a, plus);
        lemma_exceptional_squares(x1, y1, x2, y2, d, i, e, s);
        lemma_mul_pairs(a, plus, a, plus);
        lemma_regroup(d, a * a, plus * plus);
        lemma_quotient_is_root(d, a * plus, i * x1 + (s * e) * y1);
    } else if !cong(minus, 0) {
        let s = minus_one;
        assert(invertible(minus));
        lemma_invertible_product(a, minus);
        lemma_exceptional_squares(x1, y1, x2, y2, d, i, e, s);
        lemma_mul_pairs(a, minus, a, minus);
        lemma_regroup(d, a * a, minus * minus);
        lemma_quotient_is_root(d, a * minus, i * x1 + (s * e) * y1);
    } else {
        // both are zero, and so is their difference 2 y2
        lemma_cong_sub(plus, minus, 0, 0);
        assert(plus - minus == 2 * y2);
        lemma_zero_product(2, y2);
        lemma_invertible_not_zero(y2);
        assert(!cong(2, 0));
    }
}

/// In a field where `i^2 = -1` and `d` is not a square, the sum of two finite
/// points of the curve is finite.
proof fn lemma_sum_is_finite(p: Coords, q: Coords, d: int, i: int)
    requires
        is_field(),
        cong(i * i, -1),
        !is_square(d % modulus()),
        proper(p, d),
        proper(q, d),
    ensures
        invertible(point_add(p, q, d).z),
{
    let f = raw_f(p, q, d);
    let g = raw_g(p, q, d);
    let z = point_add(p, q, d).z;
    lemma_add_cong(p, q, d, p, q, d);
    assert(cong(z, f * g));
    if cong(f * g, 0) {
        lemma_zero_product(f, g);
        let dd = p.z * q.z;
        let c = d * p.t * q.t;
        let e: int = if cong(f, 0) {
            1
        } else {
            -1
        };
        lemma_sign(e, c);
        if cong(f, 0) {
            lemma_cong_difference(dd, c);
        } else {
            lemma_cong_sub(dd + c, c, 0, c);
        }
        assert(cong(dd, e * c));
        // in affine coordinates
        let wp = choose|w: int| fmul(p.z, w) == 1;
        let wq = choose|w: int| fmul(q.z, w) == 1;
        let x1 = p.x * wp;
        let y1 = p.y * wp;
        let x2 = q.x * wq;
        let y2 = q.y * wq;
        let t1 = p.t * wp;
        let t2 = q.t * wq;
        lemma_affine_point(p, d, wp);
        lemma_affine_point(q, d, wq);
        // 1 = (Z1 w1)(Z2 w2) = (e d T1 T2)(w1 w2) = e d (T1 w1)(T2 w2) = e d (x1 y1)(x2 y2)
        let ww = wp * wq;
        lemma_cong_mul(dd, ww, e * c, ww);
        lemma_mul_pairs(p.z, q.z, wp, wq);
        lemma_cong_mul(p.z * wp, q.z * wq, 1, 1);
        assert(cong(dd * ww, 1));
        lemma_regroup(e, c, ww);
        lemma_regroup(d, p.t, q.t);
        lemma_regroup(d, p.t * q.t, ww);
        lemma_mul_pairs(p.t, q.t, wp, wq);
        assert(c * ww == d * (t1 * t2));
        lemma_cong_mul(t1, t2, x1 * y1, x2 * y2);
        lemma_cong_mul(d, t1 * t2, d, (x1 * y1) * (x2 * y2));
        lemma_cong_mul(e, d * (t1 * t2), e, d * ((x1 * y1) * (x2 * y2)));
        lemma_regroup(d, x1 * y1, x2 * y2);
        assert(cong(e * (d * (x1 * y1) * (x2 * y2)), 1));
        lemma_exceptional_makes_square(x1, y1, x2, y2, d, i, e);
    } else {
        assert(!cong(z, 0));
        assert(invertible(z));
    }
}

/// A square root of `-1` in the field.
pub open spec fn root_of_minus_one() -> int {
    3465144826073652318776269530687742778270252468765361963008int
}

/// The square of `root_of_minus_one()` is `-1`.
pub proof fn lemma_root_of_minus_one()
    ensures
        cong(root_of_minus_one() * root_of_minus_one(), -1),
{
    let i = root_of_minus_one();
    assert(i * i
        == 12007228665665002178666410695749281444742504307600937904778808529467678979029328022583083255866252341907459160408064int);
    assert((i * i) % modulus() == modulus() - 1);
    assert((-1int) % modulus() == modulus() - 1);
}

/// In a field, the addition law of a curve whose coefficient `d` is not a
/// square is complete.
pub proof fn lemma_addition_is_complete(d: int)
    requires
        is_field(),
        !is_square(d % modulus()),
    ensures
        complete(d),
{
    lemma_root_of_minus_one();
    assert forall|p: Coords, q: Coords| proper(p, d) && proper(q, d) implies invertible(
        #[trigger] point_add(p, q, d).z,
    ) by {
        lemma_sum_is_finite(p, q, d, root_of_minus_one());
    }
}

} // verus!
