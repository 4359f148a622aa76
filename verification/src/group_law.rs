//! The laws of the group: the neutral element, the order of the arguments
//! and of the additions, the negative; and that the operations stay on the
//! curve.

use vstd::prelude::*;
use crate::assoc_abscissa::lemma_assoc_x_numerator;
use crate::assoc_ordinate::lemma_assoc_y_numerator;
use crate::curve::{
    forms_match, montgomery_to_edwards, on_curve, on_montgomery_curve, point_add, point_double,
    point_neg, point_scale, point_zero, raw_add, raw_e, raw_f, raw_g, raw_h, same_point, Coords,
};
use crate::lifting::{
    lemma_add_cong, lemma_on_curve_cong, lemma_on_curve_raw, lemma_same_point_cong,
    lemma_scale_cong,
};
use crate::modular::{
    cong, fadd, fmul, fsub, lemma_cong_add, lemma_cong_canonical, lemma_cong_difference,
    lemma_cong_mul, lemma_cong_sub, lemma_cong_zero_multiple, lemma_fadd_cong, lemma_fmul_cong,
    lemma_fneg_cong, lemma_fsub_cong,
};
use crate::monomial::lemma_mul_pairs;
use crate::polynomial::{
    lemma_cross_difference_x, lemma_cross_difference_y, lemma_curve_equation_of_sum,
    lemma_e2_times_g2_plus_dab2, lemma_e_times_a_minus_b, lemma_f2_plus_dh2, lemma_f2_plus_dm2,
    lemma_g2_times_e2_plus_dm2, lemma_g_times_m, lemma_h2_minus_e2,
    lemma_montgomery_image_residue,
};

verus! {

/// Adding the neutral element on the right leaves a point as it is.
pub proof fn lemma_add_zero_right(p: Coords, d: int)
    ensures
        same_point(point_add(p, point_zero(), d), p),
{
    let r = raw_add(p, point_zero(), d);
    lemma_add_cong(p, point_zero(), d, p, point_zero(), d);
    lemma_same_point_cong(point_add(p, point_zero(), d), p, r, p);
    assert(r.x * p.z == p.x * r.z && r.y * p.z == p.y * r.z) by (nonlinear_arith)
        requires
            r == raw_add(p, point_zero(), d),
    ;
}

/// Adding the neutral element on the left leaves a point as it is.
pub proof fn lemma_add_zero_left(p: Coords, d: int)
    ensures
        same_point(point_add(point_zero(), p, d), p),
{
    let r = raw_add(point_zero(), p, d);
    lemma_add_cong(point_zero(), p, d, point_zero(), p, d);
    lemma_same_point_cong(point_add(point_zero(), p, d), p, r, p);
    assert(r.x * p.z == p.x * r.z && r.y * p.z == p.y * r.z) by (nonlinear_arith)
        requires
            r == raw_add(point_zero(), p, d),
    ;
}

/// The sum does not depend on the order of its arguments.
pub proof fn lemma_add_commutative(p: Coords, q: Coords, d: int)
    ensures
        point_add(p, q, d) == point_add(q, p, d),
{
    let l = point_add(p, q, d);
    let r = point_add(q, p, d);
    lemma_add_cong(p, q, d, p, q, d);
    lemma_add_cong(q, p, d, q, p, d);
    assert(raw_add(p, q, d) == raw_add(q, p, d)) by (nonlinear_arith);
    lemma_cong_canonical(l.x, r.x);
    lemma_cong_canonical(l.y, r.y);
    lemma_cong_canonical(l.t, r.t);
    lemma_cong_canonical(l.z, r.z);
}

/// Adding three points of the curve gives the same point however the sum is
/// bracketed.
pub proof fn lemma_add_associative(p: Coords, q: Coords, r: Coords, d: int)
    requires
        on_curve(p, d),
        on_curve(q, d),
        on_curve(r, d),
    ensures
        same_point(point_add(point_add(p, q, d), r, d), point_add(p, point_add(q, r, d), d)),
{
    let pq = raw_add(p, q, d);
    let qr = raw_add(q, r, d);
    let left = raw_add(pq, r, d);
    let right = raw_add(p, qr, d);
    lemma_add_cong(p, q, d, p, q, d);
    lemma_add_cong(q, r, d, q, r, d);
    lemma_add_cong(point_add(p, q, d), r, d, pq, r, d);
    lemma_add_cong(p, point_add(q, r, d), d, p, qr, d);
    lemma_same_point_cong(
        point_add(point_add(p, q, d), r, d),
        point_add(p, point_add(q, r, d), d),
        left,
        right,
    );
    lemma_on_curve_raw(p, d);
    lemma_on_curve_raw(q, d);
    lemma_on_curve_raw(r, d);
    let el = raw_e(pq, r);
    let fl = raw_f(pq, r, d);
    let gl = raw_g(pq, r, d);
    let hl = raw_h(pq, r);
    let er = raw_e(p, qr);
    let fr = raw_f(p, qr, d);
    let gr = raw_g(p, qr, d);
    let hr = raw_h(p, qr);

    // X_l Z_r - X_r Z_l = (F_l F_r)(E_l G_r - E_r G_l)
    lemma_assoc_x_numerator(p, q, r, d);
    lemma_cross_difference_x(el, fl, gl, er, fr, gr);
    lemma_cong_difference(el * gr, er * gl);
    lemma_cong_zero_multiple(fl * fr, el * gr - er * gl);
    lemma_cong_difference(left.x * right.z, right.x * left.z);

    // Y_l Z_r - Y_r Z_l = (G_l G_r)(H_l F_r - H_r F_l)
    lemma_assoc_y_numerator(p, q, r, d);
    lemma_cross_difference_y(fl, gl, hl, fr, gr, hr);
    lemma_cong_difference(hl * fr, hr * fl);
    lemma_cong_zero_multiple(gl * gr, hl * fr - hr * fl);
    lemma_cong_difference(left.y * right.z, right.y * left.z);
}

/// The sum of a point of the curve and its negative is the neutral element.
pub proof fn lemma_add_negative(p: Coords, d: int)
    requires
        on_curve(p, d),
    ensures
        same_point(point_add(p, point_neg(p), d), point_zero()),
{
    let n = Coords { x: -p.x, y: p.y, t: -p.t, z: p.z };
    lemma_fneg_cong(p.x, p.x);
    lemma_fneg_cong(p.t, p.t);
    let r = raw_add(p, n, d);
    lemma_add_cong(p, point_neg(p), d, p, n, d);
    lemma_same_point_cong(point_add(p, point_neg(p), d), point_zero(), r, point_zero());
    lemma_on_curve_cong(p, d, p, d);
    // X3 = E F with E = 0; Y3 - Z3 = G (H - F), and H - F is the equation of the curve
    let g = p.z * p.z + d * p.t * (-p.t);
    let lhs = p.y * p.y - p.x * p.x;
    let rhs = p.z * p.z + d * (p.t * p.t);
    assert(r.x * 1 == 0 * r.z && r.y * 1 - 1 * r.z == g * (lhs - rhs)) by (nonlinear_arith)
        requires
            r == raw_add(p, n, d),
            n == (Coords { x: -p.x, y: p.y, t: -p.t, z: p.z }),
            g == p.z * p.z + d * p.t * (-p.t),
            lhs == p.y * p.y - p.x * p.x,
            rhs == p.z * p.z + d * (p.t * p.t),
    ;
    lemma_cong_difference(lhs, rhs);
    lemma_cong_zero_multiple(g, lhs - rhs);
    lemma_cong_difference(r.y * 1, 1 * r.z);
}

/// Twice a point is the sum of the point and itself.
pub proof fn lemma_double_is_add(p: Coords, d: int)
    ensures
        point_double(p, d) == point_add(p, p, d),
{
}

/// Two quadruples that come from one quadruple by scaling all of its
/// coordinates stand for the same affine point, whatever the two factors.
pub proof fn lemma_scaled_same_point(p: Coords, k: int, m: int)
    ensures
        same_point(point_scale(p, k), point_scale(p, m)),
{
    let a = Coords { x: k * p.x, y: k * p.y, t: k * p.t, z: k * p.z };
    let b = Coords { x: m * p.x, y: m * p.y, t: m * p.t, z: m * p.z };
    lemma_scale_cong(p, k);
    lemma_scale_cong(p, m);
    lemma_same_point_cong(point_scale(p, k), point_scale(p, m), a, b);
    assert((k * p.x) * (m * p.z) == (m * p.x) * (k * p.z) && (k * p.y) * (m * p.z) == (m * p.y) * (k
        * p.z)) by (nonlinear_arith);
}

/// The neutral element satisfies the equations of the curve.
pub proof fn lemma_zero_on_curve(d: int)
    ensures
        on_curve(point_zero(), d),
{
    lemma_on_curve_cong(point_zero(), d, point_zero(), d);
    assert(d * (0int * 0int) == 0) by (nonlinear_arith);
}

/// The negative of a point of the curve satisfies the equations of the curve.
pub proof fn lemma_neg_on_curve(p: Coords, d: int)
    requires
        on_curve(p, d),
    ensures
        on_curve(point_neg(p), d),
{
    let n = Coords { x: -p.x, y: p.y, t: -p.t, z: p.z };
    lemma_fneg_cong(p.x, p.x);
    lemma_fneg_cong(p.t, p.t);
    lemma_on_curve_cong(p, d, p, d);
    lemma_on_curve_cong(point_neg(p), d, n, d);
    assert((-p.x) * (-p.x) == p.x * p.x && (-p.t) * (-p.t) == p.t * p.t) by (nonlinear_arith);
    assert((-p.t) * p.z == -(p.t * p.z) && (-p.x) * p.y == -(p.x * p.y)) by (nonlinear_arith);
    lemma_cong_sub(0, p.t * p.z, 0, p.x * p.y);
}

/// The sum of two points of the curve satisfies the equations of the curve.
pub proof fn lemma_add_on_curve(p: Coords, q: Coords, d: int)
    requires
        on_curve(p, d),
        on_curve(q, d),
    ensures
        on_curve(point_add(p, q, d), d),
{
    let r = raw_add(p, q, d);
    lemma_add_cong(p, q, d, p, q, d);
    lemma_on_curve_cong(point_add(p, q, d), d, r, d);
    lemma_on_curve_cong(p, d, p, d);
    lemma_on_curve_cong(q, d, q, d);
    // the parts of the formula
    let a = p.x * q.x;
    let b = p.y * q.y;
    let c = d * p.t * q.t;
    let dd = p.z * q.z;
    let h = b + a;
    let e = (p.x + p.y) * (q.x + q.y) - h;
    let f = dd - c;
    let g = dd + c;
    let m = p.z * q.t + p.t * q.z;
    // the two sides of the equation at each of the points
    let yp = p.y * p.y - p.x * p.x;
    let wp = p.z * p.z + d * (p.t * p.t);
    let yq = q.y * q.y - q.x * q.x;
    let wq = q.z * q.z + d * (q.t * q.t);

    // T3 Z3 = X3 Y3 holds over the integers
    assert(r.t * r.z == r.x * r.y) by (nonlinear_arith)
        requires
            r == raw_add(p, q, d),
    ;

    // H^2 - E^2 = (y1^2 - x1^2)(y2^2 - x2^2), which stands for
    // (z1^2 + d t1^2)(z2^2 + d t2^2) = F^2 + d M^2
    lemma_h2_minus_e2(p.x, p.y, q.x, q.y);
    assert(h * h - e * e == yp * yq);
    lemma_cong_mul(yp, yq, wp, wq);
    lemma_f2_plus_dm2(p.z, p.t, q.z, q.t, d);
    assert(wp * wq == f * f + d * (m * m));
    assert(cong(h * h - e * e, f * f + d * (m * m)));

    // E (A - B) stands for -G M
    let xyp = p.x * p.y;
    let tzp = p.t * p.z;
    let xyq = q.x * q.y;
    let tzq = q.t * q.z;
    lemma_e_times_a_minus_b(p.x, p.y, q.x, q.y);
    assert(e * (a - b) == -(xyq * yp) - xyp * yq);
    lemma_cong_mul(xyq, yp, tzq, wp);
    lemma_cong_mul(xyp, yq, tzp, wq);
    lemma_cong_sub(0, xyq * yp, 0, tzq * wp);
    lemma_cong_sub(-(xyq * yp), xyp * yq, -(tzq * wp), tzp * wq);
    lemma_g_times_m(p.z, p.t, q.z, q.t, d);
    assert(-(tzq * wp) - tzp * wq == -(g * m));
    let eab = e * (a - b);
    let gm = g * m;
    assert(cong(eab, -gm));
    lemma_cong_mul(eab, eab, -gm, -gm);
    assert((-gm) * (-gm) == gm * gm) by (nonlinear_arith);

    // F^2 + d H^2 stands for G^2 + d (A - B)^2
    lemma_f2_plus_dh2(p.x, p.y, p.t, p.z, q.x, q.y, q.t, q.z, d);
    assert(f * f + d * (h * h) - (g * g + d * ((a - b) * (a - b))) == (4 * d) * (xyp * xyq - tzp
        * tzq));
    lemma_cong_mul(xyp, xyq, tzp, tzq);
    lemma_cong_difference(xyp * xyq, tzp * tzq);
    lemma_cong_zero_multiple(4 * d, xyp * xyq - tzp * tzq);
    let fdh = f * f + d * (h * h);
    let gdab = g * g + d * ((a - b) * (a - b));
    lemma_cong_difference(fdh, gdab);

    // G^2 (H^2 - F^2) = G^2 (E^2 + d M^2) = E^2 (G^2 + d (A - B)^2) = E^2 (F^2 + d H^2)
    let hf = h * h - f * f;
    let edm = e * e + d * (m * m);
    lemma_cong_difference(h * h - e * e, f * f + d * (m * m));
    assert((h * h - e * e) - (f * f + d * (m * m)) == hf - edm);
    lemma_cong_difference(hf, edm);
    lemma_cong_mul(g * g, hf, g * g, edm);
    lemma_cong_mul(d, gm * gm, d, eab * eab);
    lemma_cong_add(g * g * (e * e), d * (gm * gm), g * g * (e * e), d * (eab * eab));
    lemma_g2_times_e2_plus_dm2(e, g, m, d);
    lemma_e2_times_g2_plus_dab2(e, g, a - b, d);
    lemma_cong_mul(e * e, gdab, e * e, fdh);
    assert(cong(g * g * hf, e * e * fdh));
    lemma_curve_equation_of_sum(e, f, g, h, d);
    assert(r.y * r.y - r.x * r.x - (r.z * r.z + d * (r.t * r.t)) == g * g * hf - e * e * fdh);
    lemma_cong_difference(g * g * hf, e * e * fdh);
    lemma_cong_difference(r.y * r.y - r.x * r.x, r.z * r.z + d * (r.t * r.t));
}

/// The image of a point of the Montgomery form is a point of the Edwards
/// form, where the parameters of the two forms belong together.
pub proof fn lemma_montgomery_image_on_curve(m: Option<(int, int)>, a: int, s: int, d: int)
    requires
        forms_match(a, s, d),
        m matches Some((x, y)) ==> on_montgomery_curve(x, y, a),
    ensures
        on_curve(montgomery_to_edwards(m, s), d),
{
    match m {
        None => {
            lemma_zero_on_curve(d);
        },
        Some((x, y)) => {
            if y == 0 {
                let p = Coords { x: 0, y: -1, t: 0, z: 1 };
                lemma_fneg_cong(1, 1);
                lemma_on_curve_cong(montgomery_to_edwards(m, s), d, p, d);
                assert(d * (0int * 0int) == 0) by (nonlinear_arith);
            } else {
                let u = x * s;
                let v = x - 1;
                let w = x + 1;
                let p = Coords { x: u * w, y: v * y, t: u * v, z: w * y };
                lemma_fmul_cong(x, s, x, s);
                lemma_fsub_cong(x, 1, x, 1);
                lemma_fadd_cong(x, 1, x, 1);
                lemma_fmul_cong(fmul(x, s), fadd(x, 1), u, w);
                lemma_fmul_cong(fsub(x, 1), y, v, y);
                lemma_fmul_cong(fmul(x, s), fsub(x, 1), u, v);
                lemma_fmul_cong(fadd(x, 1), y, w, y);
                lemma_on_curve_cong(montgomery_to_edwards(m, s), d, p, d);
                // T Z = X Y
                lemma_mul_pairs(u, v, w, y);
                // the first equation
                let m1 = y * y - (x * x * x + a * (x * x) + x);
                let m2 = s * s + (a + 2);
                let m3 = d * (a + 2) + (a - 2);
                let k1 = 4 * x;
                let k2 = (x * x) * (w * w + d * (v * v));
                let k3 = (x * x) * (v * v);
                lemma_montgomery_image_residue(x, y, s, d, a);
                lemma_cong_difference(y * y, x * x * x + a * (x * x) + x);
                lemma_cong_zero_multiple(k1, m1);
                lemma_cong_zero_multiple(k2, m2);
                lemma_cong_zero_multiple(k3, m3);
                lemma_cong_sub(k3 * m3, k1 * m1, 0, 0);
                lemma_cong_sub(k3 * m3 - k1 * m1, k2 * m2, 0, 0);
                lemma_cong_difference(p.y * p.y - p.x * p.x, p.z * p.z + d * (p.t * p.t));
            }
        },
    }
}

} // verus!
