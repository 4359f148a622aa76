//! Monomials in the coordinates of three points and the coefficient of the
//! curve, written by their exponents, so that the product of two monomials is
//! found by adding exponents.

use vstd::prelude::*;
use vstd::arithmetic::power::{pow, lemma_pow0, lemma_pow1, lemma_pow_adds};
use vstd::arithmetic::mul::{lemma_mul_is_distributive_add, lemma_mul_is_distributive_sub};
use crate::curve::{curve_residue, product_residue, Coords};

verus! {

/// The exponents of a monomial: of `d`, then of `x`, `y`, `t`, `z` of each of
/// three points.
pub struct Powers {
    pub d: nat,
    pub p: (nat, nat, nat, nat),
    pub q: (nat, nat, nat, nat),
    pub r: (nat, nat, nat, nat),
}

/// The exponents listed in order.
pub open spec fn pw(
    d: nat,
    px: nat,
    py: nat,
    pt: nat,
    pz: nat,
    qx: nat,
    qy: nat,
    qt: nat,
    qz: nat,
    rx: nat,
    ry: nat,
    rt: nat,
    rz: nat,
) -> Powers {
    Powers { d, p: (px, py, pt, pz), q: (qx, qy, qt, qz), r: (rx, ry, rt, rz) }
}

/// The exponents of a product of two monomials.
pub open spec fn powers_sum(a: Powers, b: Powers) -> Powers {
    Powers {
        d: a.d + b.d,
        p: ((a.p.0 + b.p.0) as nat, (a.p.1 + b.p.1) as nat, (a.p.2 + b.p.2) as nat, (a.p.3 + b.p.3) as nat),
        q: ((a.q.0 + b.q.0) as nat, (a.q.1 + b.q.1) as nat, (a.q.2 + b.q.2) as nat, (a.q.3 + b.q.3) as nat),
        r: ((a.r.0 + b.r.0) as nat, (a.r.1 + b.r.1) as nat, (a.r.2 + b.r.2) as nat, (a.r.3 + b.r.3) as nat),
    }
}

/// A monomial in the coordinates of one point.
pub open spec fn point_monomial(p: Coords, e: (nat, nat, nat, nat)) -> int {
    (pow(p.x, e.0) * pow(p.y, e.1)) * (pow(p.t, e.2) * pow(p.z, e.3))
}

/// The monomial with the exponents `e`.
pub open spec fn mono(p: Coords, q: Coords, r: Coords, d: int, e: Powers) -> int {
    (pow(d, e.d) * point_monomial(p, e.p)) * (point_monomial(q, e.q) * point_monomial(r, e.r))
}

/// The product of two products, factor by factor.
pub proof fn lemma_mul_pairs(a: int, b: int, c: int, d: int) by (nonlinear_arith)
    ensures
        (a * b) * (c * d) == (a * c) * (b * d),
{
}

/// The product of two monomials in the coordinates of one point.
pub proof fn lemma_point_monomial_mul(p: Coords, a: (nat, nat, nat, nat), b: (nat, nat, nat, nat))
    ensures
        point_monomial(p, a) * point_monomial(p, b) == point_monomial(
            p,
            ((a.0 + b.0) as nat, (a.1 + b.1) as nat, (a.2 + b.2) as nat, (a.3 + b.3) as nat),
        ),
{
    lemma_pow_adds(p.x, a.0, b.0);
    lemma_pow_adds(p.y, a.1, b.1);
    lemma_pow_adds(p.t, a.2, b.2);
    lemma_pow_adds(p.z, a.3, b.3);
    lemma_mul_pairs(
        pow(p.x, a.0) * pow(p.y, a.1),
        pow(p.t, a.2) * pow(p.z, a.3),
        pow(p.x, b.0) * pow(p.y, b.1),
        pow(p.t, b.2) * pow(p.z, b.3),
    );
    lemma_mul_pairs(pow(p.x, a.0), pow(p.y, a.1), pow(p.x, b.0), pow(p.y, b.1));
    lemma_mul_pairs(pow(p.t, a.2), pow(p.z, a.3), pow(p.t, b.2), pow(p.z, b.3));
}

/// The product of two monomials is the monomial with the sums of their
/// exponents.
pub proof fn lemma_mono_mul(p: Coords, q: Coords, r: Coords, d: int, a: Powers, b: Powers)
    ensures
        mono(p, q, r, d, a) * mono(p, q, r, d, b) == mono(p, q, r, d, powers_sum(a, b)),
{
    lemma_pow_adds(d, a.d, b.d);
    lemma_point_monomial_mul(p, a.p, b.p);
    lemma_point_monomial_mul(q, a.q, b.q);
    lemma_point_monomial_mul(r, a.r, b.r);
    lemma_mul_pairs(
        pow(d, a.d) * point_monomial(p, a.p),
        point_monomial(q, a.q) * point_monomial(r, a.r),
        pow(d, b.d) * point_monomial(p, b.p),
        point_monomial(q, b.q) * point_monomial(r, b.r),
    );
    lemma_mul_pairs(pow(d, a.d), point_monomial(p, a.p), pow(d, b.d), point_monomial(p, b.p));
    lemma_mul_pairs(
        point_monomial(q, a.q),
        point_monomial(r, a.r),
        point_monomial(q, b.q),
        point_monomial(r, b.r),
    );
}

/// The product of two monomials with coefficients.
pub proof fn lemma_term_mul(
    p: Coords,
    q: Coords,
    r: Coords,
    d: int,
    c1: int,
    a: Powers,
    c2: int,
    b: Powers,
)
    ensures
        (c1 * mono(p, q, r, d, a)) * (c2 * mono(p, q, r, d, b)) == (c1 * c2) * mono(
            p,
            q,
            r,
            d,
            powers_sum(a, b),
        ),
{
    lemma_mono_mul(p, q, r, d, a, b);
    lemma_mul_pairs(c1, mono(p, q, r, d, a), c2, mono(p, q, r, d, b));
}

/// A product of four factors of which three are the number one.
pub proof fn lemma_mul_ones(a: int, b: int, c: int, d: int, v: int) by (nonlinear_arith)
    requires
        (a == v && b == 1 && c == 1 && d == 1) || (a == 1 && b == v && c == 1 && d == 1) || (a == 1
            && b == 1 && c == v && d == 1) || (a == 1 && b == 1 && c == 1 && d == v),
    ensures
        (a * b) * (c * d) == v,
{
}

/// A monomial in the coordinates of one point with no exponent but zeros and
/// at most a single one.
pub proof fn lemma_point_monomial_simple(p: Coords)
    ensures
        point_monomial(p, (0, 0, 0, 0)) == 1,
        point_monomial(p, (1, 0, 0, 0)) == p.x,
        point_monomial(p, (0, 1, 0, 0)) == p.y,
        point_monomial(p, (0, 0, 1, 0)) == p.t,
        point_monomial(p, (0, 0, 0, 1)) == p.z,
{
    lemma_pow0(p.x);
    lemma_pow0(p.y);
    lemma_pow0(p.t);
    lemma_pow0(p.z);
    lemma_pow1(p.x);
    lemma_pow1(p.y);
    lemma_pow1(p.t);
    lemma_pow1(p.z);
    lemma_mul_ones(pow(p.x, 0), pow(p.y, 0), pow(p.t, 0), pow(p.z, 0), 1);
    lemma_mul_ones(pow(p.x, 1), pow(p.y, 0), pow(p.t, 0), pow(p.z, 0), p.x);
    lemma_mul_ones(pow(p.x, 0), pow(p.y, 1), pow(p.t, 0), pow(p.z, 0), p.y);
    lemma_mul_ones(pow(p.x, 0), pow(p.y, 0), pow(p.t, 1), pow(p.z, 0), p.t);
    lemma_mul_ones(pow(p.x, 0), pow(p.y, 0), pow(p.t, 0), pow(p.z, 1), p.z);
}

/// The monomials of degree zero and one are the number one and the
/// variables.
pub proof fn lemma_mono_variables(p: Coords, q: Coords, r: Coords, d: int)
    ensures
        mono(p, q, r, d, pw(0, 0, 0, 0, 0, 0, 0, 0, 0, 0, 0, 0, 0)) == 1,
        mono(p, q, r, d, pw(1, 0, 0, 0, 0, 0, 0, 0, 0, 0, 0, 0, 0)) == d,
        mono(p, q, r, d, pw(0, 1, 0, 0, 0, 0, 0, 0, 0, 0, 0, 0, 0)) == p.x,
        mono(p, q, r, d, pw(0, 0, 1, 0, 0, 0, 0, 0, 0, 0, 0, 0, 0)) == p.y,
        mono(p, q, r, d, pw(0, 0, 0, 1, 0, 0, 0, 0, 0, 0, 0, 0, 0)) == p.t,
        mono(p, q, r, d, pw(0, 0, 0, 0, 1, 0, 0, 0, 0, 0, 0, 0, 0)) == p.z,
        mono(p, q, r, d, pw(0, 0, 0, 0, 0, 1, 0, 0, 0, 0, 0, 0, 0)) == q.x,
        mono(p, q, r, d, pw(0, 0, 0, 0, 0, 0, 1, 0, 0, 0, 0, 0, 0)) == q.y,
        mono(p, q, r, d, pw(0, 0, 0, 0, 0, 0, 0, 1, 0, 0, 0, 0, 0)) == q.t,
        mono(p, q, r, d, pw(0, 0, 0, 0, 0, 0, 0, 0, 1, 0, 0, 0, 0)) == q.z,
        mono(p, q, r, d, pw(0, 0, 0, 0, 0, 0, 0, 0, 0, 1, 0, 0, 0)) == r.x,
        mono(p, q, r, d, pw(0, 0, 0, 0, 0, 0, 0, 0, 0, 0, 1, 0, 0)) == r.y,
        mono(p, q, r, d, pw(0, 0, 0, 0, 0, 0, 0, 0, 0, 0, 0, 1, 0)) == r.t,
        mono(p, q, r, d, pw(0, 0, 0, 0, 0, 0, 0, 0, 0, 0, 0, 0, 1)) == r.z,
{
    lemma_pow0(d);
    lemma_pow1(d);
    lemma_point_monomial_simple(p);
    lemma_point_monomial_simple(q);
    lemma_point_monomial_simple(r);
    let z = (0nat, 0nat, 0nat, 0nat);
    let one = point_monomial(p, z);
    lemma_mul_ones(pow(d, 0), one, point_monomial(q, z), point_monomial(r, z), 1);
    lemma_mul_ones(pow(d, 1), one, point_monomial(q, z), point_monomial(r, z), d);
    lemma_mul_ones(pow(d, 0), point_monomial(p, (1, 0, 0, 0)), point_monomial(q, z), point_monomial(r, z), p.x);
    lemma_mul_ones(pow(d, 0), point_monomial(p, (0, 1, 0, 0)), point_monomial(q, z), point_monomial(r, z), p.y);
    lemma_mul_ones(pow(d, 0), point_monomial(p, (0, 0, 1, 0)), point_monomial(q, z), point_monomial(r, z), p.t);
    lemma_mul_ones(pow(d, 0), point_monomial(p, (0, 0, 0, 1)), point_monomial(q, z), point_monomial(r, z), p.z);
    lemma_mul_ones(pow(d, 0), one, point_monomial(q, (1, 0, 0, 0)), point_monomial(r, z), q.x);
    lemma_mul_ones(pow(d, 0), one, point_monomial(q, (0, 1, 0, 0)), point_monomial(r, z), q.y);
    lemma_mul_ones(pow(d, 0), one, point_monomial(q, (0, 0, 1, 0)), point_monomial(r, z), q.t);
    lemma_mul_ones(pow(d, 0), one, point_monomial(q, (0, 0, 0, 1)), point_monomial(r, z), q.z);
    lemma_mul_ones(pow(d, 0), one, point_monomial(q, z), point_monomial(r, (1, 0, 0, 0)), r.x);
    lemma_mul_ones(pow(d, 0), one, point_monomial(q, z), point_monomial(r, (0, 1, 0, 0)), r.y);
    lemma_mul_ones(pow(d, 0), one, point_monomial(q, z), point_monomial(r, (0, 0, 1, 0)), r.t);
    lemma_mul_ones(pow(d, 0), one, point_monomial(q, z), point_monomial(r, (0, 0, 0, 1)), r.z);
}

/// Products of equal factors are equal.
pub proof fn lemma_mul_equals(a: int, a2: int, b: int, b2: int)
    requires
        a == a2,
        b == b2,
    ensures
        a * b == a2 * b2,
{
}

/// A term times a difference of four monomials.
proof fn lemma_term_times_four(c: int, m: int, m1: int, m2: int, m3: int, m4: int)
    ensures
        (c * m) * (m1 - m2 - (m3 + m4)) == (c * m) * m1 - (c * m) * m2 - (c * m) * m3 - (c * m) * m4,
        (c * m) * (m1 - m2) == (c * m) * m1 - (c * m) * m2,
{
    lemma_mul_is_distributive_sub(c * m, m1 - m2, m3 + m4);
    lemma_mul_is_distributive_sub(c * m, m1, m2);
    lemma_mul_is_distributive_add(c * m, m3, m4);
}

/// What the first equation of the curve leaves at the first point, in
/// monomials.
pub proof fn lemma_curve_residue_p(p: Coords, q: Coords, r: Coords, d: int)
    ensures
        curve_residue(p, d) == mono(p, q, r, d, pw(0, 0, 2, 0, 0, 0, 0, 0, 0, 0, 0, 0, 0)) - mono(
            p,
            q,
            r,
            d,
            pw(0, 2, 0, 0, 0, 0, 0, 0, 0, 0, 0, 0, 0),
        ) - (mono(p, q, r, d, pw(0, 0, 0, 0, 2, 0, 0, 0, 0, 0, 0, 0, 0)) + mono(
            p,
            q,
            r,
            d,
            pw(1, 0, 0, 2, 0, 0, 0, 0, 0, 0, 0, 0, 0),
        )),
{
    lemma_mono_variables(p, q, r, d);
    lemma_term_mul(p, q, r, d, 1, pw(0, 0, 1, 0, 0, 0, 0, 0, 0, 0, 0, 0, 0), 1, pw(0, 0, 1, 0, 0, 0, 0, 0, 0, 0, 0, 0, 0));
    lemma_term_mul(p, q, r, d, 1, pw(0, 1, 0, 0, 0, 0, 0, 0, 0, 0, 0, 0, 0), 1, pw(0, 1, 0, 0, 0, 0, 0, 0, 0, 0, 0, 0, 0));
    lemma_term_mul(p, q, r, d, 1, pw(0, 0, 0, 0, 1, 0, 0, 0, 0, 0, 0, 0, 0), 1, pw(0, 0, 0, 0, 1, 0, 0, 0, 0, 0, 0, 0, 0));
    lemma_term_mul(p, q, r, d, 1, pw(0, 0, 0, 1, 0, 0, 0, 0, 0, 0, 0, 0, 0), 1, pw(0, 0, 0, 1, 0, 0, 0, 0, 0, 0, 0, 0, 0));
    lemma_term_mul(p, q, r, d, 1, pw(1, 0, 0, 0, 0, 0, 0, 0, 0, 0, 0, 0, 0), 1, pw(0, 0, 0, 2, 0, 0, 0, 0, 0, 0, 0, 0, 0));
    lemma_mul_equals(p.t * p.t, mono(p, q, r, d, pw(0, 0, 0, 2, 0, 0, 0, 0, 0, 0, 0, 0, 0)), 1, 1);
    lemma_mul_equals(d, mono(p, q, r, d, pw(1, 0, 0, 0, 0, 0, 0, 0, 0, 0, 0, 0, 0)), p.t * p.t, mono(p, q, r, d, pw(0, 0, 0, 2, 0, 0, 0, 0, 0, 0, 0, 0, 0)));
}

/// A term times what the first equation of the curve leaves at the first
/// point.
pub proof fn lemma_term_times_curve_residue_p(
    p: Coords,
    q: Coords,
    r: Coords,
    d: int,
    c: int,
    e: Powers,
)
    ensures
        (c * mono(p, q, r, d, e)) * curve_residue(p, d) == c * mono(
            p,
            q,
            r,
            d,
            powers_sum(e, pw(0, 0, 2, 0, 0, 0, 0, 0, 0, 0, 0, 0, 0)),
        ) - c * mono(p, q, r, d, powers_sum(e, pw(0, 2, 0, 0, 0, 0, 0, 0, 0, 0, 0, 0, 0))) - c * mono(
            p,
            q,
            r,
            d,
            powers_sum(e, pw(0, 0, 0, 0, 2, 0, 0, 0, 0, 0, 0, 0, 0)),
        ) - c * mono(p, q, r, d, powers_sum(e, pw(1, 0, 0, 2, 0, 0, 0, 0, 0, 0, 0, 0, 0))),
{
    lemma_curve_residue_p(p, q, r, d);
    let m = mono(p, q, r, d, e);
    let m1 = mono(p, q, r, d, pw(0, 0, 2, 0, 0, 0, 0, 0, 0, 0, 0, 0, 0));
    let m2 = mono(p, q, r, d, pw(0, 2, 0, 0, 0, 0, 0, 0, 0, 0, 0, 0, 0));
    let m3 = mono(p, q, r, d, pw(0, 0, 0, 0, 2, 0, 0, 0, 0, 0, 0, 0, 0));
    let m4 = mono(p, q, r, d, pw(1, 0, 0, 2, 0, 0, 0, 0, 0, 0, 0, 0, 0));
    lemma_term_times_four(c, m, m1, m2, m3, m4);
    lemma_term_mul(p, q, r, d, c, e, 1, pw(0, 0, 2, 0, 0, 0, 0, 0, 0, 0, 0, 0, 0));
    lemma_term_mul(p, q, r, d, c, e, 1, pw(0, 2, 0, 0, 0, 0, 0, 0, 0, 0, 0, 0, 0));
    lemma_term_mul(p, q, r, d, c, e, 1, pw(0, 0, 0, 0, 2, 0, 0, 0, 0, 0, 0, 0, 0));
    lemma_term_mul(p, q, r, d, c, e, 1, pw(1, 0, 0, 2, 0, 0, 0, 0, 0, 0, 0, 0, 0));
}

/// A term times what the second equation of the curve leaves at the
/// first point.
pub proof fn lemma_term_times_product_residue_p(
    p: Coords,
    q: Coords,
    r: Coords,
    d: int,
    c: int,
    e: Powers,
)
    ensures
        (c * mono(p, q, r, d, e)) * product_residue(p) == c * mono(
            p,
            q,
            r,
            d,
            powers_sum(e, pw(0, 0, 0, 1, 1, 0, 0, 0, 0, 0, 0, 0, 0)),
        ) - c * mono(p, q, r, d, powers_sum(e, pw(0, 1, 1, 0, 0, 0, 0, 0, 0, 0, 0, 0, 0))),
{
    lemma_mono_variables(p, q, r, d);
    lemma_term_mul(p, q, r, d, 1, pw(0, 0, 0, 1, 0, 0, 0, 0, 0, 0, 0, 0, 0), 1, pw(0, 0, 0, 0, 1, 0, 0, 0, 0, 0, 0, 0, 0));
    lemma_term_mul(p, q, r, d, 1, pw(0, 1, 0, 0, 0, 0, 0, 0, 0, 0, 0, 0, 0), 1, pw(0, 0, 1, 0, 0, 0, 0, 0, 0, 0, 0, 0, 0));
    let m = mono(p, q, r, d, e);
    let m1 = mono(p, q, r, d, pw(0, 0, 0, 1, 1, 0, 0, 0, 0, 0, 0, 0, 0));
    let m2 = mono(p, q, r, d, pw(0, 1, 1, 0, 0, 0, 0, 0, 0, 0, 0, 0, 0));
    lemma_term_times_four(c, m, m1, m2, 0, 0);
    lemma_term_mul(p, q, r, d, c, e, 1, pw(0, 0, 0, 1, 1, 0, 0, 0, 0, 0, 0, 0, 0));
    lemma_term_mul(p, q, r, d, c, e, 1, pw(0, 1, 1, 0, 0, 0, 0, 0, 0, 0, 0, 0, 0));
}

/// What the first equation of the curve leaves at the second point, in
/// monomials.
pub proof fn lemma_curve_residue_q(p: Coords, q: Coords, r: Coords, d: int)
    ensures
        curve_residue(q, d) == mono(p, q, r, d, pw(0, 0, 0, 0, 0, 0, 2, 0, 0, 0, 0, 0, 0)) - mono(
            p,
            q,
            r,
            d,
            pw(0, 0, 0, 0, 0, 2, 0, 0, 0, 0, 0, 0, 0),
        ) - (mono(p, q, r, d, pw(0, 0, 0, 0, 0, 0, 0, 0, 2, 0, 0, 0, 0)) + mono(
            p,
            q,
            r,
            d,
            pw(1, 0, 0, 0, 0, 0, 0, 2, 0, 0, 0, 0, 0),
        )),
{
    lemma_mono_variables(p, q, r, d);
    lemma_term_mul(p, q, r, d, 1, pw(0, 0, 0, 0, 0, 0, 1, 0, 0, 0, 0, 0, 0), 1, pw(0, 0, 0, 0, 0, 0, 1, 0, 0, 0, 0, 0, 0));
    lemma_term_mul(p, q, r, d, 1, pw(0, 0, 0, 0, 0, 1, 0, 0, 0, 0, 0, 0, 0), 1, pw(0, 0, 0, 0, 0, 1, 0, 0, 0, 0, 0, 0, 0));
    lemma_term_mul(p, q, r, d, 1, pw(0, 0, 0, 0, 0, 0, 0, 0, 1, 0, 0, 0, 0), 1, pw(0, 0, 0, 0, 0, 0, 0, 0, 1, 0, 0, 0, 0));
    lemma_term_mul(p, q, r, d, 1, pw(0, 0, 0, 0, 0, 0, 0, 1, 0, 0, 0, 0, 0), 1, pw(0, 0, 0, 0, 0, 0, 0, 1, 0, 0, 0, 0, 0));
    lemma_term_mul(p, q, r, d, 1, pw(1, 0, 0, 0, 0, 0, 0, 0, 0, 0, 0, 0, 0), 1, pw(0, 0, 0, 0, 0, 0, 0, 2, 0, 0, 0, 0, 0));
    lemma_mul_equals(q.t * q.t, mono(p, q, r, d, pw(0, 0, 0, 0, 0, 0, 0, 2, 0, 0, 0, 0, 0)), 1, 1);
    lemma_mul_equals(d, mono(p, q, r, d, pw(1, 0, 0, 0, 0, 0, 0, 0, 0, 0, 0, 0, 0)), q.t * q.t, mono(p, q, r, d, pw(0, 0, 0, 0, 0, 0, 0, 2, 0, 0, 0, 0, 0)));
}

/// A term times what the first equation of the curve leaves at the second
/// point.
pub proof fn lemma_term_times_curve_residue_q(
    p: Coords,
    q: Coords,
    r: Coords,
    d: int,
    c: int,
    e: Powers,
)
    ensures
        (c * mono(p, q, r, d, e)) * curve_residue(q, d) == c * mono(
            p,
            q,
            r,
            d,
            powers_sum(e, pw(0, 0, 0, 0, 0, 0, 2, 0, 0, 0, 0, 0, 0)),
        ) - c * mono(p, q, r, d, powers_sum(e, pw(0, 0, 0, 0, 0, 2, 0, 0, 0, 0, 0, 0, 0))) - c * mono(
            p,
            q,
            r,
            d,
            powers_sum(e, pw(0, 0, 0, 0, 0, 0, 0, 0, 2, 0, 0, 0, 0)),
        ) - c * mono(p, q, r, d, powers_sum(e, pw(1, 0, 0, 0, 0, 0, 0, 2, 0, 0, 0, 0, 0))),
{
    lemma_curve_residue_q(p, q, r, d);
    let m = mono(p, q, r, d, e);
    let m1 = mono(p, q, r, d, pw(0, 0, 0, 0, 0, 0, 2, 0, 0, 0, 0, 0, 0));
    let m2 = mono(p, q, r, d, pw(0, 0, 0, 0, 0, 2, 0, 0, 0, 0, 0, 0, 0));
    let m3 = mono(p, q, r, d, pw(0, 0, 0, 0, 0, 0, 0, 0, 2, 0, 0, 0, 0));
    let m4 = mono(p, q, r, d, pw(1, 0, 0, 0, 0, 0, 0, 2, 0, 0, 0, 0, 0));
    lemma_term_times_four(c, m, m1, m2, m3, m4);
    lemma_term_mul(p, q, r, d, c, e, 1, pw(0, 0, 0, 0, 0, 0, 2, 0, 0, 0, 0, 0, 0));
    lemma_term_mul(p, q, r, d, c, e, 1, pw(0, 0, 0, 0, 0, 2, 0, 0, 0, 0, 0, 0, 0));
    lemma_term_mul(p, q, r, d, c, e, 1, pw(0, 0, 0, 0, 0, 0, 0, 0, 2, 0, 0, 0, 0));
    lemma_term_mul(p, q, r, d, c, e, 1, pw(1, 0, 0, 0, 0, 0, 0, 2, 0, 0, 0, 0, 0));
}

/// A term times what the second equation of the curve leaves at the
/// second point.
pub proof fn lemma_term_times_product_residue_q(
    p: Coords,
    q: Coords,
    r: Coords,
    d: int,
    c: int,
    e: Powers,
)
    ensures
        (c * mono(p, q, r, d, e)) * product_residue(q) == c * mono(
            p,
            q,
            r,
            d,
            powers_sum(e, pw(0, 0, 0, 0, 0, 0, 0, 1, 1, 0, 0, 0, 0)),
        ) - c * mono(p, q, r, d, powers_sum(e, pw(0, 0, 0, 0, 0, 1, 1, 0, 0, 0, 0, 0, 0))),
{
    lemma_mono_variables(p, q, r, d);
    lemma_term_mul(p, q, r, d, 1, pw(0, 0, 0, 0, 0, 0, 0, 1, 0, 0, 0, 0, 0), 1, pw(0, 0, 0, 0, 0, 0, 0, 0, 1, 0, 0, 0, 0));
    lemma_term_mul(p, q, r, d, 1, pw(0, 0, 0, 0, 0, 1, 0, 0, 0, 0, 0, 0, 0), 1, pw(0, 0, 0, 0, 0, 0, 1, 0, 0, 0, 0, 0, 0));
    let m = mono(p, q, r, d, e);
    let m1 = mono(p, q, r, d, pw(0, 0, 0, 0, 0, 0, 0, 1, 1, 0, 0, 0, 0));
    let m2 = mono(p, q, r, d, pw(0, 0, 0, 0, 0, 1, 1, 0, 0, 0, 0, 0, 0));
    lemma_term_times_four(c, m, m1, m2, 0, 0);
    lemma_term_mul(p, q, r, d, c, e, 1, pw(0, 0, 0, 0, 0, 0, 0, 1, 1, 0, 0, 0, 0));
    lemma_term_mul(p, q, r, d, c, e, 1, pw(0, 0, 0, 0, 0, 1, 1, 0, 0, 0, 0, 0, 0));
}

/// What the first equation of the curve leaves at the third point, in
/// monomials.
pub proof fn lemma_curve_residue_r(p: Coords, q: Coords, r: Coords, d: int)
    ensures
        curve_residue(r, d) == mono(p, q, r, d, pw(0, 0, 0, 0, 0, 0, 0, 0, 0, 0, 2, 0, 0)) - mono(
            p,
            q,
            r,
            d,
            pw(0, 0, 0, 0, 0, 0, 0, 0, 0, 2, 0, 0, 0),
        ) - (mono(p, q, r, d, pw(0, 0, 0, 0, 0, 0, 0, 0, 0, 0, 0, 0, 2)) + mono(
            p,
            q,
            r,
            d,
            pw(1, 0, 0, 0, 0, 0, 0, 0, 0, 0, 0, 2, 0),
        )),
{
    lemma_mono_variables(p, q, r, d);
    lemma_term_mul(p, q, r, d, 1, pw(0, 0, 0, 0, 0, 0, 0, 0, 0, 0, 1, 0, 0), 1, pw(0, 0, 0, 0, 0, 0, 0, 0, 0, 0, 1, 0, 0));
    lemma_term_mul(p, q, r, d, 1, pw(0, 0, 0, 0, 0, 0, 0, 0, 0, 1, 0, 0, 0), 1, pw(0, 0, 0, 0, 0, 0, 0, 0, 0, 1, 0, 0, 0));
    lemma_term_mul(p, q, r, d, 1, pw(0, 0, 0, 0, 0, 0, 0, 0, 0, 0, 0, 0, 1), 1, pw(0, 0, 0, 0, 0, 0, 0, 0, 0, 0, 0, 0, 1));
    lemma_term_mul(p, q, r, d, 1, pw(0, 0, 0, 0, 0, 0, 0, 0, 0, 0, 0, 1, 0), 1, pw(0, 0, 0, 0, 0, 0, 0, 0, 0, 0, 0, 1, 0));
    lemma_term_mul(p, q, r, d, 1, pw(1, 0, 0, 0, 0, 0, 0, 0, 0, 0, 0, 0, 0), 1, pw(0, 0, 0, 0, 0, 0, 0, 0, 0, 0, 0, 2, 0));
    lemma_mul_equals(r.t * r.t, mono(p, q, r, d, pw(0, 0, 0, 0, 0, 0, 0, 0, 0, 0, 0, 2, 0)), 1, 1);
    lemma_mul_equals(d, mono(p, q, r, d, pw(1, 0, 0, 0, 0, 0, 0, 0, 0, 0, 0, 0, 0)), r.t * r.t, mono(p, q, r, d, pw(0, 0, 0, 0, 0, 0, 0, 0, 0, 0, 0, 2, 0)));
}

/// A term times what the first equation of the curve leaves at the third
/// point.
pub proof fn lemma_term_times_curve_residue_r(
    p: Coords,
    q: Coords,
    r: Coords,
    d: int,
    c: int,
    e: Powers,
)
    ensures
        (c * mono(p, q, r, d, e)) * curve_residue(r, d) == c * mono(
            p,
            q,
            r,
            d,
            powers_sum(e, pw(0, 0, 0, 0, 0, 0, 0, 0, 0, 0, 2, 0, 0)),
        ) - c * mono(p, q, r, d, powers_sum(e, pw(0, 0, 0, 0, 0, 0, 0, 0, 0, 2, 0, 0, 0))) - c * mono(
            p,
            q,
            r,
            d,
            powers_sum(e, pw(0, 0, 0, 0, 0, 0, 0, 0, 0, 0, 0, 0, 2)),
        ) - c * mono(p, q, r, d, powers_sum(e, pw(1, 0, 0, 0, 0, 0, 0, 0, 0, 0, 0, 2, 0))),
{
    lemma_curve_residue_r(p, q, r, d);
    let m = mono(p, q, r, d, e);
    let m1 = mono(p, q, r, d, pw(0, 0, 0, 0, 0, 0, 0, 0, 0, 0, 2, 0, 0));
    let m2 = mono(p, q, r, d, pw(0, 0, 0, 0, 0, 0, 0, 0, 0, 2, 0, 0, 0));
    let m3 = mono(p, q, r, d, pw(0, 0, 0, 0, 0, 0, 0, 0, 0, 0, 0, 0, 2));
    let m4 = mono(p, q, r, d, pw(1, 0, 0, 0, 0, 0, 0, 0, 0, 0, 0, 2, 0));
    lemma_term_times_four(c, m, m1, m2, m3, m4);
    lemma_term_mul(p, q, r, d, c, e, 1, pw(0, 0, 0, 0, 0, 0, 0, 0, 0, 0, 2, 0, 0));
    lemma_term_mul(p, q, r, d, c, e, 1, pw(0, 0, 0, 0, 0, 0, 0, 0, 0, 2, 0, 0, 0));
    lemma_term_mul(p, q, r, d, c, e, 1, pw(0, 0, 0, 0, 0, 0, 0, 0, 0, 0, 0, 0, 2));
    lemma_term_mul(p, q, r, d, c, e, 1, pw(1, 0, 0, 0, 0, 0, 0, 0, 0, 0, 0, 2, 0));
}

/// A term times what the second equation of the curve leaves at the
/// third point.
pub proof fn lemma_term_times_product_residue_r(
    p: Coords,
    q: Coords,
    r: Coords,
    d: int,
    c: int,
    e: Powers,
)
    ensures
        (c * mono(p, q, r, d, e)) * product_residue(r) == c * mono(
            p,
            q,
            r,
            d,
            powers_sum(e, pw(0, 0, 0, 0, 0, 0, 0, 0, 0, 0, 0, 1, 1)),
        ) - c * mono(p, q, r, d, powers_sum(e, pw(0, 0, 0, 0, 0, 0, 0, 0, 0, 1, 1, 0, 0))),
{
    lemma_mono_variables(p, q, r, d);
    lemma_term_mul(p, q, r, d, 1, pw(0, 0, 0, 0, 0, 0, 0, 0, 0, 0, 0, 1, 0), 1, pw(0, 0, 0, 0, 0, 0, 0, 0, 0, 0, 0, 0, 1));
    lemma_term_mul(p, q, r, d, 1, pw(0, 0, 0, 0, 0, 0, 0, 0, 0, 1, 0, 0, 0), 1, pw(0, 0, 0, 0, 0, 0, 0, 0, 0, 0, 1, 0, 0));
    let m = mono(p, q, r, d, e);
    let m1 = mono(p, q, r, d, pw(0, 0, 0, 0, 0, 0, 0, 0, 0, 0, 0, 1, 1));
    let m2 = mono(p, q, r, d, pw(0, 0, 0, 0, 0, 0, 0, 0, 0, 1, 1, 0, 0));
    lemma_term_times_four(c, m, m1, m2, 0, 0);
    lemma_term_mul(p, q, r, d, c, e, 1, pw(0, 0, 0, 0, 0, 0, 0, 0, 0, 0, 0, 1, 1));
    lemma_term_mul(p, q, r, d, c, e, 1, pw(0, 0, 0, 0, 0, 0, 0, 0, 0, 1, 1, 0, 0));
}

} // verus!
