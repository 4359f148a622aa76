//! The associative law for the ordinate of a sum of three points: the two ways
//! of adding differ by a combination of the equations of the curve. The
//! combination is a certificate found by dividing by those equations; it is
//! checked here by multiplying everything out.

use vstd::prelude::*;
use vstd::arithmetic::mul::{
    lemma_mul_is_distributive_add, lemma_mul_is_distributive_add_other_way,
    lemma_mul_is_distributive_sub, lemma_mul_is_distributive_sub_other_way,
};
use crate::curve::{
    curve_residue, product_residue, raw_add, raw_f, raw_h, raw_on_curve, Coords,
};
use crate::modular::{cong, lemma_cong_add, lemma_cong_difference, lemma_cong_zero_multiple};
use crate::monomial::{
    lemma_mono_variables, lemma_mul_equals, lemma_term_mul, lemma_term_times_curve_residue_p,
    lemma_term_times_curve_residue_q, lemma_term_times_curve_residue_r,
    lemma_term_times_product_residue_p, lemma_term_times_product_residue_q,
    lemma_term_times_product_residue_r, mono, pw,
};

verus! {

/// The multiplier of the first equation in the certificate for the ordinate.
spec fn assoc_y_cofactor_1(p: Coords, q: Coords, r: Coords, d: int) -> int {
    mono(p, q, r, d, pw(2, 0, 1, 0, 0, 1, 2, 1, 0, 0, 1, 2, 0))
        + mono(p, q, r, d, pw(2, 0, 1, 0, 0, 2, 1, 1, 0, 1, 0, 2, 0))
        + mono(p, q, r, d, pw(2, 1, 0, 0, 0, 0, 1, 2, 1, 1, 0, 2, 0))
        + mono(p, q, r, d, pw(2, 1, 0, 0, 0, 1, 0, 2, 1, 0, 1, 2, 0))
        + mono(p, q, r, d, pw(1, 0, 1, 0, 0, 1, 0, 1, 2, 1, 0, 1, 1))
        + mono(p, q, r, d, pw(1, 0, 1, 0, 0, 1, 2, 0, 1, 0, 1, 1, 1))
        - mono(p, q, r, d, pw(1, 1, 0, 0, 0, 1, 2, 0, 1, 1, 0, 1, 1))
        - mono(p, q, r, d, pw(1, 1, 0, 0, 0, 2, 1, 0, 1, 0, 1, 1, 1))
}

/// The multiplier of the second equation in the certificate for the ordinate.
spec fn assoc_y_cofactor_2(p: Coords, q: Coords, r: Coords, d: int) -> int {
    mono(p, q, r, d, pw(2, 0, 1, 0, 0, 1, 0, 2, 1, 0, 1, 2, 0))
        + mono(p, q, r, d, pw(2, 0, 1, 0, 0, 1, 2, 1, 0, 1, 0, 2, 0))
        + 2 * mono(p, q, r, d, pw(2, 1, 0, 0, 0, 0, 1, 2, 1, 1, 0, 1, 1))
        + mono(p, q, r, d, pw(2, 1, 0, 0, 0, 0, 3, 1, 0, 1, 0, 2, 0))
        + mono(p, q, r, d, pw(2, 1, 0, 0, 0, 3, 0, 1, 0, 0, 1, 2, 0))
        + 2 * mono(p, q, r, d, pw(1, 1, 0, 0, 0, 0, 1, 0, 3, 1, 0, 1, 1))
        - mono(p, q, r, d, pw(2, 0, 1, 0, 0, 0, 3, 1, 0, 0, 1, 2, 0))
        - mono(p, q, r, d, pw(2, 0, 1, 0, 0, 3, 0, 1, 0, 1, 0, 2, 0))
        - mono(p, q, r, d, pw(2, 1, 0, 0, 0, 1, 2, 1, 0, 0, 1, 2, 0))
        - mono(p, q, r, d, pw(2, 1, 0, 0, 0, 2, 1, 1, 0, 1, 0, 2, 0))
        - mono(p, q, r, d, pw(1, 0, 1, 0, 0, 0, 3, 0, 1, 0, 1, 1, 1))
        - 3 * mono(p, q, r, d, pw(1, 0, 1, 0, 0, 1, 2, 0, 1, 1, 0, 1, 1))
        - 3 * mono(p, q, r, d, pw(1, 0, 1, 0, 0, 2, 1, 0, 1, 0, 1, 1, 1))
        - mono(p, q, r, d, pw(1, 0, 1, 0, 0, 3, 0, 0, 1, 1, 0, 1, 1))
        - 3 * mono(p, q, r, d, pw(1, 1, 0, 0, 0, 0, 3, 0, 1, 1, 0, 1, 1))
        - mono(p, q, r, d, pw(1, 1, 0, 0, 0, 1, 0, 1, 2, 1, 0, 1, 1))
        - 3 * mono(p, q, r, d, pw(1, 1, 0, 0, 0, 1, 2, 0, 1, 0, 1, 1, 1))
        - mono(p, q, r, d, pw(1, 1, 0, 0, 0, 3, 0, 0, 1, 0, 1, 1, 1))
}

/// The multiplier of the third equation in the certificate for the ordinate.
spec fn assoc_y_cofactor_3(p: Coords, q: Coords, r: Coords, d: int) -> int {
    mono(p, q, r, d, pw(2, 0, 1, 1, 1, 0, 1, 1, 0, 0, 1, 2, 0))
        + mono(p, q, r, d, pw(2, 1, 0, 1, 1, 1, 0, 1, 0, 0, 1, 2, 0))
        + mono(p, q, r, d, pw(2, 1, 0, 2, 0, 0, 1, 1, 0, 1, 0, 1, 1))
        + mono(p, q, r, d, pw(2, 1, 0, 2, 0, 1, 0, 1, 0, 0, 1, 1, 1))
        + mono(p, q, r, d, pw(1, 0, 1, 1, 1, 1, 0, 0, 1, 2, 1, 0, 0))
        + 2 * mono(p, q, r, d, pw(1, 1, 0, 1, 1, 0, 1, 0, 1, 2, 1, 0, 0))
        - mono(p, q, r, d, pw(2, 0, 1, 1, 1, 1, 0, 1, 0, 1, 0, 2, 0))
        - mono(p, q, r, d, pw(2, 0, 1, 2, 0, 0, 1, 1, 0, 0, 1, 1, 1))
        - mono(p, q, r, d, pw(2, 0, 1, 2, 0, 1, 0, 1, 0, 1, 0, 1, 1))
        - mono(p, q, r, d, pw(2, 1, 0, 1, 1, 0, 1, 1, 0, 1, 0, 2, 0))
        - mono(p, q, r, d, pw(1, 0, 1, 1, 1, 1, 0, 0, 1, 1, 0, 1, 1))
        - 2 * mono(p, q, r, d, pw(1, 2, 1, 0, 0, 0, 1, 0, 1, 1, 0, 1, 1))
}

/// The multiplier of the fourth equation in the certificate for the ordinate.
spec fn assoc_y_cofactor_4(p: Coords, q: Coords, r: Coords, d: int) -> int {
    mono(p, q, r, d, pw(3, 1, 0, 2, 0, 1, 0, 1, 0, 0, 1, 2, 0))
        + mono(p, q, r, d, pw(2, 0, 1, 1, 1, 0, 1, 0, 1, 0, 1, 2, 0))
        + mono(p, q, r, d, pw(2, 0, 1, 2, 0, 0, 1, 1, 0, 0, 1, 0, 2))
        + mono(p, q, r, d, pw(2, 0, 1, 2, 0, 1, 0, 1, 0, 0, 1, 1, 1))
        + mono(p, q, r, d, pw(2, 1, 0, 2, 0, 0, 1, 0, 1, 1, 0, 1, 1))
        + mono(p, q, r, d, pw(2, 1, 0, 2, 0, 0, 1, 1, 0, 1, 2, 0, 0))
        + mono(p, q, r, d, pw(2, 1, 0, 2, 0, 1, 0, 0, 1, 0, 1, 1, 1))
        + mono(p, q, r, d, pw(2, 1, 0, 2, 0, 1, 0, 1, 0, 0, 1, 0, 2))
        + mono(p, q, r, d, pw(2, 3, 0, 0, 0, 0, 1, 1, 0, 1, 0, 2, 0))
        + mono(p, q, r, d, pw(2, 3, 0, 0, 0, 1, 0, 1, 0, 0, 1, 2, 0))
        + mono(p, q, r, d, pw(1, 0, 1, 1, 1, 0, 1, 0, 1, 0, 1, 0, 2))
        + mono(p, q, r, d, pw(1, 1, 0, 0, 2, 0, 1, 0, 1, 1, 0, 1, 1))
        + mono(p, q, r, d, pw(1, 1, 0, 0, 2, 1, 0, 0, 1, 0, 1, 1, 1))
        + mono(p, q, r, d, pw(1, 1, 0, 1, 1, 1, 0, 0, 1, 0, 3, 0, 0))
        + mono(p, q, r, d, pw(1, 1, 0, 1, 1, 1, 0, 0, 1, 1, 0, 1, 1))
        - mono(p, q, r, d, pw(3, 0, 1, 2, 0, 1, 0, 1, 0, 1, 0, 2, 0))
        - mono(p, q, r, d, pw(2, 0, 1, 0, 2, 0, 1, 1, 0, 0, 1, 2, 0))
        - mono(p, q, r, d, pw(2, 0, 1, 0, 2, 1, 0, 1, 0, 1, 0, 2, 0))
        - mono(p, q, r, d, pw(2, 0, 1, 1, 1, 1, 0, 0, 1, 1, 0, 2, 0))
        - mono(p, q, r, d, pw(2, 0, 1, 1, 1, 1, 0, 1, 0, 0, 1, 2, 0))
        - mono(p, q, r, d, pw(2, 0, 1, 2, 0, 0, 1, 0, 1, 0, 1, 1, 1))
        - mono(p, q, r, d, pw(2, 0, 1, 2, 0, 1, 0, 1, 0, 3, 0, 0, 0))
        - mono(p, q, r, d, pw(2, 1, 0, 1, 1, 0, 1, 0, 1, 1, 0, 2, 0))
        - mono(p, q, r, d, pw(2, 1, 0, 2, 0, 0, 1, 1, 0, 3, 0, 0, 0))
        - mono(p, q, r, d, pw(2, 1, 2, 0, 0, 0, 1, 1, 0, 1, 0, 2, 0))
        - mono(p, q, r, d, pw(1, 0, 1, 0, 2, 0, 1, 0, 1, 0, 1, 1, 1))
        - mono(p, q, r, d, pw(1, 0, 1, 1, 1, 1, 0, 0, 1, 1, 0, 0, 2))
        - mono(p, q, r, d, pw(1, 0, 3, 0, 0, 1, 0, 0, 1, 1, 0, 1, 1))
        - mono(p, q, r, d, pw(1, 1, 0, 1, 1, 0, 1, 0, 1, 1, 0, 0, 2))
        - mono(p, q, r, d, pw(1, 1, 0, 1, 1, 1, 0, 0, 1, 2, 1, 0, 0))
}

/// The multiplier of the fifth equation in the certificate for the ordinate.
spec fn assoc_y_cofactor_5(p: Coords, q: Coords, r: Coords, d: int) -> int {
    mono(p, q, r, d, pw(1, 0, 1, 1, 1, 2, 1, 0, 1, 1, 0, 0, 0))
        + mono(p, q, r, d, pw(1, 1, 0, 1, 1, 1, 2, 0, 1, 1, 0, 0, 0))
        - mono(p, q, r, d, pw(2, 0, 1, 2, 0, 1, 0, 2, 1, 1, 0, 0, 0))
        - mono(p, q, r, d, pw(2, 0, 1, 2, 0, 1, 2, 1, 0, 0, 1, 0, 0))
        - mono(p, q, r, d, pw(2, 1, 0, 2, 0, 0, 1, 2, 1, 1, 0, 0, 0))
        - mono(p, q, r, d, pw(2, 1, 0, 2, 0, 2, 1, 1, 0, 0, 1, 0, 0))
        - mono(p, q, r, d, pw(1, 0, 1, 1, 1, 1, 2, 0, 1, 0, 1, 0, 0))
        - mono(p, q, r, d, pw(1, 1, 0, 1, 1, 1, 0, 1, 2, 0, 1, 0, 0))
}

/// The multiplier of the sixth equation in the certificate for the ordinate.
spec fn assoc_y_cofactor_6(p: Coords, q: Coords, r: Coords, d: int) -> int {
    mono(p, q, r, d, pw(2, 0, 1, 2, 0, 0, 3, 1, 0, 0, 1, 0, 0))
        + mono(p, q, r, d, pw(2, 0, 1, 2, 0, 1, 2, 1, 0, 1, 0, 0, 0))
        + mono(p, q, r, d, pw(2, 1, 0, 2, 0, 2, 1, 1, 0, 1, 0, 0, 0))
        + mono(p, q, r, d, pw(2, 1, 0, 2, 0, 3, 0, 1, 0, 0, 1, 0, 0))
        + mono(p, q, r, d, pw(1, 0, 1, 1, 1, 0, 3, 0, 1, 0, 1, 0, 0))
        + 4 * mono(p, q, r, d, pw(1, 0, 1, 1, 1, 1, 2, 0, 1, 1, 0, 0, 0))
        + 3 * mono(p, q, r, d, pw(1, 0, 1, 1, 1, 2, 1, 0, 1, 0, 1, 0, 0))
        + 3 * mono(p, q, r, d, pw(1, 1, 0, 1, 1, 0, 3, 0, 1, 1, 0, 0, 0))
        + 3 * mono(p, q, r, d, pw(1, 1, 0, 1, 1, 1, 2, 0, 1, 0, 1, 0, 0))
        + mono(p, q, r, d, pw(1, 1, 0, 1, 1, 2, 1, 0, 1, 1, 0, 0, 0))
        + mono(p, q, r, d, pw(1, 1, 0, 1, 1, 3, 0, 0, 1, 0, 1, 0, 0))
        - mono(p, q, r, d, pw(2, 0, 1, 1, 1, 1, 0, 2, 1, 1, 0, 0, 0))
        - mono(p, q, r, d, pw(2, 0, 1, 2, 0, 1, 0, 2, 1, 0, 1, 0, 0))
        - mono(p, q, r, d, pw(2, 0, 1, 2, 0, 3, 0, 1, 0, 1, 0, 0, 0))
        - 2 * mono(p, q, r, d, pw(2, 1, 0, 1, 1, 0, 1, 2, 1, 1, 0, 0, 0))
        - mono(p, q, r, d, pw(2, 1, 0, 2, 0, 0, 3, 1, 0, 1, 0, 0, 0))
        - mono(p, q, r, d, pw(2, 1, 0, 2, 0, 1, 2, 1, 0, 0, 1, 0, 0))
        - mono(p, q, r, d, pw(1, 0, 1, 1, 1, 1, 0, 0, 3, 1, 0, 0, 0))
        - 2 * mono(p, q, r, d, pw(1, 1, 0, 1, 1, 0, 1, 0, 3, 1, 0, 0, 0))
}

/// The left side of the law for the ordinate, multiplied out.
proof fn lemma_assoc_y_left(p: Coords, q: Coords, r: Coords, d: int)
    ensures
        raw_h(raw_add(p, q, d), r) * raw_f(p, raw_add(q, r, d), d) == mono(p, q, r, d, pw(3, 0, 1, 1, 1, 1, 0, 3, 0, 1, 0, 2, 0))
            + mono(p, q, r, d, pw(3, 1, 0, 1, 1, 0, 1, 3, 0, 1, 0, 2, 0))
            + mono(p, q, r, d, pw(2, 0, 1, 2, 0, 2, 1, 1, 0, 3, 0, 0, 0))
            + mono(p, q, r, d, pw(2, 0, 1, 2, 0, 3, 0, 1, 0, 2, 1, 0, 0))
            + mono(p, q, r, d, pw(2, 1, 0, 2, 0, 0, 3, 1, 0, 2, 1, 0, 0))
            + mono(p, q, r, d, pw(2, 1, 0, 2, 0, 1, 2, 1, 0, 3, 0, 0, 0))
            + mono(p, q, r, d, pw(1, 0, 1, 1, 1, 0, 1, 1, 2, 0, 1, 0, 2))
            + mono(p, q, r, d, pw(1, 1, 0, 1, 1, 1, 0, 1, 2, 0, 1, 0, 2))
            + mono(p, q, r, d, pw(0, 0, 1, 0, 2, 0, 1, 0, 3, 0, 1, 0, 2))
            + mono(p, q, r, d, pw(0, 0, 1, 0, 2, 1, 0, 0, 3, 1, 0, 0, 2))
            + mono(p, q, r, d, pw(0, 1, 0, 0, 2, 0, 1, 0, 3, 1, 0, 0, 2))
            + mono(p, q, r, d, pw(0, 1, 0, 0, 2, 1, 0, 0, 3, 0, 1, 0, 2))
            - mono(p, q, r, d, pw(3, 0, 1, 1, 1, 0, 1, 3, 0, 0, 1, 2, 0))
            - mono(p, q, r, d, pw(3, 1, 0, 1, 1, 1, 0, 3, 0, 0, 1, 2, 0))
            - mono(p, q, r, d, pw(2, 0, 1, 0, 2, 0, 1, 2, 1, 0, 1, 2, 0))
            - mono(p, q, r, d, pw(2, 0, 1, 0, 2, 1, 0, 2, 1, 1, 0, 2, 0))
            - mono(p, q, r, d, pw(2, 0, 1, 2, 0, 0, 3, 1, 0, 1, 2, 0, 0))
            - mono(p, q, r, d, pw(2, 0, 1, 2, 0, 1, 2, 1, 0, 0, 3, 0, 0))
            - mono(p, q, r, d, pw(2, 1, 0, 0, 2, 0, 1, 2, 1, 1, 0, 2, 0))
            - mono(p, q, r, d, pw(2, 1, 0, 0, 2, 1, 0, 2, 1, 0, 1, 2, 0))
            - mono(p, q, r, d, pw(2, 1, 0, 2, 0, 2, 1, 1, 0, 0, 3, 0, 0))
            - mono(p, q, r, d, pw(2, 1, 0, 2, 0, 3, 0, 1, 0, 1, 2, 0, 0))
            - mono(p, q, r, d, pw(1, 0, 1, 1, 1, 0, 3, 0, 1, 1, 2, 0, 0))
            - mono(p, q, r, d, pw(1, 0, 1, 1, 1, 1, 0, 1, 2, 1, 0, 0, 2))
            - mono(p, q, r, d, pw(1, 0, 1, 1, 1, 1, 2, 0, 1, 0, 3, 0, 0))
            - 2 * mono(p, q, r, d, pw(1, 0, 1, 1, 1, 1, 2, 0, 1, 2, 1, 0, 0))
            - 2 * mono(p, q, r, d, pw(1, 0, 1, 1, 1, 2, 1, 0, 1, 1, 2, 0, 0))
            - mono(p, q, r, d, pw(1, 0, 1, 1, 1, 2, 1, 0, 1, 3, 0, 0, 0))
            - mono(p, q, r, d, pw(1, 0, 1, 1, 1, 3, 0, 0, 1, 2, 1, 0, 0))
            - mono(p, q, r, d, pw(1, 1, 0, 1, 1, 0, 1, 1, 2, 1, 0, 0, 2))
            - mono(p, q, r, d, pw(1, 1, 0, 1, 1, 0, 3, 0, 1, 2, 1, 0, 0))
            - 2 * mono(p, q, r, d, pw(1, 1, 0, 1, 1, 1, 2, 0, 1, 1, 2, 0, 0))
            - mono(p, q, r, d, pw(1, 1, 0, 1, 1, 1, 2, 0, 1, 3, 0, 0, 0))
            - mono(p, q, r, d, pw(1, 1, 0, 1, 1, 2, 1, 0, 1, 0, 3, 0, 0))
            - 2 * mono(p, q, r, d, pw(1, 1, 0, 1, 1, 2, 1, 0, 1, 2, 1, 0, 0))
            - mono(p, q, r, d, pw(1, 1, 0, 1, 1, 3, 0, 0, 1, 1, 2, 0, 0)),
{
    lemma_mono_variables(p, q, r, d);
    let g12 = p.z * q.z + d * p.t * q.t;
    let h12 = p.y * q.y + p.x * q.x;
    let pq_y = g12 * h12;
    let e12 = (p.x + p.y) * (q.x + q.y) - (p.y * q.y + p.x * q.x);
    let f12 = p.z * q.z - d * p.t * q.t;
    let pq_x = e12 * f12;
    let hl = pq_y * r.y + pq_x * r.x;
    let f23 = q.z * r.z - d * q.t * r.t;
    let g23 = q.z * r.z + d * q.t * r.t;
    let qr_z = f23 * g23;
    let e23 = (q.x + q.y) * (r.x + r.y) - (q.y * r.y + q.x * r.x);
    let h23 = q.y * r.y + q.x * r.x;
    let qr_t = e23 * h23;
    let fr = p.z * qr_z - d * p.t * qr_t;
    assert(hl == raw_h(raw_add(p, q, d), r) && fr == raw_f(p, raw_add(q, r, d), d));
    assert(p.z * q.z == mono(p, q, r, d, pw(0, 0, 0, 0, 1, 0, 0, 0, 1, 0, 0, 0, 0))) by {
        lemma_mul_equals(p.z, mono(p, q, r, d, pw(0, 0, 0, 0, 1, 0, 0, 0, 0, 0, 0, 0, 0)), q.z, mono(p, q, r, d, pw(0, 0, 0, 0, 0, 0, 0, 0, 1, 0, 0, 0, 0)));
        lemma_term_mul(p, q, r, d, 1, pw(0, 0, 0, 0, 1, 0, 0, 0, 0, 0, 0, 0, 0), 1, pw(0, 0, 0, 0, 0, 0, 0, 0, 1, 0, 0, 0, 0));
    };
    assert(d * p.t == mono(p, q, r, d, pw(1, 0, 0, 1, 0, 0, 0, 0, 0, 0, 0, 0, 0))) by {
        lemma_mul_equals(d, mono(p, q, r, d, pw(1, 0, 0, 0, 0, 0, 0, 0, 0, 0, 0, 0, 0)), p.t, mono(p, q, r, d, pw(0, 0, 0, 1, 0, 0, 0, 0, 0, 0, 0, 0, 0)));
        lemma_term_mul(p, q, r, d, 1, pw(1, 0, 0, 0, 0, 0, 0, 0, 0, 0, 0, 0, 0), 1, pw(0, 0, 0, 1, 0, 0, 0, 0, 0, 0, 0, 0, 0));
    };
    assert(d * p.t * q.t == mono(p, q, r, d, pw(1, 0, 0, 1, 0, 0, 0, 1, 0, 0, 0, 0, 0))) by {
        lemma_mul_equals(d * p.t, mono(p, q, r, d, pw(1, 0, 0, 1, 0, 0, 0, 0, 0, 0, 0, 0, 0)), q.t, mono(p, q, r, d, pw(0, 0, 0, 0, 0, 0, 0, 1, 0, 0, 0, 0, 0)));
        lemma_term_mul(p, q, r, d, 1, pw(1, 0, 0, 1, 0, 0, 0, 0, 0, 0, 0, 0, 0), 1, pw(0, 0, 0, 0, 0, 0, 0, 1, 0, 0, 0, 0, 0));
    };
    assert(g12 == mono(p, q, r, d, pw(1, 0, 0, 1, 0, 0, 0, 1, 0, 0, 0, 0, 0))
        + mono(p, q, r, d, pw(0, 0, 0, 0, 1, 0, 0, 0, 1, 0, 0, 0, 0)));
    assert(p.y * q.y == mono(p, q, r, d, pw(0, 0, 1, 0, 0, 0, 1, 0, 0, 0, 0, 0, 0))) by {
        lemma_mul_equals(p.y, mono(p, q, r, d, pw(0, 0, 1, 0, 0, 0, 0, 0, 0, 0, 0, 0, 0)), q.y, mono(p, q, r, d, pw(0, 0, 0, 0, 0, 0, 1, 0, 0, 0, 0, 0, 0)));
        lemma_term_mul(p, q, r, d, 1, pw(0, 0, 1, 0, 0, 0, 0, 0, 0, 0, 0, 0, 0), 1, pw(0, 0, 0, 0, 0, 0, 1, 0, 0, 0, 0, 0, 0));
    };
    assert(p.x * q.x == mono(p, q, r, d, pw(0, 1, 0, 0, 0, 1, 0, 0, 0, 0, 0, 0, 0))) by {
        lemma_mul_equals(p.x, mono(p, q, r, d, pw(0, 1, 0, 0, 0, 0, 0, 0, 0, 0, 0, 0, 0)), q.x, mono(p, q, r, d, pw(0, 0, 0, 0, 0, 1, 0, 0, 0, 0, 0, 0, 0)));
        lemma_term_mul(p, q, r, d, 1, pw(0, 1, 0, 0, 0, 0, 0, 0, 0, 0, 0, 0, 0), 1, pw(0, 0, 0, 0, 0, 1, 0, 0, 0, 0, 0, 0, 0));
    };
    assert(h12 == mono(p, q, r, d, pw(0, 0, 1, 0, 0, 0, 1, 0, 0, 0, 0, 0, 0))
        + mono(p, q, r, d, pw(0, 1, 0, 0, 0, 1, 0, 0, 0, 0, 0, 0, 0)));
    assert(g12 * h12 == mono(p, q, r, d, pw(1, 0, 1, 1, 0, 0, 1, 1, 0, 0, 0, 0, 0))
        + mono(p, q, r, d, pw(1, 1, 0, 1, 0, 1, 0, 1, 0, 0, 0, 0, 0))
        + mono(p, q, r, d, pw(0, 0, 1, 0, 1, 0, 1, 0, 1, 0, 0, 0, 0))
        + mono(p, q, r, d, pw(0, 1, 0, 0, 1, 1, 0, 0, 1, 0, 0, 0, 0))) by {
        lemma_mul_equals(g12, mono(p, q, r, d, pw(1, 0, 0, 1, 0, 0, 0, 1, 0, 0, 0, 0, 0)) + mono(p, q, r, d, pw(0, 0, 0, 0, 1, 0, 0, 0, 1, 0, 0, 0, 0)), h12, mono(p, q, r, d, pw(0, 0, 1, 0, 0, 0, 1, 0, 0, 0, 0, 0, 0)) + mono(p, q, r, d, pw(0, 1, 0, 0, 0, 1, 0, 0, 0, 0, 0, 0, 0)));
        lemma_mul_is_distributive_add(mono(p, q, r, d, pw(1, 0, 0, 1, 0, 0, 0, 1, 0, 0, 0, 0, 0)) + mono(p, q, r, d, pw(0, 0, 0, 0, 1, 0, 0, 0, 1, 0, 0, 0, 0)), mono(p, q, r, d, pw(0, 0, 1, 0, 0, 0, 1, 0, 0, 0, 0, 0, 0)), mono(p, q, r, d, pw(0, 1, 0, 0, 0, 1, 0, 0, 0, 0, 0, 0, 0)));
        lemma_mul_is_distributive_add_other_way(mono(p, q, r, d, pw(0, 0, 1, 0, 0, 0, 1, 0, 0, 0, 0, 0, 0)), mono(p, q, r, d, pw(1, 0, 0, 1, 0, 0, 0, 1, 0, 0, 0, 0, 0)), mono(p, q, r, d, pw(0, 0, 0, 0, 1, 0, 0, 0, 1, 0, 0, 0, 0)));
        lemma_mul_is_distributive_add_other_way(mono(p, q, r, d, pw(0, 1, 0, 0, 0, 1, 0, 0, 0, 0, 0, 0, 0)), mono(p, q, r, d, pw(1, 0, 0, 1, 0, 0, 0, 1, 0, 0, 0, 0, 0)), mono(p, q, r, d, pw(0, 0, 0, 0, 1, 0, 0, 0, 1, 0, 0, 0, 0)));
        lemma_term_mul(p, q, r, d, 1, pw(1, 0, 0, 1, 0, 0, 0, 1, 0, 0, 0, 0, 0), 1, pw(0, 0, 1, 0, 0, 0, 1, 0, 0, 0, 0, 0, 0));
        lemma_term_mul(p, q, r, d, 1, pw(1, 0, 0, 1, 0, 0, 0, 1, 0, 0, 0, 0, 0), 1, pw(0, 1, 0, 0, 0, 1, 0, 0, 0, 0, 0, 0, 0));
        lemma_term_mul(p, q, r, d, 1, pw(0, 0, 0, 0, 1, 0, 0, 0, 1, 0, 0, 0, 0), 1, pw(0, 0, 1, 0, 0, 0, 1, 0, 0, 0, 0, 0, 0));
        lemma_term_mul(p, q, r, d, 1, pw(0, 0, 0, 0, 1, 0, 0, 0, 1, 0, 0, 0, 0), 1, pw(0, 1, 0, 0, 0, 1, 0, 0, 0, 0, 0, 0, 0));
    };
    assert(pq_y * r.y == mono(p, q, r, d, pw(1, 0, 1, 1, 0, 0, 1, 1, 0, 0, 1, 0, 0))
        + mono(p, q, r, d, pw(1, 1, 0, 1, 0, 1, 0, 1, 0, 0, 1, 0, 0))
        + mono(p, q, r, d, pw(0, 0, 1, 0, 1, 0, 1, 0, 1, 0, 1, 0, 0))
        + mono(p, q, r, d, pw(0, 1, 0, 0, 1, 1, 0, 0, 1, 0, 1, 0, 0))) by {
        let a2 = mono(p, q, r, d, pw(1, 0, 1, 1, 0, 0, 1, 1, 0, 0, 0, 0, 0)) + mono(p, q, r, d, pw(1, 1, 0, 1, 0, 1, 0, 1, 0, 0, 0, 0, 0));
        let a3 = a2 + mono(p, q, r, d, pw(0, 0, 1, 0, 1, 0, 1, 0, 1, 0, 0, 0, 0));
        let a4 = a3 + mono(p, q, r, d, pw(0, 1, 0, 0, 1, 1, 0, 0, 1, 0, 0, 0, 0));
        lemma_mul_equals(pq_y, a4, r.y, mono(p, q, r, d, pw(0, 0, 0, 0, 0, 0, 0, 0, 0, 0, 1, 0, 0)));
        lemma_mul_is_distributive_add_other_way(mono(p, q, r, d, pw(0, 0, 0, 0, 0, 0, 0, 0, 0, 0, 1, 0, 0)), a3, mono(p, q, r, d, pw(0, 1, 0, 0, 1, 1, 0, 0, 1, 0, 0, 0, 0)));
        lemma_mul_is_distributive_add_other_way(mono(p, q, r, d, pw(0, 0, 0, 0, 0, 0, 0, 0, 0, 0, 1, 0, 0)), a2, mono(p, q, r, d, pw(0, 0, 1, 0, 1, 0, 1, 0, 1, 0, 0, 0, 0)));
        lemma_mul_is_distributive_add_other_way(mono(p, q, r, d, pw(0, 0, 0, 0, 0, 0, 0, 0, 0, 0, 1, 0, 0)), mono(p, q, r, d, pw(1, 0, 1, 1, 0, 0, 1, 1, 0, 0, 0, 0, 0)), mono(p, q, r, d, pw(1, 1, 0, 1, 0, 1, 0, 1, 0, 0, 0, 0, 0)));
        lemma_term_mul(p, q, r, d, 1, pw(1, 0, 1, 1, 0, 0, 1, 1, 0, 0, 0, 0, 0), 1, pw(0, 0, 0, 0, 0, 0, 0, 0, 0, 0, 1, 0, 0));
        lemma_term_mul(p, q, r, d, 1, pw(1, 1, 0, 1, 0, 1, 0, 1, 0, 0, 0, 0, 0), 1, pw(0, 0, 0, 0, 0, 0, 0, 0, 0, 0, 1, 0, 0));
        lemma_term_mul(p, q, r, d, 1, pw(0, 0, 1, 0, 1, 0, 1, 0, 1, 0, 0, 0, 0), 1, pw(0, 0, 0, 0, 0, 0, 0, 0, 0, 0, 1, 0, 0));
        lemma_term_mul(p, q, r, d, 1, pw(0, 1, 0, 0, 1, 1, 0, 0, 1, 0, 0, 0, 0), 1, pw(0, 0, 0, 0, 0, 0, 0, 0, 0, 0, 1, 0, 0));
    };
    assert((p.x + p.y) * (q.x + q.y) == mono(p, q, r, d, pw(0, 0, 1, 0, 0, 0, 1, 0, 0, 0, 0, 0, 0))
        + mono(p, q, r, d, pw(0, 0, 1, 0, 0, 1, 0, 0, 0, 0, 0, 0, 0))
        + mono(p, q, r, d, pw(0, 1, 0, 0, 0, 0, 1, 0, 0, 0, 0, 0, 0))
        + mono(p, q, r, d, pw(0, 1, 0, 0, 0, 1, 0, 0, 0, 0, 0, 0, 0))) by {
        lemma_mul_equals(p.x + p.y, mono(p, q, r, d, pw(0, 0, 1, 0, 0, 0, 0, 0, 0, 0, 0, 0, 0)) + mono(p, q, r, d, pw(0, 1, 0, 0, 0, 0, 0, 0, 0, 0, 0, 0, 0)), q.x + q.y, mono(p, q, r, d, pw(0, 0, 0, 0, 0, 0, 1, 0, 0, 0, 0, 0, 0)) + mono(p, q, r, d, pw(0, 0, 0, 0, 0, 1, 0, 0, 0, 0, 0, 0, 0)));
        lemma_mul_is_distributive_add(mono(p, q, r, d, pw(0, 0, 1, 0, 0, 0, 0, 0, 0, 0, 0, 0, 0)) + mono(p, q, r, d, pw(0, 1, 0, 0, 0, 0, 0, 0, 0, 0, 0, 0, 0)), mono(p, q, r, d, pw(0, 0, 0, 0, 0, 0, 1, 0, 0, 0, 0, 0, 0)), mono(p, q, r, d, pw(0, 0, 0, 0, 0, 1, 0, 0, 0, 0, 0, 0, 0)));
        lemma_mul_is_distributive_add_other_way(mono(p, q, r, d, pw(0, 0, 0, 0, 0, 0, 1, 0, 0, 0, 0, 0, 0)), mono(p, q, r, d, pw(0, 0, 1, 0, 0, 0, 0, 0, 0, 0, 0, 0, 0)), mono(p, q, r, d, pw(0, 1, 0, 0, 0, 0, 0, 0, 0, 0, 0, 0, 0)));
        lemma_mul_is_distributive_add_other_way(mono(p, q, r, d, pw(0, 0, 0, 0, 0, 1, 0, 0, 0, 0, 0, 0, 0)), mono(p, q, r, d, pw(0, 0, 1, 0, 0, 0, 0, 0, 0, 0, 0, 0, 0)), mono(p, q, r, d, pw(0, 1, 0, 0, 0, 0, 0, 0, 0, 0, 0, 0, 0)));
        lemma_term_mul(p, q, r, d, 1, pw(0, 0, 1, 0, 0, 0, 0, 0, 0, 0, 0, 0, 0), 1, pw(0, 0, 0, 0, 0, 0, 1, 0, 0, 0, 0, 0, 0));
        lemma_term_mul(p, q, r, d, 1, pw(0, 0, 1, 0, 0, 0, 0, 0, 0, 0, 0, 0, 0), 1, pw(0, 0, 0, 0, 0, 1, 0, 0, 0, 0, 0, 0, 0));
        lemma_term_mul(p, q, r, d, 1, pw(0, 1, 0, 0, 0, 0, 0, 0, 0, 0, 0, 0, 0), 1, pw(0, 0, 0, 0, 0, 0, 1, 0, 0, 0, 0, 0, 0));
        lemma_term_mul(p, q, r, d, 1, pw(0, 1, 0, 0, 0, 0, 0, 0, 0, 0, 0, 0, 0), 1, pw(0, 0, 0, 0, 0, 1, 0, 0, 0, 0, 0, 0, 0));
    };
    assert(e12 == mono(p, q, r, d, pw(0, 0, 1, 0, 0, 1, 0, 0, 0, 0, 0, 0, 0))
        + mono(p, q, r, d, pw(0, 1, 0, 0, 0, 0, 1, 0, 0, 0, 0, 0, 0)));
    assert(f12 == mono(p, q, r, d, pw(0, 0, 0, 0, 1, 0, 0, 0, 1, 0, 0, 0, 0))
        - mono(p, q, r, d, pw(1, 0, 0, 1, 0, 0, 0, 1, 0, 0, 0, 0, 0)));
    assert(e12 * f12 == mono(p, q, r, d, pw(0, 0, 1, 0, 1, 1, 0, 0, 1, 0, 0, 0, 0))
        + mono(p, q, r, d, pw(0, 1, 0, 0, 1, 0, 1, 0, 1, 0, 0, 0, 0))
        - mono(p, q, r, d, pw(1, 0, 1, 1, 0, 1, 0, 1, 0, 0, 0, 0, 0))
        - mono(p, q, r, d, pw(1, 1, 0, 1, 0, 0, 1, 1, 0, 0, 0, 0, 0))) by {
        lemma_mul_equals(e12, mono(p, q, r, d, pw(0, 0, 1, 0, 0, 1, 0, 0, 0, 0, 0, 0, 0)) + mono(p, q, r, d, pw(0, 1, 0, 0, 0, 0, 1, 0, 0, 0, 0, 0, 0)), f12, mono(p, q, r, d, pw(0, 0, 0, 0, 1, 0, 0, 0, 1, 0, 0, 0, 0)) - mono(p, q, r, d, pw(1, 0, 0, 1, 0, 0, 0, 1, 0, 0, 0, 0, 0)));
        lemma_mul_is_distributive_sub(mono(p, q, r, d, pw(0, 0, 1, 0, 0, 1, 0, 0, 0, 0, 0, 0, 0)) + mono(p, q, r, d, pw(0, 1, 0, 0, 0, 0, 1, 0, 0, 0, 0, 0, 0)), mono(p, q, r, d, pw(0, 0, 0, 0, 1, 0, 0, 0, 1, 0, 0, 0, 0)), mono(p, q, r, d, pw(1, 0, 0, 1, 0, 0, 0, 1, 0, 0, 0, 0, 0)));
        lemma_mul_is_distributive_add_other_way(mono(p, q, r, d, pw(0, 0, 0, 0, 1, 0, 0, 0, 1, 0, 0, 0, 0)), mono(p, q, r, d, pw(0, 0, 1, 0, 0, 1, 0, 0, 0, 0, 0, 0, 0)), mono(p, q, r, d, pw(0, 1, 0, 0, 0, 0, 1, 0, 0, 0, 0, 0, 0)));
        lemma_mul_is_distributive_add_other_way(mono(p, q, r, d, pw(1, 0, 0, 1, 0, 0, 0, 1, 0, 0, 0, 0, 0)), mono(p, q, r, d, pw(0, 0, 1, 0, 0, 1, 0, 0, 0, 0, 0, 0, 0)), mono(p, q, r, d, pw(0, 1, 0, 0, 0, 0, 1, 0, 0, 0, 0, 0, 0)));
        lemma_term_mul(p, q, r, d, 1, pw(0, 0, 1, 0, 0, 1, 0, 0, 0, 0, 0, 0, 0), 1, pw(0, 0, 0, 0, 1, 0, 0, 0, 1, 0, 0, 0, 0));
        lemma_term_mul(p, q, r, d, 1, pw(0, 0, 1, 0, 0, 1, 0, 0, 0, 0, 0, 0, 0), 1, pw(1, 0, 0, 1, 0, 0, 0, 1, 0, 0, 0, 0, 0));
        lemma_term_mul(p, q, r, d, 1, pw(0, 1, 0, 0, 0, 0, 1, 0, 0, 0, 0, 0, 0), 1, pw(0, 0, 0, 0, 1, 0, 0, 0, 1, 0, 0, 0, 0));
        lemma_term_mul(p, q, r, d, 1, pw(0, 1, 0, 0, 0, 0, 1, 0, 0, 0, 0, 0, 0), 1, pw(1, 0, 0, 1, 0, 0, 0, 1, 0, 0, 0, 0, 0));
    };
    assert(pq_x * r.x == mono(p, q, r, d, pw(0, 0, 1, 0, 1, 1, 0, 0, 1, 1, 0, 0, 0))
        + mono(p, q, r, d, pw(0, 1, 0, 0, 1, 0, 1, 0, 1, 1, 0, 0, 0))
        - mono(p, q, r, d, pw(1, 0, 1, 1, 0, 1, 0, 1, 0, 1, 0, 0, 0))
        - mono(p, q, r, d, pw(1, 1, 0, 1, 0, 0, 1, 1, 0, 1, 0, 0, 0))) by {
        let a2 = mono(p, q, r, d, pw(0, 0, 1, 0, 1, 1, 0, 0, 1, 0, 0, 0, 0)) + mono(p, q, r, d, pw(0, 1, 0, 0, 1, 0, 1, 0, 1, 0, 0, 0, 0));
        let a3 = a2 - mono(p, q, r, d, pw(1, 0, 1, 1, 0, 1, 0, 1, 0, 0, 0, 0, 0));
        let a4 = a3 - mono(p, q, r, d, pw(1, 1, 0, 1, 0, 0, 1, 1, 0, 0, 0, 0, 0));
        lemma_mul_equals(pq_x, a4, r.x, mono(p, q, r, d, pw(0, 0, 0, 0, 0, 0, 0, 0, 0, 1, 0, 0, 0)));
        lemma_mul_is_distributive_sub_other_way(mono(p, q, r, d, pw(0, 0, 0, 0, 0, 0, 0, 0, 0, 1, 0, 0, 0)), a3, mono(p, q, r, d, pw(1, 1, 0, 1, 0, 0, 1, 1, 0, 0, 0, 0, 0)));
        lemma_mul_is_distributive_sub_other_way(mono(p, q, r, d, pw(0, 0, 0, 0, 0, 0, 0, 0, 0, 1, 0, 0, 0)), a2, mono(p, q, r, d, pw(1, 0, 1, 1, 0, 1, 0, 1, 0, 0, 0, 0, 0)));
        lemma_mul_is_distributive_add_other_way(mono(p, q, r, d, pw(0, 0, 0, 0, 0, 0, 0, 0, 0, 1, 0, 0, 0)), mono(p, q, r, d, pw(0, 0, 1, 0, 1, 1, 0, 0, 1, 0, 0, 0, 0)), mono(p, q, r, d, pw(0, 1, 0, 0, 1, 0, 1, 0, 1, 0, 0, 0, 0)));
        lemma_term_mul(p, q, r, d, 1, pw(0, 0, 1, 0, 1, 1, 0, 0, 1, 0, 0, 0, 0), 1, pw(0, 0, 0, 0, 0, 0, 0, 0, 0, 1, 0, 0, 0));
        lemma_term_mul(p, q, r, d, 1, pw(0, 1, 0, 0, 1, 0, 1, 0, 1, 0, 0, 0, 0), 1, pw(0, 0, 0, 0, 0, 0, 0, 0, 0, 1, 0, 0, 0));
        lemma_term_mul(p, q, r, d, 1, pw(1, 0, 1, 1, 0, 1, 0, 1, 0, 0, 0, 0, 0), 1, pw(0, 0, 0, 0, 0, 0, 0, 0, 0, 1, 0, 0, 0));
        lemma_term_mul(p, q, r, d, 1, pw(1, 1, 0, 1, 0, 0, 1, 1, 0, 0, 0, 0, 0), 1, pw(0, 0, 0, 0, 0, 0, 0, 0, 0, 1, 0, 0, 0));
    };
    assert(hl == mono(p, q, r, d, pw(1, 0, 1, 1, 0, 0, 1, 1, 0, 0, 1, 0, 0))
        + mono(p, q, r, d, pw(1, 1, 0, 1, 0, 1, 0, 1, 0, 0, 1, 0, 0))
        + mono(p, q, r, d, pw(0, 0, 1, 0, 1, 0, 1, 0, 1, 0, 1, 0, 0))
        + mono(p, q, r, d, pw(0, 0, 1, 0, 1, 1, 0, 0, 1, 1, 0, 0, 0))
        + mono(p, q, r, d, pw(0, 1, 0, 0, 1, 0, 1, 0, 1, 1, 0, 0, 0))
        + mono(p, q, r, d, pw(0, 1, 0, 0, 1, 1, 0, 0, 1, 0, 1, 0, 0))
        - mono(p, q, r, d, pw(1, 0, 1, 1, 0, 1, 0, 1, 0, 1, 0, 0, 0))
        - mono(p, q, r, d, pw(1, 1, 0, 1, 0, 0, 1, 1, 0, 1, 0, 0, 0)));
    assert(q.z * r.z == mono(p, q, r, d, pw(0, 0, 0, 0, 0, 0, 0, 0, 1, 0, 0, 0, 1))) by {
        lemma_mul_equals(q.z, mono(p, q, r, d, pw(0, 0, 0, 0, 0, 0, 0, 0, 1, 0, 0, 0, 0)), r.z, mono(p, q, r, d, pw(0, 0, 0, 0, 0, 0, 0, 0, 0, 0, 0, 0, 1)));
        lemma_term_mul(p, q, r, d, 1, pw(0, 0, 0, 0, 0, 0, 0, 0, 1, 0, 0, 0, 0), 1, pw(0, 0, 0, 0, 0, 0, 0, 0, 0, 0, 0, 0, 1));
    };
    assert(d * q.t == mono(p, q, r, d, pw(1, 0, 0, 0, 0, 0, 0, 1, 0, 0, 0, 0, 0))) by {
        lemma_mul_equals(d, mono(p, q, r, d, pw(1, 0, 0, 0, 0, 0, 0, 0, 0, 0, 0, 0, 0)), q.t, mono(p, q, r, d, pw(0, 0, 0, 0, 0, 0, 0, 1, 0, 0, 0, 0, 0)));
        lemma_term_mul(p, q, r, d, 1, pw(1, 0, 0, 0, 0, 0, 0, 0, 0, 0, 0, 0, 0), 1, pw(0, 0, 0, 0, 0, 0, 0, 1, 0, 0, 0, 0, 0));
    };
    assert(d * q.t * r.t == mono(p, q, r, d, pw(1, 0, 0, 0, 0, 0, 0, 1, 0, 0, 0, 1, 0))) by {
        lemma_mul_equals(d * q.t, mono(p, q, r, d, pw(1, 0, 0, 0, 0, 0, 0, 1, 0, 0, 0, 0, 0)), r.t, mono(p, q, r, d, pw(0, 0, 0, 0, 0, 0, 0, 0, 0, 0, 0, 1, 0)));
        lemma_term_mul(p, q, r, d, 1, pw(1, 0, 0, 0, 0, 0, 0, 1, 0, 0, 0, 0, 0), 1, pw(0, 0, 0, 0, 0, 0, 0, 0, 0, 0, 0, 1, 0));
    };
    assert(f23 == mono(p, q, r, d, pw(0, 0, 0, 0, 0, 0, 0, 0, 1, 0, 0, 0, 1))
        - mono(p, q, r, d, pw(1, 0, 0, 0, 0, 0, 0, 1, 0, 0, 0, 1, 0)));
    assert(g23 == mono(p, q, r, d, pw(1, 0, 0, 0, 0, 0, 0, 1, 0, 0, 0, 1, 0))
        + mono(p, q, r, d, pw(0, 0, 0, 0, 0, 0, 0, 0, 1, 0, 0, 0, 1)));
    assert(f23 * g23 == mono(p, q, r, d, pw(0, 0, 0, 0, 0, 0, 0, 0, 2, 0, 0, 0, 2))
        - mono(p, q, r, d, pw(2, 0, 0, 0, 0, 0, 0, 2, 0, 0, 0, 2, 0))) by {
        lemma_mul_equals(f23, mono(p, q, r, d, pw(0, 0, 0, 0, 0, 0, 0, 0, 1, 0, 0, 0, 1)) - mono(p, q, r, d, pw(1, 0, 0, 0, 0, 0, 0, 1, 0, 0, 0, 1, 0)), g23, mono(p, q, r, d, pw(1, 0, 0, 0, 0, 0, 0, 1, 0, 0, 0, 1, 0)) + mono(p, q, r, d, pw(0, 0, 0, 0, 0, 0, 0, 0, 1, 0, 0, 0, 1)));
        lemma_mul_is_distributive_add(mono(p, q, r, d, pw(0, 0, 0, 0, 0, 0, 0, 0, 1, 0, 0, 0, 1)) - mono(p, q, r, d, pw(1, 0, 0, 0, 0, 0, 0, 1, 0, 0, 0, 1, 0)), mono(p, q, r, d, pw(1, 0, 0, 0, 0, 0, 0, 1, 0, 0, 0, 1, 0)), mono(p, q, r, d, pw(0, 0, 0, 0, 0, 0, 0, 0, 1, 0, 0, 0, 1)));
        lemma_mul_is_distributive_sub_other_way(mono(p, q, r, d, pw(1, 0, 0, 0, 0, 0, 0, 1, 0, 0, 0, 1, 0)), mono(p, q, r, d, pw(0, 0, 0, 0, 0, 0, 0, 0, 1, 0, 0, 0, 1)), mono(p, q, r, d, pw(1, 0, 0, 0, 0, 0, 0, 1, 0, 0, 0, 1, 0)));
        lemma_mul_is_distributive_sub_other_way(mono(p, q, r, d, pw(0, 0, 0, 0, 0, 0, 0, 0, 1, 0, 0, 0, 1)), mono(p, q, r, d, pw(0, 0, 0, 0, 0, 0, 0, 0, 1, 0, 0, 0, 1)), mono(p, q, r, d, pw(1, 0, 0, 0, 0, 0, 0, 1, 0, 0, 0, 1, 0)));
        lemma_term_mul(p, q, r, d, 1, pw(0, 0, 0, 0, 0, 0, 0, 0, 1, 0, 0, 0, 1), 1, pw(1, 0, 0, 0, 0, 0, 0, 1, 0, 0, 0, 1, 0));
        lemma_term_mul(p, q, r, d, 1, pw(0, 0, 0, 0, 0, 0, 0, 0, 1, 0, 0, 0, 1), 1, pw(0, 0, 0, 0, 0, 0, 0, 0, 1, 0, 0, 0, 1));
        lemma_term_mul(p, q, r, d, 1, pw(1, 0, 0, 0, 0, 0, 0, 1, 0, 0, 0, 1, 0), 1, pw(1, 0, 0, 0, 0, 0, 0, 1, 0, 0, 0, 1, 0));
        lemma_term_mul(p, q, r, d, 1, pw(1, 0, 0, 0, 0, 0, 0, 1, 0, 0, 0, 1, 0), 1, pw(0, 0, 0, 0, 0, 0, 0, 0, 1, 0, 0, 0, 1));
    };
    assert(p.z * qr_z == mono(p, q, r, d, pw(0, 0, 0, 0, 1, 0, 0, 0, 2, 0, 0, 0, 2))
        - mono(p, q, r, d, pw(2, 0, 0, 0, 1, 0, 0, 2, 0, 0, 0, 2, 0))) by {
        lemma_mul_equals(p.z, mono(p, q, r, d, pw(0, 0, 0, 0, 1, 0, 0, 0, 0, 0, 0, 0, 0)), qr_z, mono(p, q, r, d, pw(0, 0, 0, 0, 0, 0, 0, 0, 2, 0, 0, 0, 2)) - mono(p, q, r, d, pw(2, 0, 0, 0, 0, 0, 0, 2, 0, 0, 0, 2, 0)));
        lemma_mul_is_distributive_sub(mono(p, q, r, d, pw(0, 0, 0, 0, 1, 0, 0, 0, 0, 0, 0, 0, 0)), mono(p, q, r, d, pw(0, 0, 0, 0, 0, 0, 0, 0, 2, 0, 0, 0, 2)), mono(p, q, r, d, pw(2, 0, 0, 0, 0, 0, 0, 2, 0, 0, 0, 2, 0)));
        lemma_term_mul(p, q, r, d, 1, pw(0, 0, 0, 0, 1, 0, 0, 0, 0, 0, 0, 0, 0), 1, pw(0, 0, 0, 0, 0, 0, 0, 0, 2, 0, 0, 0, 2));
        lemma_term_mul(p, q, r, d, 1, pw(0, 0, 0, 0, 1, 0, 0, 0, 0, 0, 0, 0, 0), 1, pw(2, 0, 0, 0, 0, 0, 0, 2, 0, 0, 0, 2, 0));
    };
    assert((q.x + q.y) * (r.x + r.y) == mono(p, q, r, d, pw(0, 0, 0, 0, 0, 0, 1, 0, 0, 0, 1, 0, 0))
        + mono(p, q, r, d, pw(0, 0, 0, 0, 0, 0, 1, 0, 0, 1, 0, 0, 0))
        + mono(p, q, r, d, pw(0, 0, 0, 0, 0, 1, 0, 0, 0, 0, 1, 0, 0))
        + mono(p, q, r, d, pw(0, 0, 0, 0, 0, 1, 0, 0, 0, 1, 0, 0, 0))) by {
        lemma_mul_equals(q.x + q.y, mono(p, q, r, d, pw(0, 0, 0, 0, 0, 0, 1, 0, 0, 0, 0, 0, 0)) + mono(p, q, r, d, pw(0, 0, 0, 0, 0, 1, 0, 0, 0, 0, 0, 0, 0)), r.x + r.y, mono(p, q, r, d, pw(0, 0, 0, 0, 0, 0, 0, 0, 0, 0, 1, 0, 0)) + mono(p, q, r, d, pw(0, 0, 0, 0, 0, 0, 0, 0, 0, 1, 0, 0, 0)));
        lemma_mul_is_distributive_add(mono(p, q, r, d, pw(0, 0, 0, 0, 0, 0, 1, 0, 0, 0, 0, 0, 0)) + mono(p, q, r, d, pw(0, 0, 0, 0, 0, 1, 0, 0, 0, 0, 0, 0, 0)), mono(p, q, r, d, pw(0, 0, 0, 0, 0, 0, 0, 0, 0, 0, 1, 0, 0)), mono(p, q, r, d, pw(0, 0, 0, 0, 0, 0, 0, 0, 0, 1, 0, 0, 0)));
        lemma_mul_is_distributive_add_other_way(mono(p, q, r, d, pw(0, 0, 0, 0, 0, 0, 0, 0, 0, 0, 1, 0, 0)), mono(p, q, r, d, pw(0, 0, 0, 0, 0, 0, 1, 0, 0, 0, 0, 0, 0)), mono(p, q, r, d, pw(0, 0, 0, 0, 0, 1, 0, 0, 0, 0, 0, 0, 0)));
        lemma_mul_is_distributive_add_other_way(mono(p, q, r, d, pw(0, 0, 0, 0, 0, 0, 0, 0, 0, 1, 0, 0, 0)), mono(p, q, r, d, pw(0, 0, 0, 0, 0, 0, 1, 0, 0, 0, 0, 0, 0)), mono(p, q, r, d, pw(0, 0, 0, 0, 0, 1, 0, 0, 0, 0, 0, 0, 0)));
        lemma_term_mul(p, q, r, d, 1, pw(0, 0, 0, 0, 0, 0, 1, 0, 0, 0, 0, 0, 0), 1, pw(0, 0, 0, 0, 0, 0, 0, 0, 0, 0, 1, 0, 0));
        lemma_term_mul(p, q, r, d, 1, pw(0, 0, 0, 0, 0, 0, 1, 0, 0, 0, 0, 0, 0), 1, pw(0, 0, 0, 0, 0, 0, 0, 0, 0, 1, 0, 0, 0));
        lemma_term_mul(p, q, r, d, 1, pw(0, 0, 0, 0, 0, 1, 0, 0, 0, 0, 0, 0, 0), 1, pw(0, 0, 0, 0, 0, 0, 0, 0, 0, 0, 1, 0, 0));
        lemma_term_mul(p, q, r, d, 1, pw(0, 0, 0, 0, 0, 1, 0, 0, 0, 0, 0, 0, 0), 1, pw(0, 0, 0, 0, 0, 0, 0, 0, 0, 1, 0, 0, 0));
    };
    assert(q.y * r.y == mono(p, q, r, d, pw(0, 0, 0, 0, 0, 0, 1, 0, 0, 0, 1, 0, 0))) by {
        lemma_mul_equals(q.y, mono(p, q, r, d, pw(0, 0, 0, 0, 0, 0, 1, 0, 0, 0, 0, 0, 0)), r.y, mono(p, q, r, d, pw(0, 0, 0, 0, 0, 0, 0, 0, 0, 0, 1, 0, 0)));
        lemma_term_mul(p, q, r, d, 1, pw(0, 0, 0, 0, 0, 0, 1, 0, 0, 0, 0, 0, 0), 1, pw(0, 0, 0, 0, 0, 0, 0, 0, 0, 0, 1, 0, 0));
    };
    assert(q.x * r.x == mono(p, q, r, d, pw(0, 0, 0, 0, 0, 1, 0, 0, 0, 1, 0, 0, 0))) by {
        lemma_mul_equals(q.x, mono(p, q, r, d, pw(0, 0, 0, 0, 0, 1, 0, 0, 0, 0, 0, 0, 0)), r.x, mono(p, q, r, d, pw(0, 0, 0, 0, 0, 0, 0, 0, 0, 1, 0, 0, 0)));
        lemma_term_mul(p, q, r, d, 1, pw(0, 0, 0, 0, 0, 1, 0, 0, 0, 0, 0, 0, 0), 1, pw(0, 0, 0, 0, 0, 0, 0, 0, 0, 1, 0, 0, 0));
    };
    assert(e23 == mono(p, q, r, d, pw(0, 0, 0, 0, 0, 0, 1, 0, 0, 1, 0, 0, 0))
        + mono(p, q, r, d, pw(0, 0, 0, 0, 0, 1, 0, 0, 0, 0, 1, 0, 0)));
    assert(h23 == mono(p, q, r, d, pw(0, 0, 0, 0, 0, 0, 1, 0, 0, 0, 1, 0, 0))
        + mono(p, q, r, d, pw(0, 0, 0, 0, 0, 1, 0, 0, 0, 1, 0, 0, 0)));
    assert(e23 * h23 == mono(p, q, r, d, pw(0, 0, 0, 0, 0, 0, 2, 0, 0, 1, 1, 0, 0))
        + mono(p, q, r, d, pw(0, 0, 0, 0, 0, 1, 1, 0, 0, 0, 2, 0, 0))
        + mono(p, q, r, d, pw(0, 0, 0, 0, 0, 1, 1, 0, 0, 2, 0, 0, 0))
        + mono(p, q, r, d, pw(0, 0, 0, 0, 0, 2, 0, 0, 0, 1, 1, 0, 0))) by {
        lemma_mul_equals(e23, mono(p, q, r, d, pw(0, 0, 0, 0, 0, 0, 1, 0, 0, 1, 0, 0, 0)) + mono(p, q, r, d, pw(0, 0, 0, 0, 0, 1, 0, 0, 0, 0, 1, 0, 0)), h23, mono(p, q, r, d, pw(0, 0, 0, 0, 0, 0, 1, 0, 0, 0, 1, 0, 0)) + mono(p, q, r, d, pw(0, 0, 0, 0, 0, 1, 0, 0, 0, 1, 0, 0, 0)));
        lemma_mul_is_distributive_add(mono(p, q, r, d, pw(0, 0, 0, 0, 0, 0, 1, 0, 0, 1, 0, 0, 0)) + mono(p, q, r, d, pw(0, 0, 0, 0, 0, 1, 0, 0, 0, 0, 1, 0, 0)), mono(p, q, r, d, pw(0, 0, 0, 0, 0, 0, 1, 0, 0, 0, 1, 0, 0)), mono(p, q, r, d, pw(0, 0, 0, 0, 0, 1, 0, 0, 0, 1, 0, 0, 0)));
        lemma_mul_is_distributive_add_other_way(mono(p, q, r, d, pw(0, 0, 0, 0, 0, 0, 1, 0, 0, 0, 1, 0, 0)), mono(p, q, r, d, pw(0, 0, 0, 0, 0, 0, 1, 0, 0, 1, 0, 0, 0)), mono(p, q, r, d, pw(0, 0, 0, 0, 0, 1, 0, 0, 0, 0, 1, 0, 0)));
        lemma_mul_is_distributive_add_other_way(mono(p, q, r, d, pw(0, 0, 0, 0, 0, 1, 0, 0, 0, 1, 0, 0, 0)), mono(p, q, r, d, pw(0, 0, 0, 0, 0, 0, 1, 0, 0, 1, 0, 0, 0)), mono(p, q, r, d, pw(0, 0, 0, 0, 0, 1, 0, 0, 0, 0, 1, 0, 0)));
        lemma_term_mul(p, q, r, d, 1, pw(0, 0, 0, 0, 0, 0, 1, 0, 0, 1, 0, 0, 0), 1, pw(0, 0, 0, 0, 0, 0, 1, 0, 0, 0, 1, 0, 0));
        lemma_term_mul(p, q, r, d, 1, pw(0, 0, 0, 0, 0, 0, 1, 0, 0, 1, 0, 0, 0), 1, pw(0, 0, 0, 0, 0, 1, 0, 0, 0, 1, 0, 0, 0));
        lemma_term_mul(p, q, r, d, 1, pw(0, 0, 0, 0, 0, 1, 0, 0, 0, 0, 1, 0, 0), 1, pw(0, 0, 0, 0, 0, 0, 1, 0, 0, 0, 1, 0, 0));
        lemma_term_mul(p, q, r, d, 1, pw(0, 0, 0, 0, 0, 1, 0, 0, 0, 0, 1, 0, 0), 1, pw(0, 0, 0, 0, 0, 1, 0, 0, 0, 1, 0, 0, 0));
    };
    assert(d * p.t * qr_t == mono(p, q, r, d, pw(1, 0, 0, 1, 0, 0, 2, 0, 0, 1, 1, 0, 0))
        + mono(p, q, r, d, pw(1, 0, 0, 1, 0, 1, 1, 0, 0, 0, 2, 0, 0))
        + mono(p, q, r, d, pw(1, 0, 0, 1, 0, 1, 1, 0, 0, 2, 0, 0, 0))
        + mono(p, q, r, d, pw(1, 0, 0, 1, 0, 2, 0, 0, 0, 1, 1, 0, 0))) by {
        let b2 = mono(p, q, r, d, pw(0, 0, 0, 0, 0, 0, 2, 0, 0, 1, 1, 0, 0)) + mono(p, q, r, d, pw(0, 0, 0, 0, 0, 1, 1, 0, 0, 0, 2, 0, 0));
        let b3 = b2 + mono(p, q, r, d, pw(0, 0, 0, 0, 0, 1, 1, 0, 0, 2, 0, 0, 0));
        let b4 = b3 + mono(p, q, r, d, pw(0, 0, 0, 0, 0, 2, 0, 0, 0, 1, 1, 0, 0));
        lemma_mul_equals(d * p.t, mono(p, q, r, d, pw(1, 0, 0, 1, 0, 0, 0, 0, 0, 0, 0, 0, 0)), qr_t, b4);
        lemma_mul_is_distributive_add(mono(p, q, r, d, pw(1, 0, 0, 1, 0, 0, 0, 0, 0, 0, 0, 0, 0)), b3, mono(p, q, r, d, pw(0, 0, 0, 0, 0, 2, 0, 0, 0, 1, 1, 0, 0)));
        lemma_mul_is_distributive_add(mono(p, q, r, d, pw(1, 0, 0, 1, 0, 0, 0, 0, 0, 0, 0, 0, 0)), b2, mono(p, q, r, d, pw(0, 0, 0, 0, 0, 1, 1, 0, 0, 2, 0, 0, 0)));
        lemma_mul_is_distributive_add(mono(p, q, r, d, pw(1, 0, 0, 1, 0, 0, 0, 0, 0, 0, 0, 0, 0)), mono(p, q, r, d, pw(0, 0, 0, 0, 0, 0, 2, 0, 0, 1, 1, 0, 0)), mono(p, q, r, d, pw(0, 0, 0, 0, 0, 1, 1, 0, 0, 0, 2, 0, 0)));
        lemma_term_mul(p, q, r, d, 1, pw(1, 0, 0, 1, 0, 0, 0, 0, 0, 0, 0, 0, 0), 1, pw(0, 0, 0, 0, 0, 0, 2, 0, 0, 1, 1, 0, 0));
        lemma_term_mul(p, q, r, d, 1, pw(1, 0, 0, 1, 0, 0, 0, 0, 0, 0, 0, 0, 0), 1, pw(0, 0, 0, 0, 0, 1, 1, 0, 0, 0, 2, 0, 0));
        lemma_term_mul(p, q, r, d, 1, pw(1, 0, 0, 1, 0, 0, 0, 0, 0, 0, 0, 0, 0), 1, pw(0, 0, 0, 0, 0, 1, 1, 0, 0, 2, 0, 0, 0));
        lemma_term_mul(p, q, r, d, 1, pw(1, 0, 0, 1, 0, 0, 0, 0, 0, 0, 0, 0, 0), 1, pw(0, 0, 0, 0, 0, 2, 0, 0, 0, 1, 1, 0, 0));
    };
    assert(fr == mono(p, q, r, d, pw(0, 0, 0, 0, 1, 0, 0, 0, 2, 0, 0, 0, 2))
        - mono(p, q, r, d, pw(2, 0, 0, 0, 1, 0, 0, 2, 0, 0, 0, 2, 0))
        - mono(p, q, r, d, pw(1, 0, 0, 1, 0, 0, 2, 0, 0, 1, 1, 0, 0))
        - mono(p, q, r, d, pw(1, 0, 0, 1, 0, 1, 1, 0, 0, 0, 2, 0, 0))
        - mono(p, q, r, d, pw(1, 0, 0, 1, 0, 1, 1, 0, 0, 2, 0, 0, 0))
        - mono(p, q, r, d, pw(1, 0, 0, 1, 0, 2, 0, 0, 0, 1, 1, 0, 0)));
    assert(hl * fr == mono(p, q, r, d, pw(3, 0, 1, 1, 1, 1, 0, 3, 0, 1, 0, 2, 0))
        + mono(p, q, r, d, pw(3, 1, 0, 1, 1, 0, 1, 3, 0, 1, 0, 2, 0))
        + mono(p, q, r, d, pw(2, 0, 1, 2, 0, 2, 1, 1, 0, 3, 0, 0, 0))
        + mono(p, q, r, d, pw(2, 0, 1, 2, 0, 3, 0, 1, 0, 2, 1, 0, 0))
        + mono(p, q, r, d, pw(2, 1, 0, 2, 0, 0, 3, 1, 0, 2, 1, 0, 0))
        + mono(p, q, r, d, pw(2, 1, 0, 2, 0, 1, 2, 1, 0, 3, 0, 0, 0))
        + mono(p, q, r, d, pw(1, 0, 1, 1, 1, 0, 1, 1, 2, 0, 1, 0, 2))
        + mono(p, q, r, d, pw(1, 1, 0, 1, 1, 1, 0, 1, 2, 0, 1, 0, 2))
        + mono(p, q, r, d, pw(0, 0, 1, 0, 2, 0, 1, 0, 3, 0, 1, 0, 2))
        + mono(p, q, r, d, pw(0, 0, 1, 0, 2, 1, 0, 0, 3, 1, 0, 0, 2))
        + mono(p, q, r, d, pw(0, 1, 0, 0, 2, 0, 1, 0, 3, 1, 0, 0, 2))
        + mono(p, q, r, d, pw(0, 1, 0, 0, 2, 1, 0, 0, 3, 0, 1, 0, 2))
        - mono(p, q, r, d, pw(3, 0, 1, 1, 1, 0, 1, 3, 0, 0, 1, 2, 0))
        - mono(p, q, r, d, pw(3, 1, 0, 1, 1, 1, 0, 3, 0, 0, 1, 2, 0))
        - mono(p, q, r, d, pw(2, 0, 1, 0, 2, 0, 1, 2, 1, 0, 1, 2, 0))
        - mono(p, q, r, d, pw(2, 0, 1, 0, 2, 1, 0, 2, 1, 1, 0, 2, 0))
        - mono(p, q, r, d, pw(2, 0, 1, 2, 0, 0, 3, 1, 0, 1, 2, 0, 0))
        - mono(p, q, r, d, pw(2, 0, 1, 2, 0, 1, 2, 1, 0, 0, 3, 0, 0))
        - mono(p, q, r, d, pw(2, 1, 0, 0, 2, 0, 1, 2, 1, 1, 0, 2, 0))
        - mono(p, q, r, d, pw(2, 1, 0, 0, 2, 1, 0, 2, 1, 0, 1, 2, 0))
        - mono(p, q, r, d, pw(2, 1, 0, 2, 0, 2, 1, 1, 0, 0, 3, 0, 0))
        - mono(p, q, r, d, pw(2, 1, 0, 2, 0, 3, 0, 1, 0, 1, 2, 0, 0))
        - mono(p, q, r, d, pw(1, 0, 1, 1, 1, 0, 3, 0, 1, 1, 2, 0, 0))
        - mono(p, q, r, d, pw(1, 0, 1, 1, 1, 1, 0, 1, 2, 1, 0, 0, 2))
        - mono(p, q, r, d, pw(1, 0, 1, 1, 1, 1, 2, 0, 1, 0, 3, 0, 0))
        - 2 * mono(p, q, r, d, pw(1, 0, 1, 1, 1, 1, 2, 0, 1, 2, 1, 0, 0))
        - 2 * mono(p, q, r, d, pw(1, 0, 1, 1, 1, 2, 1, 0, 1, 1, 2, 0, 0))
        - mono(p, q, r, d, pw(1, 0, 1, 1, 1, 2, 1, 0, 1, 3, 0, 0, 0))
        - mono(p, q, r, d, pw(1, 0, 1, 1, 1, 3, 0, 0, 1, 2, 1, 0, 0))
        - mono(p, q, r, d, pw(1, 1, 0, 1, 1, 0, 1, 1, 2, 1, 0, 0, 2))
        - mono(p, q, r, d, pw(1, 1, 0, 1, 1, 0, 3, 0, 1, 2, 1, 0, 0))
        - 2 * mono(p, q, r, d, pw(1, 1, 0, 1, 1, 1, 2, 0, 1, 1, 2, 0, 0))
        - mono(p, q, r, d, pw(1, 1, 0, 1, 1, 1, 2, 0, 1, 3, 0, 0, 0))
        - mono(p, q, r, d, pw(1, 1, 0, 1, 1, 2, 1, 0, 1, 0, 3, 0, 0))
        - 2 * mono(p, q, r, d, pw(1, 1, 0, 1, 1, 2, 1, 0, 1, 2, 1, 0, 0))
        - mono(p, q, r, d, pw(1, 1, 0, 1, 1, 3, 0, 0, 1, 1, 2, 0, 0))) by {
        let a2 = mono(p, q, r, d, pw(1, 0, 1, 1, 0, 0, 1, 1, 0, 0, 1, 0, 0)) + mono(p, q, r, d, pw(1, 1, 0, 1, 0, 1, 0, 1, 0, 0, 1, 0, 0));
        let a3 = a2 + mono(p, q, r, d, pw(0, 0, 1, 0, 1, 0, 1, 0, 1, 0, 1, 0, 0));
        let a4 = a3 + mono(p, q, r, d, pw(0, 0, 1, 0, 1, 1, 0, 0, 1, 1, 0, 0, 0));
        let a5 = a4 + mono(p, q, r, d, pw(0, 1, 0, 0, 1, 0, 1, 0, 1, 1, 0, 0, 0));
        let a6 = a5 + mono(p, q, r, d, pw(0, 1, 0, 0, 1, 1, 0, 0, 1, 0, 1, 0, 0));
        let a7 = a6 - mono(p, q, r, d, pw(1, 0, 1, 1, 0, 1, 0, 1, 0, 1, 0, 0, 0));
        let a8 = a7 - mono(p, q, r, d, pw(1, 1, 0, 1, 0, 0, 1, 1, 0, 1, 0, 0, 0));
        let b2 = mono(p, q, r, d, pw(0, 0, 0, 0, 1, 0, 0, 0, 2, 0, 0, 0, 2)) - mono(p, q, r, d, pw(2, 0, 0, 0, 1, 0, 0, 2, 0, 0, 0, 2, 0));
        let b3 = b2 - mono(p, q, r, d, pw(1, 0, 0, 1, 0, 0, 2, 0, 0, 1, 1, 0, 0));
        let b4 = b3 - mono(p, q, r, d, pw(1, 0, 0, 1, 0, 1, 1, 0, 0, 0, 2, 0, 0));
        let b5 = b4 - mono(p, q, r, d, pw(1, 0, 0, 1, 0, 1, 1, 0, 0, 2, 0, 0, 0));
        let b6 = b5 - mono(p, q, r, d, pw(1, 0, 0, 1, 0, 2, 0, 0, 0, 1, 1, 0, 0));
        lemma_mul_equals(hl, a8, fr, b6);
        lemma_mul_is_distributive_sub(a8, b5, mono(p, q, r, d, pw(1, 0, 0, 1, 0, 2, 0, 0, 0, 1, 1, 0, 0)));
        lemma_mul_is_distributive_sub(a8, b4, mono(p, q, r, d, pw(1, 0, 0, 1, 0, 1, 1, 0, 0, 2, 0, 0, 0)));
        lemma_mul_is_distributive_sub(a8, b3, mono(p, q, r, d, pw(1, 0, 0, 1, 0, 1, 1, 0, 0, 0, 2, 0, 0)));
        lemma_mul_is_distributive_sub(a8, b2, mono(p, q, r, d, pw(1, 0, 0, 1, 0, 0, 2, 0, 0, 1, 1, 0, 0)));
        lemma_mul_is_distributive_sub(a8, mono(p, q, r, d, pw(0, 0, 0, 0, 1, 0, 0, 0, 2, 0, 0, 0, 2)), mono(p, q, r, d, pw(2, 0, 0, 0, 1, 0, 0, 2, 0, 0, 0, 2, 0)));
        lemma_mul_is_distributive_sub_other_way(mono(p, q, r, d, pw(0, 0, 0, 0, 1, 0, 0, 0, 2, 0, 0, 0, 2)), a7, mono(p, q, r, d, pw(1, 1, 0, 1, 0, 0, 1, 1, 0, 1, 0, 0, 0)));
        lemma_mul_is_distributive_sub_other_way(mono(p, q, r, d, pw(0, 0, 0, 0, 1, 0, 0, 0, 2, 0, 0, 0, 2)), a6, mono(p, q, r, d, pw(1, 0, 1, 1, 0, 1, 0, 1, 0, 1, 0, 0, 0)));
        lemma_mul_is_distributive_add_other_way(mono(p, q, r, d, pw(0, 0, 0, 0, 1, 0, 0, 0, 2, 0, 0, 0, 2)), a5, mono(p, q, r, d, pw(0, 1, 0, 0, 1, 1, 0, 0, 1, 0, 1, 0, 0)));
        lemma_mul_is_distributive_add_other_way(mono(p, q, r, d, pw(0, 0, 0, 0, 1, 0, 0, 0, 2, 0, 0, 0, 2)), a4, mono(p, q, r, d, pw(0, 1, 0, 0, 1, 0, 1, 0, 1, 1, 0, 0, 0)));
        lemma_mul_is_distributive_add_other_way(mono(p, q, r, d, pw(0, 0, 0, 0, 1, 0, 0, 0, 2, 0, 0, 0, 2)), a3, mono(p, q, r, d, pw(0, 0, 1, 0, 1, 1, 0, 0, 1, 1, 0, 0, 0)));
        lemma_mul_is_distributive_add_other_way(mono(p, q, r, d, pw(0, 0, 0, 0, 1, 0, 0, 0, 2, 0, 0, 0, 2)), a2, mono(p, q, r, d, pw(0, 0, 1, 0, 1, 0, 1, 0, 1, 0, 1, 0, 0)));
        lemma_mul_is_distributive_add_other_way(mono(p, q, r, d, pw(0, 0, 0, 0, 1, 0, 0, 0, 2, 0, 0, 0, 2)), mono(p, q, r, d, pw(1, 0, 1, 1, 0, 0, 1, 1, 0, 0, 1, 0, 0)), mono(p, q, r, d, pw(1, 1, 0, 1, 0, 1, 0, 1, 0, 0, 1, 0, 0)));
        lemma_mul_is_distributive_sub_other_way(mono(p, q, r, d, pw(2, 0, 0, 0, 1, 0, 0, 2, 0, 0, 0, 2, 0)), a7, mono(p, q, r, d, pw(1, 1, 0, 1, 0, 0, 1, 1, 0, 1, 0, 0, 0)));
        lemma_mul_is_distributive_sub_other_way(mono(p, q, r, d, pw(2, 0, 0, 0, 1, 0, 0, 2, 0, 0, 0, 2, 0)), a6, mono(p, q, r, d, pw(1, 0, 1, 1, 0, 1, 0, 1, 0, 1, 0, 0, 0)));
        lemma_mul_is_distributive_add_other_way(mono(p, q, r, d, pw(2, 0, 0, 0, 1, 0, 0, 2, 0, 0, 0, 2, 0)), a5, mono(p, q, r, d, pw(0, 1, 0, 0, 1, 1, 0, 0, 1, 0, 1, 0, 0)));
        lemma_mul_is_distributive_add_other_way(mono(p, q, r, d, pw(2, 0, 0, 0, 1, 0, 0, 2, 0, 0, 0, 2, 0)), a4, mono(p, q, r, d, pw(0, 1, 0, 0, 1, 0, 1, 0, 1, 1, 0, 0, 0)));
        lemma_mul_is_distributive_add_other_way(mono(p, q, r, d, pw(2, 0, 0, 0, 1, 0, 0, 2, 0, 0, 0, 2, 0)), a3, mono(p, q, r, d, pw(0, 0, 1, 0, 1, 1, 0, 0, 1, 1, 0, 0, 0)));
        lemma_mul_is_distributive_add_other_way(mono(p, q, r, d, pw(2, 0, 0, 0, 1, 0, 0, 2, 0, 0, 0, 2, 0)), a2, mono(p, q, r, d, pw(0, 0, 1, 0, 1, 0, 1, 0, 1, 0, 1, 0, 0)));
        lemma_mul_is_distributive_add_other_way(mono(p, q, r, d, pw(2, 0, 0, 0, 1, 0, 0, 2, 0, 0, 0, 2, 0)), mono(p, q, r, d, pw(1, 0, 1, 1, 0, 0, 1, 1, 0, 0, 1, 0, 0)), mono(p, q, r, d, pw(1, 1, 0, 1, 0, 1, 0, 1, 0, 0, 1, 0, 0)));
        lemma_mul_is_distributive_sub_other_way(mono(p, q, r, d, pw(1, 0, 0, 1, 0, 0, 2, 0, 0, 1, 1, 0, 0)), a7, mono(p, q, r, d, pw(1, 1, 0, 1, 0, 0, 1, 1, 0, 1, 0, 0, 0)));
        lemma_mul_is_distributive_sub_other_way(mono(p, q, r, d, pw(1, 0, 0, 1, 0, 0, 2, 0, 0, 1, 1, 0, 0)), a6, mono(p, q, r, d, pw(1, 0, 1, 1, 0, 1, 0, 1, 0, 1, 0, 0, 0)));
        lemma_mul_is_distributive_add_other_way(mono(p, q, r, d, pw(1, 0, 0, 1, 0, 0, 2, 0, 0, 1, 1, 0, 0)), a5, mono(p, q, r, d, pw(0, 1, 0, 0, 1, 1, 0, 0, 1, 0, 1, 0, 0)));
        lemma_mul_is_distributive_add_other_way(mono(p, q, r, d, pw(1, 0, 0, 1, 0, 0, 2, 0, 0, 1, 1, 0, 0)), a4, mono(p, q, r, d, pw(0, 1, 0, 0, 1, 0, 1, 0, 1, 1, 0, 0, 0)));
        lemma_mul_is_distributive_add_other_way(mono(p, q, r, d, pw(1, 0, 0, 1, 0, 0, 2, 0, 0, 1, 1, 0, 0)), a3, mono(p, q, r, d, pw(0, 0, 1, 0, 1, 1, 0, 0, 1, 1, 0, 0, 0)));
        lemma_mul_is_distributive_add_other_way(mono(p, q, r, d, pw(1, 0, 0, 1, 0, 0, 2, 0, 0, 1, 1, 0, 0)), a2, mono(p, q, r, d, pw(0, 0, 1, 0, 1, 0, 1, 0, 1, 0, 1, 0, 0)));
        lemma_mul_is_distributive_add_other_way(mono(p, q, r, d, pw(1, 0, 0, 1, 0, 0, 2, 0, 0, 1, 1, 0, 0)), mono(p, q, r, d, pw(1, 0, 1, 1, 0, 0, 1, 1, 0, 0, 1, 0, 0)), mono(p, q, r, d, pw(1, 1, 0, 1, 0, 1, 0, 1, 0, 0, 1, 0, 0)));
        lemma_mul_is_distributive_sub_other_way(mono(p, q, r, d, pw(1, 0, 0, 1, 0, 1, 1, 0, 0, 0, 2, 0, 0)), a7, mono(p, q, r, d, pw(1, 1, 0, 1, 0, 0, 1, 1, 0, 1, 0, 0, 0)));
        lemma_mul_is_distributive_sub_other_way(mono(p, q, r, d, pw(1, 0, 0, 1, 0, 1, 1, 0, 0, 0, 2, 0, 0)), a6, mono(p, q, r, d, pw(1, 0, 1, 1, 0, 1, 0, 1, 0, 1, 0, 0, 0)));
        lemma_mul_is_distributive_add_other_way(mono(p, q, r, d, pw(1, 0, 0, 1, 0, 1, 1, 0, 0, 0, 2, 0, 0)), a5, mono(p, q, r, d, pw(0, 1, 0, 0, 1, 1, 0, 0, 1, 0, 1, 0, 0)));
        lemma_mul_is_distributive_add_other_way(mono(p, q, r, d, pw(1, 0, 0, 1, 0, 1, 1, 0, 0, 0, 2, 0, 0)), a4, mono(p, q, r, d, pw(0, 1, 0, 0, 1, 0, 1, 0, 1, 1, 0, 0, 0)));
        lemma_mul_is_distributive_add_other_way(mono(p, q, r, d, pw(1, 0, 0, 1, 0, 1, 1, 0, 0, 0, 2, 0, 0)), a3, mono(p, q, r, d, pw(0, 0, 1, 0, 1, 1, 0, 0, 1, 1, 0, 0, 0)));
        lemma_mul_is_distributive_add_other_way(mono(p, q, r, d, pw(1, 0, 0, 1, 0, 1, 1, 0, 0, 0, 2, 0, 0)), a2, mono(p, q, r, d, pw(0, 0, 1, 0, 1, 0, 1, 0, 1, 0, 1, 0, 0)));
        lemma_mul_is_distributive_add_other_way(mono(p, q, r, d, pw(1, 0, 0, 1, 0, 1, 1, 0, 0, 0, 2, 0, 0)), mono(p, q, r, d, pw(1, 0, 1, 1, 0, 0, 1, 1, 0, 0, 1, 0, 0)), mono(p, q, r, d, pw(1, 1, 0, 1, 0, 1, 0, 1, 0, 0, 1, 0, 0)));
        lemma_mul_is_distributive_sub_other_way(mono(p, q, r, d, pw(1, 0, 0, 1, 0, 1, 1, 0, 0, 2, 0, 0, 0)), a7, mono(p, q, r, d, pw(1, 1, 0, 1, 0, 0, 1, 1, 0, 1, 0, 0, 0)));
        lemma_mul_is_distributive_sub_other_way(mono(p, q, r, d, pw(1, 0, 0, 1, 0, 1, 1, 0, 0, 2, 0, 0, 0)), a6, mono(p, q, r, d, pw(1, 0, 1, 1, 0, 1, 0, 1, 0, 1, 0, 0, 0)));
        lemma_mul_is_distributive_add_other_way(mono(p, q, r, d, pw(1, 0, 0, 1, 0, 1, 1, 0, 0, 2, 0, 0, 0)), a5, mono(p, q, r, d, pw(0, 1, 0, 0, 1, 1, 0, 0, 1, 0, 1, 0, 0)));
        lemma_mul_is_distributive_add_other_way(mono(p, q, r, d, pw(1, 0, 0, 1, 0, 1, 1, 0, 0, 2, 0, 0, 0)), a4, mono(p, q, r, d, pw(0, 1, 0, 0, 1, 0, 1, 0, 1, 1, 0, 0, 0)));
        lemma_mul_is_distributive_add_other_way(mono(p, q, r, d, pw(1, 0, 0, 1, 0, 1, 1, 0, 0, 2, 0, 0, 0)), a3, mono(p, q, r, d, pw(0, 0, 1, 0, 1, 1, 0, 0, 1, 1, 0, 0, 0)));
        lemma_mul_is_distributive_add_other_way(mono(p, q, r, d, pw(1, 0, 0, 1, 0, 1, 1, 0, 0, 2, 0, 0, 0)), a2, mono(p, q, r, d, pw(0, 0, 1, 0, 1, 0, 1, 0, 1, 0, 1, 0, 0)));
        lemma_mul_is_distributive_add_other_way(mono(p, q, r, d, pw(1, 0, 0, 1, 0, 1, 1, 0, 0, 2, 0, 0, 0)), mono(p, q, r, d, pw(1, 0, 1, 1, 0, 0, 1, 1, 0, 0, 1, 0, 0)), mono(p, q, r, d, pw(1, 1, 0, 1, 0, 1, 0, 1, 0, 0, 1, 0, 0)));
        lemma_mul_is_distributive_sub_other_way(mono(p, q, r, d, pw(1, 0, 0, 1, 0, 2, 0, 0, 0, 1, 1, 0, 0)), a7, mono(p, q, r, d, pw(1, 1, 0, 1, 0, 0, 1, 1, 0, 1, 0, 0, 0)));
        lemma_mul_is_distributive_sub_other_way(mono(p, q, r, d, pw(1, 0, 0, 1, 0, 2, 0, 0, 0, 1, 1, 0, 0)), a6, mono(p, q, r, d, pw(1, 0, 1, 1, 0, 1, 0, 1, 0, 1, 0, 0, 0)));
        lemma_mul_is_distributive_add_other_way(mono(p, q, r, d, pw(1, 0, 0, 1, 0, 2, 0, 0, 0, 1, 1, 0, 0)), a5, mono(p, q, r, d, pw(0, 1, 0, 0, 1, 1, 0, 0, 1, 0, 1, 0, 0)));
        lemma_mul_is_distributive_add_other_way(mono(p, q, r, d, pw(1, 0, 0, 1, 0, 2, 0, 0, 0, 1, 1, 0, 0)), a4, mono(p, q, r, d, pw(0, 1, 0, 0, 1, 0, 1, 0, 1, 1, 0, 0, 0)));
        lemma_mul_is_distributive_add_other_way(mono(p, q, r, d, pw(1, 0, 0, 1, 0, 2, 0, 0, 0, 1, 1, 0, 0)), a3, mono(p, q, r, d, pw(0, 0, 1, 0, 1, 1, 0, 0, 1, 1, 0, 0, 0)));
        lemma_mul_is_distributive_add_other_way(mono(p, q, r, d, pw(1, 0, 0, 1, 0, 2, 0, 0, 0, 1, 1, 0, 0)), a2, mono(p, q, r, d, pw(0, 0, 1, 0, 1, 0, 1, 0, 1, 0, 1, 0, 0)));
        lemma_mul_is_distributive_add_other_way(mono(p, q, r, d, pw(1, 0, 0, 1, 0, 2, 0, 0, 0, 1, 1, 0, 0)), mono(p, q, r, d, pw(1, 0, 1, 1, 0, 0, 1, 1, 0, 0, 1, 0, 0)), mono(p, q, r, d, pw(1, 1, 0, 1, 0, 1, 0, 1, 0, 0, 1, 0, 0)));
        lemma_term_mul(p, q, r, d, 1, pw(1, 0, 1, 1, 0, 0, 1, 1, 0, 0, 1, 0, 0), 1, pw(0, 0, 0, 0, 1, 0, 0, 0, 2, 0, 0, 0, 2));
        lemma_term_mul(p, q, r, d, 1, pw(1, 0, 1, 1, 0, 0, 1, 1, 0, 0, 1, 0, 0), 1, pw(2, 0, 0, 0, 1, 0, 0, 2, 0, 0, 0, 2, 0));
        lemma_term_mul(p, q, r, d, 1, pw(1, 0, 1, 1, 0, 0, 1, 1, 0, 0, 1, 0, 0), 1, pw(1, 0, 0, 1, 0, 0, 2, 0, 0, 1, 1, 0, 0));
        lemma_term_mul(p, q, r, d, 1, pw(1, 0, 1, 1, 0, 0, 1, 1, 0, 0, 1, 0, 0), 1, pw(1, 0, 0, 1, 0, 1, 1, 0, 0, 0, 2, 0, 0));
        lemma_term_mul(p, q, r, d, 1, pw(1, 0, 1, 1, 0, 0, 1, 1, 0, 0, 1, 0, 0), 1, pw(1, 0, 0, 1, 0, 1, 1, 0, 0, 2, 0, 0, 0));
        lemma_term_mul(p, q, r, d, 1, pw(1, 0, 1, 1, 0, 0, 1, 1, 0, 0, 1, 0, 0), 1, pw(1, 0, 0, 1, 0, 2, 0, 0, 0, 1, 1, 0, 0));
        lemma_term_mul(p, q, r, d, 1, pw(1, 1, 0, 1, 0, 1, 0, 1, 0, 0, 1, 0, 0), 1, pw(0, 0, 0, 0, 1, 0, 0, 0, 2, 0, 0, 0, 2));
        lemma_term_mul(p, q, r, d, 1, pw(1, 1, 0, 1, 0, 1, 0, 1, 0, 0, 1, 0, 0), 1, pw(2, 0, 0, 0, 1, 0, 0, 2, 0, 0, 0, 2, 0));
        lemma_term_mul(p, q, r, d, 1, pw(1, 1, 0, 1, 0, 1, 0, 1, 0, 0, 1, 0, 0), 1, pw(1, 0, 0, 1, 0, 0, 2, 0, 0, 1, 1, 0, 0));
        lemma_term_mul(p, q, r, d, 1, pw(1, 1, 0, 1, 0, 1, 0, 1, 0, 0, 1, 0, 0), 1, pw(1, 0, 0, 1, 0, 1, 1, 0, 0, 0, 2, 0, 0));
        lemma_term_mul(p, q, r, d, 1, pw(1, 1, 0, 1, 0, 1, 0, 1, 0, 0, 1, 0, 0), 1, pw(1, 0, 0, 1, 0, 1, 1, 0, 0, 2, 0, 0, 0));
        lemma_term_mul(p, q, r, d, 1, pw(1, 1, 0, 1, 0, 1, 0, 1, 0, 0, 1, 0, 0), 1, pw(1, 0, 0, 1, 0, 2, 0, 0, 0, 1, 1, 0, 0));
        lemma_term_mul(p, q, r, d, 1, pw(0, 0, 1, 0, 1, 0, 1, 0, 1, 0, 1, 0, 0), 1, pw(0, 0, 0, 0, 1, 0, 0, 0, 2, 0, 0, 0, 2));
        lemma_term_mul(p, q, r, d, 1, pw(0, 0, 1, 0, 1, 0, 1, 0, 1, 0, 1, 0, 0), 1, pw(2, 0, 0, 0, 1, 0, 0, 2, 0, 0, 0, 2, 0));
        lemma_term_mul(p, q, r, d, 1, pw(0, 0, 1, 0, 1, 0, 1, 0, 1, 0, 1, 0, 0), 1, pw(1, 0, 0, 1, 0, 0, 2, 0, 0, 1, 1, 0, 0));
        lemma_term_mul(p, q, r, d, 1, pw(0, 0, 1, 0, 1, 0, 1, 0, 1, 0, 1, 0, 0), 1, pw(1, 0, 0, 1, 0, 1, 1, 0, 0, 0, 2, 0, 0));
        lemma_term_mul(p, q, r, d, 1, pw(0, 0, 1, 0, 1, 0, 1, 0, 1, 0, 1, 0, 0), 1, pw(1, 0, 0, 1, 0, 1, 1, 0, 0, 2, 0, 0, 0));
        lemma_term_mul(p, q, r, d, 1, pw(0, 0, 1, 0, 1, 0, 1, 0, 1, 0, 1, 0, 0), 1, pw(1, 0, 0, 1, 0, 2, 0, 0, 0, 1, 1, 0, 0));
        lemma_term_mul(p, q, r, d, 1, pw(0, 0, 1, 0, 1, 1, 0, 0, 1, 1, 0, 0, 0), 1, pw(0, 0, 0, 0, 1, 0, 0, 0, 2, 0, 0, 0, 2));
        lemma_term_mul(p, q, r, d, 1, pw(0, 0, 1, 0, 1, 1, 0, 0, 1, 1, 0, 0, 0), 1, pw(2, 0, 0, 0, 1, 0, 0, 2, 0, 0, 0, 2, 0));
        lemma_term_mul(p, q, r, d, 1, pw(0, 0, 1, 0, 1, 1, 0, 0, 1, 1, 0, 0, 0), 1, pw(1, 0, 0, 1, 0, 0, 2, 0, 0, 1, 1, 0, 0));
        lemma_term_mul(p, q, r, d, 1, pw(0, 0, 1, 0, 1, 1, 0, 0, 1, 1, 0, 0, 0), 1, pw(1, 0, 0, 1, 0, 1, 1, 0, 0, 0, 2, 0, 0));
        lemma_term_mul(p, q, r, d, 1, pw(0, 0, 1, 0, 1, 1, 0, 0, 1, 1, 0, 0, 0), 1, pw(1, 0, 0, 1, 0, 1, 1, 0, 0, 2, 0, 0, 0));
        lemma_term_mul(p, q, r, d, 1, pw(0, 0, 1, 0, 1, 1, 0, 0, 1, 1, 0, 0, 0), 1, pw(1, 0, 0, 1, 0, 2, 0, 0, 0, 1, 1, 0, 0));
        lemma_term_mul(p, q, r, d, 1, pw(0, 1, 0, 0, 1, 0, 1, 0, 1, 1, 0, 0, 0), 1, pw(0, 0, 0, 0, 1, 0, 0, 0, 2, 0, 0, 0, 2));
        lemma_term_mul(p, q, r, d, 1, pw(0, 1, 0, 0, 1, 0, 1, 0, 1, 1, 0, 0, 0), 1, pw(2, 0, 0, 0, 1, 0, 0, 2, 0, 0, 0, 2, 0));
        lemma_term_mul(p, q, r, d, 1, pw(0, 1, 0, 0, 1, 0, 1, 0, 1, 1, 0, 0, 0), 1, pw(1, 0, 0, 1, 0, 0, 2, 0, 0, 1, 1, 0, 0));
        lemma_term_mul(p, q, r, d, 1, pw(0, 1, 0, 0, 1, 0, 1, 0, 1, 1, 0, 0, 0), 1, pw(1, 0, 0, 1, 0, 1, 1, 0, 0, 0, 2, 0, 0));
        lemma_term_mul(p, q, r, d, 1, pw(0, 1, 0, 0, 1, 0, 1, 0, 1, 1, 0, 0, 0), 1, pw(1, 0, 0, 1, 0, 1, 1, 0, 0, 2, 0, 0, 0));
        lemma_term_mul(p, q, r, d, 1, pw(0, 1, 0, 0, 1, 0, 1, 0, 1, 1, 0, 0, 0), 1, pw(1, 0, 0, 1, 0, 2, 0, 0, 0, 1, 1, 0, 0));
        lemma_term_mul(p, q, r, d, 1, pw(0, 1, 0, 0, 1, 1, 0, 0, 1, 0, 1, 0, 0), 1, pw(0, 0, 0, 0, 1, 0, 0, 0, 2, 0, 0, 0, 2));
        lemma_term_mul(p, q, r, d, 1, pw(0, 1, 0, 0, 1, 1, 0, 0, 1, 0, 1, 0, 0), 1, pw(2, 0, 0, 0, 1, 0, 0, 2, 0, 0, 0, 2, 0));
        lemma_term_mul(p, q, r, d, 1, pw(0, 1, 0, 0, 1, 1, 0, 0, 1, 0, 1, 0, 0), 1, pw(1, 0, 0, 1, 0, 0, 2, 0, 0, 1, 1, 0, 0));
        lemma_term_mul(p, q, r, d, 1, pw(0, 1, 0, 0, 1, 1, 0, 0, 1, 0, 1, 0, 0), 1, pw(1, 0, 0, 1, 0, 1, 1, 0, 0, 0, 2, 0, 0));
        lemma_term_mul(p, q, r, d, 1, pw(0, 1, 0, 0, 1, 1, 0, 0, 1, 0, 1, 0, 0), 1, pw(1, 0, 0, 1, 0, 1, 1, 0, 0, 2, 0, 0, 0));
        lemma_term_mul(p, q, r, d, 1, pw(0, 1, 0, 0, 1, 1, 0, 0, 1, 0, 1, 0, 0), 1, pw(1, 0, 0, 1, 0, 2, 0, 0, 0, 1, 1, 0, 0));
        lemma_term_mul(p, q, r, d, 1, pw(1, 0, 1, 1, 0, 1, 0, 1, 0, 1, 0, 0, 0), 1, pw(0, 0, 0, 0, 1, 0, 0, 0, 2, 0, 0, 0, 2));
        lemma_term_mul(p, q, r, d, 1, pw(1, 0, 1, 1, 0, 1, 0, 1, 0, 1, 0, 0, 0), 1, pw(2, 0, 0, 0, 1, 0, 0, 2, 0, 0, 0, 2, 0));
        lemma_term_mul(p, q, r, d, 1, pw(1, 0, 1, 1, 0, 1, 0, 1, 0, 1, 0, 0, 0), 1, pw(1, 0, 0, 1, 0, 0, 2, 0, 0, 1, 1, 0, 0));
        lemma_term_mul(p, q, r, d, 1, pw(1, 0, 1, 1, 0, 1, 0, 1, 0, 1, 0, 0, 0), 1, pw(1, 0, 0, 1, 0, 1, 1, 0, 0, 0, 2, 0, 0));
        lemma_term_mul(p, q, r, d, 1, pw(1, 0, 1, 1, 0, 1, 0, 1, 0, 1, 0, 0, 0), 1, pw(1, 0, 0, 1, 0, 1, 1, 0, 0, 2, 0, 0, 0));
        lemma_term_mul(p, q, r, d, 1, pw(1, 0, 1, 1, 0, 1, 0, 1, 0, 1, 0, 0, 0), 1, pw(1, 0, 0, 1, 0, 2, 0, 0, 0, 1, 1, 0, 0));
        lemma_term_mul(p, q, r, d, 1, pw(1, 1, 0, 1, 0, 0, 1, 1, 0, 1, 0, 0, 0), 1, pw(0, 0, 0, 0, 1, 0, 0, 0, 2, 0, 0, 0, 2));
        lemma_term_mul(p, q, r, d, 1, pw(1, 1, 0, 1, 0, 0, 1, 1, 0, 1, 0, 0, 0), 1, pw(2, 0, 0, 0, 1, 0, 0, 2, 0, 0, 0, 2, 0));
        lemma_term_mul(p, q, r, d, 1, pw(1, 1, 0, 1, 0, 0, 1, 1, 0, 1, 0, 0, 0), 1, pw(1, 0, 0, 1, 0, 0, 2, 0, 0, 1, 1, 0, 0));
        lemma_term_mul(p, q, r, d, 1, pw(1, 1, 0, 1, 0, 0, 1, 1, 0, 1, 0, 0, 0), 1, pw(1, 0, 0, 1, 0, 1, 1, 0, 0, 0, 2, 0, 0));
        lemma_term_mul(p, q, r, d, 1, pw(1, 1, 0, 1, 0, 0, 1, 1, 0, 1, 0, 0, 0), 1, pw(1, 0, 0, 1, 0, 1, 1, 0, 0, 2, 0, 0, 0));
        lemma_term_mul(p, q, r, d, 1, pw(1, 1, 0, 1, 0, 0, 1, 1, 0, 1, 0, 0, 0), 1, pw(1, 0, 0, 1, 0, 2, 0, 0, 0, 1, 1, 0, 0));
    };
}

/// The right side of the law for the ordinate, multiplied out.
proof fn lemma_assoc_y_right(p: Coords, q: Coords, r: Coords, d: int)
    ensures
        raw_h(p, raw_add(q, r, d)) * raw_f(raw_add(p, q, d), r, d) == mono(p, q, r, d, pw(3, 1, 0, 2, 0, 0, 1, 3, 0, 1, 0, 1, 1))
            + mono(p, q, r, d, pw(3, 1, 0, 2, 0, 1, 0, 3, 0, 0, 1, 1, 1))
            + mono(p, q, r, d, pw(2, 2, 1, 0, 0, 0, 3, 1, 0, 1, 0, 2, 0))
            + mono(p, q, r, d, pw(2, 2, 1, 0, 0, 3, 0, 1, 0, 0, 1, 2, 0))
            + mono(p, q, r, d, pw(2, 3, 0, 0, 0, 1, 2, 1, 0, 1, 0, 2, 0))
            + mono(p, q, r, d, pw(2, 3, 0, 0, 0, 2, 1, 1, 0, 0, 1, 2, 0))
            + mono(p, q, r, d, pw(1, 0, 1, 0, 2, 0, 1, 1, 2, 0, 1, 1, 1))
            + mono(p, q, r, d, pw(1, 0, 1, 0, 2, 1, 0, 1, 2, 1, 0, 1, 1))
            + mono(p, q, r, d, pw(0, 0, 1, 0, 2, 0, 1, 0, 3, 0, 1, 0, 2))
            + mono(p, q, r, d, pw(0, 0, 1, 0, 2, 1, 0, 0, 3, 1, 0, 0, 2))
            + mono(p, q, r, d, pw(0, 1, 0, 0, 2, 0, 1, 0, 3, 1, 0, 0, 2))
            + mono(p, q, r, d, pw(0, 1, 0, 0, 2, 1, 0, 0, 3, 0, 1, 0, 2))
            - mono(p, q, r, d, pw(3, 0, 1, 2, 0, 0, 1, 3, 0, 0, 1, 1, 1))
            - mono(p, q, r, d, pw(3, 0, 1, 2, 0, 1, 0, 3, 0, 1, 0, 1, 1))
            - mono(p, q, r, d, pw(2, 0, 1, 2, 0, 0, 1, 2, 1, 0, 1, 0, 2))
            - mono(p, q, r, d, pw(2, 0, 1, 2, 0, 1, 0, 2, 1, 1, 0, 0, 2))
            - mono(p, q, r, d, pw(2, 0, 3, 0, 0, 1, 2, 1, 0, 0, 1, 2, 0))
            - mono(p, q, r, d, pw(2, 0, 3, 0, 0, 2, 1, 1, 0, 1, 0, 2, 0))
            - mono(p, q, r, d, pw(2, 1, 0, 2, 0, 0, 1, 2, 1, 1, 0, 0, 2))
            - mono(p, q, r, d, pw(2, 1, 0, 2, 0, 1, 0, 2, 1, 0, 1, 0, 2))
            - mono(p, q, r, d, pw(2, 1, 2, 0, 0, 0, 3, 1, 0, 0, 1, 2, 0))
            - mono(p, q, r, d, pw(2, 1, 2, 0, 0, 3, 0, 1, 0, 1, 0, 2, 0))
            - mono(p, q, r, d, pw(1, 0, 3, 0, 0, 1, 2, 0, 1, 0, 1, 1, 1))
            - mono(p, q, r, d, pw(1, 0, 3, 0, 0, 2, 1, 0, 1, 1, 0, 1, 1))
            - mono(p, q, r, d, pw(1, 1, 0, 0, 2, 0, 1, 1, 2, 1, 0, 1, 1))
            - mono(p, q, r, d, pw(1, 1, 0, 0, 2, 1, 0, 1, 2, 0, 1, 1, 1))
            - mono(p, q, r, d, pw(1, 1, 2, 0, 0, 0, 3, 0, 1, 0, 1, 1, 1))
            - 2 * mono(p, q, r, d, pw(1, 1, 2, 0, 0, 1, 2, 0, 1, 1, 0, 1, 1))
            - 2 * mono(p, q, r, d, pw(1, 1, 2, 0, 0, 2, 1, 0, 1, 0, 1, 1, 1))
            - mono(p, q, r, d, pw(1, 1, 2, 0, 0, 3, 0, 0, 1, 1, 0, 1, 1))
            - mono(p, q, r, d, pw(1, 2, 1, 0, 0, 0, 3, 0, 1, 1, 0, 1, 1))
            - 2 * mono(p, q, r, d, pw(1, 2, 1, 0, 0, 1, 2, 0, 1, 0, 1, 1, 1))
            - 2 * mono(p, q, r, d, pw(1, 2, 1, 0, 0, 2, 1, 0, 1, 1, 0, 1, 1))
            - mono(p, q, r, d, pw(1, 2, 1, 0, 0, 3, 0, 0, 1, 0, 1, 1, 1))
            - mono(p, q, r, d, pw(1, 3, 0, 0, 0, 1, 2, 0, 1, 1, 0, 1, 1))
            - mono(p, q, r, d, pw(1, 3, 0, 0, 0, 2, 1, 0, 1, 0, 1, 1, 1)),
{
    lemma_mono_variables(p, q, r, d);
    let g23 = q.z * r.z + d * q.t * r.t;
    let h23 = q.y * r.y + q.x * r.x;
    let qr_y = g23 * h23;
    let e23 = (q.x + q.y) * (r.x + r.y) - (q.y * r.y + q.x * r.x);
    let f23 = q.z * r.z - d * q.t * r.t;
    let qr_x = e23 * f23;
    let hr = p.y * qr_y + p.x * qr_x;
    let f12 = p.z * q.z - d * p.t * q.t;
    let g12 = p.z * q.z + d * p.t * q.t;
    let pq_z = f12 * g12;
    let e12 = (p.x + p.y) * (q.x + q.y) - (p.y * q.y + p.x * q.x);
    let h12 = p.y * q.y + p.x * q.x;
    let pq_t = e12 * h12;
    let fl = pq_z * r.z - d * pq_t * r.t;
    assert(hr == raw_h(p, raw_add(q, r, d)) && fl == raw_f(raw_add(p, q, d), r, d));
    assert(q.z * r.z == mono(p, q, r, d, pw(0, 0, 0, 0, 0, 0, 0, 0, 1, 0, 0, 0, 1))) by {
        lemma_mul_equals(q.z, mono(p, q, r, d, pw(0, 0, 0, 0, 0, 0, 0, 0, 1, 0, 0, 0, 0)), r.z, mono(p, q, r, d, pw(0, 0, 0, 0, 0, 0, 0, 0, 0, 0, 0, 0, 1)));
        lemma_term_mul(p, q, r, d, 1, pw(0, 0, 0, 0, 0, 0, 0, 0, 1, 0, 0, 0, 0), 1, pw(0, 0, 0, 0, 0, 0, 0, 0, 0, 0, 0, 0, 1));
    };
    assert(d * q.t == mono(p, q, r, d, pw(1, 0, 0, 0, 0, 0, 0, 1, 0, 0, 0, 0, 0))) by {
        lemma_mul_equals(d, mono(p, q, r, d, pw(1, 0, 0, 0, 0, 0, 0, 0, 0, 0, 0, 0, 0)), q.t, mono(p, q, r, d, pw(0, 0, 0, 0, 0, 0, 0, 1, 0, 0, 0, 0, 0)));
        lemma_term_mul(p, q, r, d, 1, pw(1, 0, 0, 0, 0, 0, 0, 0, 0, 0, 0, 0, 0), 1, pw(0, 0, 0, 0, 0, 0, 0, 1, 0, 0, 0, 0, 0));
    };
    assert(d * q.t * r.t == mono(p, q, r, d, pw(1, 0, 0, 0, 0, 0, 0, 1, 0, 0, 0, 1, 0))) by {
        lemma_mul_equals(d * q.t, mono(p, q, r, d, pw(1, 0, 0, 0, 0, 0, 0, 1, 0, 0, 0, 0, 0)), r.t, mono(p, q, r, d, pw(0, 0, 0, 0, 0, 0, 0, 0, 0, 0, 0, 1, 0)));
        lemma_term_mul(p, q, r, d, 1, pw(1, 0, 0, 0, 0, 0, 0, 1, 0, 0, 0, 0, 0), 1, pw(0, 0, 0, 0, 0, 0, 0, 0, 0, 0, 0, 1, 0));
    };
    assert(g23 == mono(p, q, r, d, pw(1, 0, 0, 0, 0, 0, 0, 1, 0, 0, 0, 1, 0))
        + mono(p, q, r, d, pw(0, 0, 0, 0, 0, 0, 0, 0, 1, 0, 0, 0, 1)));
    assert(q.y * r.y == mono(p, q, r, d, pw(0, 0, 0, 0, 0, 0, 1, 0, 0, 0, 1, 0, 0))) by {
        lemma_mul_equals(q.y, mono(p, q, r, d, pw(0, 0, 0, 0, 0, 0, 1, 0, 0, 0, 0, 0, 0)), r.y, mono(p, q, r, d, pw(0, 0, 0, 0, 0, 0, 0, 0, 0, 0, 1, 0, 0)));
        lemma_term_mul(p, q, r, d, 1, pw(0, 0, 0, 0, 0, 0, 1, 0, 0, 0, 0, 0, 0), 1, pw(0, 0, 0, 0, 0, 0, 0, 0, 0, 0, 1, 0, 0));
    };
    assert(q.x * r.x == mono(p, q, r, d, pw(0, 0, 0, 0, 0, 1, 0, 0, 0, 1, 0, 0, 0))) by {
        lemma_mul_equals(q.x, mono(p, q, r, d, pw(0, 0, 0, 0, 0, 1, 0, 0, 0, 0, 0, 0, 0)), r.x, mono(p, q, r, d, pw(0, 0, 0, 0, 0, 0, 0, 0, 0, 1, 0, 0, 0)));
        lemma_term_mul(p, q, r, d, 1, pw(0, 0, 0, 0, 0, 1, 0, 0, 0, 0, 0, 0, 0), 1, pw(0, 0, 0, 0, 0, 0, 0, 0, 0, 1, 0, 0, 0));
    };
    assert(h23 == mono(p, q, r, d, pw(0, 0, 0, 0, 0, 0, 1, 0, 0, 0, 1, 0, 0))
        + mono(p, q, r, d, pw(0, 0, 0, 0, 0, 1, 0, 0, 0, 1, 0, 0, 0)));
    assert(g23 * h23 == mono(p, q, r, d, pw(1, 0, 0, 0, 0, 0, 1, 1, 0, 0, 1, 1, 0))
        + mono(p, q, r, d, pw(1, 0, 0, 0, 0, 1, 0, 1, 0, 1, 0, 1, 0))
        + mono(p, q, r, d, pw(0, 0, 0, 0, 0, 0, 1, 0, 1, 0, 1, 0, 1))
        + mono(p, q, r, d, pw(0, 0, 0, 0, 0, 1, 0, 0, 1, 1, 0, 0, 1))) by {
        lemma_mul_equals(g23, mono(p, q, r, d, pw(1, 0, 0, 0, 0, 0, 0, 1, 0, 0, 0, 1, 0)) + mono(p, q, r, d, pw(0, 0, 0, 0, 0, 0, 0, 0, 1, 0, 0, 0, 1)), h23, mono(p, q, r, d, pw(0, 0, 0, 0, 0, 0, 1, 0, 0, 0, 1, 0, 0)) + mono(p, q, r, d, pw(0, 0, 0, 0, 0, 1, 0, 0, 0, 1, 0, 0, 0)));
        lemma_mul_is_distributive_add(mono(p, q, r, d, pw(1, 0, 0, 0, 0, 0, 0, 1, 0, 0, 0, 1, 0)) + mono(p, q, r, d, pw(0, 0, 0, 0, 0, 0, 0, 0, 1, 0, 0, 0, 1)), mono(p, q, r, d, pw(0, 0, 0, 0, 0, 0, 1, 0, 0, 0, 1, 0, 0)), mono(p, q, r, d, pw(0, 0, 0, 0, 0, 1, 0, 0, 0, 1, 0, 0, 0)));
        lemma_mul_is_distributive_add_other_way(mono(p, q, r, d, pw(0, 0, 0, 0, 0, 0, 1, 0, 0, 0, 1, 0, 0)), mono(p, q, r, d, pw(1, 0, 0, 0, 0, 0, 0, 1, 0, 0, 0, 1, 0)), mono(p, q, r, d, pw(0, 0, 0, 0, 0, 0, 0, 0, 1, 0, 0, 0, 1)));
        lemma_mul_is_distributive_add_other_way(mono(p, q, r, d, pw(0, 0, 0, 0, 0, 1, 0, 0, 0, 1, 0, 0, 0)), mono(p, q, r, d, pw(1, 0, 0, 0, 0, 0, 0, 1, 0, 0, 0, 1, 0)), mono(p, q, r, d, pw(0, 0, 0, 0, 0, 0, 0, 0, 1, 0, 0, 0, 1)));
        lemma_term_mul(p, q, r, d, 1, pw(1, 0, 0, 0, 0, 0, 0, 1, 0, 0, 0, 1, 0), 1, pw(0, 0, 0, 0, 0, 0, 1, 0, 0, 0, 1, 0, 0));
        lemma_term_mul(p, q, r, d, 1, pw(1, 0, 0, 0, 0, 0, 0, 1, 0, 0, 0, 1, 0), 1, pw(0, 0, 0, 0, 0, 1, 0, 0, 0, 1, 0, 0, 0));
        lemma_term_mul(p, q, r, d, 1, pw(0, 0, 0, 0, 0, 0, 0, 0, 1, 0, 0, 0, 1), 1, pw(0, 0, 0, 0, 0, 0, 1, 0, 0, 0, 1, 0, 0));
        lemma_term_mul(p, q, r, d, 1, pw(0, 0, 0, 0, 0, 0, 0, 0, 1, 0, 0, 0, 1), 1, pw(0, 0, 0, 0, 0, 1, 0, 0, 0, 1, 0, 0, 0));
    };
    assert(p.y * qr_y == mono(p, q, r, d, pw(1, 0, 1, 0, 0, 0, 1, 1, 0, 0, 1, 1, 0))
        + mono(p, q, r, d, pw(1, 0, 1, 0, 0, 1, 0, 1, 0, 1, 0, 1, 0))
        + mono(p, q, r, d, pw(0, 0, 1, 0, 0, 0, 1, 0, 1, 0, 1, 0, 1))
        + mono(p, q, r, d, pw(0, 0, 1, 0, 0, 1, 0, 0, 1, 1, 0, 0, 1))) by {
        let b2 = mono(p, q, r, d, pw(1, 0, 0, 0, 0, 0, 1, 1, 0, 0, 1, 1, 0)) + mono(p, q, r, d, pw(1, 0, 0, 0, 0, 1, 0, 1, 0, 1, 0, 1, 0));
        let b3 = b2 + mono(p, q, r, d, pw(0, 0, 0, 0, 0, 0, 1, 0, 1, 0, 1, 0, 1));
        let b4 = b3 + mono(p, q, r, d, pw(0, 0, 0, 0, 0, 1, 0, 0, 1, 1, 0, 0, 1));
        lemma_mul_equals(p.y, mono(p, q, r, d, pw(0, 0, 1, 0, 0, 0, 0, 0, 0, 0, 0, 0, 0)), qr_y, b4);
        lemma_mul_is_distributive_add(mono(p, q, r, d, pw(0, 0, 1, 0, 0, 0, 0, 0, 0, 0, 0, 0, 0)), b3, mono(p, q, r, d, pw(0, 0, 0, 0, 0, 1, 0, 0, 1, 1, 0, 0, 1)));
        lemma_mul_is_distributive_add(mono(p, q, r, d, pw(0, 0, 1, 0, 0, 0, 0, 0, 0, 0, 0, 0, 0)), b2, mono(p, q, r, d, pw(0, 0, 0, 0, 0, 0, 1, 0, 1, 0, 1, 0, 1)));
        lemma_mul_is_distributive_add(mono(p, q, r, d, pw(0, 0, 1, 0, 0, 0, 0, 0, 0, 0, 0, 0, 0)), mono(p, q, r, d, pw(1, 0, 0, 0, 0, 0, 1, 1, 0, 0, 1, 1, 0)), mono(p, q, r, d, pw(1, 0, 0, 0, 0, 1, 0, 1, 0, 1, 0, 1, 0)));
        lemma_term_mul(p, q, r, d, 1, pw(0, 0, 1, 0, 0, 0, 0, 0, 0, 0, 0, 0, 0), 1, pw(1, 0, 0, 0, 0, 0, 1, 1, 0, 0, 1, 1, 0));
        lemma_term_mul(p, q, r, d, 1, pw(0, 0, 1, 0, 0, 0, 0, 0, 0, 0, 0, 0, 0), 1, pw(1, 0, 0, 0, 0, 1, 0, 1, 0, 1, 0, 1, 0));
        lemma_term_mul(p, q, r, d, 1, pw(0, 0, 1, 0, 0, 0, 0, 0, 0, 0, 0, 0, 0), 1, pw(0, 0, 0, 0, 0, 0, 1, 0, 1, 0, 1, 0, 1));
        lemma_term_mul(p, q, r, d, 1, pw(0, 0, 1, 0, 0, 0, 0, 0, 0, 0, 0, 0, 0), 1, pw(0, 0, 0, 0, 0, 1, 0, 0, 1, 1, 0, 0, 1));
    };
    assert((q.x + q.y) * (r.x + r.y) == mono(p, q, r, d, pw(0, 0, 0, 0, 0, 0, 1, 0, 0, 0, 1, 0, 0))
        + mono(p, q, r, d, pw(0, 0, 0, 0, 0, 0, 1, 0, 0, 1, 0, 0, 0))
        + mono(p, q, r, d, pw(0, 0, 0, 0, 0, 1, 0, 0, 0, 0, 1, 0, 0))
        + mono(p, q, r, d, pw(0, 0, 0, 0, 0, 1, 0, 0, 0, 1, 0, 0, 0))) by {
        lemma_mul_equals(q.x + q.y, mono(p, q, r, d, pw(0, 0, 0, 0, 0, 0, 1, 0, 0, 0, 0, 0, 0)) + mono(p, q, r, d, pw(0, 0, 0, 0, 0, 1, 0, 0, 0, 0, 0, 0, 0)), r.x + r.y, mono(p, q, r, d, pw(0, 0, 0, 0, 0, 0, 0, 0, 0, 0, 1, 0, 0)) + mono(p, q, r, d, pw(0, 0, 0, 0, 0, 0, 0, 0, 0, 1, 0, 0, 0)));
        lemma_mul_is_distributive_add(mono(p, q, r, d, pw(0, 0, 0, 0, 0, 0, 1, 0, 0, 0, 0, 0, 0)) + mono(p, q, r, d, pw(0, 0, 0, 0, 0, 1, 0, 0, 0, 0, 0, 0, 0)), mono(p, q, r, d, pw(0, 0, 0, 0, 0, 0, 0, 0, 0, 0, 1, 0, 0)), mono(p, q, r, d, pw(0, 0, 0, 0, 0, 0, 0, 0, 0, 1, 0, 0, 0)));
        lemma_mul_is_distributive_add_other_way(mono(p, q, r, d, pw(0, 0, 0, 0, 0, 0, 0, 0, 0, 0, 1, 0, 0)), mono(p, q, r, d, pw(0, 0, 0, 0, 0, 0, 1, 0, 0, 0, 0, 0, 0)), mono(p, q, r, d, pw(0, 0, 0, 0, 0, 1, 0, 0, 0, 0, 0, 0, 0)));
        lemma_mul_is_distributive_add_other_way(mono(p, q, r, d, pw(0, 0, 0, 0, 0, 0, 0, 0, 0, 1, 0, 0, 0)), mono(p, q, r, d, pw(0, 0, 0, 0, 0, 0, 1, 0, 0, 0, 0, 0, 0)), mono(p, q, r, d, pw(0, 0, 0, 0, 0, 1, 0, 0, 0, 0, 0, 0, 0)));
        lemma_term_mul(p, q, r, d, 1, pw(0, 0, 0, 0, 0, 0, 1, 0, 0, 0, 0, 0, 0), 1, pw(0, 0, 0, 0, 0, 0, 0, 0, 0, 0, 1, 0, 0));
        lemma_term_mul(p, q, r, d, 1, pw(0, 0, 0, 0, 0, 0, 1, 0, 0, 0, 0, 0, 0), 1, pw(0, 0, 0, 0, 0, 0, 0, 0, 0, 1, 0, 0, 0));
        lemma_term_mul(p, q, r, d, 1, pw(0, 0, 0, 0, 0, 1, 0, 0, 0, 0, 0, 0, 0), 1, pw(0, 0, 0, 0, 0, 0, 0, 0, 0, 0, 1, 0, 0));
        lemma_term_mul(p, q, r, d, 1, pw(0, 0, 0, 0, 0, 1, 0, 0, 0, 0, 0, 0, 0), 1, pw(0, 0, 0, 0, 0, 0, 0, 0, 0, 1, 0, 0, 0));
    };
    assert(e23 == mono(p, q, r, d, pw(0, 0, 0, 0, 0, 0, 1, 0, 0, 1, 0, 0, 0))
        + mono(p, q, r, d, pw(0, 0, 0, 0, 0, 1, 0, 0, 0, 0, 1, 0, 0)));
    assert(f23 == mono(p, q, r, d, pw(0, 0, 0, 0, 0, 0, 0, 0, 1, 0, 0, 0, 1))
        - mono(p, q, r, d, pw(1, 0, 0, 0, 0, 0, 0, 1, 0, 0, 0, 1, 0)));
    assert(e23 * f23 == mono(p, q, r, d, pw(0, 0, 0, 0, 0, 0, 1, 0, 1, 1, 0, 0, 1))
        + mono(p, q, r, d, pw(0, 0, 0, 0, 0, 1, 0, 0, 1, 0, 1, 0, 1))
        - mono(p, q, r, d, pw(1, 0, 0, 0, 0, 0, 1, 1, 0, 1, 0, 1, 0))
        - mono(p, q, r, d, pw(1, 0, 0, 0, 0, 1, 0, 1, 0, 0, 1, 1, 0))) by {
        lemma_mul_equals(e23, mono(p, q, r, d, pw(0, 0, 0, 0, 0, 0, 1, 0, 0, 1, 0, 0, 0)) + mono(p, q, r, d, pw(0, 0, 0, 0, 0, 1, 0, 0, 0, 0, 1, 0, 0)), f23, mono(p, q, r, d, pw(0, 0, 0, 0, 0, 0, 0, 0, 1, 0, 0, 0, 1)) - mono(p, q, r, d, pw(1, 0, 0, 0, 0, 0, 0, 1, 0, 0, 0, 1, 0)));
        lemma_mul_is_distributive_sub(mono(p, q, r, d, pw(0, 0, 0, 0, 0, 0, 1, 0, 0, 1, 0, 0, 0)) + mono(p, q, r, d, pw(0, 0, 0, 0, 0, 1, 0, 0, 0, 0, 1, 0, 0)), mono(p, q, r, d, pw(0, 0, 0, 0, 0, 0, 0, 0, 1, 0, 0, 0, 1)), mono(p, q, r, d, pw(1, 0, 0, 0, 0, 0, 0, 1, 0, 0, 0, 1, 0)));
        lemma_mul_is_distributive_add_other_way(mono(p, q, r, d, pw(0, 0, 0, 0, 0, 0, 0, 0, 1, 0, 0, 0, 1)), mono(p, q, r, d, pw(0, 0, 0, 0, 0, 0, 1, 0, 0, 1, 0, 0, 0)), mono(p, q, r, d, pw(0, 0, 0, 0, 0, 1, 0, 0, 0, 0, 1, 0, 0)));
        lemma_mul_is_distributive_add_other_way(mono(p, q, r, d, pw(1, 0, 0, 0, 0, 0, 0, 1, 0, 0, 0, 1, 0)), mono(p, q, r, d, pw(0, 0, 0, 0, 0, 0, 1, 0, 0, 1, 0, 0, 0)), mono(p, q, r, d, pw(0, 0, 0, 0, 0, 1, 0, 0, 0, 0, 1, 0, 0)));
        lemma_term_mul(p, q, r, d, 1, pw(0, 0, 0, 0, 0, 0, 1, 0, 0, 1, 0, 0, 0), 1, pw(0, 0, 0, 0, 0, 0, 0, 0, 1, 0, 0, 0, 1));
        lemma_term_mul(p, q, r, d, 1, pw(0, 0, 0, 0, 0, 0, 1, 0, 0, 1, 0, 0, 0), 1, pw(1, 0, 0, 0, 0, 0, 0, 1, 0, 0, 0, 1, 0));
        lemma_term_mul(p, q, r, d, 1, pw(0, 0, 0, 0, 0, 1, 0, 0, 0, 0, 1, 0, 0), 1, pw(0, 0, 0, 0, 0, 0, 0, 0, 1, 0, 0, 0, 1));
        lemma_term_mul(p, q, r, d, 1, pw(0, 0, 0, 0, 0, 1, 0, 0, 0, 0, 1, 0, 0), 1, pw(1, 0, 0, 0, 0, 0, 0, 1, 0, 0, 0, 1, 0));
    };
    assert(p.x * qr_x == mono(p, q, r, d, pw(0, 1, 0, 0, 0, 0, 1, 0, 1, 1, 0, 0, 1))
        + mono(p, q, r, d, pw(0, 1, 0, 0, 0, 1, 0, 0, 1, 0, 1, 0, 1))
        - mono(p, q, r, d, pw(1, 1, 0, 0, 0, 0, 1, 1, 0, 1, 0, 1, 0))
        - mono(p, q, r, d, pw(1, 1, 0, 0, 0, 1, 0, 1, 0, 0, 1, 1, 0))) by {
        let b2 = mono(p, q, r, d, pw(0, 0, 0, 0, 0, 0, 1, 0, 1, 1, 0, 0, 1)) + mono(p, q, r, d, pw(0, 0, 0, 0, 0, 1, 0, 0, 1, 0, 1, 0, 1));
        let b3 = b2 - mono(p, q, r, d, pw(1, 0, 0, 0, 0, 0, 1, 1, 0, 1, 0, 1, 0));
        let b4 = b3 - mono(p, q, r, d, pw(1, 0, 0, 0, 0, 1, 0, 1, 0, 0, 1, 1, 0));
        lemma_mul_equals(p.x, mono(p, q, r, d, pw(0, 1, 0, 0, 0, 0, 0, 0, 0, 0, 0, 0, 0)), qr_x, b4);
        lemma_mul_is_distributive_sub(mono(p, q, r, d, pw(0, 1, 0, 0, 0, 0, 0, 0, 0, 0, 0, 0, 0)), b3, mono(p, q, r, d, pw(1, 0, 0, 0, 0, 1, 0, 1, 0, 0, 1, 1, 0)));
        lemma_mul_is_distributive_sub(mono(p, q, r, d, pw(0, 1, 0, 0, 0, 0, 0, 0, 0, 0, 0, 0, 0)), b2, mono(p, q, r, d, pw(1, 0, 0, 0, 0, 0, 1, 1, 0, 1, 0, 1, 0)));
        lemma_mul_is_distributive_add(mono(p, q, r, d, pw(0, 1, 0, 0, 0, 0, 0, 0, 0, 0, 0, 0, 0)), mono(p, q, r, d, pw(0, 0, 0, 0, 0, 0, 1, 0, 1, 1, 0, 0, 1)), mono(p, q, r, d, pw(0, 0, 0, 0, 0, 1, 0, 0, 1, 0, 1, 0, 1)));
        lemma_term_mul(p, q, r, d, 1, pw(0, 1, 0, 0, 0, 0, 0, 0, 0, 0, 0, 0, 0), 1, pw(0, 0, 0, 0, 0, 0, 1, 0, 1, 1, 0, 0, 1));
        lemma_term_mul(p, q, r, d, 1, pw(0, 1, 0, 0, 0, 0, 0, 0, 0, 0, 0, 0, 0), 1, pw(0, 0, 0, 0, 0, 1, 0, 0, 1, 0, 1, 0, 1));
        lemma_term_mul(p, q, r, d, 1, pw(0, 1, 0, 0, 0, 0, 0, 0, 0, 0, 0, 0, 0), 1, pw(1, 0, 0, 0, 0, 0, 1, 1, 0, 1, 0, 1, 0));
        lemma_term_mul(p, q, r, d, 1, pw(0, 1, 0, 0, 0, 0, 0, 0, 0, 0, 0, 0, 0), 1, pw(1, 0, 0, 0, 0, 1, 0, 1, 0, 0, 1, 1, 0));
    };
    assert(hr == mono(p, q, r, d, pw(1, 0, 1, 0, 0, 0, 1, 1, 0, 0, 1, 1, 0))
        + mono(p, q, r, d, pw(1, 0, 1, 0, 0, 1, 0, 1, 0, 1, 0, 1, 0))
        + mono(p, q, r, d, pw(0, 0, 1, 0, 0, 0, 1, 0, 1, 0, 1, 0, 1))
        + mono(p, q, r, d, pw(0, 0, 1, 0, 0, 1, 0, 0, 1, 1, 0, 0, 1))
        + mono(p, q, r, d, pw(0, 1, 0, 0, 0, 0, 1, 0, 1, 1, 0, 0, 1))
        + mono(p, q, r, d, pw(0, 1, 0, 0, 0, 1, 0, 0, 1, 0, 1, 0, 1))
        - mono(p, q, r, d, pw(1, 1, 0, 0, 0, 0, 1, 1, 0, 1, 0, 1, 0))
        - mono(p, q, r, d, pw(1, 1, 0, 0, 0, 1, 0, 1, 0, 0, 1, 1, 0)));
    assert(p.z * q.z == mono(p, q, r, d, pw(0, 0, 0, 0, 1, 0, 0, 0, 1, 0, 0, 0, 0))) by {
        lemma_mul_equals(p.z, mono(p, q, r, d, pw(0, 0, 0, 0, 1, 0, 0, 0, 0, 0, 0, 0, 0)), q.z, mono(p, q, r, d, pw(0, 0, 0, 0, 0, 0, 0, 0, 1, 0, 0, 0, 0)));
        lemma_term_mul(p, q, r, d, 1, pw(0, 0, 0, 0, 1, 0, 0, 0, 0, 0, 0, 0, 0), 1, pw(0, 0, 0, 0, 0, 0, 0, 0, 1, 0, 0, 0, 0));
    };
    assert(d * p.t == mono(p, q, r, d, pw(1, 0, 0, 1, 0, 0, 0, 0, 0, 0, 0, 0, 0))) by {
        lemma_mul_equals(d, mono(p, q, r, d, pw(1, 0, 0, 0, 0, 0, 0, 0, 0, 0, 0, 0, 0)), p.t, mono(p, q, r, d, pw(0, 0, 0, 1, 0, 0, 0, 0, 0, 0, 0, 0, 0)));
        lemma_term_mul(p, q, r, d, 1, pw(1, 0, 0, 0, 0, 0, 0, 0, 0, 0, 0, 0, 0), 1, pw(0, 0, 0, 1, 0, 0, 0, 0, 0, 0, 0, 0, 0));
    };
    assert(d * p.t * q.t == mono(p, q, r, d, pw(1, 0, 0, 1, 0, 0, 0, 1, 0, 0, 0, 0, 0))) by {
        lemma_mul_equals(d * p.t, mono(p, q, r, d, pw(1, 0, 0, 1, 0, 0, 0, 0, 0, 0, 0, 0, 0)), q.t, mono(p, q, r, d, pw(0, 0, 0, 0, 0, 0, 0, 1, 0, 0, 0, 0, 0)));
        lemma_term_mul(p, q, r, d, 1, pw(1, 0, 0, 1, 0, 0, 0, 0, 0, 0, 0, 0, 0), 1, pw(0, 0, 0, 0, 0, 0, 0, 1, 0, 0, 0, 0, 0));
    };
    assert(f12 == mono(p, q, r, d, pw(0, 0, 0, 0, 1, 0, 0, 0, 1, 0, 0, 0, 0))
        - mono(p, q, r, d, pw(1, 0, 0, 1, 0, 0, 0, 1, 0, 0, 0, 0, 0)));
    assert(g12 == mono(p, q, r, d, pw(1, 0, 0, 1, 0, 0, 0, 1, 0, 0, 0, 0, 0))
        + mono(p, q, r, d, pw(0, 0, 0, 0, 1, 0, 0, 0, 1, 0, 0, 0, 0)));
    assert(f12 * g12 == mono(p, q, r, d, pw(0, 0, 0, 0, 2, 0, 0, 0, 2, 0, 0, 0, 0))
        - mono(p, q, r, d, pw(2, 0, 0, 2, 0, 0, 0, 2, 0, 0, 0, 0, 0))) by {
        lemma_mul_equals(f12, mono(p, q, r, d, pw(0, 0, 0, 0, 1, 0, 0, 0, 1, 0, 0, 0, 0)) - mono(p, q, r, d, pw(1, 0, 0, 1, 0, 0, 0, 1, 0, 0, 0, 0, 0)), g12, mono(p, q, r, d, pw(1, 0, 0, 1, 0, 0, 0, 1, 0, 0, 0, 0, 0)) + mono(p, q, r, d, pw(0, 0, 0, 0, 1, 0, 0, 0, 1, 0, 0, 0, 0)));
        lemma_mul_is_distributive_add(mono(p, q, r, d, pw(0, 0, 0, 0, 1, 0, 0, 0, 1, 0, 0, 0, 0)) - mono(p, q, r, d, pw(1, 0, 0, 1, 0, 0, 0, 1, 0, 0, 0, 0, 0)), mono(p, q, r, d, pw(1, 0, 0, 1, 0, 0, 0, 1, 0, 0, 0, 0, 0)), mono(p, q, r, d, pw(0, 0, 0, 0, 1, 0, 0, 0, 1, 0, 0, 0, 0)));
        lemma_mul_is_distributive_sub_other_way(mono(p, q, r, d, pw(1, 0, 0, 1, 0, 0, 0, 1, 0, 0, 0, 0, 0)), mono(p, q, r, d, pw(0, 0, 0, 0, 1, 0, 0, 0, 1, 0, 0, 0, 0)), mono(p, q, r, d, pw(1, 0, 0, 1, 0, 0, 0, 1, 0, 0, 0, 0, 0)));
        lemma_mul_is_distributive_sub_other_way(mono(p, q, r, d, pw(0, 0, 0, 0, 1, 0, 0, 0, 1, 0, 0, 0, 0)), mono(p, q, r, d, pw(0, 0, 0, 0, 1, 0, 0, 0, 1, 0, 0, 0, 0)), mono(p, q, r, d, pw(1, 0, 0, 1, 0, 0, 0, 1, 0, 0, 0, 0, 0)));
        lemma_term_mul(p, q, r, d, 1, pw(0, 0, 0, 0, 1, 0, 0, 0, 1, 0, 0, 0, 0), 1, pw(1, 0, 0, 1, 0, 0, 0, 1, 0, 0, 0, 0, 0));
        lemma_term_mul(p, q, r, d, 1, pw(0, 0, 0, 0, 1, 0, 0, 0, 1, 0, 0, 0, 0), 1, pw(0, 0, 0, 0, 1, 0, 0, 0, 1, 0, 0, 0, 0));
        lemma_term_mul(p, q, r, d, 1, pw(1, 0, 0, 1, 0, 0, 0, 1, 0, 0, 0, 0, 0), 1, pw(1, 0, 0, 1, 0, 0, 0, 1, 0, 0, 0, 0, 0));
        lemma_term_mul(p, q, r, d, 1, pw(1, 0, 0, 1, 0, 0, 0, 1, 0, 0, 0, 0, 0), 1, pw(0, 0, 0, 0, 1, 0, 0, 0, 1, 0, 0, 0, 0));
    };
    assert(pq_z * r.z == mono(p, q, r, d, pw(0, 0, 0, 0, 2, 0, 0, 0, 2, 0, 0, 0, 1))
        - mono(p, q, r, d, pw(2, 0, 0, 2, 0, 0, 0, 2, 0, 0, 0, 0, 1))) by {
        lemma_mul_equals(pq_z, mono(p, q, r, d, pw(0, 0, 0, 0, 2, 0, 0, 0, 2, 0, 0, 0, 0)) - mono(p, q, r, d, pw(2, 0, 0, 2, 0, 0, 0, 2, 0, 0, 0, 0, 0)), r.z, mono(p, q, r, d, pw(0, 0, 0, 0, 0, 0, 0, 0, 0, 0, 0, 0, 1)));
        lemma_mul_is_distributive_sub_other_way(mono(p, q, r, d, pw(0, 0, 0, 0, 0, 0, 0, 0, 0, 0, 0, 0, 1)), mono(p, q, r, d, pw(0, 0, 0, 0, 2, 0, 0, 0, 2, 0, 0, 0, 0)), mono(p, q, r, d, pw(2, 0, 0, 2, 0, 0, 0, 2, 0, 0, 0, 0, 0)));
        lemma_term_mul(p, q, r, d, 1, pw(0, 0, 0, 0, 2, 0, 0, 0, 2, 0, 0, 0, 0), 1, pw(0, 0, 0, 0, 0, 0, 0, 0, 0, 0, 0, 0, 1));
        lemma_term_mul(p, q, r, d, 1, pw(2, 0, 0, 2, 0, 0, 0, 2, 0, 0, 0, 0, 0), 1, pw(0, 0, 0, 0, 0, 0, 0, 0, 0, 0, 0, 0, 1));
    };
    assert((p.x + p.y) * (q.x + q.y) == mono(p, q, r, d, pw(0, 0, 1, 0, 0, 0, 1, 0, 0, 0, 0, 0, 0))
        + mono(p, q, r, d, pw(0, 0, 1, 0, 0, 1, 0, 0, 0, 0, 0, 0, 0))
        + mono(p, q, r, d, pw(0, 1, 0, 0, 0, 0, 1, 0, 0, 0, 0, 0, 0))
        + mono(p, q, r, d, pw(0, 1, 0, 0, 0, 1, 0, 0, 0, 0, 0, 0, 0))) by {
        lemma_mul_equals(p.x + p.y, mono(p, q, r, d, pw(0, 0, 1, 0, 0, 0, 0, 0, 0, 0, 0, 0, 0)) + mono(p, q, r, d, pw(0, 1, 0, 0, 0, 0, 0, 0, 0, 0, 0, 0, 0)), q.x + q.y, mono(p, q, r, d, pw(0, 0, 0, 0, 0, 0, 1, 0, 0, 0, 0, 0, 0)) + mono(p, q, r, d, pw(0, 0, 0, 0, 0, 1, 0, 0, 0, 0, 0, 0, 0)));
        lemma_mul_is_distributive_add(mono(p, q, r, d, pw(0, 0, 1, 0, 0, 0, 0, 0, 0, 0, 0, 0, 0)) + mono(p, q, r, d, pw(0, 1, 0, 0, 0, 0, 0, 0, 0, 0, 0, 0, 0)), mono(p, q, r, d, pw(0, 0, 0, 0, 0, 0, 1, 0, 0, 0, 0, 0, 0)), mono(p, q, r, d, pw(0, 0, 0, 0, 0, 1, 0, 0, 0, 0, 0, 0, 0)));
        lemma_mul_is_distributive_add_other_way(mono(p, q, r, d, pw(0, 0, 0, 0, 0, 0, 1, 0, 0, 0, 0, 0, 0)), mono(p, q, r, d, pw(0, 0, 1, 0, 0, 0, 0, 0, 0, 0, 0, 0, 0)), mono(p, q, r, d, pw(0, 1, 0, 0, 0, 0, 0, 0, 0, 0, 0, 0, 0)));
        lemma_mul_is_distributive_add_other_way(mono(p, q, r, d, pw(0, 0, 0, 0, 0, 1, 0, 0, 0, 0, 0, 0, 0)), mono(p, q, r, d, pw(0, 0, 1, 0, 0, 0, 0, 0, 0, 0, 0, 0, 0)), mono(p, q, r, d, pw(0, 1, 0, 0, 0, 0, 0, 0, 0, 0, 0, 0, 0)));
        lemma_term_mul(p, q, r, d, 1, pw(0, 0, 1, 0, 0, 0, 0, 0, 0, 0, 0, 0, 0), 1, pw(0, 0, 0, 0, 0, 0, 1, 0, 0, 0, 0, 0, 0));
        lemma_term_mul(p, q, r, d, 1, pw(0, 0, 1, 0, 0, 0, 0, 0, 0, 0, 0, 0, 0), 1, pw(0, 0, 0, 0, 0, 1, 0, 0, 0, 0, 0, 0, 0));
        lemma_term_mul(p, q, r, d, 1, pw(0, 1, 0, 0, 0, 0, 0, 0, 0, 0, 0, 0, 0), 1, pw(0, 0, 0, 0, 0, 0, 1, 0, 0, 0, 0, 0, 0));
        lemma_term_mul(p, q, r, d, 1, pw(0, 1, 0, 0, 0, 0, 0, 0, 0, 0, 0, 0, 0), 1, pw(0, 0, 0, 0, 0, 1, 0, 0, 0, 0, 0, 0, 0));
    };
    assert(p.y * q.y == mono(p, q, r, d, pw(0, 0, 1, 0, 0, 0, 1, 0, 0, 0, 0, 0, 0))) by {
        lemma_mul_equals(p.y, mono(p, q, r, d, pw(0, 0, 1, 0, 0, 0, 0, 0, 0, 0, 0, 0, 0)), q.y, mono(p, q, r, d, pw(0, 0, 0, 0, 0, 0, 1, 0, 0, 0, 0, 0, 0)));
        lemma_term_mul(p, q, r, d, 1, pw(0, 0, 1, 0, 0, 0, 0, 0, 0, 0, 0, 0, 0), 1, pw(0, 0, 0, 0, 0, 0, 1, 0, 0, 0, 0, 0, 0));
    };
    assert(p.x * q.x == mono(p, q, r, d, pw(0, 1, 0, 0, 0, 1, 0, 0, 0, 0, 0, 0, 0))) by {
        lemma_mul_equals(p.x, mono(p, q, r, d, pw(0, 1, 0, 0, 0, 0, 0, 0, 0, 0, 0, 0, 0)), q.x, mono(p, q, r, d, pw(0, 0, 0, 0, 0, 1, 0, 0, 0, 0, 0, 0, 0)));
        lemma_term_mul(p, q, r, d, 1, pw(0, 1, 0, 0, 0, 0, 0, 0, 0, 0, 0, 0, 0), 1, pw(0, 0, 0, 0, 0, 1, 0, 0, 0, 0, 0, 0, 0));
    };
    assert(e12 == mono(p, q, r, d, pw(0, 0, 1, 0, 0, 1, 0, 0, 0, 0, 0, 0, 0))
        + mono(p, q, r, d, pw(0, 1, 0, 0, 0, 0, 1, 0, 0, 0, 0, 0, 0)));
    assert(h12 == mono(p, q, r, d, pw(0, 0, 1, 0, 0, 0, 1, 0, 0, 0, 0, 0, 0))
        + mono(p, q, r, d, pw(0, 1, 0, 0, 0, 1, 0, 0, 0, 0, 0, 0, 0)));
    assert(e12 * h12 == mono(p, q, r, d, pw(0, 0, 2, 0, 0, 1, 1, 0, 0, 0, 0, 0, 0))
        + mono(p, q, r, d, pw(0, 1, 1, 0, 0, 0, 2, 0, 0, 0, 0, 0, 0))
        + mono(p, q, r, d, pw(0, 1, 1, 0, 0, 2, 0, 0, 0, 0, 0, 0, 0))
        + mono(p, q, r, d, pw(0, 2, 0, 0, 0, 1, 1, 0, 0, 0, 0, 0, 0))) by {
        lemma_mul_equals(e12, mono(p, q, r, d, pw(0, 0, 1, 0, 0, 1, 0, 0, 0, 0, 0, 0, 0)) + mono(p, q, r, d, pw(0, 1, 0, 0, 0, 0, 1, 0, 0, 0, 0, 0, 0)), h12, mono(p, q, r, d, pw(0, 0, 1, 0, 0, 0, 1, 0, 0, 0, 0, 0, 0)) + mono(p, q, r, d, pw(0, 1, 0, 0, 0, 1, 0, 0, 0, 0, 0, 0, 0)));
        lemma_mul_is_distributive_add(mono(p, q, r, d, pw(0, 0, 1, 0, 0, 1, 0, 0, 0, 0, 0, 0, 0)) + mono(p, q, r, d, pw(0, 1, 0, 0, 0, 0, 1, 0, 0, 0, 0, 0, 0)), mono(p, q, r, d, pw(0, 0, 1, 0, 0, 0, 1, 0, 0, 0, 0, 0, 0)), mono(p, q, r, d, pw(0, 1, 0, 0, 0, 1, 0, 0, 0, 0, 0, 0, 0)));
        lemma_mul_is_distributive_add_other_way(mono(p, q, r, d, pw(0, 0, 1, 0, 0, 0, 1, 0, 0, 0, 0, 0, 0)), mono(p, q, r, d, pw(0, 0, 1, 0, 0, 1, 0, 0, 0, 0, 0, 0, 0)), mono(p, q, r, d, pw(0, 1, 0, 0, 0, 0, 1, 0, 0, 0, 0, 0, 0)));
        lemma_mul_is_distributive_add_other_way(mono(p, q, r, d, pw(0, 1, 0, 0, 0, 1, 0, 0, 0, 0, 0, 0, 0)), mono(p, q, r, d, pw(0, 0, 1, 0, 0, 1, 0, 0, 0, 0, 0, 0, 0)), mono(p, q, r, d, pw(0, 1, 0, 0, 0, 0, 1, 0, 0, 0, 0, 0, 0)));
        lemma_term_mul(p, q, r, d, 1, pw(0, 0, 1, 0, 0, 1, 0, 0, 0, 0, 0, 0, 0), 1, pw(0, 0, 1, 0, 0, 0, 1, 0, 0, 0, 0, 0, 0));
        lemma_term_mul(p, q, r, d, 1, pw(0, 0, 1, 0, 0, 1, 0, 0, 0, 0, 0, 0, 0), 1, pw(0, 1, 0, 0, 0, 1, 0, 0, 0, 0, 0, 0, 0));
        lemma_term_mul(p, q, r, d, 1, pw(0, 1, 0, 0, 0, 0, 1, 0, 0, 0, 0, 0, 0), 1, pw(0, 0, 1, 0, 0, 0, 1, 0, 0, 0, 0, 0, 0));
        lemma_term_mul(p, q, r, d, 1, pw(0, 1, 0, 0, 0, 0, 1, 0, 0, 0, 0, 0, 0), 1, pw(0, 1, 0, 0, 0, 1, 0, 0, 0, 0, 0, 0, 0));
    };
    assert(d * pq_t == mono(p, q, r, d, pw(1, 0, 2, 0, 0, 1, 1, 0, 0, 0, 0, 0, 0))
        + mono(p, q, r, d, pw(1, 1, 1, 0, 0, 0, 2, 0, 0, 0, 0, 0, 0))
        + mono(p, q, r, d, pw(1, 1, 1, 0, 0, 2, 0, 0, 0, 0, 0, 0, 0))
        + mono(p, q, r, d, pw(1, 2, 0, 0, 0, 1, 1, 0, 0, 0, 0, 0, 0))) by {
        let b2 = mono(p, q, r, d, pw(0, 0, 2, 0, 0, 1, 1, 0, 0, 0, 0, 0, 0)) + mono(p, q, r, d, pw(0, 1, 1, 0, 0, 0, 2, 0, 0, 0, 0, 0, 0));
        let b3 = b2 + mono(p, q, r, d, pw(0, 1, 1, 0, 0, 2, 0, 0, 0, 0, 0, 0, 0));
        let b4 = b3 + mono(p, q, r, d, pw(0, 2, 0, 0, 0, 1, 1, 0, 0, 0, 0, 0, 0));
        lemma_mul_equals(d, mono(p, q, r, d, pw(1, 0, 0, 0, 0, 0, 0, 0, 0, 0, 0, 0, 0)), pq_t, b4);
        lemma_mul_is_distributive_add(mono(p, q, r, d, pw(1, 0, 0, 0, 0, 0, 0, 0, 0, 0, 0, 0, 0)), b3, mono(p, q, r, d, pw(0, 2, 0, 0, 0, 1, 1, 0, 0, 0, 0, 0, 0)));
        lemma_mul_is_distributive_add(mono(p, q, r, d, pw(1, 0, 0, 0, 0, 0, 0, 0, 0, 0, 0, 0, 0)), b2, mono(p, q, r, d, pw(0, 1, 1, 0, 0, 2, 0, 0, 0, 0, 0, 0, 0)));
        lemma_mul_is_distributive_add(mono(p, q, r, d, pw(1, 0, 0, 0, 0, 0, 0, 0, 0, 0, 0, 0, 0)), mono(p, q, r, d, pw(0, 0, 2, 0, 0, 1, 1, 0, 0, 0, 0, 0, 0)), mono(p, q, r, d, pw(0, 1, 1, 0, 0, 0, 2, 0, 0, 0, 0, 0, 0)));
        lemma_term_mul(p, q, r, d, 1, pw(1, 0, 0, 0, 0, 0, 0, 0, 0, 0, 0, 0, 0), 1, pw(0, 0, 2, 0, 0, 1, 1, 0, 0, 0, 0, 0, 0));
        lemma_term_mul(p, q, r, d, 1, pw(1, 0, 0, 0, 0, 0, 0, 0, 0, 0, 0, 0, 0), 1, pw(0, 1, 1, 0, 0, 0, 2, 0, 0, 0, 0, 0, 0));
        lemma_term_mul(p, q, r, d, 1, pw(1, 0, 0, 0, 0, 0, 0, 0, 0, 0, 0, 0, 0), 1, pw(0, 1, 1, 0, 0, 2, 0, 0, 0, 0, 0, 0, 0));
        lemma_term_mul(p, q, r, d, 1, pw(1, 0, 0, 0, 0, 0, 0, 0, 0, 0, 0, 0, 0), 1, pw(0, 2, 0, 0, 0, 1, 1, 0, 0, 0, 0, 0, 0));
    };
    assert(d * pq_t * r.t == mono(p, q, r, d, pw(1, 0, 2, 0, 0, 1, 1, 0, 0, 0, 0, 1, 0))
        + mono(p, q, r, d, pw(1, 1, 1, 0, 0, 0, 2, 0, 0, 0, 0, 1, 0))
        + mono(p, q, r, d, pw(1, 1, 1, 0, 0, 2, 0, 0, 0, 0, 0, 1, 0))
        + mono(p, q, r, d, pw(1, 2, 0, 0, 0, 1, 1, 0, 0, 0, 0, 1, 0))) by {
        let a2 = mono(p, q, r, d, pw(1, 0, 2, 0, 0, 1, 1, 0, 0, 0, 0, 0, 0)) + mono(p, q, r, d, pw(1, 1, 1, 0, 0, 0, 2, 0, 0, 0, 0, 0, 0));
        let a3 = a2 + mono(p, q, r, d, pw(1, 1, 1, 0, 0, 2, 0, 0, 0, 0, 0, 0, 0));
        let a4 = a3 + mono(p, q, r, d, pw(1, 2, 0, 0, 0, 1, 1, 0, 0, 0, 0, 0, 0));
        lemma_mul_equals(d * pq_t, a4, r.t, mono(p, q, r, d, pw(0, 0, 0, 0, 0, 0, 0, 0, 0, 0, 0, 1, 0)));
        lemma_mul_is_distributive_add_other_way(mono(p, q, r, d, pw(0, 0, 0, 0, 0, 0, 0, 0, 0, 0, 0, 1, 0)), a3, mono(p, q, r, d, pw(1, 2, 0, 0, 0, 1, 1, 0, 0, 0, 0, 0, 0)));
        lemma_mul_is_distributive_add_other_way(mono(p, q, r, d, pw(0, 0, 0, 0, 0, 0, 0, 0, 0, 0, 0, 1, 0)), a2, mono(p, q, r, d, pw(1, 1, 1, 0, 0, 2, 0, 0, 0, 0, 0, 0, 0)));
        lemma_mul_is_distributive_add_other_way(mono(p, q, r, d, pw(0, 0, 0, 0, 0, 0, 0, 0, 0, 0, 0, 1, 0)), mono(p, q, r, d, pw(1, 0, 2, 0, 0, 1, 1, 0, 0, 0, 0, 0, 0)), mono(p, q, r, d, pw(1, 1, 1, 0, 0, 0, 2, 0, 0, 0, 0, 0, 0)));
        lemma_term_mul(p, q, r, d, 1, pw(1, 0, 2, 0, 0, 1, 1, 0, 0, 0, 0, 0, 0), 1, pw(0, 0, 0, 0, 0, 0, 0, 0, 0, 0, 0, 1, 0));
        lemma_term_mul(p, q, r, d, 1, pw(1, 1, 1, 0, 0, 0, 2, 0, 0, 0, 0, 0, 0), 1, pw(0, 0, 0, 0, 0, 0, 0, 0, 0, 0, 0, 1, 0));
        lemma_term_mul(p, q, r, d, 1, pw(1, 1, 1, 0, 0, 2, 0, 0, 0, 0, 0, 0, 0), 1, pw(0, 0, 0, 0, 0, 0, 0, 0, 0, 0, 0, 1, 0));
        lemma_term_mul(p, q, r, d, 1, pw(1, 2, 0, 0, 0, 1, 1, 0, 0, 0, 0, 0, 0), 1, pw(0, 0, 0, 0, 0, 0, 0, 0, 0, 0, 0, 1, 0));
    };
    assert(fl == mono(p, q, r, d, pw(0, 0, 0, 0, 2, 0, 0, 0, 2, 0, 0, 0, 1))
        - mono(p, q, r, d, pw(2, 0, 0, 2, 0, 0, 0, 2, 0, 0, 0, 0, 1))
        - mono(p, q, r, d, pw(1, 0, 2, 0, 0, 1, 1, 0, 0, 0, 0, 1, 0))
        - mono(p, q, r, d, pw(1, 1, 1, 0, 0, 0, 2, 0, 0, 0, 0, 1, 0))
        - mono(p, q, r, d, pw(1, 1, 1, 0, 0, 2, 0, 0, 0, 0, 0, 1, 0))
        - mono(p, q, r, d, pw(1, 2, 0, 0, 0, 1, 1, 0, 0, 0, 0, 1, 0)));
    assert(hr * fl == mono(p, q, r, d, pw(3, 1, 0, 2, 0, 0, 1, 3, 0, 1, 0, 1, 1))
        + mono(p, q, r, d, pw(3, 1, 0, 2, 0, 1, 0, 3, 0, 0, 1, 1, 1))
        + mono(p, q, r, d, pw(2, 2, 1, 0, 0, 0, 3, 1, 0, 1, 0, 2, 0))
        + mono(p, q, r, d, pw(2, 2, 1, 0, 0, 3, 0, 1, 0, 0, 1, 2, 0))
        + mono(p, q, r, d, pw(2, 3, 0, 0, 0, 1, 2, 1, 0, 1, 0, 2, 0))
        + mono(p, q, r, d, pw(2, 3, 0, 0, 0, 2, 1, 1, 0, 0, 1, 2, 0))
        + mono(p, q, r, d, pw(1, 0, 1, 0, 2, 0, 1, 1, 2, 0, 1, 1, 1))
        + mono(p, q, r, d, pw(1, 0, 1, 0, 2, 1, 0, 1, 2, 1, 0, 1, 1))
        + mono(p, q, r, d, pw(0, 0, 1, 0, 2, 0, 1, 0, 3, 0, 1, 0, 2))
        + mono(p, q, r, d, pw(0, 0, 1, 0, 2, 1, 0, 0, 3, 1, 0, 0, 2))
        + mono(p, q, r, d, pw(0, 1, 0, 0, 2, 0, 1, 0, 3, 1, 0, 0, 2))
        + mono(p, q, r, d, pw(0, 1, 0, 0, 2, 1, 0, 0, 3, 0, 1, 0, 2))
        - mono(p, q, r, d, pw(3, 0, 1, 2, 0, 0, 1, 3, 0, 0, 1, 1, 1))
        - mono(p, q, r, d, pw(3, 0, 1, 2, 0, 1, 0, 3, 0, 1, 0, 1, 1))
        - mono(p, q, r, d, pw(2, 0, 1, 2, 0, 0, 1, 2, 1, 0, 1, 0, 2))
        - mono(p, q, r, d, pw(2, 0, 1, 2, 0, 1, 0, 2, 1, 1, 0, 0, 2))
        - mono(p, q, r, d, pw(2, 0, 3, 0, 0, 1, 2, 1, 0, 0, 1, 2, 0))
        - mono(p, q, r, d, pw(2, 0, 3, 0, 0, 2, 1, 1, 0, 1, 0, 2, 0))
        - mono(p, q, r, d, pw(2, 1, 0, 2, 0, 0, 1, 2, 1, 1, 0, 0, 2))
        - mono(p, q, r, d, pw(2, 1, 0, 2, 0, 1, 0, 2, 1, 0, 1, 0, 2))
        - mono(p, q, r, d, pw(2, 1, 2, 0, 0, 0, 3, 1, 0, 0, 1, 2, 0))
        - mono(p, q, r, d, pw(2, 1, 2, 0, 0, 3, 0, 1, 0, 1, 0, 2, 0))
        - mono(p, q, r, d, pw(1, 0, 3, 0, 0, 1, 2, 0, 1, 0, 1, 1, 1))
        - mono(p, q, r, d, pw(1, 0, 3, 0, 0, 2, 1, 0, 1, 1, 0, 1, 1))
        - mono(p, q, r, d, pw(1, 1, 0, 0, 2, 0, 1, 1, 2, 1, 0, 1, 1))
        - mono(p, q, r, d, pw(1, 1, 0, 0, 2, 1, 0, 1, 2, 0, 1, 1, 1))
        - mono(p, q, r, d, pw(1, 1, 2, 0, 0, 0, 3, 0, 1, 0, 1, 1, 1))
        - 2 * mono(p, q, r, d, pw(1, 1, 2, 0, 0, 1, 2, 0, 1, 1, 0, 1, 1))
        - 2 * mono(p, q, r, d, pw(1, 1, 2, 0, 0, 2, 1, 0, 1, 0, 1, 1, 1))
        - mono(p, q, r, d, pw(1, 1, 2, 0, 0, 3, 0, 0, 1, 1, 0, 1, 1))
        - mono(p, q, r, d, pw(1, 2, 1, 0, 0, 0, 3, 0, 1, 1, 0, 1, 1))
        - 2 * mono(p, q, r, d, pw(1, 2, 1, 0, 0, 1, 2, 0, 1, 0, 1, 1, 1))
        - 2 * mono(p, q, r, d, pw(1, 2, 1, 0, 0, 2, 1, 0, 1, 1, 0, 1, 1))
        - mono(p, q, r, d, pw(1, 2, 1, 0, 0, 3, 0, 0, 1, 0, 1, 1, 1))
        - mono(p, q, r, d, pw(1, 3, 0, 0, 0, 1, 2, 0, 1, 1, 0, 1, 1))
        - mono(p, q, r, d, pw(1, 3, 0, 0, 0, 2, 1, 0, 1, 0, 1, 1, 1))) by {
        let a2 = mono(p, q, r, d, pw(1, 0, 1, 0, 0, 0, 1, 1, 0, 0, 1, 1, 0)) + mono(p, q, r, d, pw(1, 0, 1, 0, 0, 1, 0, 1, 0, 1, 0, 1, 0));
        let a3 = a2 + mono(p, q, r, d, pw(0, 0, 1, 0, 0, 0, 1, 0, 1, 0, 1, 0, 1));
        let a4 = a3 + mono(p, q, r, d, pw(0, 0, 1, 0, 0, 1, 0, 0, 1, 1, 0, 0, 1));
        let a5 = a4 + mono(p, q, r, d, pw(0, 1, 0, 0, 0, 0, 1, 0, 1, 1, 0, 0, 1));
        let a6 = a5 + mono(p, q, r, d, pw(0, 1, 0, 0, 0, 1, 0, 0, 1, 0, 1, 0, 1));
        let a7 = a6 - mono(p, q, r, d, pw(1, 1, 0, 0, 0, 0, 1, 1, 0, 1, 0, 1, 0));
        let a8 = a7 - mono(p, q, r, d, pw(1, 1, 0, 0, 0, 1, 0, 1, 0, 0, 1, 1, 0));
        let b2 = mono(p, q, r, d, pw(0, 0, 0, 0, 2, 0, 0, 0, 2, 0, 0, 0, 1)) - mono(p, q, r, d, pw(2, 0, 0, 2, 0, 0, 0, 2, 0, 0, 0, 0, 1));
        let b3 = b2 - mono(p, q, r, d, pw(1, 0, 2, 0, 0, 1, 1, 0, 0, 0, 0, 1, 0));
        let b4 = b3 - mono(p, q, r, d, pw(1, 1, 1, 0, 0, 0, 2, 0, 0, 0, 0, 1, 0));
        let b5 = b4 - mono(p, q, r, d, pw(1, 1, 1, 0, 0, 2, 0, 0, 0, 0, 0, 1, 0));
        let b6 = b5 - mono(p, q, r, d, pw(1, 2, 0, 0, 0, 1, 1, 0, 0, 0, 0, 1, 0));
        lemma_mul_equals(hr, a8, fl, b6);
        lemma_mul_is_distributive_sub(a8, b5, mono(p, q, r, d, pw(1, 2, 0, 0, 0, 1, 1, 0, 0, 0, 0, 1, 0)));
        lemma_mul_is_distributive_sub(a8, b4, mono(p, q, r, d, pw(1, 1, 1, 0, 0, 2, 0, 0, 0, 0, 0, 1, 0)));
        lemma_mul_is_distributive_sub(a8, b3, mono(p, q, r, d, pw(1, 1, 1, 0, 0, 0, 2, 0, 0, 0, 0, 1, 0)));
        lemma_mul_is_distributive_sub(a8, b2, mono(p, q, r, d, pw(1, 0, 2, 0, 0, 1, 1, 0, 0, 0, 0, 1, 0)));
        lemma_mul_is_distributive_sub(a8, mono(p, q, r, d, pw(0, 0, 0, 0, 2, 0, 0, 0, 2, 0, 0, 0, 1)), mono(p, q, r, d, pw(2, 0, 0, 2, 0, 0, 0, 2, 0, 0, 0, 0, 1)));
        lemma_mul_is_distributive_sub_other_way(mono(p, q, r, d, pw(0, 0, 0, 0, 2, 0, 0, 0, 2, 0, 0, 0, 1)), a7, mono(p, q, r, d, pw(1, 1, 0, 0, 0, 1, 0, 1, 0, 0, 1, 1, 0)));
        lemma_mul_is_distributive_sub_other_way(mono(p, q, r, d, pw(0, 0, 0, 0, 2, 0, 0, 0, 2, 0, 0, 0, 1)), a6, mono(p, q, r, d, pw(1, 1, 0, 0, 0, 0, 1, 1, 0, 1, 0, 1, 0)));
        lemma_mul_is_distributive_add_other_way(mono(p, q, r, d, pw(0, 0, 0, 0, 2, 0, 0, 0, 2, 0, 0, 0, 1)), a5, mono(p, q, r, d, pw(0, 1, 0, 0, 0, 1, 0, 0, 1, 0, 1, 0, 1)));
        lemma_mul_is_distributive_add_other_way(mono(p, q, r, d, pw(0, 0, 0, 0, 2, 0, 0, 0, 2, 0, 0, 0, 1)), a4, mono(p, q, r, d, pw(0, 1, 0, 0, 0, 0, 1, 0, 1, 1, 0, 0, 1)));
        lemma_mul_is_distributive_add_other_way(mono(p, q, r, d, pw(0, 0, 0, 0, 2, 0, 0, 0, 2, 0, 0, 0, 1)), a3, mono(p, q, r, d, pw(0, 0, 1, 0, 0, 1, 0, 0, 1, 1, 0, 0, 1)));
        lemma_mul_is_distributive_add_other_way(mono(p, q, r, d, pw(0, 0, 0, 0, 2, 0, 0, 0, 2, 0, 0, 0, 1)), a2, mono(p, q, r, d, pw(0, 0, 1, 0, 0, 0, 1, 0, 1, 0, 1, 0, 1)));
        lemma_mul_is_distributive_add_other_way(mono(p, q, r, d, pw(0, 0, 0, 0, 2, 0, 0, 0, 2, 0, 0, 0, 1)), mono(p, q, r, d, pw(1, 0, 1, 0, 0, 0, 1, 1, 0, 0, 1, 1, 0)), mono(p, q, r, d, pw(1, 0, 1, 0, 0, 1, 0, 1, 0, 1, 0, 1, 0)));
        lemma_mul_is_distributive_sub_other_way(mono(p, q, r, d, pw(2, 0, 0, 2, 0, 0, 0, 2, 0, 0, 0, 0, 1)), a7, mono(p, q, r, d, pw(1, 1, 0, 0, 0, 1, 0, 1, 0, 0, 1, 1, 0)));
        lemma_mul_is_distributive_sub_other_way(mono(p, q, r, d, pw(2, 0, 0, 2, 0, 0, 0, 2, 0, 0, 0, 0, 1)), a6, mono(p, q, r, d, pw(1, 1, 0, 0, 0, 0, 1, 1, 0, 1, 0, 1, 0)));
        lemma_mul_is_distributive_add_other_way(mono(p, q, r, d, pw(2, 0, 0, 2, 0, 0, 0, 2, 0, 0, 0, 0, 1)), a5, mono(p, q, r, d, pw(0, 1, 0, 0, 0, 1, 0, 0, 1, 0, 1, 0, 1)));
        lemma_mul_is_distributive_add_other_way(mono(p, q, r, d, pw(2, 0, 0, 2, 0, 0, 0, 2, 0, 0, 0, 0, 1)), a4, mono(p, q, r, d, pw(0, 1, 0, 0, 0, 0, 1, 0, 1, 1, 0, 0, 1)));
        lemma_mul_is_distributive_add_other_way(mono(p, q, r, d, pw(2, 0, 0, 2, 0, 0, 0, 2, 0, 0, 0, 0, 1)), a3, mono(p, q, r, d, pw(0, 0, 1, 0, 0, 1, 0, 0, 1, 1, 0, 0, 1)));
        lemma_mul_is_distributive_add_other_way(mono(p, q, r, d, pw(2, 0, 0, 2, 0, 0, 0, 2, 0, 0, 0, 0, 1)), a2, mono(p, q, r, d, pw(0, 0, 1, 0, 0, 0, 1, 0, 1, 0, 1, 0, 1)));
        lemma_mul_is_distributive_add_other_way(mono(p, q, r, d, pw(2, 0, 0, 2, 0, 0, 0, 2, 0, 0, 0, 0, 1)), mono(p, q, r, d, pw(1, 0, 1, 0, 0, 0, 1, 1, 0, 0, 1, 1, 0)), mono(p, q, r, d, pw(1, 0, 1, 0, 0, 1, 0, 1, 0, 1, 0, 1, 0)));
        lemma_mul_is_distributive_sub_other_way(mono(p, q, r, d, pw(1, 0, 2, 0, 0, 1, 1, 0, 0, 0, 0, 1, 0)), a7, mono(p, q, r, d, pw(1, 1, 0, 0, 0, 1, 0, 1, 0, 0, 1, 1, 0)));
        lemma_mul_is_distributive_sub_other_way(mono(p, q, r, d, pw(1, 0, 2, 0, 0, 1, 1, 0, 0, 0, 0, 1, 0)), a6, mono(p, q, r, d, pw(1, 1, 0, 0, 0, 0, 1, 1, 0, 1, 0, 1, 0)));
        lemma_mul_is_distributive_add_other_way(mono(p, q, r, d, pw(1, 0, 2, 0, 0, 1, 1, 0, 0, 0, 0, 1, 0)), a5, mono(p, q, r, d, pw(0, 1, 0, 0, 0, 1, 0, 0, 1, 0, 1, 0, 1)));
        lemma_mul_is_distributive_add_other_way(mono(p, q, r, d, pw(1, 0, 2, 0, 0, 1, 1, 0, 0, 0, 0, 1, 0)), a4, mono(p, q, r, d, pw(0, 1, 0, 0, 0, 0, 1, 0, 1, 1, 0, 0, 1)));
        lemma_mul_is_distributive_add_other_way(mono(p, q, r, d, pw(1, 0, 2, 0, 0, 1, 1, 0, 0, 0, 0, 1, 0)), a3, mono(p, q, r, d, pw(0, 0, 1, 0, 0, 1, 0, 0, 1, 1, 0, 0, 1)));
        lemma_mul_is_distributive_add_other_way(mono(p, q, r, d, pw(1, 0, 2, 0, 0, 1, 1, 0, 0, 0, 0, 1, 0)), a2, mono(p, q, r, d, pw(0, 0, 1, 0, 0, 0, 1, 0, 1, 0, 1, 0, 1)));
        lemma_mul_is_distributive_add_other_way(mono(p, q, r, d, pw(1, 0, 2, 0, 0, 1, 1, 0, 0, 0, 0, 1, 0)), mono(p, q, r, d, pw(1, 0, 1, 0, 0, 0, 1, 1, 0, 0, 1, 1, 0)), mono(p, q, r, d, pw(1, 0, 1, 0, 0, 1, 0, 1, 0, 1, 0, 1, 0)));
        lemma_mul_is_distributive_sub_other_way(mono(p, q, r, d, pw(1, 1, 1, 0, 0, 0, 2, 0, 0, 0, 0, 1, 0)), a7, mono(p, q, r, d, pw(1, 1, 0, 0, 0, 1, 0, 1, 0, 0, 1, 1, 0)));
        lemma_mul_is_distributive_sub_other_way(mono(p, q, r, d, pw(1, 1, 1, 0, 0, 0, 2, 0, 0, 0, 0, 1, 0)), a6, mono(p, q, r, d, pw(1, 1, 0, 0, 0, 0, 1, 1, 0, 1, 0, 1, 0)));
        lemma_mul_is_distributive_add_other_way(mono(p, q, r, d, pw(1, 1, 1, 0, 0, 0, 2, 0, 0, 0, 0, 1, 0)), a5, mono(p, q, r, d, pw(0, 1, 0, 0, 0, 1, 0, 0, 1, 0, 1, 0, 1)));
        lemma_mul_is_distributive_add_other_way(mono(p, q, r, d, pw(1, 1, 1, 0, 0, 0, 2, 0, 0, 0, 0, 1, 0)), a4, mono(p, q, r, d, pw(0, 1, 0, 0, 0, 0, 1, 0, 1, 1, 0, 0, 1)));
        lemma_mul_is_distributive_add_other_way(mono(p, q, r, d, pw(1, 1, 1, 0, 0, 0, 2, 0, 0, 0, 0, 1, 0)), a3, mono(p, q, r, d, pw(0, 0, 1, 0, 0, 1, 0, 0, 1, 1, 0, 0, 1)));
        lemma_mul_is_distributive_add_other_way(mono(p, q, r, d, pw(1, 1, 1, 0, 0, 0, 2, 0, 0, 0, 0, 1, 0)), a2, mono(p, q, r, d, pw(0, 0, 1, 0, 0, 0, 1, 0, 1, 0, 1, 0, 1)));
        lemma_mul_is_distributive_add_other_way(mono(p, q, r, d, pw(1, 1, 1, 0, 0, 0, 2, 0, 0, 0, 0, 1, 0)), mono(p, q, r, d, pw(1, 0, 1, 0, 0, 0, 1, 1, 0, 0, 1, 1, 0)), mono(p, q, r, d, pw(1, 0, 1, 0, 0, 1, 0, 1, 0, 1, 0, 1, 0)));
        lemma_mul_is_distributive_sub_other_way(mono(p, q, r, d, pw(1, 1, 1, 0, 0, 2, 0, 0, 0, 0, 0, 1, 0)), a7, mono(p, q, r, d, pw(1, 1, 0, 0, 0, 1, 0, 1, 0, 0, 1, 1, 0)));
        lemma_mul_is_distributive_sub_other_way(mono(p, q, r, d, pw(1, 1, 1, 0, 0, 2, 0, 0, 0, 0, 0, 1, 0)), a6, mono(p, q, r, d, pw(1, 1, 0, 0, 0, 0, 1, 1, 0, 1, 0, 1, 0)));
        lemma_mul_is_distributive_add_other_way(mono(p, q, r, d, pw(1, 1, 1, 0, 0, 2, 0, 0, 0, 0, 0, 1, 0)), a5, mono(p, q, r, d, pw(0, 1, 0, 0, 0, 1, 0, 0, 1, 0, 1, 0, 1)));
        lemma_mul_is_distributive_add_other_way(mono(p, q, r, d, pw(1, 1, 1, 0, 0, 2, 0, 0, 0, 0, 0, 1, 0)), a4, mono(p, q, r, d, pw(0, 1, 0, 0, 0, 0, 1, 0, 1, 1, 0, 0, 1)));
        lemma_mul_is_distributive_add_other_way(mono(p, q, r, d, pw(1, 1, 1, 0, 0, 2, 0, 0, 0, 0, 0, 1, 0)), a3, mono(p, q, r, d, pw(0, 0, 1, 0, 0, 1, 0, 0, 1, 1, 0, 0, 1)));
        lemma_mul_is_distributive_add_other_way(mono(p, q, r, d, pw(1, 1, 1, 0, 0, 2, 0, 0, 0, 0, 0, 1, 0)), a2, mono(p, q, r, d, pw(0, 0, 1, 0, 0, 0, 1, 0, 1, 0, 1, 0, 1)));
        lemma_mul_is_distributive_add_other_way(mono(p, q, r, d, pw(1, 1, 1, 0, 0, 2, 0, 0, 0, 0, 0, 1, 0)), mono(p, q, r, d, pw(1, 0, 1, 0, 0, 0, 1, 1, 0, 0, 1, 1, 0)), mono(p, q, r, d, pw(1, 0, 1, 0, 0, 1, 0, 1, 0, 1, 0, 1, 0)));
        lemma_mul_is_distributive_sub_other_way(mono(p, q, r, d, pw(1, 2, 0, 0, 0, 1, 1, 0, 0, 0, 0, 1, 0)), a7, mono(p, q, r, d, pw(1, 1, 0, 0, 0, 1, 0, 1, 0, 0, 1, 1, 0)));
        lemma_mul_is_distributive_sub_other_way(mono(p, q, r, d, pw(1, 2, 0, 0, 0, 1, 1, 0, 0, 0, 0, 1, 0)), a6, mono(p, q, r, d, pw(1, 1, 0, 0, 0, 0, 1, 1, 0, 1, 0, 1, 0)));
        lemma_mul_is_distributive_add_other_way(mono(p, q, r, d, pw(1, 2, 0, 0, 0, 1, 1, 0, 0, 0, 0, 1, 0)), a5, mono(p, q, r, d, pw(0, 1, 0, 0, 0, 1, 0, 0, 1, 0, 1, 0, 1)));
        lemma_mul_is_distributive_add_other_way(mono(p, q, r, d, pw(1, 2, 0, 0, 0, 1, 1, 0, 0, 0, 0, 1, 0)), a4, mono(p, q, r, d, pw(0, 1, 0, 0, 0, 0, 1, 0, 1, 1, 0, 0, 1)));
        lemma_mul_is_distributive_add_other_way(mono(p, q, r, d, pw(1, 2, 0, 0, 0, 1, 1, 0, 0, 0, 0, 1, 0)), a3, mono(p, q, r, d, pw(0, 0, 1, 0, 0, 1, 0, 0, 1, 1, 0, 0, 1)));
        lemma_mul_is_distributive_add_other_way(mono(p, q, r, d, pw(1, 2, 0, 0, 0, 1, 1, 0, 0, 0, 0, 1, 0)), a2, mono(p, q, r, d, pw(0, 0, 1, 0, 0, 0, 1, 0, 1, 0, 1, 0, 1)));
        lemma_mul_is_distributive_add_other_way(mono(p, q, r, d, pw(1, 2, 0, 0, 0, 1, 1, 0, 0, 0, 0, 1, 0)), mono(p, q, r, d, pw(1, 0, 1, 0, 0, 0, 1, 1, 0, 0, 1, 1, 0)), mono(p, q, r, d, pw(1, 0, 1, 0, 0, 1, 0, 1, 0, 1, 0, 1, 0)));
        lemma_term_mul(p, q, r, d, 1, pw(1, 0, 1, 0, 0, 0, 1, 1, 0, 0, 1, 1, 0), 1, pw(0, 0, 0, 0, 2, 0, 0, 0, 2, 0, 0, 0, 1));
        lemma_term_mul(p, q, r, d, 1, pw(1, 0, 1, 0, 0, 0, 1, 1, 0, 0, 1, 1, 0), 1, pw(2, 0, 0, 2, 0, 0, 0, 2, 0, 0, 0, 0, 1));
        lemma_term_mul(p, q, r, d, 1, pw(1, 0, 1, 0, 0, 0, 1, 1, 0, 0, 1, 1, 0), 1, pw(1, 0, 2, 0, 0, 1, 1, 0, 0, 0, 0, 1, 0));
        lemma_term_mul(p, q, r, d, 1, pw(1, 0, 1, 0, 0, 0, 1, 1, 0, 0, 1, 1, 0), 1, pw(1, 1, 1, 0, 0, 0, 2, 0, 0, 0, 0, 1, 0));
        lemma_term_mul(p, q, r, d, 1, pw(1, 0, 1, 0, 0, 0, 1, 1, 0, 0, 1, 1, 0), 1, pw(1, 1, 1, 0, 0, 2, 0, 0, 0, 0, 0, 1, 0));
        lemma_term_mul(p, q, r, d, 1, pw(1, 0, 1, 0, 0, 0, 1, 1, 0, 0, 1, 1, 0), 1, pw(1, 2, 0, 0, 0, 1, 1, 0, 0, 0, 0, 1, 0));
        lemma_term_mul(p, q, r, d, 1, pw(1, 0, 1, 0, 0, 1, 0, 1, 0, 1, 0, 1, 0), 1, pw(0, 0, 0, 0, 2, 0, 0, 0, 2, 0, 0, 0, 1));
        lemma_term_mul(p, q, r, d, 1, pw(1, 0, 1, 0, 0, 1, 0, 1, 0, 1, 0, 1, 0), 1, pw(2, 0, 0, 2, 0, 0, 0, 2, 0, 0, 0, 0, 1));
        lemma_term_mul(p, q, r, d, 1, pw(1, 0, 1, 0, 0, 1, 0, 1, 0, 1, 0, 1, 0), 1, pw(1, 0, 2, 0, 0, 1, 1, 0, 0, 0, 0, 1, 0));
        lemma_term_mul(p, q, r, d, 1, pw(1, 0, 1, 0, 0, 1, 0, 1, 0, 1, 0, 1, 0), 1, pw(1, 1, 1, 0, 0, 0, 2, 0, 0, 0, 0, 1, 0));
        lemma_term_mul(p, q, r, d, 1, pw(1, 0, 1, 0, 0, 1, 0, 1, 0, 1, 0, 1, 0), 1, pw(1, 1, 1, 0, 0, 2, 0, 0, 0, 0, 0, 1, 0));
        lemma_term_mul(p, q, r, d, 1, pw(1, 0, 1, 0, 0, 1, 0, 1, 0, 1, 0, 1, 0), 1, pw(1, 2, 0, 0, 0, 1, 1, 0, 0, 0, 0, 1, 0));
        lemma_term_mul(p, q, r, d, 1, pw(0, 0, 1, 0, 0, 0, 1, 0, 1, 0, 1, 0, 1), 1, pw(0, 0, 0, 0, 2, 0, 0, 0, 2, 0, 0, 0, 1));
        lemma_term_mul(p, q, r, d, 1, pw(0, 0, 1, 0, 0, 0, 1, 0, 1, 0, 1, 0, 1), 1, pw(2, 0, 0, 2, 0, 0, 0, 2, 0, 0, 0, 0, 1));
        lemma_term_mul(p, q, r, d, 1, pw(0, 0, 1, 0, 0, 0, 1, 0, 1, 0, 1, 0, 1), 1, pw(1, 0, 2, 0, 0, 1, 1, 0, 0, 0, 0, 1, 0));
        lemma_term_mul(p, q, r, d, 1, pw(0, 0, 1, 0, 0, 0, 1, 0, 1, 0, 1, 0, 1), 1, pw(1, 1, 1, 0, 0, 0, 2, 0, 0, 0, 0, 1, 0));
        lemma_term_mul(p, q, r, d, 1, pw(0, 0, 1, 0, 0, 0, 1, 0, 1, 0, 1, 0, 1), 1, pw(1, 1, 1, 0, 0, 2, 0, 0, 0, 0, 0, 1, 0));
        lemma_term_mul(p, q, r, d, 1, pw(0, 0, 1, 0, 0, 0, 1, 0, 1, 0, 1, 0, 1), 1, pw(1, 2, 0, 0, 0, 1, 1, 0, 0, 0, 0, 1, 0));
        lemma_term_mul(p, q, r, d, 1, pw(0, 0, 1, 0, 0, 1, 0, 0, 1, 1, 0, 0, 1), 1, pw(0, 0, 0, 0, 2, 0, 0, 0, 2, 0, 0, 0, 1));
        lemma_term_mul(p, q, r, d, 1, pw(0, 0, 1, 0, 0, 1, 0, 0, 1, 1, 0, 0, 1), 1, pw(2, 0, 0, 2, 0, 0, 0, 2, 0, 0, 0, 0, 1));
        lemma_term_mul(p, q, r, d, 1, pw(0, 0, 1, 0, 0, 1, 0, 0, 1, 1, 0, 0, 1), 1, pw(1, 0, 2, 0, 0, 1, 1, 0, 0, 0, 0, 1, 0));
        lemma_term_mul(p, q, r, d, 1, pw(0, 0, 1, 0, 0, 1, 0, 0, 1, 1, 0, 0, 1), 1, pw(1, 1, 1, 0, 0, 0, 2, 0, 0, 0, 0, 1, 0));
        lemma_term_mul(p, q, r, d, 1, pw(0, 0, 1, 0, 0, 1, 0, 0, 1, 1, 0, 0, 1), 1, pw(1, 1, 1, 0, 0, 2, 0, 0, 0, 0, 0, 1, 0));
        lemma_term_mul(p, q, r, d, 1, pw(0, 0, 1, 0, 0, 1, 0, 0, 1, 1, 0, 0, 1), 1, pw(1, 2, 0, 0, 0, 1, 1, 0, 0, 0, 0, 1, 0));
        lemma_term_mul(p, q, r, d, 1, pw(0, 1, 0, 0, 0, 0, 1, 0, 1, 1, 0, 0, 1), 1, pw(0, 0, 0, 0, 2, 0, 0, 0, 2, 0, 0, 0, 1));
        lemma_term_mul(p, q, r, d, 1, pw(0, 1, 0, 0, 0, 0, 1, 0, 1, 1, 0, 0, 1), 1, pw(2, 0, 0, 2, 0, 0, 0, 2, 0, 0, 0, 0, 1));
        lemma_term_mul(p, q, r, d, 1, pw(0, 1, 0, 0, 0, 0, 1, 0, 1, 1, 0, 0, 1), 1, pw(1, 0, 2, 0, 0, 1, 1, 0, 0, 0, 0, 1, 0));
        lemma_term_mul(p, q, r, d, 1, pw(0, 1, 0, 0, 0, 0, 1, 0, 1, 1, 0, 0, 1), 1, pw(1, 1, 1, 0, 0, 0, 2, 0, 0, 0, 0, 1, 0));
        lemma_term_mul(p, q, r, d, 1, pw(0, 1, 0, 0, 0, 0, 1, 0, 1, 1, 0, 0, 1), 1, pw(1, 1, 1, 0, 0, 2, 0, 0, 0, 0, 0, 1, 0));
        lemma_term_mul(p, q, r, d, 1, pw(0, 1, 0, 0, 0, 0, 1, 0, 1, 1, 0, 0, 1), 1, pw(1, 2, 0, 0, 0, 1, 1, 0, 0, 0, 0, 1, 0));
        lemma_term_mul(p, q, r, d, 1, pw(0, 1, 0, 0, 0, 1, 0, 0, 1, 0, 1, 0, 1), 1, pw(0, 0, 0, 0, 2, 0, 0, 0, 2, 0, 0, 0, 1));
        lemma_term_mul(p, q, r, d, 1, pw(0, 1, 0, 0, 0, 1, 0, 0, 1, 0, 1, 0, 1), 1, pw(2, 0, 0, 2, 0, 0, 0, 2, 0, 0, 0, 0, 1));
        lemma_term_mul(p, q, r, d, 1, pw(0, 1, 0, 0, 0, 1, 0, 0, 1, 0, 1, 0, 1), 1, pw(1, 0, 2, 0, 0, 1, 1, 0, 0, 0, 0, 1, 0));
        lemma_term_mul(p, q, r, d, 1, pw(0, 1, 0, 0, 0, 1, 0, 0, 1, 0, 1, 0, 1), 1, pw(1, 1, 1, 0, 0, 0, 2, 0, 0, 0, 0, 1, 0));
        lemma_term_mul(p, q, r, d, 1, pw(0, 1, 0, 0, 0, 1, 0, 0, 1, 0, 1, 0, 1), 1, pw(1, 1, 1, 0, 0, 2, 0, 0, 0, 0, 0, 1, 0));
        lemma_term_mul(p, q, r, d, 1, pw(0, 1, 0, 0, 0, 1, 0, 0, 1, 0, 1, 0, 1), 1, pw(1, 2, 0, 0, 0, 1, 1, 0, 0, 0, 0, 1, 0));
        lemma_term_mul(p, q, r, d, 1, pw(1, 1, 0, 0, 0, 0, 1, 1, 0, 1, 0, 1, 0), 1, pw(0, 0, 0, 0, 2, 0, 0, 0, 2, 0, 0, 0, 1));
        lemma_term_mul(p, q, r, d, 1, pw(1, 1, 0, 0, 0, 0, 1, 1, 0, 1, 0, 1, 0), 1, pw(2, 0, 0, 2, 0, 0, 0, 2, 0, 0, 0, 0, 1));
        lemma_term_mul(p, q, r, d, 1, pw(1, 1, 0, 0, 0, 0, 1, 1, 0, 1, 0, 1, 0), 1, pw(1, 0, 2, 0, 0, 1, 1, 0, 0, 0, 0, 1, 0));
        lemma_term_mul(p, q, r, d, 1, pw(1, 1, 0, 0, 0, 0, 1, 1, 0, 1, 0, 1, 0), 1, pw(1, 1, 1, 0, 0, 0, 2, 0, 0, 0, 0, 1, 0));
        lemma_term_mul(p, q, r, d, 1, pw(1, 1, 0, 0, 0, 0, 1, 1, 0, 1, 0, 1, 0), 1, pw(1, 1, 1, 0, 0, 2, 0, 0, 0, 0, 0, 1, 0));
        lemma_term_mul(p, q, r, d, 1, pw(1, 1, 0, 0, 0, 0, 1, 1, 0, 1, 0, 1, 0), 1, pw(1, 2, 0, 0, 0, 1, 1, 0, 0, 0, 0, 1, 0));
        lemma_term_mul(p, q, r, d, 1, pw(1, 1, 0, 0, 0, 1, 0, 1, 0, 0, 1, 1, 0), 1, pw(0, 0, 0, 0, 2, 0, 0, 0, 2, 0, 0, 0, 1));
        lemma_term_mul(p, q, r, d, 1, pw(1, 1, 0, 0, 0, 1, 0, 1, 0, 0, 1, 1, 0), 1, pw(2, 0, 0, 2, 0, 0, 0, 2, 0, 0, 0, 0, 1));
        lemma_term_mul(p, q, r, d, 1, pw(1, 1, 0, 0, 0, 1, 0, 1, 0, 0, 1, 1, 0), 1, pw(1, 0, 2, 0, 0, 1, 1, 0, 0, 0, 0, 1, 0));
        lemma_term_mul(p, q, r, d, 1, pw(1, 1, 0, 0, 0, 1, 0, 1, 0, 0, 1, 1, 0), 1, pw(1, 1, 1, 0, 0, 0, 2, 0, 0, 0, 0, 1, 0));
        lemma_term_mul(p, q, r, d, 1, pw(1, 1, 0, 0, 0, 1, 0, 1, 0, 0, 1, 1, 0), 1, pw(1, 1, 1, 0, 0, 2, 0, 0, 0, 0, 0, 1, 0));
        lemma_term_mul(p, q, r, d, 1, pw(1, 1, 0, 0, 0, 1, 0, 1, 0, 0, 1, 1, 0), 1, pw(1, 2, 0, 0, 0, 1, 1, 0, 0, 0, 0, 1, 0));
    };
}

/// On the curve, the two sides of the law for the ordinate stand for the same field
/// element: their difference is a combination of what the equations of the curve
/// leave at `p`, `q` and `r`.
pub proof fn lemma_assoc_y_numerator(p: Coords, q: Coords, r: Coords, d: int)
    requires
        raw_on_curve(p, d),
        raw_on_curve(q, d),
        raw_on_curve(r, d),
    ensures
        cong(raw_h(raw_add(p, q, d), r) * raw_f(p, raw_add(q, r, d), d), raw_h(p, raw_add(q, r, d)) * raw_f(raw_add(p, q, d), r, d)),
{
    let lhs = raw_h(raw_add(p, q, d), r) * raw_f(p, raw_add(q, r, d), d);
    let rhs = raw_h(p, raw_add(q, r, d)) * raw_f(raw_add(p, q, d), r, d);
    let cp = curve_residue(p, d);
    let kp = product_residue(p);
    let cq = curve_residue(q, d);
    let kq = product_residue(q);
    let cr = curve_residue(r, d);
    let kr = product_residue(r);
    let m1 = assoc_y_cofactor_1(p, q, r, d);
    let m2 = assoc_y_cofactor_2(p, q, r, d);
    let m3 = assoc_y_cofactor_3(p, q, r, d);
    let m4 = assoc_y_cofactor_4(p, q, r, d);
    let m5 = assoc_y_cofactor_5(p, q, r, d);
    let m6 = assoc_y_cofactor_6(p, q, r, d);
    assert(lhs - rhs == m1 * cp + m2 * kp + m3 * cq + m4 * kq + m5 * cr + m6 * kr) by {
        lemma_assoc_y_left(p, q, r, d);
        lemma_assoc_y_right(p, q, r, d);
        // the multiples of what the first equation leaves
        let a1_2 = mono(p, q, r, d, pw(2, 0, 1, 0, 0, 1, 2, 1, 0, 0, 1, 2, 0)) + mono(p, q, r, d, pw(2, 0, 1, 0, 0, 2, 1, 1, 0, 1, 0, 2, 0));
        let a1_3 = a1_2 + mono(p, q, r, d, pw(2, 1, 0, 0, 0, 0, 1, 2, 1, 1, 0, 2, 0));
        let a1_4 = a1_3 + mono(p, q, r, d, pw(2, 1, 0, 0, 0, 1, 0, 2, 1, 0, 1, 2, 0));
        let a1_5 = a1_4 + mono(p, q, r, d, pw(1, 0, 1, 0, 0, 1, 0, 1, 2, 1, 0, 1, 1));
        let a1_6 = a1_5 + mono(p, q, r, d, pw(1, 0, 1, 0, 0, 1, 2, 0, 1, 0, 1, 1, 1));
        let a1_7 = a1_6 - mono(p, q, r, d, pw(1, 1, 0, 0, 0, 1, 2, 0, 1, 1, 0, 1, 1));
        let a1_8 = a1_7 - mono(p, q, r, d, pw(1, 1, 0, 0, 0, 2, 1, 0, 1, 0, 1, 1, 1));
        lemma_mul_equals(m1, a1_8, cp, cp);
        lemma_mul_is_distributive_sub_other_way(cp, a1_7, mono(p, q, r, d, pw(1, 1, 0, 0, 0, 2, 1, 0, 1, 0, 1, 1, 1)));
        lemma_mul_is_distributive_sub_other_way(cp, a1_6, mono(p, q, r, d, pw(1, 1, 0, 0, 0, 1, 2, 0, 1, 1, 0, 1, 1)));
        lemma_mul_is_distributive_add_other_way(cp, a1_5, mono(p, q, r, d, pw(1, 0, 1, 0, 0, 1, 2, 0, 1, 0, 1, 1, 1)));
        lemma_mul_is_distributive_add_other_way(cp, a1_4, mono(p, q, r, d, pw(1, 0, 1, 0, 0, 1, 0, 1, 2, 1, 0, 1, 1)));
        lemma_mul_is_distributive_add_other_way(cp, a1_3, mono(p, q, r, d, pw(2, 1, 0, 0, 0, 1, 0, 2, 1, 0, 1, 2, 0)));
        lemma_mul_is_distributive_add_other_way(cp, a1_2, mono(p, q, r, d, pw(2, 1, 0, 0, 0, 0, 1, 2, 1, 1, 0, 2, 0)));
        lemma_mul_is_distributive_add_other_way(cp, mono(p, q, r, d, pw(2, 0, 1, 0, 0, 1, 2, 1, 0, 0, 1, 2, 0)), mono(p, q, r, d, pw(2, 0, 1, 0, 0, 2, 1, 1, 0, 1, 0, 2, 0)));
        lemma_term_times_curve_residue_p(p, q, r, d, 1, pw(2, 0, 1, 0, 0, 1, 2, 1, 0, 0, 1, 2, 0));
        lemma_term_times_curve_residue_p(p, q, r, d, 1, pw(2, 0, 1, 0, 0, 2, 1, 1, 0, 1, 0, 2, 0));
        lemma_term_times_curve_residue_p(p, q, r, d, 1, pw(2, 1, 0, 0, 0, 0, 1, 2, 1, 1, 0, 2, 0));
        lemma_term_times_curve_residue_p(p, q, r, d, 1, pw(2, 1, 0, 0, 0, 1, 0, 2, 1, 0, 1, 2, 0));
        lemma_term_times_curve_residue_p(p, q, r, d, 1, pw(1, 0, 1, 0, 0, 1, 0, 1, 2, 1, 0, 1, 1));
        lemma_term_times_curve_residue_p(p, q, r, d, 1, pw(1, 0, 1, 0, 0, 1, 2, 0, 1, 0, 1, 1, 1));
        lemma_term_times_curve_residue_p(p, q, r, d, 1, pw(1, 1, 0, 0, 0, 1, 2, 0, 1, 1, 0, 1, 1));
        lemma_term_times_curve_residue_p(p, q, r, d, 1, pw(1, 1, 0, 0, 0, 2, 1, 0, 1, 0, 1, 1, 1));
        // the multiples of what the second equation leaves
        let a2_2 = mono(p, q, r, d, pw(2, 0, 1, 0, 0, 1, 0, 2, 1, 0, 1, 2, 0)) + mono(p, q, r, d, pw(2, 0, 1, 0, 0, 1, 2, 1, 0, 1, 0, 2, 0));
        let a2_3 = a2_2 + 2 * mono(p, q, r, d, pw(2, 1, 0, 0, 0, 0, 1, 2, 1, 1, 0, 1, 1));
        let a2_4 = a2_3 + mono(p, q, r, d, pw(2, 1, 0, 0, 0, 0, 3, 1, 0, 1, 0, 2, 0));
        let a2_5 = a2_4 + mono(p, q, r, d, pw(2, 1, 0, 0, 0, 3, 0, 1, 0, 0, 1, 2, 0));
        let a2_6 = a2_5 + 2 * mono(p, q, r, d, pw(1, 1, 0, 0, 0, 0, 1, 0, 3, 1, 0, 1, 1));
        let a2_7 = a2_6 - mono(p, q, r, d, pw(2, 0, 1, 0, 0, 0, 3, 1, 0, 0, 1, 2, 0));
        let a2_8 = a2_7 - mono(p, q, r, d, pw(2, 0, 1, 0, 0, 3, 0, 1, 0, 1, 0, 2, 0));
        let a2_9 = a2_8 - mono(p, q, r, d, pw(2, 1, 0, 0, 0, 1, 2, 1, 0, 0, 1, 2, 0));
        let a2_10 = a2_9 - mono(p, q, r, d, pw(2, 1, 0, 0, 0, 2, 1, 1, 0, 1, 0, 2, 0));
        let a2_11 = a2_10 - mono(p, q, r, d, pw(1, 0, 1, 0, 0, 0, 3, 0, 1, 0, 1, 1, 1));
        let a2_12 = a2_11 - 3 * mono(p, q, r, d, pw(1, 0, 1, 0, 0, 1, 2, 0, 1, 1, 0, 1, 1));
        let a2_13 = a2_12 - 3 * mono(p, q, r, d, pw(1, 0, 1, 0, 0, 2, 1, 0, 1, 0, 1, 1, 1));
        let a2_14 = a2_13 - mono(p, q, r, d, pw(1, 0, 1, 0, 0, 3, 0, 0, 1, 1, 0, 1, 1));
        let a2_15 = a2_14 - 3 * mono(p, q, r, d, pw(1, 1, 0, 0, 0, 0, 3, 0, 1, 1, 0, 1, 1));
        let a2_16 = a2_15 - mono(p, q, r, d, pw(1, 1, 0, 0, 0, 1, 0, 1, 2, 1, 0, 1, 1));
        let a2_17 = a2_16 - 3 * mono(p, q, r, d, pw(1, 1, 0, 0, 0, 1, 2, 0, 1, 0, 1, 1, 1));
        let a2_18 = a2_17 - mono(p, q, r, d, pw(1, 1, 0, 0, 0, 3, 0, 0, 1, 0, 1, 1, 1));
        lemma_mul_equals(m2, a2_18, kp, kp);
        lemma_mul_is_distributive_sub_other_way(kp, a2_17, mono(p, q, r, d, pw(1, 1, 0, 0, 0, 3, 0, 0, 1, 0, 1, 1, 1)));
        lemma_mul_is_distributive_sub_other_way(kp, a2_16, 3 * mono(p, q, r, d, pw(1, 1, 0, 0, 0, 1, 2, 0, 1, 0, 1, 1, 1)));
        lemma_mul_is_distributive_sub_other_way(kp, a2_15, mono(p, q, r, d, pw(1, 1, 0, 0, 0, 1, 0, 1, 2, 1, 0, 1, 1)));
        lemma_mul_is_distributive_sub_other_way(kp, a2_14, 3 * mono(p, q, r, d, pw(1, 1, 0, 0, 0, 0, 3, 0, 1, 1, 0, 1, 1)));
        lemma_mul_is_distributive_sub_other_way(kp, a2_13, mono(p, q, r, d, pw(1, 0, 1, 0, 0, 3, 0, 0, 1, 1, 0, 1, 1)));
        lemma_mul_is_distributive_sub_other_way(kp, a2_12, 3 * mono(p, q, r, d, pw(1, 0, 1, 0, 0, 2, 1, 0, 1, 0, 1, 1, 1)));
        lemma_mul_is_distributive_sub_other_way(kp, a2_11, 3 * mono(p, q, r, d, pw(1, 0, 1, 0, 0, 1, 2, 0, 1, 1, 0, 1, 1)));
        lemma_mul_is_distributive_sub_other_way(kp, a2_10, mono(p, q, r, d, pw(1, 0, 1, 0, 0, 0, 3, 0, 1, 0, 1, 1, 1)));
        lemma_mul_is_distributive_sub_other_way(kp, a2_9, mono(p, q, r, d, pw(2, 1, 0, 0, 0, 2, 1, 1, 0, 1, 0, 2, 0)));
        lemma_mul_is_distributive_sub_other_way(kp, a2_8, mono(p, q, r, d, pw(2, 1, 0, 0, 0, 1, 2, 1, 0, 0, 1, 2, 0)));
        lemma_mul_is_distributive_sub_other_way(kp, a2_7, mono(p, q, r, d, pw(2, 0, 1, 0, 0, 3, 0, 1, 0, 1, 0, 2, 0)));
        lemma_mul_is_distributive_sub_other_way(kp, a2_6, mono(p, q, r, d, pw(2, 0, 1, 0, 0, 0, 3, 1, 0, 0, 1, 2, 0)));
        lemma_mul_is_distributive_add_other_way(kp, a2_5, 2 * mono(p, q, r, d, pw(1, 1, 0, 0, 0, 0, 1, 0, 3, 1, 0, 1, 1)));
        lemma_mul_is_distributive_add_other_way(kp, a2_4, mono(p, q, r, d, pw(2, 1, 0, 0, 0, 3, 0, 1, 0, 0, 1, 2, 0)));
        lemma_mul_is_distributive_add_other_way(kp, a2_3, mono(p, q, r, d, pw(2, 1, 0, 0, 0, 0, 3, 1, 0, 1, 0, 2, 0)));
        lemma_mul_is_distributive_add_other_way(kp, a2_2, 2 * mono(p, q, r, d, pw(2, 1, 0, 0, 0, 0, 1, 2, 1, 1, 0, 1, 1)));
        lemma_mul_is_distributive_add_other_way(kp, mono(p, q, r, d, pw(2, 0, 1, 0, 0, 1, 0, 2, 1, 0, 1, 2, 0)), mono(p, q, r, d, pw(2, 0, 1, 0, 0, 1, 2, 1, 0, 1, 0, 2, 0)));
        lemma_term_times_product_residue_p(p, q, r, d, 1, pw(2, 0, 1, 0, 0, 1, 0, 2, 1, 0, 1, 2, 0));
        lemma_term_times_product_residue_p(p, q, r, d, 1, pw(2, 0, 1, 0, 0, 1, 2, 1, 0, 1, 0, 2, 0));
        lemma_term_times_product_residue_p(p, q, r, d, 2, pw(2, 1, 0, 0, 0, 0, 1, 2, 1, 1, 0, 1, 1));
        lemma_term_times_product_residue_p(p, q, r, d, 1, pw(2, 1, 0, 0, 0, 0, 3, 1, 0, 1, 0, 2, 0));
        lemma_term_times_product_residue_p(p, q, r, d, 1, pw(2, 1, 0, 0, 0, 3, 0, 1, 0, 0, 1, 2, 0));
        lemma_term_times_product_residue_p(p, q, r, d, 2, pw(1, 1, 0, 0, 0, 0, 1, 0, 3, 1, 0, 1, 1));
        lemma_term_times_product_residue_p(p, q, r, d, 1, pw(2, 0, 1, 0, 0, 0, 3, 1, 0, 0, 1, 2, 0));
        lemma_term_times_product_residue_p(p, q, r, d, 1, pw(2, 0, 1, 0, 0, 3, 0, 1, 0, 1, 0, 2, 0));
        lemma_term_times_product_residue_p(p, q, r, d, 1, pw(2, 1, 0, 0, 0, 1, 2, 1, 0, 0, 1, 2, 0));
        lemma_term_times_product_residue_p(p, q, r, d, 1, pw(2, 1, 0, 0, 0, 2, 1, 1, 0, 1, 0, 2, 0));
        lemma_term_times_product_residue_p(p, q, r, d, 1, pw(1, 0, 1, 0, 0, 0, 3, 0, 1, 0, 1, 1, 1));
        lemma_term_times_product_residue_p(p, q, r, d, 3, pw(1, 0, 1, 0, 0, 1, 2, 0, 1, 1, 0, 1, 1));
        lemma_term_times_product_residue_p(p, q, r, d, 3, pw(1, 0, 1, 0, 0, 2, 1, 0, 1, 0, 1, 1, 1));
        lemma_term_times_product_residue_p(p, q, r, d, 1, pw(1, 0, 1, 0, 0, 3, 0, 0, 1, 1, 0, 1, 1));
        lemma_term_times_product_residue_p(p, q, r, d, 3, pw(1, 1, 0, 0, 0, 0, 3, 0, 1, 1, 0, 1, 1));
        lemma_term_times_product_residue_p(p, q, r, d, 1, pw(1, 1, 0, 0, 0, 1, 0, 1, 2, 1, 0, 1, 1));
        lemma_term_times_product_residue_p(p, q, r, d, 3, pw(1, 1, 0, 0, 0, 1, 2, 0, 1, 0, 1, 1, 1));
        lemma_term_times_product_residue_p(p, q, r, d, 1, pw(1, 1, 0, 0, 0, 3, 0, 0, 1, 0, 1, 1, 1));
        // the multiples of what the third equation leaves
        let a3_2 = mono(p, q, r, d, pw(2, 0, 1, 1, 1, 0, 1, 1, 0, 0, 1, 2, 0)) + mono(p, q, r, d, pw(2, 1, 0, 1, 1, 1, 0, 1, 0, 0, 1, 2, 0));
        let a3_3 = a3_2 + mono(p, q, r, d, pw(2, 1, 0, 2, 0, 0, 1, 1, 0, 1, 0, 1, 1));
        let a3_4 = a3_3 + mono(p, q, r, d, pw(2, 1, 0, 2, 0, 1, 0, 1, 0, 0, 1, 1, 1));
        let a3_5 = a3_4 + mono(p, q, r, d, pw(1, 0, 1, 1, 1, 1, 0, 0, 1, 2, 1, 0, 0));
        let a3_6 = a3_5 + 2 * mono(p, q, r, d, pw(1, 1, 0, 1, 1, 0, 1, 0, 1, 2, 1, 0, 0));
        let a3_7 = a3_6 - mono(p, q, r, d, pw(2, 0, 1, 1, 1, 1, 0, 1, 0, 1, 0, 2, 0));
        let a3_8 = a3_7 - mono(p, q, r, d, pw(2, 0, 1, 2, 0, 0, 1, 1, 0, 0, 1, 1, 1));
        let a3_9 = a3_8 - mono(p, q, r, d, pw(2, 0, 1, 2, 0, 1, 0, 1, 0, 1, 0, 1, 1));
        let a3_10 = a3_9 - mono(p, q, r, d, pw(2, 1, 0, 1, 1, 0, 1, 1, 0, 1, 0, 2, 0));
        let a3_11 = a3_10 - mono(p, q, r, d, pw(1, 0, 1, 1, 1, 1, 0, 0, 1, 1, 0, 1, 1));
        let a3_12 = a3_11 - 2 * mono(p, q, r, d, pw(1, 2, 1, 0, 0, 0, 1, 0, 1, 1, 0, 1, 1));
        lemma_mul_equals(m3, a3_12, cq, cq);
        lemma_mul_is_distributive_sub_other_way(cq, a3_11, 2 * mono(p, q, r, d, pw(1, 2, 1, 0, 0, 0, 1, 0, 1, 1, 0, 1, 1)));
        lemma_mul_is_distributive_sub_other_way(cq, a3_10, mono(p, q, r, d, pw(1, 0, 1, 1, 1, 1, 0, 0, 1, 1, 0, 1, 1)));
        lemma_mul_is_distributive_sub_other_way(cq, a3_9, mono(p, q, r, d, pw(2, 1, 0, 1, 1, 0, 1, 1, 0, 1, 0, 2, 0)));
        lemma_mul_is_distributive_sub_other_way(cq, a3_8, mono(p, q, r, d, pw(2, 0, 1, 2, 0, 1, 0, 1, 0, 1, 0, 1, 1)));
        lemma_mul_is_distributive_sub_other_way(cq, a3_7, mono(p, q, r, d, pw(2, 0, 1, 2, 0, 0, 1, 1, 0, 0, 1, 1, 1)));
        lemma_mul_is_distributive_sub_other_way(cq, a3_6, mono(p, q, r, d, pw(2, 0, 1, 1, 1, 1, 0, 1, 0, 1, 0, 2, 0)));
        lemma_mul_is_distributive_add_other_way(cq, a3_5, 2 * mono(p, q, r, d, pw(1, 1, 0, 1, 1, 0, 1, 0, 1, 2, 1, 0, 0)));
        lemma_mul_is_distributive_add_other_way(cq, a3_4, mono(p, q, r, d, pw(1, 0, 1, 1, 1, 1, 0, 0, 1, 2, 1, 0, 0)));
        lemma_mul_is_distributive_add_other_way(cq, a3_3, mono(p, q, r, d, pw(2, 1, 0, 2, 0, 1, 0, 1, 0, 0, 1, 1, 1)));
        lemma_mul_is_distributive_add_other_way(cq, a3_2, mono(p, q, r, d, pw(2, 1, 0, 2, 0, 0, 1, 1, 0, 1, 0, 1, 1)));
        lemma_mul_is_distributive_add_other_way(cq, mono(p, q, r, d, pw(2, 0, 1, 1, 1, 0, 1, 1, 0, 0, 1, 2, 0)), mono(p, q, r, d, pw(2, 1, 0, 1, 1, 1, 0, 1, 0, 0, 1, 2, 0)));
        lemma_term_times_curve_residue_q(p, q, r, d, 1, pw(2, 0, 1, 1, 1, 0, 1, 1, 0, 0, 1, 2, 0));
        lemma_term_times_curve_residue_q(p, q, r, d, 1, pw(2, 1, 0, 1, 1, 1, 0, 1, 0, 0, 1, 2, 0));
        lemma_term_times_curve_residue_q(p, q, r, d, 1, pw(2, 1, 0, 2, 0, 0, 1, 1, 0, 1, 0, 1, 1));
        lemma_term_times_curve_residue_q(p, q, r, d, 1, pw(2, 1, 0, 2, 0, 1, 0, 1, 0, 0, 1, 1, 1));
        lemma_term_times_curve_residue_q(p, q, r, d, 1, pw(1, 0, 1, 1, 1, 1, 0, 0, 1, 2, 1, 0, 0));
        lemma_term_times_curve_residue_q(p, q, r, d, 2, pw(1, 1, 0, 1, 1, 0, 1, 0, 1, 2, 1, 0, 0));
        lemma_term_times_curve_residue_q(p, q, r, d, 1, pw(2, 0, 1, 1, 1, 1, 0, 1, 0, 1, 0, 2, 0));
        lemma_term_times_curve_residue_q(p, q, r, d, 1, pw(2, 0, 1, 2, 0, 0, 1, 1, 0, 0, 1, 1, 1));
        lemma_term_times_curve_residue_q(p, q, r, d, 1, pw(2, 0, 1, 2, 0, 1, 0, 1, 0, 1, 0, 1, 1));
        lemma_term_times_curve_residue_q(p, q, r, d, 1, pw(2, 1, 0, 1, 1, 0, 1, 1, 0, 1, 0, 2, 0));
        lemma_term_times_curve_residue_q(p, q, r, d, 1, pw(1, 0, 1, 1, 1, 1, 0, 0, 1, 1, 0, 1, 1));
        lemma_term_times_curve_residue_q(p, q, r, d, 2, pw(1, 2, 1, 0, 0, 0, 1, 0, 1, 1, 0, 1, 1));
        // the multiples of what the fourth equation leaves
        let a4_2 = mono(p, q, r, d, pw(3, 1, 0, 2, 0, 1, 0, 1, 0, 0, 1, 2, 0)) + mono(p, q, r, d, pw(2, 0, 1, 1, 1, 0, 1, 0, 1, 0, 1, 2, 0));
        let a4_3 = a4_2 + mono(p, q, r, d, pw(2, 0, 1, 2, 0, 0, 1, 1, 0, 0, 1, 0, 2));
        let a4_4 = a4_3 + mono(p, q, r, d, pw(2, 0, 1, 2, 0, 1, 0, 1, 0, 0, 1, 1, 1));
        let a4_5 = a4_4 + mono(p, q, r, d, pw(2, 1, 0, 2, 0, 0, 1, 0, 1, 1, 0, 1, 1));
        let a4_6 = a4_5 + mono(p, q, r, d, pw(2, 1, 0, 2, 0, 0, 1, 1, 0, 1, 2, 0, 0));
        let a4_7 = a4_6 + mono(p, q, r, d, pw(2, 1, 0, 2, 0, 1, 0, 0, 1, 0, 1, 1, 1));
        let a4_8 = a4_7 + mono(p, q, r, d, pw(2, 1, 0, 2, 0, 1, 0, 1, 0, 0, 1, 0, 2));
        let a4_9 = a4_8 + mono(p, q, r, d, pw(2, 3, 0, 0, 0, 0, 1, 1, 0, 1, 0, 2, 0));
        let a4_10 = a4_9 + mono(p, q, r, d, pw(2, 3, 0, 0, 0, 1, 0, 1, 0, 0, 1, 2, 0));
        let a4_11 = a4_10 + mono(p, q, r, d, pw(1, 0, 1, 1, 1, 0, 1, 0, 1, 0, 1, 0, 2));
        let a4_12 = a4_11 + mono(p, q, r, d, pw(1, 1, 0, 0, 2, 0, 1, 0, 1, 1, 0, 1, 1));
        let a4_13 = a4_12 + mono(p, q, r, d, pw(1, 1, 0, 0, 2, 1, 0, 0, 1, 0, 1, 1, 1));
        let a4_14 = a4_13 + mono(p, q, r, d, pw(1, 1, 0, 1, 1, 1, 0, 0, 1, 0, 3, 0, 0));
        let a4_15 = a4_14 + mono(p, q, r, d, pw(1, 1, 0, 1, 1, 1, 0, 0, 1, 1, 0, 1, 1));
        let a4_16 = a4_15 - mono(p, q, r, d, pw(3, 0, 1, 2, 0, 1, 0, 1, 0, 1, 0, 2, 0));
        let a4_17 = a4_16 - mono(p, q, r, d, pw(2, 0, 1, 0, 2, 0, 1, 1, 0, 0, 1, 2, 0));
        let a4_18 = a4_17 - mono(p, q, r, d, pw(2, 0, 1, 0, 2, 1, 0, 1, 0, 1, 0, 2, 0));
        let a4_19 = a4_18 - mono(p, q, r, d, pw(2, 0, 1, 1, 1, 1, 0, 0, 1, 1, 0, 2, 0));
        let a4_20 = a4_19 - mono(p, q, r, d, pw(2, 0, 1, 1, 1, 1, 0, 1, 0, 0, 1, 2, 0));
        let a4_21 = a4_20 - mono(p, q, r, d, pw(2, 0, 1, 2, 0, 0, 1, 0, 1, 0, 1, 1, 1));
        let a4_22 = a4_21 - mono(p, q, r, d, pw(2, 0, 1, 2, 0, 1, 0, 1, 0, 3, 0, 0, 0));
        let a4_23 = a4_22 - mono(p, q, r, d, pw(2, 1, 0, 1, 1, 0, 1, 0, 1, 1, 0, 2, 0));
        let a4_24 = a4_23 - mono(p, q, r, d, pw(2, 1, 0, 2, 0, 0, 1, 1, 0, 3, 0, 0, 0));
        let a4_25 = a4_24 - mono(p, q, r, d, pw(2, 1, 2, 0, 0, 0, 1, 1, 0, 1, 0, 2, 0));
        let a4_26 = a4_25 - mono(p, q, r, d, pw(1, 0, 1, 0, 2, 0, 1, 0, 1, 0, 1, 1, 1));
        let a4_27 = a4_26 - mono(p, q, r, d, pw(1, 0, 1, 1, 1, 1, 0, 0, 1, 1, 0, 0, 2));
        let a4_28 = a4_27 - mono(p, q, r, d, pw(1, 0, 3, 0, 0, 1, 0, 0, 1, 1, 0, 1, 1));
        let a4_29 = a4_28 - mono(p, q, r, d, pw(1, 1, 0, 1, 1, 0, 1, 0, 1, 1, 0, 0, 2));
        let a4_30 = a4_29 - mono(p, q, r, d, pw(1, 1, 0, 1, 1, 1, 0, 0, 1, 2, 1, 0, 0));
        lemma_mul_equals(m4, a4_30, kq, kq);
        lemma_mul_is_distributive_sub_other_way(kq, a4_29, mono(p, q, r, d, pw(1, 1, 0, 1, 1, 1, 0, 0, 1, 2, 1, 0, 0)));
        lemma_mul_is_distributive_sub_other_way(kq, a4_28, mono(p, q, r, d, pw(1, 1, 0, 1, 1, 0, 1, 0, 1, 1, 0, 0, 2)));
        lemma_mul_is_distributive_sub_other_way(kq, a4_27, mono(p, q, r, d, pw(1, 0, 3, 0, 0, 1, 0, 0, 1, 1, 0, 1, 1)));
        lemma_mul_is_distributive_sub_other_way(kq, a4_26, mono(p, q, r, d, pw(1, 0, 1, 1, 1, 1, 0, 0, 1, 1, 0, 0, 2)));
        lemma_mul_is_distributive_sub_other_way(kq, a4_25, mono(p, q, r, d, pw(1, 0, 1, 0, 2, 0, 1, 0, 1, 0, 1, 1, 1)));
        lemma_mul_is_distributive_sub_other_way(kq, a4_24, mono(p, q, r, d, pw(2, 1, 2, 0, 0, 0, 1, 1, 0, 1, 0, 2, 0)));
        lemma_mul_is_distributive_sub_other_way(kq, a4_23, mono(p, q, r, d, pw(2, 1, 0, 2, 0, 0, 1, 1, 0, 3, 0, 0, 0)));
        lemma_mul_is_distributive_sub_other_way(kq, a4_22, mono(p, q, r, d, pw(2, 1, 0, 1, 1, 0, 1, 0, 1, 1, 0, 2, 0)));
        lemma_mul_is_distributive_sub_other_way(kq, a4_21, mono(p, q, r, d, pw(2, 0, 1, 2, 0, 1, 0, 1, 0, 3, 0, 0, 0)));
        lemma_mul_is_distributive_sub_other_way(kq, a4_20, mono(p, q, r, d, pw(2, 0, 1, 2, 0, 0, 1, 0, 1, 0, 1, 1, 1)));
        lemma_mul_is_distributive_sub_other_way(kq, a4_19, mono(p, q, r, d, pw(2, 0, 1, 1, 1, 1, 0, 1, 0, 0, 1, 2, 0)));
        lemma_mul_is_distributive_sub_other_way(kq, a4_18, mono(p, q, r, d, pw(2, 0, 1, 1, 1, 1, 0, 0, 1, 1, 0, 2, 0)));
        lemma_mul_is_distributive_sub_other_way(kq, a4_17, mono(p, q, r, d, pw(2, 0, 1, 0, 2, 1, 0, 1, 0, 1, 0, 2, 0)));
        lemma_mul_is_distributive_sub_other_way(kq, a4_16, mono(p, q, r, d, pw(2, 0, 1, 0, 2, 0, 1, 1, 0, 0, 1, 2, 0)));
        lemma_mul_is_distributive_sub_other_way(kq, a4_15, mono(p, q, r, d, pw(3, 0, 1, 2, 0, 1, 0, 1, 0, 1, 0, 2, 0)));
        lemma_mul_is_distributive_add_other_way(kq, a4_14, mono(p, q, r, d, pw(1, 1, 0, 1, 1, 1, 0, 0, 1, 1, 0, 1, 1)));
        lemma_mul_is_distributive_add_other_way(kq, a4_13, mono(p, q, r, d, pw(1, 1, 0, 1, 1, 1, 0, 0, 1, 0, 3, 0, 0)));
        lemma_mul_is_distributive_add_other_way(kq, a4_12, mono(p, q, r, d, pw(1, 1, 0, 0, 2, 1, 0, 0, 1, 0, 1, 1, 1)));
        lemma_mul_is_distributive_add_other_way(kq, a4_11, mono(p, q, r, d, pw(1, 1, 0, 0, 2, 0, 1, 0, 1, 1, 0, 1, 1)));
        lemma_mul_is_distributive_add_other_way(kq, a4_10, mono(p, q, r, d, pw(1, 0, 1, 1, 1, 0, 1, 0, 1, 0, 1, 0, 2)));
        lemma_mul_is_distributive_add_other_way(kq, a4_9, mono(p, q, r, d, pw(2, 3, 0, 0, 0, 1, 0, 1, 0, 0, 1, 2, 0)));
        lemma_mul_is_distributive_add_other_way(kq, a4_8, mono(p, q, r, d, pw(2, 3, 0, 0, 0, 0, 1, 1, 0, 1, 0, 2, 0)));
        lemma_mul_is_distributive_add_other_way(kq, a4_7, mono(p, q, r, d, pw(2, 1, 0, 2, 0, 1, 0, 1, 0, 0, 1, 0, 2)));
        lemma_mul_is_distributive_add_other_way(kq, a4_6, mono(p, q, r, d, pw(2, 1, 0, 2, 0, 1, 0, 0, 1, 0, 1, 1, 1)));
        lemma_mul_is_distributive_add_other_way(kq, a4_5, mono(p, q, r, d, pw(2, 1, 0, 2, 0, 0, 1, 1, 0, 1, 2, 0, 0)));
        lemma_mul_is_distributive_add_other_way(kq, a4_4, mono(p, q, r, d, pw(2, 1, 0, 2, 0, 0, 1, 0, 1, 1, 0, 1, 1)));
        lemma_mul_is_distributive_add_other_way(kq, a4_3, mono(p, q, r, d, pw(2, 0, 1, 2, 0, 1, 0, 1, 0, 0, 1, 1, 1)));
        lemma_mul_is_distributive_add_other_way(kq, a4_2, mono(p, q, r, d, pw(2, 0, 1, 2, 0, 0, 1, 1, 0, 0, 1, 0, 2)));
        lemma_mul_is_distributive_add_other_way(kq, mono(p, q, r, d, pw(3, 1, 0, 2, 0, 1, 0, 1, 0, 0, 1, 2, 0)), mono(p, q, r, d, pw(2, 0, 1, 1, 1, 0, 1, 0, 1, 0, 1, 2, 0)));
        lemma_term_times_product_residue_q(p, q, r, d, 1, pw(3, 1, 0, 2, 0, 1, 0, 1, 0, 0, 1, 2, 0));
        lemma_term_times_product_residue_q(p, q, r, d, 1, pw(2, 0, 1, 1, 1, 0, 1, 0, 1, 0, 1, 2, 0));
        lemma_term_times_product_residue_q(p, q, r, d, 1, pw(2, 0, 1, 2, 0, 0, 1, 1, 0, 0, 1, 0, 2));
        lemma_term_times_product_residue_q(p, q, r, d, 1, pw(2, 0, 1, 2, 0, 1, 0, 1, 0, 0, 1, 1, 1));
        lemma_term_times_product_residue_q(p, q, r, d, 1, pw(2, 1, 0, 2, 0, 0, 1, 0, 1, 1, 0, 1, 1));
        lemma_term_times_product_residue_q(p, q, r, d, 1, pw(2, 1, 0, 2, 0, 0, 1, 1, 0, 1, 2, 0, 0));
        lemma_term_times_product_residue_q(p, q, r, d, 1, pw(2, 1, 0, 2, 0, 1, 0, 0, 1, 0, 1, 1, 1));
        lemma_term_times_product_residue_q(p, q, r, d, 1, pw(2, 1, 0, 2, 0, 1, 0, 1, 0, 0, 1, 0, 2));
        lemma_term_times_product_residue_q(p, q, r, d, 1, pw(2, 3, 0, 0, 0, 0, 1, 1, 0, 1, 0, 2, 0));
        lemma_term_times_product_residue_q(p, q, r, d, 1, pw(2, 3, 0, 0, 0, 1, 0, 1, 0, 0, 1, 2, 0));
        lemma_term_times_product_residue_q(p, q, r, d, 1, pw(1, 0, 1, 1, 1, 0, 1, 0, 1, 0, 1, 0, 2));
        lemma_term_times_product_residue_q(p, q, r, d, 1, pw(1, 1, 0, 0, 2, 0, 1, 0, 1, 1, 0, 1, 1));
        lemma_term_times_product_residue_q(p, q, r, d, 1, pw(1, 1, 0, 0, 2, 1, 0, 0, 1, 0, 1, 1, 1));
        lemma_term_times_product_residue_q(p, q, r, d, 1, pw(1, 1, 0, 1, 1, 1, 0, 0, 1, 0, 3, 0, 0));
        lemma_term_times_product_residue_q(p, q, r, d, 1, pw(1, 1, 0, 1, 1, 1, 0, 0, 1, 1, 0, 1, 1));
        lemma_term_times_product_residue_q(p, q, r, d, 1, pw(3, 0, 1, 2, 0, 1, 0, 1, 0, 1, 0, 2, 0));
        lemma_term_times_product_residue_q(p, q, r, d, 1, pw(2, 0, 1, 0, 2, 0, 1, 1, 0, 0, 1, 2, 0));
        lemma_term_times_product_residue_q(p, q, r, d, 1, pw(2, 0, 1, 0, 2, 1, 0, 1, 0, 1, 0, 2, 0));
        lemma_term_times_product_residue_q(p, q, r, d, 1, pw(2, 0, 1, 1, 1, 1, 0, 0, 1, 1, 0, 2, 0));
        lemma_term_times_product_residue_q(p, q, r, d, 1, pw(2, 0, 1, 1, 1, 1, 0, 1, 0, 0, 1, 2, 0));
        lemma_term_times_product_residue_q(p, q, r, d, 1, pw(2, 0, 1, 2, 0, 0, 1, 0, 1, 0, 1, 1, 1));
        lemma_term_times_product_residue_q(p, q, r, d, 1, pw(2, 0, 1, 2, 0, 1, 0, 1, 0, 3, 0, 0, 0));
        lemma_term_times_product_residue_q(p, q, r, d, 1, pw(2, 1, 0, 1, 1, 0, 1, 0, 1, 1, 0, 2, 0));
        lemma_term_times_product_residue_q(p, q, r, d, 1, pw(2, 1, 0, 2, 0, 0, 1, 1, 0, 3, 0, 0, 0));
        lemma_term_times_product_residue_q(p, q, r, d, 1, pw(2, 1, 2, 0, 0, 0, 1, 1, 0, 1, 0, 2, 0));
        lemma_term_times_product_residue_q(p, q, r, d, 1, pw(1, 0, 1, 0, 2, 0, 1, 0, 1, 0, 1, 1, 1));
        lemma_term_times_product_residue_q(p, q, r, d, 1, pw(1, 0, 1, 1, 1, 1, 0, 0, 1, 1, 0, 0, 2));
        lemma_term_times_product_residue_q(p, q, r, d, 1, pw(1, 0, 3, 0, 0, 1, 0, 0, 1, 1, 0, 1, 1));
        lemma_term_times_product_residue_q(p, q, r, d, 1, pw(1, 1, 0, 1, 1, 0, 1, 0, 1, 1, 0, 0, 2));
        lemma_term_times_product_residue_q(p, q, r, d, 1, pw(1, 1, 0, 1, 1, 1, 0, 0, 1, 2, 1, 0, 0));
        // the multiples of what the fifth equation leaves
        let a5_2 = mono(p, q, r, d, pw(1, 0, 1, 1, 1, 2, 1, 0, 1, 1, 0, 0, 0)) + mono(p, q, r, d, pw(1, 1, 0, 1, 1, 1, 2, 0, 1, 1, 0, 0, 0));
        let a5_3 = a5_2 - mono(p, q, r, d, pw(2, 0, 1, 2, 0, 1, 0, 2, 1, 1, 0, 0, 0));
        let a5_4 = a5_3 - mono(p, q, r, d, pw(2, 0, 1, 2, 0, 1, 2, 1, 0, 0, 1, 0, 0));
        let a5_5 = a5_4 - mono(p, q, r, d, pw(2, 1, 0, 2, 0, 0, 1, 2, 1, 1, 0, 0, 0));
        let a5_6 = a5_5 - mono(p, q, r, d, pw(2, 1, 0, 2, 0, 2, 1, 1, 0, 0, 1, 0, 0));
        let a5_7 = a5_6 - mono(p, q, r, d, pw(1, 0, 1, 1, 1, 1, 2, 0, 1, 0, 1, 0, 0));
        let a5_8 = a5_7 - mono(p, q, r, d, pw(1, 1, 0, 1, 1, 1, 0, 1, 2, 0, 1, 0, 0));
        lemma_mul_equals(m5, a5_8, cr, cr);
        lemma_mul_is_distributive_sub_other_way(cr, a5_7, mono(p, q, r, d, pw(1, 1, 0, 1, 1, 1, 0, 1, 2, 0, 1, 0, 0)));
        lemma_mul_is_distributive_sub_other_way(cr, a5_6, mono(p, q, r, d, pw(1, 0, 1, 1, 1, 1, 2, 0, 1, 0, 1, 0, 0)));
        lemma_mul_is_distributive_sub_other_way(cr, a5_5, mono(p, q, r, d, pw(2, 1, 0, 2, 0, 2, 1, 1, 0, 0, 1, 0, 0)));
        lemma_mul_is_distributive_sub_other_way(cr, a5_4, mono(p, q, r, d, pw(2, 1, 0, 2, 0, 0, 1, 2, 1, 1, 0, 0, 0)));
        lemma_mul_is_distributive_sub_other_way(cr, a5_3, mono(p, q, r, d, pw(2, 0, 1, 2, 0, 1, 2, 1, 0, 0, 1, 0, 0)));
        lemma_mul_is_distributive_sub_other_way(cr, a5_2, mono(p, q, r, d, pw(2, 0, 1, 2, 0, 1, 0, 2, 1, 1, 0, 0, 0)));
        lemma_mul_is_distributive_add_other_way(cr, mono(p, q, r, d, pw(1, 0, 1, 1, 1, 2, 1, 0, 1, 1, 0, 0, 0)), mono(p, q, r, d, pw(1, 1, 0, 1, 1, 1, 2, 0, 1, 1, 0, 0, 0)));
        lemma_term_times_curve_residue_r(p, q, r, d, 1, pw(1, 0, 1, 1, 1, 2, 1, 0, 1, 1, 0, 0, 0));
        lemma_term_times_curve_residue_r(p, q, r, d, 1, pw(1, 1, 0, 1, 1, 1, 2, 0, 1, 1, 0, 0, 0));
        lemma_term_times_curve_residue_r(p, q, r, d, 1, pw(2, 0, 1, 2, 0, 1, 0, 2, 1, 1, 0, 0, 0));
        lemma_term_times_curve_residue_r(p, q, r, d, 1, pw(2, 0, 1, 2, 0, 1, 2, 1, 0, 0, 1, 0, 0));
        lemma_term_times_curve_residue_r(p, q, r, d, 1, pw(2, 1, 0, 2, 0, 0, 1, 2, 1, 1, 0, 0, 0));
        lemma_term_times_curve_residue_r(p, q, r, d, 1, pw(2, 1, 0, 2, 0, 2, 1, 1, 0, 0, 1, 0, 0));
        lemma_term_times_curve_residue_r(p, q, r, d, 1, pw(1, 0, 1, 1, 1, 1, 2, 0, 1, 0, 1, 0, 0));
        lemma_term_times_curve_residue_r(p, q, r, d, 1, pw(1, 1, 0, 1, 1, 1, 0, 1, 2, 0, 1, 0, 0));
        // the multiples of what the sixth equation leaves
        let a6_2 = mono(p, q, r, d, pw(2, 0, 1, 2, 0, 0, 3, 1, 0, 0, 1, 0, 0)) + mono(p, q, r, d, pw(2, 0, 1, 2, 0, 1, 2, 1, 0, 1, 0, 0, 0));
        let a6_3 = a6_2 + mono(p, q, r, d, pw(2, 1, 0, 2, 0, 2, 1, 1, 0, 1, 0, 0, 0));
        let a6_4 = a6_3 + mono(p, q, r, d, pw(2, 1, 0, 2, 0, 3, 0, 1, 0, 0, 1, 0, 0));
        let a6_5 = a6_4 + mono(p, q, r, d, pw(1, 0, 1, 1, 1, 0, 3, 0, 1, 0, 1, 0, 0));
        let a6_6 = a6_5 + 4 * mono(p, q, r, d, pw(1, 0, 1, 1, 1, 1, 2, 0, 1, 1, 0, 0, 0));
        let a6_7 = a6_6 + 3 * mono(p, q, r, d, pw(1, 0, 1, 1, 1, 2, 1, 0, 1, 0, 1, 0, 0));
        let a6_8 = a6_7 + 3 * mono(p, q, r, d, pw(1, 1, 0, 1, 1, 0, 3, 0, 1, 1, 0, 0, 0));
        let a6_9 = a6_8 + 3 * mono(p, q, r, d, pw(1, 1, 0, 1, 1, 1, 2, 0, 1, 0, 1, 0, 0));
        let a6_10 = a6_9 + mono(p, q, r, d, pw(1, 1, 0, 1, 1, 2, 1, 0, 1, 1, 0, 0, 0));
        let a6_11 = a6_10 + mono(p, q, r, d, pw(1, 1, 0, 1, 1, 3, 0, 0, 1, 0, 1, 0, 0));
        let a6_12 = a6_11 - mono(p, q, r, d, pw(2, 0, 1, 1, 1, 1, 0, 2, 1, 1, 0, 0, 0));
        let a6_13 = a6_12 - mono(p, q, r, d, pw(2, 0, 1, 2, 0, 1, 0, 2, 1, 0, 1, 0, 0));
        let a6_14 = a6_13 - mono(p, q, r, d, pw(2, 0, 1, 2, 0, 3, 0, 1, 0, 1, 0, 0, 0));
        let a6_15 = a6_14 - 2 * mono(p, q, r, d, pw(2, 1, 0, 1, 1, 0, 1, 2, 1, 1, 0, 0, 0));
        let a6_16 = a6_15 - mono(p, q, r, d, pw(2, 1, 0, 2, 0, 0, 3, 1, 0, 1, 0, 0, 0));
        let a6_17 = a6_16 - mono(p, q, r, d, pw(2, 1, 0, 2, 0, 1, 2, 1, 0, 0, 1, 0, 0));
        let a6_18 = a6_17 - mono(p, q, r, d, pw(1, 0, 1, 1, 1, 1, 0, 0, 3, 1, 0, 0, 0));
        let a6_19 = a6_18 - 2 * mono(p, q, r, d, pw(1, 1, 0, 1, 1, 0, 1, 0, 3, 1, 0, 0, 0));
        lemma_mul_equals(m6, a6_19, kr, kr);
        lemma_mul_is_distributive_sub_other_way(kr, a6_18, 2 * mono(p, q, r, d, pw(1, 1, 0, 1, 1, 0, 1, 0, 3, 1, 0, 0, 0)));
        lemma_mul_is_distributive_sub_other_way(kr, a6_17, mono(p, q, r, d, pw(1, 0, 1, 1, 1, 1, 0, 0, 3, 1, 0, 0, 0)));
        lemma_mul_is_distributive_sub_other_way(kr, a6_16, mono(p, q, r, d, pw(2, 1, 0, 2, 0, 1, 2, 1, 0, 0, 1, 0, 0)));
        lemma_mul_is_distributive_sub_other_way(kr, a6_15, mono(p, q, r, d, pw(2, 1, 0, 2, 0, 0, 3, 1, 0, 1, 0, 0, 0)));
        lemma_mul_is_distributive_sub_other_way(kr, a6_14, 2 * mono(p, q, r, d, pw(2, 1, 0, 1, 1, 0, 1, 2, 1, 1, 0, 0, 0)));
        lemma_mul_is_distributive_sub_other_way(kr, a6_13, mono(p, q, r, d, pw(2, 0, 1, 2, 0, 3, 0, 1, 0, 1, 0, 0, 0)));
        lemma_mul_is_distributive_sub_other_way(kr, a6_12, mono(p, q, r, d, pw(2, 0, 1, 2, 0, 1, 0, 2, 1, 0, 1, 0, 0)));
        lemma_mul_is_distributive_sub_other_way(kr, a6_11, mono(p, q, r, d, pw(2, 0, 1, 1, 1, 1, 0, 2, 1, 1, 0, 0, 0)));
        lemma_mul_is_distributive_add_other_way(kr, a6_10, mono(p, q, r, d, pw(1, 1, 0, 1, 1, 3, 0, 0, 1, 0, 1, 0, 0)));
        lemma_mul_is_distributive_add_other_way(kr, a6_9, mono(p, q, r, d, pw(1, 1, 0, 1, 1, 2, 1, 0, 1, 1, 0, 0, 0)));
        lemma_mul_is_distributive_add_other_way(kr, a6_8, 3 * mono(p, q, r, d, pw(1, 1, 0, 1, 1, 1, 2, 0, 1, 0, 1, 0, 0)));
        lemma_mul_is_distributive_add_other_way(kr, a6_7, 3 * mono(p, q, r, d, pw(1, 1, 0, 1, 1, 0, 3, 0, 1, 1, 0, 0, 0)));
        lemma_mul_is_distributive_add_other_way(kr, a6_6, 3 * mono(p, q, r, d, pw(1, 0, 1, 1, 1, 2, 1, 0, 1, 0, 1, 0, 0)));
        lemma_mul_is_distributive_add_other_way(kr, a6_5, 4 * mono(p, q, r, d, pw(1, 0, 1, 1, 1, 1, 2, 0, 1, 1, 0, 0, 0)));
        lemma_mul_is_distributive_add_other_way(kr, a6_4, mono(p, q, r, d, pw(1, 0, 1, 1, 1, 0, 3, 0, 1, 0, 1, 0, 0)));
        lemma_mul_is_distributive_add_other_way(kr, a6_3, mono(p, q, r, d, pw(2, 1, 0, 2, 0, 3, 0, 1, 0, 0, 1, 0, 0)));
        lemma_mul_is_distributive_add_other_way(kr, a6_2, mono(p, q, r, d, pw(2, 1, 0, 2, 0, 2, 1, 1, 0, 1, 0, 0, 0)));
        lemma_mul_is_distributive_add_other_way(kr, mono(p, q, r, d, pw(2, 0, 1, 2, 0, 0, 3, 1, 0, 0, 1, 0, 0)), mono(p, q, r, d, pw(2, 0, 1, 2, 0, 1, 2, 1, 0, 1, 0, 0, 0)));
        lemma_term_times_product_residue_r(p, q, r, d, 1, pw(2, 0, 1, 2, 0, 0, 3, 1, 0, 0, 1, 0, 0));
        lemma_term_times_product_residue_r(p, q, r, d, 1, pw(2, 0, 1, 2, 0, 1, 2, 1, 0, 1, 0, 0, 0));
        lemma_term_times_product_residue_r(p, q, r, d, 1, pw(2, 1, 0, 2, 0, 2, 1, 1, 0, 1, 0, 0, 0));
        lemma_term_times_product_residue_r(p, q, r, d, 1, pw(2, 1, 0, 2, 0, 3, 0, 1, 0, 0, 1, 0, 0));
        lemma_term_times_product_residue_r(p, q, r, d, 1, pw(1, 0, 1, 1, 1, 0, 3, 0, 1, 0, 1, 0, 0));
        lemma_term_times_product_residue_r(p, q, r, d, 4, pw(1, 0, 1, 1, 1, 1, 2, 0, 1, 1, 0, 0, 0));
        lemma_term_times_product_residue_r(p, q, r, d, 3, pw(1, 0, 1, 1, 1, 2, 1, 0, 1, 0, 1, 0, 0));
        lemma_term_times_product_residue_r(p, q, r, d, 3, pw(1, 1, 0, 1, 1, 0, 3, 0, 1, 1, 0, 0, 0));
        lemma_term_times_product_residue_r(p, q, r, d, 3, pw(1, 1, 0, 1, 1, 1, 2, 0, 1, 0, 1, 0, 0));
        lemma_term_times_product_residue_r(p, q, r, d, 1, pw(1, 1, 0, 1, 1, 2, 1, 0, 1, 1, 0, 0, 0));
        lemma_term_times_product_residue_r(p, q, r, d, 1, pw(1, 1, 0, 1, 1, 3, 0, 0, 1, 0, 1, 0, 0));
        lemma_term_times_product_residue_r(p, q, r, d, 1, pw(2, 0, 1, 1, 1, 1, 0, 2, 1, 1, 0, 0, 0));
        lemma_term_times_product_residue_r(p, q, r, d, 1, pw(2, 0, 1, 2, 0, 1, 0, 2, 1, 0, 1, 0, 0));
        lemma_term_times_product_residue_r(p, q, r, d, 1, pw(2, 0, 1, 2, 0, 3, 0, 1, 0, 1, 0, 0, 0));
        lemma_term_times_product_residue_r(p, q, r, d, 2, pw(2, 1, 0, 1, 1, 0, 1, 2, 1, 1, 0, 0, 0));
        lemma_term_times_product_residue_r(p, q, r, d, 1, pw(2, 1, 0, 2, 0, 0, 3, 1, 0, 1, 0, 0, 0));
        lemma_term_times_product_residue_r(p, q, r, d, 1, pw(2, 1, 0, 2, 0, 1, 2, 1, 0, 0, 1, 0, 0));
        lemma_term_times_product_residue_r(p, q, r, d, 1, pw(1, 0, 1, 1, 1, 1, 0, 0, 3, 1, 0, 0, 0));
        lemma_term_times_product_residue_r(p, q, r, d, 2, pw(1, 1, 0, 1, 1, 0, 1, 0, 3, 1, 0, 0, 0));
    };
    lemma_cong_zero_multiple(m1, cp);
    lemma_cong_zero_multiple(m2, kp);
    lemma_cong_zero_multiple(m3, cq);
    lemma_cong_zero_multiple(m4, kq);
    lemma_cong_zero_multiple(m5, cr);
    lemma_cong_zero_multiple(m6, kr);
    lemma_cong_add(m1 * cp, m2 * kp, 0, 0);
    lemma_cong_add(m1 * cp + m2 * kp, m3 * cq, 0, 0);
    lemma_cong_add(m1 * cp + m2 * kp + m3 * cq, m4 * kq, 0, 0);
    lemma_cong_add(m1 * cp + m2 * kp + m3 * cq + m4 * kq, m5 * cr, 0, 0);
    lemma_cong_add(m1 * cp + m2 * kp + m3 * cq + m4 * kq + m5 * cr, m6 * kr, 0, 0);
    lemma_cong_difference(lhs, rhs);
}

} // verus!
