//! From the field to the integers and back: every formula of the curve
//! stands for the same formula over the integers, whatever representatives
//! of the field elements it is given. The laws are polynomial identities
//! there.

use vstd::prelude::*;
use crate::curve::{
    coords_cong, on_curve, point_add, point_scale, raw_add, raw_on_curve, same_point,
    Coords,
};
use crate::modular::{
    cong, fadd, fmul, fsub, lemma_canonical, lemma_cong_difference, lemma_fadd_cong,
    lemma_fmul_cong, lemma_fsub_cong,
};

verus! {

/// The sum of two points stands for what the addition formula gives over the
/// integers, whatever representatives it is given.
pub proof fn lemma_add_cong(p: Coords, q: Coords, d: int, p2: Coords, q2: Coords, d2: int)
    requires
        coords_cong(p, p2),
        coords_cong(q, q2),
        cong(d, d2),
    ensures
        coords_cong(point_add(p, q, d), raw_add(p2, q2, d2)),
{
    let a = fmul(p.x, q.x);
    lemma_fmul_cong(p.x, q.x, p2.x, q2.x);
    let b = fmul(p.y, q.y);
    lemma_fmul_cong(p.y, q.y, p2.y, q2.y);
    lemma_fmul_cong(d, p.t, d2, p2.t);
    let c = fmul(fmul(d, p.t), q.t);
    lemma_fmul_cong(fmul(d, p.t), q.t, d2 * p2.t, q2.t);
    let dd = fmul(p.z, q.z);
    lemma_fmul_cong(p.z, q.z, p2.z, q2.z);
    let h = fadd(b, a);
    lemma_fadd_cong(b, a, p2.y * q2.y, p2.x * q2.x);
    lemma_fadd_cong(p.x, p.y, p2.x, p2.y);
    lemma_fadd_cong(q.x, q.y, q2.x, q2.y);
    lemma_fmul_cong(fadd(p.x, p.y), fadd(q.x, q.y), p2.x + p2.y, q2.x + q2.y);
    let r = raw_add(p2, q2, d2);
    let h2 = p2.y * q2.y + p2.x * q2.x;
    let e2 = (p2.x + p2.y) * (q2.x + q2.y) - h2;
    let f2 = p2.z * q2.z - d2 * p2.t * q2.t;
    let g2 = p2.z * q2.z + d2 * p2.t * q2.t;
    let e = fsub(fmul(fadd(p.x, p.y), fadd(q.x, q.y)), h);
    lemma_fsub_cong(fmul(fadd(p.x, p.y), fadd(q.x, q.y)), h, (p2.x + p2.y) * (q2.x + q2.y), h2);
    let f = fsub(dd, c);
    lemma_fsub_cong(dd, c, p2.z * q2.z, d2 * p2.t * q2.t);
    let g = fadd(dd, c);
    lemma_fadd_cong(dd, c, p2.z * q2.z, d2 * p2.t * q2.t);
    lemma_fmul_cong(e, f, e2, f2);
    lemma_fmul_cong(g, h, g2, h2);
    lemma_fmul_cong(e, h, e2, h2);
    lemma_fmul_cong(f, g, f2, g2);
}

/// Whether two quadruples stand for the same affine point can be decided on
/// any representatives of their coordinates.
pub proof fn lemma_same_point_cong(p: Coords, q: Coords, p2: Coords, q2: Coords)
    requires
        coords_cong(p, p2),
        coords_cong(q, q2),
    ensures
        same_point(p, q) == (cong(p2.x * q2.z, q2.x * p2.z) && cong(p2.y * q2.z, q2.y * p2.z)),
{
    lemma_fmul_cong(p.x, q.z, p2.x, q2.z);
    lemma_fmul_cong(q.x, p.z, q2.x, p2.z);
    lemma_fmul_cong(p.y, q.z, p2.y, q2.z);
    lemma_fmul_cong(q.y, p.z, q2.y, p2.z);
    lemma_canonical(fmul(p.x, q.z));
    lemma_canonical(fmul(q.x, p.z));
    lemma_canonical(fmul(p.y, q.z));
    lemma_canonical(fmul(q.y, p.z));
}

/// Whether a quadruple satisfies the equations of the curve can be decided on
/// any representatives of its coordinates and of the coefficient.
pub proof fn lemma_on_curve_cong(p: Coords, d: int, p2: Coords, d2: int)
    requires
        coords_cong(p, p2),
        cong(d, d2),
    ensures
        on_curve(p, d) == (cong(p2.y * p2.y - p2.x * p2.x, p2.z * p2.z + d2 * (p2.t * p2.t))
            && cong(p2.t * p2.z, p2.x * p2.y)),
{
    lemma_fmul_cong(p.y, p.y, p2.y, p2.y);
    lemma_fmul_cong(p.x, p.x, p2.x, p2.x);
    lemma_fmul_cong(p.z, p.z, p2.z, p2.z);
    lemma_fmul_cong(p.t, p.t, p2.t, p2.t);
    lemma_fmul_cong(d, fmul(p.t, p.t), d2, p2.t * p2.t);
    lemma_fsub_cong(fmul(p.y, p.y), fmul(p.x, p.x), p2.y * p2.y, p2.x * p2.x);
    lemma_fadd_cong(fmul(p.z, p.z), fmul(d, fmul(p.t, p.t)), p2.z * p2.z, d2 * (p2.t * p2.t));
    lemma_fmul_cong(p.t, p.z, p2.t, p2.z);
    lemma_fmul_cong(p.x, p.y, p2.x, p2.y);
    lemma_canonical(fsub(fmul(p.y, p.y), fmul(p.x, p.x)));
    lemma_canonical(fadd(fmul(p.z, p.z), fmul(d, fmul(p.t, p.t))));
    lemma_canonical(fmul(p.t, p.z));
    lemma_canonical(fmul(p.x, p.y));
}

/// The equations of the curve at a point, read over the integers.
pub proof fn lemma_on_curve_raw(p: Coords, d: int)
    ensures
        on_curve(p, d) == raw_on_curve(p, d),
{
    lemma_on_curve_cong(p, d, p, d);
    lemma_cong_difference(p.y * p.y - p.x * p.x, p.z * p.z + d * (p.t * p.t));
    lemma_cong_difference(p.t * p.z, p.x * p.y);
}

/// A scaled quadruple stands for the products of the factor and the
/// coordinates.
pub proof fn lemma_scale_cong(p: Coords, k: int)
    ensures
        coords_cong(
            point_scale(p, k),
            Coords { x: k * p.x, y: k * p.y, t: k * p.t, z: k * p.z },
        ),
{
    lemma_fmul_cong(k, p.x, k, p.x);
    lemma_fmul_cong(k, p.y, k, p.y);
    lemma_fmul_cong(k, p.t, k, p.t);
    lemma_fmul_cong(k, p.z, k, p.z);
}

} // verus!
