//! The curve as mathematics: coordinates over the integers modulo the field's
//! order, the group law, and the equations that points satisfy.
//!
//! The first part is what the contracts of the library speak of. The second
//! says what it is for a point to be finite and for the addition law to be
//! complete. The third repeats the formulas over the integers, with nothing
//! reduced: the laws are proved there and carried back.

use vstd::prelude::*;
use crate::modular::{cong, fadd, fsub, fmul, fneg, invertible};

verus! {

/// Extended coordinates `(X, Y, T, Z)`, standing for the affine point
/// `(X/Z, Y/Z)` with `T = XY/Z`.
pub struct Coords {
    pub x: int,
    pub y: int,
    pub t: int,
    pub z: int,
}

/// The neutral element `(0, 1, 0, 1)`.
pub open spec fn point_zero() -> Coords {
    Coords { x: 0, y: 1, t: 0, z: 1 }
}

/// The negative of a point: `(-X, Y, -T, Z)`.
pub open spec fn point_neg(p: Coords) -> Coords {
    Coords { x: fneg(p.x), y: p.y, t: fneg(p.t), z: p.z }
}

/// The sum of two points by the unified addition formula of the curve with
/// coefficient `d`.
pub open spec fn point_add(p: Coords, q: Coords, d: int) -> Coords {
    let a = fmul(p.x, q.x);
    let b = fmul(p.y, q.y);
    let c = fmul(fmul(d, p.t), q.t);
    let dd = fmul(p.z, q.z);
    let h = fadd(b, a);
    let e = fsub(fmul(fadd(p.x, p.y), fadd(q.x, q.y)), h);
    let f = fsub(dd, c);
    let g = fadd(dd, c);
    Coords { x: fmul(e, f), y: fmul(g, h), t: fmul(e, h), z: fmul(f, g) }
}

/// Twice a point.
pub open spec fn point_double(p: Coords, d: int) -> Coords {
    point_add(p, p, d)
}

/// The multiple `n * p` by doubling and adding over the binary digits of `n`,
/// the most significant first.
pub open spec fn scalar_mul(p: Coords, n: int, d: int) -> Coords
    decreases n,
{
    if n <= 0 {
        point_zero()
    } else {
        let h = point_double(scalar_mul(p, n / 2, d), d);
        if n % 2 == 1 {
            point_add(h, p, d)
        } else {
            h
        }
    }
}

/// The coordinates of `p`, each multiplied by the factor `k`.
pub open spec fn point_scale(p: Coords, k: int) -> Coords {
    Coords { x: fmul(k, p.x), y: fmul(k, p.y), t: fmul(k, p.t), z: fmul(k, p.z) }
}

/// Whether two coordinate quadruples stand for the same affine point:
/// `X1 Z2 = X2 Z1` and `Y1 Z2 = Y2 Z1`.
pub open spec fn same_point(p: Coords, q: Coords) -> bool {
    &&& fmul(p.x, q.z) == fmul(q.x, p.z)
    &&& fmul(p.y, q.z) == fmul(q.y, p.z)
}

/// Whether the coordinates satisfy the equations of the curve with
/// coefficient `d` in extended coordinates: `-X^2 + Y^2 = Z^2 + d T^2` and
/// `T Z = X Y`. For `Z = 1` this is the affine equation
/// `-x^2 + y^2 = 1 + d x^2 y^2`.
pub open spec fn on_curve(p: Coords, d: int) -> bool {
    &&& fsub(fmul(p.y, p.y), fmul(p.x, p.x)) == fadd(fmul(p.z, p.z), fmul(d, fmul(p.t, p.t)))
    &&& fmul(p.t, p.z) == fmul(p.x, p.y)
}

/// The numerator of `y^2 = (1 + x^2) / (1 - d x^2)`.
pub open spec fn y_squared_numerator(x: int) -> int {
    fadd(1, fmul(x, x))
}

/// The denominator of `y^2 = (1 + x^2) / (1 - d x^2)`.
pub open spec fn y_squared_denominator(x: int, d: int) -> int {
    fsub(1, fmul(fmul(x, x), d))
}

/// Whether `y` is an ordinate of the curve at the abscissa `x`:
/// `y^2 (1 - d x^2) = 1 + x^2`.
pub open spec fn is_ordinate(x: int, y: int, d: int) -> bool {
    fmul(fmul(y, y), y_squared_denominator(x, d)) == y_squared_numerator(x)
}

/// Whether the curve has a point with the abscissa `x` that the sampling
/// accepts: the denominator is not zero and some `y` is an ordinate at `x`.
pub open spec fn has_ordinate(x: int, d: int) -> bool {
    &&& y_squared_denominator(x, d) != 0
    &&& exists|y: int| #[trigger] is_ordinate(x, y, d)
}

/// Whether `(x, y)` satisfies the equation `y^2 = x^3 + a x^2 + x` of the
/// Montgomery form with coefficient `a`.
pub open spec fn on_montgomery_curve(x: int, y: int, a: int) -> bool {
    cong(y * y, x * x * x + a * (x * x) + x)
}

/// Whether the scale factor `s` and the coefficient `d` of the Edwards form
/// belong to the Montgomery form with coefficient `a`: `s^2 = -(a + 2)` and
/// `d = -(a - 2) / (a + 2)`.
pub open spec fn forms_match(a: int, s: int, d: int) -> bool {
    &&& cong(s * s + (a + 2), 0)
    &&& cong(d * (a + 2) + (a - 2), 0)
}

/// The image of a point of the Montgomery form under the birational map
/// `(x, y) -> (x s / y, (x - 1) / (x + 1))`, in extended coordinates.
pub open spec fn montgomery_to_edwards(m: Option<(int, int)>, s: int) -> Coords {
    match m {
        None => point_zero(),
        Some((x, y)) => if y == 0 {
            Coords { x: 0, y: fneg(1), t: 0, z: 1 }
        } else {
            let u = fmul(x, s);
            let v = fsub(x, 1);
            let z = fadd(x, 1);
            Coords { x: fmul(u, z), y: fmul(v, y), t: fmul(u, v), z: fmul(z, y) }
        },
    }
}

/// Whether `p` is a finite point of the curve: it satisfies the equations of
/// the curve and its `Z` can be divided by.
pub open spec fn proper(p: Coords, d: int) -> bool {
    on_curve(p, d) && invertible(p.z)
}

/// Whether `p` and `q` are finite points of the curve that stand for the same
/// affine point.
pub open spec fn equiv(p: Coords, q: Coords, d: int) -> bool {
    proper(p, d) && proper(q, d) && same_point(p, q)
}

/// Whether the addition law of the curve with coefficient `d` is complete:
/// the sum of two finite points of the curve is finite. In a field it is so
/// of every `d` that is not a square.
pub open spec fn complete(d: int) -> bool {
    forall|p: Coords, q: Coords|
        proper(p, d) && proper(q, d) ==> invertible(#[trigger] point_add(p, q, d).z)
}

/// Whether the coordinates of `p` and `q` stand for the same field elements,
/// one by one.
pub open spec fn coords_cong(p: Coords, q: Coords) -> bool {
    &&& cong(p.x, q.x)
    &&& cong(p.y, q.y)
    &&& cong(p.t, q.t)
    &&& cong(p.z, q.z)
}

/// `E = (x1 + y1)(x2 + y2) - H` of the addition formula, over the integers.
pub open spec fn raw_e(p: Coords, q: Coords) -> int {
    (p.x + p.y) * (q.x + q.y) - (p.y * q.y + p.x * q.x)
}

/// `F = z1 z2 - d t1 t2` of the addition formula, over the integers.
pub open spec fn raw_f(p: Coords, q: Coords, d: int) -> int {
    p.z * q.z - d * p.t * q.t
}

/// `G = z1 z2 + d t1 t2` of the addition formula, over the integers.
pub open spec fn raw_g(p: Coords, q: Coords, d: int) -> int {
    p.z * q.z + d * p.t * q.t
}

/// `H = y1 y2 + x1 x2` of the addition formula, over the integers.
pub open spec fn raw_h(p: Coords, q: Coords) -> int {
    p.y * q.y + p.x * q.x
}

/// The addition formula over the integers, with nothing reduced:
/// `(E F, G H, E H, F G)`.
pub open spec fn raw_add(p: Coords, q: Coords, d: int) -> Coords {
    Coords {
        x: raw_e(p, q) * raw_f(p, q, d),
        y: raw_g(p, q, d) * raw_h(p, q),
        t: raw_e(p, q) * raw_h(p, q),
        z: raw_f(p, q, d) * raw_g(p, q, d),
    }
}

/// The coordinates of `p` over the integers, each multiplied by `k`.
pub open spec fn raw_scale(p: Coords, k: int) -> Coords {
    Coords { x: k * p.x, y: k * p.y, t: k * p.t, z: k * p.z }
}

/// What the first equation of the curve leaves over the integers:
/// `y^2 - x^2 - (z^2 + d t^2)`.
pub open spec fn curve_residue(p: Coords, d: int) -> int {
    p.y * p.y - p.x * p.x - (p.z * p.z + d * (p.t * p.t))
}

/// What the second equation of the curve leaves over the integers:
/// `t z - x y`.
pub open spec fn product_residue(p: Coords) -> int {
    p.t * p.z - p.x * p.y
}

/// Whether integers that stand for the coordinates of a point satisfy the
/// equations of the curve modulo the order of the field.
pub open spec fn raw_on_curve(p: Coords, d: int) -> bool {
    &&& cong(curve_residue(p, d), 0)
    &&& cong(product_residue(p), 0)
}

} // verus!
