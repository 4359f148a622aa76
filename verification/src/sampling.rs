//! The ordinates of the curve at a given abscissa: the solutions `y` of
//! `y^2 (1 - d x^2) = 1 + x^2`.

use vstd::prelude::*;
use vstd::arithmetic::div_mod::lemma_mod_multiples_vanish;
use crate::curve::{is_ordinate, on_curve, y_squared_denominator, Coords};
use crate::modular::{
    cong, fmul, fneg, is_canonical, lemma_canonical, lemma_cong_difference, lemma_cong_mul,
    lemma_fadd_cong, lemma_fmul_cong, lemma_fneg_cong, lemma_fsub_cong, modulus,
};

verus! {

/// Dividing by an invertible element and multiplying by it again gives the
/// element back.
pub proof fn lemma_divide_then_multiply(a: int, z: int, zinv: int)
    requires
        is_canonical(a),
        fmul(z, zinv) == 1,
    ensures
        fmul(fmul(a, zinv), z) == a,
{
    lemma_fmul_cong(a, zinv, a, zinv);
    lemma_fmul_cong(fmul(a, zinv), z, a * zinv, z);
    lemma_fmul_cong(z, zinv, z, zinv);
    lemma_cong_mul(a, z * zinv, a, 1);
    assert(a * zinv * z == a * (z * zinv)) by (nonlinear_arith);
    lemma_canonical(a);
}

/// A square root of the quotient `n / den` is a solution `y` of
/// `y^2 den = n`.
pub proof fn lemma_root_is_ordinate(y: int, n: int, den: int, invden: int)
    requires
        is_canonical(n),
        fmul(den, invden) == 1,
        fmul(y, y) == fmul(n, invden),
    ensures
        fmul(fmul(y, y), den) == n,
{
    lemma_divide_then_multiply(n, den, invden);
}

/// A solution `y` of `y^2 den = n` is a square root of the quotient
/// `n / den`.
pub proof fn lemma_ordinate_is_root(y: int, n: int, den: int, invden: int)
    requires
        fmul(den, invden) == 1,
        fmul(fmul(y, y), den) == n,
    ensures
        fmul(y, y) == fmul(n, invden),
{
    let yy = fmul(y, y);
    // yy = yy * (den * invden) = (yy * den) * invden = n * invden
    lemma_fmul_cong(yy, den, yy, den);
    lemma_fmul_cong(n, invden, yy * den, invden);
    lemma_fmul_cong(den, invden, den, invden);
    lemma_cong_mul(yy, den * invden, yy, 1);
    assert(yy * den * invden == yy * (den * invden)) by (nonlinear_arith);
    lemma_canonical(yy);
}

/// The negative of a solution `y` of `y^2 den = n` is a solution as well,
/// and unless `y` is zero it is of the other parity.
pub proof fn lemma_negated_ordinate(y: int, den: int)
    requires
        is_canonical(y),
    ensures
        fmul(fmul(fneg(y), fneg(y)), den) == fmul(fmul(y, y), den),
        y != 0 ==> (fneg(y) % 2 == 1) != (y % 2 == 1),
        y == 0 ==> fneg(y) == 0,
{
    lemma_fneg_cong(y, y);
    lemma_fmul_cong(fneg(y), fneg(y), -y, -y);
    lemma_fmul_cong(y, y, y, y);
    assert((-y) * (-y) == y * y) by (nonlinear_arith);
    if y != 0 {
        lemma_canonical(modulus() - y);
        lemma_mod_multiples_vanish(1, -y, modulus());
    }
}

/// A point `(x, y)` with `y^2 (1 - d x^2) = 1 + x^2` satisfies the equation
/// of the curve.
pub proof fn lemma_ordinate_on_curve(x: int, y: int, d: int)
    requires
        is_ordinate(x, y, d),
    ensures
        on_curve(Coords { x, y, t: fmul(x, y), z: 1 }, d),
{
    let t = fmul(x, y);
    let xx = fmul(x, x);
    let yy = fmul(y, y);
    lemma_fmul_cong(x, x, x, x);
    lemma_fmul_cong(y, y, y, y);
    lemma_fmul_cong(x, y, x, y);
    // the hypothesis, over the integers
    lemma_fmul_cong(xx, d, x * x, d);
    lemma_fsub_cong(1, fmul(xx, d), 1, x * x * d);
    lemma_fmul_cong(yy, y_squared_denominator(x, d), y * y, 1 - x * x * d);
    lemma_fadd_cong(1, xx, 1, x * x);
    assert(cong(y * y * (1 - x * x * d), 1 + x * x));
    // the two sides of the equation, over the integers
    lemma_fsub_cong(yy, xx, y * y, x * x);
    lemma_fmul_cong(t, t, x * y, x * y);
    lemma_fmul_cong(d, fmul(t, t), d, (x * y) * (x * y));
    assert(fmul(1, 1) == 1);
    lemma_fadd_cong(fmul(1, 1), fmul(d, fmul(t, t)), 1, d * ((x * y) * (x * y)));
    let lhs = y * y - x * x;
    let rhs = 1 + d * ((x * y) * (x * y));
    assert(lhs - rhs == y * y * (1 - x * x * d) - (1 + x * x)) by (nonlinear_arith)
        requires
            lhs == y * y - x * x,
            rhs == 1 + d * ((x * y) * (x * y)),
    ;
    lemma_cong_difference(y * y * (1 - x * x * d), 1 + x * x);
    lemma_cong_difference(lhs, rhs);
    // T Z = X Y
    lemma_fmul_cong(t, 1, x * y, 1);
    assert(x * y * 1 == x * y);
}

} // verus!
