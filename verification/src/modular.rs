//! The base field as arithmetic on integers modulo a fixed prime.

use vstd::prelude::*;
use vstd::arithmetic::div_mod::{
    lemma_add_mod_noop, lemma_mod_equivalence, lemma_mod_twice, lemma_mul_mod_noop_general,
    lemma_small_mod, lemma_sub_mod_noop,
};

verus! {

/// The number of elements of the base field.
pub open spec fn modulus() -> int {
    52435875175126190479447740508185965837690552500527637822603658699938581184513int
}

/// Whether `a` is the canonical representative of a field element.
pub open spec fn is_canonical(a: int) -> bool {
    0 <= a < modulus()
}

/// Sum of two field elements.
pub open spec fn fadd(a: int, b: int) -> int {
    (a + b) % modulus()
}

/// Difference of two field elements.
pub open spec fn fsub(a: int, b: int) -> int {
    (a - b) % modulus()
}

/// Product of two field elements.
pub open spec fn fmul(a: int, b: int) -> int {
    (a * b) % modulus()
}

/// Additive inverse of a field element.
pub open spec fn fneg(a: int) -> int {
    (-a) % modulus()
}

/// Whether some field element squares to `a`.
pub open spec fn is_square(a: int) -> bool {
    exists|w: int| #[trigger] fmul(w, w) == a
}

/// Whether the field element `a` has a multiplicative inverse.
pub open spec fn invertible(a: int) -> bool {
    exists|w: int| #[trigger] fmul(a, w) == 1
}

/// Whether every element but zero has an inverse: whether the integers
/// modulo `modulus()` are a field, which they are as it is a prime.
pub open spec fn is_field() -> bool {
    forall|a: int| !cong(a, 0) ==> #[trigger] invertible(a)
}

/// Whether `a` and `b` stand for the same field element.
pub open spec fn cong(a: int, b: int) -> bool {
    a % modulus() == b % modulus()
}

/// The canonical representative stands for itself.
pub proof fn lemma_canonical(a: int)
    requires
        is_canonical(a),
    ensures
        a % modulus() == a,
{
    lemma_small_mod(a as nat, modulus() as nat);
}

/// Two canonical representatives of one field element are equal.
pub proof fn lemma_cong_canonical(a: int, b: int)
    requires
        is_canonical(a),
        is_canonical(b),
        cong(a, b),
    ensures
        a == b,
{
    lemma_canonical(a);
    lemma_canonical(b);
}

/// Sums of congruent numbers are congruent.
pub proof fn lemma_cong_add(a: int, b: int, a2: int, b2: int)
    requires
        cong(a, a2),
        cong(b, b2),
    ensures
        cong(a + b, a2 + b2),
{
    lemma_add_mod_noop(a, b, modulus());
    lemma_add_mod_noop(a2, b2, modulus());
}

/// Differences of congruent numbers are congruent.
pub proof fn lemma_cong_sub(a: int, b: int, a2: int, b2: int)
    requires
        cong(a, a2),
        cong(b, b2),
    ensures
        cong(a - b, a2 - b2),
{
    lemma_sub_mod_noop(a, b, modulus());
    lemma_sub_mod_noop(a2, b2, modulus());
}

/// Products of congruent numbers are congruent.
pub proof fn lemma_cong_mul(a: int, b: int, a2: int, b2: int)
    requires
        cong(a, a2),
        cong(b, b2),
    ensures
        cong(a * b, a2 * b2),
{
    lemma_mul_mod_noop_general(a, b, modulus());
    lemma_mul_mod_noop_general(a2, b2, modulus());
}

/// A multiple of a number congruent to zero is congruent to zero.
pub proof fn lemma_cong_zero_multiple(c: int, g: int)
    requires
        cong(g, 0),
    ensures
        cong(c * g, 0),
{
    lemma_cong_mul(c, g, c, 0);
    assert(c * 0 == 0);
}

/// Numbers whose difference is congruent to zero are congruent, and the
/// other way round.
pub proof fn lemma_cong_difference(a: int, b: int)
    ensures
        cong(a, b) == cong(a - b, 0),
{
    lemma_mod_equivalence(a, b, modulus());
}

/// The field sum is congruent to the sum of any numbers congruent to its
/// arguments.
pub proof fn lemma_fadd_cong(a: int, b: int, a2: int, b2: int)
    requires
        cong(a, a2),
        cong(b, b2),
    ensures
        cong(fadd(a, b), a2 + b2),
{
    lemma_cong_add(a, b, a2, b2);
    lemma_mod_twice(a + b, modulus());
}

/// The field difference is congruent to the difference of any numbers
/// congruent to its arguments.
pub proof fn lemma_fsub_cong(a: int, b: int, a2: int, b2: int)
    requires
        cong(a, a2),
        cong(b, b2),
    ensures
        cong(fsub(a, b), a2 - b2),
{
    lemma_cong_sub(a, b, a2, b2);
    lemma_mod_twice(a - b, modulus());
}

/// The field product is congruent to the product of any numbers congruent to
/// its arguments.
pub proof fn lemma_fmul_cong(a: int, b: int, a2: int, b2: int)
    requires
        cong(a, a2),
        cong(b, b2),
    ensures
        cong(fmul(a, b), a2 * b2),
{
    lemma_cong_mul(a, b, a2, b2);
    lemma_mod_twice(a * b, modulus());
}

/// The field negative is congruent to the negative of any number congruent to
/// its argument.
pub proof fn lemma_fneg_cong(a: int, a2: int)
    requires
        cong(a, a2),
    ensures
        cong(fneg(a), -a2),
{
    lemma_cong_sub(0, a, 0, a2);
    lemma_mod_twice(-a, modulus());
}

} // verus!
