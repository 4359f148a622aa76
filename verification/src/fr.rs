//! Elements of the base field, held by their canonical limbs.
//!
//! The arithmetic itself is done by `pairing::bls12_381::Fr`; the functions
//! here that call it state what they rely on. Each of them hands the limbs
//! over with `PrimeField::from_repr` and takes them back with
//! `PrimeField::into_repr`, relying on the two to take and give the canonical
//! representative. No element has limbs that `from_repr` refuses: that is the
//! invariant of the type.

use vstd::prelude::*;
use crate::modular::{modulus, fadd, fsub, fmul, fneg, is_square, is_canonical};
use pairing::{Field, PrimeField, SqrtField};
use pairing::bls12_381::FrRepr;

verus! {

/// The integer that four little-endian 64-bit limbs stand for.
pub open spec fn limbs_value(l0: u64, l1: u64, l2: u64, l3: u64) -> int {
    l0 + l1 * 0x1_0000_0000_0000_0000int + l2 * 0x1_0000_0000_0000_0000_0000_0000_0000_0000int
        + l3 * 0x1_0000_0000_0000_0000_0000_0000_0000_0000_0000_0000_0000_0000int
}

/// A number is split into its lowest 64-bit limb and the rest in one way only.
proof fn lemma_split_limb(lo1: int, hi1: int, lo2: int, hi2: int)
    requires
        0 <= lo1 < 0x1_0000_0000_0000_0000,
        0 <= lo2 < 0x1_0000_0000_0000_0000,
        lo1 + 0x1_0000_0000_0000_0000 * hi1 == lo2 + 0x1_0000_0000_0000_0000 * hi2,
    ensures
        lo1 == lo2,
        hi1 == hi2,
{
}

/// An element of the base field.
#[derive(Clone, Copy, PartialEq, Eq, Structural, Debug)]
pub struct Fr {
    l0: u64,
    l1: u64,
    l2: u64,
    l3: u64,
}

impl Fr {
    /// The canonical representative of this element.
    pub closed spec fn view(&self) -> int {
        limbs_value(self.l0, self.l1, self.l2, self.l3)
    }

    /// Whether the limbs stand for an integer below the modulus. This holds
    /// of every element.
    #[verifier::type_invariant]
    pub closed spec fn in_field(&self) -> bool {
        limbs_value(self.l0, self.l1, self.l2, self.l3) < modulus()
    }

    /// An element that meets the invariant of the type is canonical.
    pub proof fn lemma_in_field(self)
        requires
            self.in_field(),
        ensures
            is_canonical(self@),
    {
    }

    /// Two elements are the same value exactly when they stand for the same
    /// integer.
    pub proof fn lemma_view_injective(a: Fr, b: Fr)
        ensures
            (a == b) == (a@ == b@),
    {
        if a@ == b@ {
            let w = 0x1_0000_0000_0000_0000int;
            let ha = a.l1 + a.l2 * w + a.l3 * (w * w);
            let hb = b.l1 + b.l2 * w + b.l3 * (w * w);
            assert(a@ == a.l0 + w * ha && b@ == b.l0 + w * hb) by (nonlinear_arith)
                requires
                    w == 0x1_0000_0000_0000_0000int,
                    ha == a.l1 + a.l2 * w + a.l3 * (w * w),
                    hb == b.l1 + b.l2 * w + b.l3 * (w * w),
                    a@ == a.l0 + a.l1 * w + a.l2 * (w * w) + a.l3 * (w * w * w),
                    b@ == b.l0 + b.l1 * w + b.l2 * (w * w) + b.l3 * (w * w * w),
            ;
            lemma_split_limb(a.l0 as int, ha, b.l0 as int, hb);
            let ga = a.l2 + a.l3 * w;
            let gb = b.l2 + b.l3 * w;
            assert(ha == a.l1 + w * ga && hb == b.l1 + w * gb) by (nonlinear_arith)
                requires
                    ha == a.l1 + a.l2 * w + a.l3 * (w * w),
                    hb == b.l1 + b.l2 * w + b.l3 * (w * w),
                    ga == a.l2 + a.l3 * w,
                    gb == b.l2 + b.l3 * w,
            ;
            lemma_split_limb(a.l1 as int, ga, b.l1 as int, gb);
            assert(ga == a.l2 + w * a.l3 && gb == b.l2 + w * b.l3) by (nonlinear_arith)
                requires
                    ga == a.l2 + a.l3 * w,
                    gb == b.l2 + b.l3 * w,
            ;
            lemma_split_limb(a.l2 as int, a.l3 as int, b.l2 as int, b.l3 as int);
        }
    }

    /// The additive identity.
    pub fn zero() -> (r: Fr)
        ensures
            r@ == 0,
    {
        Fr { l0: 0, l1: 0, l2: 0, l3: 0 }
    }

    /// The multiplicative identity.
    pub fn one() -> (r: Fr)
        ensures
            r@ == 1,
    {
        Fr { l0: 1, l1: 0, l2: 0, l3: 0 }
    }

    /// The element with the given canonical limbs, least significant first,
    /// if they stand for an integer below the modulus.
    pub fn from_repr(limbs: [u64; 4]) -> (r: Option<Fr>)
        ensures
            r.is_some() == (limbs_value(limbs[0], limbs[1], limbs[2], limbs[3]) < modulus()),
            r matches Some(f) ==> f@ == limbs_value(limbs[0], limbs[1], limbs[2], limbs[3]),
    {
        let l0: u64 = limbs[0];
        let l1: u64 = limbs[1];
        let l2: u64 = limbs[2];
        let l3: u64 = limbs[3];
        let below = l3 < 0x73eda753299d7d48 || (l3 == 0x73eda753299d7d48 && (l2
            < 0x3339d80809a1d805 || (l2 == 0x3339d80809a1d805 && (l1 < 0x53bda402fffe5bfe || (l1
            == 0x53bda402fffe5bfe && l0 < 0xffffffff00000001)))));
        if below {
            Some(Fr { l0, l1, l2, l3 })
        } else {
            None
        }
    }

    /// The canonical limbs of this element, least significant first.
    pub fn into_repr(&self) -> (limbs: [u64; 4])
        ensures
            limbs_value(limbs[0], limbs[1], limbs[2], limbs[3]) == self@,
            0 <= self@ < modulus(),
    {
        proof {
            use_type_invariant(self);
        }
        [self.l0, self.l1, self.l2, self.l3]
    }

    /// Whether this is the additive identity.
    pub fn is_zero(&self) -> (b: bool)
        ensures
            b == (self@ == 0),
    {
        self.l0 == 0 && self.l1 == 0 && self.l2 == 0 && self.l3 == 0
    }

    /// Adds `other` to this element. Calls `Field::add_assign` of `pairing::bls12_381::Fr`,
    /// relying on it to leave the sum of the two
    /// elements, reduced modulo the field's order.
    #[verifier::external_body]
    pub(crate) fn add_assign(&mut self, other: &Fr)
        ensures
            final(self)@ == fadd(old(self)@, other@),
    {
        let mut a = pairing::bls12_381::Fr::from_repr(FrRepr([self.l0, self.l1, self.l2, self.l3])).unwrap();
        let b = pairing::bls12_381::Fr::from_repr(FrRepr([other.l0, other.l1, other.l2, other.l3])).unwrap();
        a.add_assign(&b);
        let r = a.into_repr().0;
        *self = Fr { l0: r[0], l1: r[1], l2: r[2], l3: r[3] };
    }

    /// Subtracts `other` from this element. Calls `Field::sub_assign` of `pairing::bls12_381::Fr`,
    /// relying on it to leave the difference of
    /// the two elements, reduced modulo the field's order.
    #[verifier::external_body]
    pub(crate) fn sub_assign(&mut self, other: &Fr)
        ensures
            final(self)@ == fsub(old(self)@, other@),
    {
        let mut a = pairing::bls12_381::Fr::from_repr(FrRepr([self.l0, self.l1, self.l2, self.l3])).unwrap();
        let b = pairing::bls12_381::Fr::from_repr(FrRepr([other.l0, other.l1, other.l2, other.l3])).unwrap();
        a.sub_assign(&b);
        let r = a.into_repr().0;
        *self = Fr { l0: r[0], l1: r[1], l2: r[2], l3: r[3] };
    }

    /// Multiplies this element by `other`. Calls `Field::mul_assign` of `pairing::bls12_381::Fr`,
    /// relying on it to leave the product of the
    /// two elements, reduced modulo the field's order.
    #[verifier::external_body]
    pub(crate) fn mul_assign(&mut self, other: &Fr)
        ensures
            final(self)@ == fmul(old(self)@, other@),
    {
        let mut a = pairing::bls12_381::Fr::from_repr(FrRepr([self.l0, self.l1, self.l2, self.l3])).unwrap();
        let b = pairing::bls12_381::Fr::from_repr(FrRepr([other.l0, other.l1, other.l2, other.l3])).unwrap();
        a.mul_assign(&b);
        let r = a.into_repr().0;
        *self = Fr { l0: r[0], l1: r[1], l2: r[2], l3: r[3] };
    }

    /// Squares this element. Calls `Field::square` of `pairing::bls12_381::Fr`,
    /// relying on it to leave the product of the element with
    /// itself, reduced modulo the field's order.
    #[verifier::external_body]
    pub(crate) fn square(&mut self)
        ensures
            final(self)@ == fmul(old(self)@, old(self)@),
    {
        let mut a = pairing::bls12_381::Fr::from_repr(FrRepr([self.l0, self.l1, self.l2, self.l3])).unwrap();
        a.square();
        let r = a.into_repr().0;
        *self = Fr { l0: r[0], l1: r[1], l2: r[2], l3: r[3] };
    }

    /// Negates this element. Calls `Field::negate` of `pairing::bls12_381::Fr`,
    /// relying on it to leave the additive inverse of the
    /// element: zero for zero, else the order less the element.
    #[verifier::external_body]
    pub(crate) fn negate(&mut self)
        ensures
            final(self)@ == fneg(old(self)@),
    {
        let mut a = pairing::bls12_381::Fr::from_repr(FrRepr([self.l0, self.l1, self.l2, self.l3])).unwrap();
        a.negate();
        let r = a.into_repr().0;
        *self = Fr { l0: r[0], l1: r[1], l2: r[2], l3: r[3] };
    }

    /// The multiplicative inverse of this element, if it has one. Calls
    /// `Field::inverse` of `pairing::bls12_381::Fr`, relying on it to return
    /// nothing for zero and, for any other element, an element whose product
    /// with it is one.
    #[verifier::external_body]
    pub(crate) fn inverse(&self) -> (r: Option<Fr>)
        ensures
            r.is_none() == (self@ == 0),
            r matches Some(i) ==> fmul(self@, i@) == 1,
    {
        let a = pairing::bls12_381::Fr::from_repr(FrRepr([self.l0, self.l1, self.l2, self.l3])).unwrap();
        match a.inverse() {
            Some(i) => {
                let r = i.into_repr().0;
                Some(Fr { l0: r[0], l1: r[1], l2: r[2], l3: r[3] })
            },
            None => None,
        }
    }

    /// A square root of this element, if it has one. Calls `SqrtField::sqrt`
    /// of `pairing::bls12_381::Fr`, relying on it to return an element whose
    /// square is this one whenever such an element exists, and nothing
    /// otherwise. Which of the two roots comes back is left open.
    #[verifier::external_body]
    pub(crate) fn sqrt(&self) -> (r: Option<Fr>)
        ensures
            r.is_some() == is_square(self@),
            r matches Some(y) ==> fmul(y@, y@) == self@,
    {
        let a = pairing::bls12_381::Fr::from_repr(FrRepr([self.l0, self.l1, self.l2, self.l3])).unwrap();
        match a.sqrt() {
            Some(y) => {
                let r = y.into_repr().0;
                Some(Fr { l0: r[0], l1: r[1], l2: r[2], l3: r[3] })
            },
            None => None,
        }
    }

    /// Whether the canonical representative is odd.
    pub fn is_odd(&self) -> (b: bool)
        ensures
            b == (self@ % 2 == 1),
    {
        let low: u64 = self.l0;
        assert(low & 1 == low % 2) by (bit_vector);
        low & 1 == 1
    }
}

} // verus!
