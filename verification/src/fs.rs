//! Scalars by which points are multiplied, and the order of the prime-order
//! subgroup.

use vstd::prelude::*;
use vstd::arithmetic::power2::{pow2, lemma2_to64, lemma_pow2_adds, lemma_pow2_pos, lemma_pow2_unfold};
use vstd::arithmetic::div_mod::{lemma_basic_div, lemma_div_denominator, lemma_div_pos_is_pos};
use crate::fr::limbs_value;

verus! {

/// The number of elements of the prime-order subgroup of the curve.
pub open spec fn subgroup_order() -> int {
    6554484396890773809930967563523245729705921265872317281365359162392183254199int
}

/// The bit of weight `2^k` in the binary expansion of `n`.
pub open spec fn bit_of(n: int, k: nat) -> bool {
    (n / (pow2(k) as int)) % 2 == 1
}

/// A scalar as four 64-bit limbs, least significant first.
#[derive(Clone, Copy, Debug)]
pub struct FsRepr(pub [u64; 4]);

impl FsRepr {
    /// The integer that the limbs stand for.
    pub open spec fn view(&self) -> int {
        limbs_value(self.0[0], self.0[1], self.0[2], self.0[3])
    }

    /// The 256 bits of this scalar, most significant first. Calls
    /// `pairing::BitIterator`, relying on it to walk the limbs from the last
    /// to the first and each limb from its highest bit to its lowest.
    #[verifier::external_body]
    pub(crate) fn bits_be(&self) -> (bits: Vec<bool>)
        ensures
            bits@.len() == 256,
            forall|i: int| 0 <= i < 256 ==> bits@[i] == bit_of(self@, (255 - i) as nat),
    {
        pairing::BitIterator::new(self.0).collect()
    }
}

/// A scalar is less than `2^256`.
pub proof fn lemma_scalar_bound(s: FsRepr)
    ensures
        0 <= s@ < pow2(256),
        s@ / (pow2(256) as int) == 0,
{
    lemma2_to64();
    lemma_pow2_adds(64, 64);
    lemma_pow2_adds(128, 64);
    lemma_pow2_adds(192, 64);
    let w = 0x1_0000_0000_0000_0000int;
    assert(pow2(128) == w * w);
    assert(pow2(192) == w * w * w);
    assert(pow2(256) == w * w * w * w);
    assert(pow2(256) == 0x1_0000_0000_0000_0000_0000_0000_0000_0000_0000_0000_0000_0000_0000_0000_0000_0000int);
    lemma_basic_div(s@, pow2(256) as int);
}

/// Dropping one more low bit halves what is left.
pub proof fn lemma_shift_step(n: int, k: nat)
    requires
        0 <= n,
    ensures
        n / (pow2(k + 1) as int) == (n / (pow2(k) as int)) / 2,
        0 <= n / (pow2(k) as int),
{
    lemma_pow2_pos(k);
    lemma_pow2_unfold(k + 1);
    lemma_div_denominator(n, pow2(k) as int, 2);
    lemma_div_pos_is_pos(n, pow2(k) as int);
}

/// The scalar field of the curve.
#[derive(Debug)]
pub struct Fs;

impl Fs {
    /// The characteristic of the scalar field, which is the order of the
    /// prime-order subgroup.
    pub fn char() -> (r: FsRepr)
        ensures
            r@ == subgroup_order(),
    {
        FsRepr([0xd0970e5ed6f72cb7, 0xa6682093ccc81082, 0x06673b0101343b00, 0x0e7db4ea6533afa9])
    }
}

} // verus!
