use jubjub::fr::Fr;

const MODULUS: [u64; 4] =
    [0xffffffff00000001, 0x53bda402fffe5bfe, 0x3339d80809a1d805, 0x73eda753299d7d48];

#[test]
fn zero_and_one_have_the_limbs_of_zero_and_one() {
    assert_eq!(Fr::zero().into_repr(), [0, 0, 0, 0]);
    assert_eq!(Fr::one().into_repr(), [1, 0, 0, 0]);
    assert!(Fr::zero().is_zero());
    assert!(!Fr::one().is_zero());
}

#[test]
fn from_repr_keeps_the_limbs() {
    let limbs = [0x0123456789abcdef, 0xfedcba9876543210, 0x1111111111111111, 0x0fffffffffffffff];
    assert_eq!(Fr::from_repr(limbs).unwrap().into_repr(), limbs);
}

#[test]
fn from_repr_rejects_the_modulus() {
    assert!(Fr::from_repr(MODULUS).is_none());
}

#[test]
fn from_repr_accepts_the_modulus_less_one() {
    let mut limbs = MODULUS;
    limbs[0] -= 1;
    assert_eq!(Fr::from_repr(limbs).unwrap().into_repr(), limbs);
}

#[test]
fn from_repr_rejects_what_is_above_the_modulus() {
    let mut limbs = MODULUS;
    limbs[0] += 1;
    assert!(Fr::from_repr(limbs).is_none());
    let mut limbs = MODULUS;
    limbs[1] += 1;
    limbs[0] = 0;
    assert!(Fr::from_repr(limbs).is_none());
    let mut limbs = MODULUS;
    limbs[2] += 1;
    limbs[1] = 0;
    assert!(Fr::from_repr(limbs).is_none());
    assert!(Fr::from_repr([0, 0, 0, 0x73eda753299d7d49]).is_none());
    assert!(Fr::from_repr([u64::MAX, u64::MAX, u64::MAX, u64::MAX]).is_none());
}

#[test]
fn from_repr_compares_from_the_highest_limb_down() {
    // lower limbs above those of the modulus, a higher limb below
    assert!(Fr::from_repr([u64::MAX, u64::MAX, u64::MAX, 0x73eda753299d7d47]).is_some());
    assert!(Fr::from_repr([u64::MAX, u64::MAX, 0x3339d80809a1d804, 0x73eda753299d7d48]).is_some());
    assert!(Fr::from_repr([u64::MAX, 0x53bda402fffe5bfd, 0x3339d80809a1d805, 0x73eda753299d7d48])
        .is_some());
}

#[test]
fn parity_is_that_of_the_lowest_limb() {
    assert!(Fr::one().is_odd());
    assert!(!Fr::zero().is_odd());
    assert!(!Fr::from_repr([2, 1, 1, 1]).unwrap().is_odd());
    assert!(Fr::from_repr([3, 0, 0, 0]).unwrap().is_odd());
}

#[test]
fn elements_are_equal_when_their_limbs_are() {
    let a = Fr::from_repr([7, 8, 9, 10]).unwrap();
    let b = Fr::from_repr([7, 8, 9, 10]).unwrap();
    let c = Fr::from_repr([7, 8, 9, 11]).unwrap();
    assert_eq!(a, b);
    assert_ne!(a, c);
}
