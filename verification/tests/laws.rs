use jubjub::edwards::Point;
use jubjub::fr::Fr;
use jubjub::fs::FsRepr;
use jubjub::{JubjubParams, Unknown};
use pairing::PrimeField;
use rand::{Rng, SeedableRng, XorShiftRng};

fn element(s: &str) -> Fr {
    let v = pairing::bls12_381::Fr::from_str(s).unwrap();
    Fr::from_repr(v.into_repr().0).unwrap()
}

fn jubjub() -> JubjubParams {
    JubjubParams::new(
        element("19257038036680949359750312669786877991949435402254120286184196891950884077233"),
        element("17814886934372412843466061268024708274627479829237077604635722030778476050649"),
    )
}

fn draw(rng: &mut XorShiftRng, params: &JubjubParams) -> Point<Unknown> {
    loop {
        let x: pairing::bls12_381::Fr = rng.gen();
        let sign: bool = rng.gen();
        let x = Fr::from_repr(x.into_repr().0).unwrap();
        if let Some(p) = Point::from_sample(x, sign, params) {
            return p;
        }
    }
}

fn generator(seed: u32) -> XorShiftRng {
    XorShiftRng::from_seed([0x5dbe6259, 0x8d313d76, 0x3237db17, seed])
}

fn count_valid(seed: u32, n: usize) -> (usize, usize) {
    let params = jubjub();
    let mut rng = generator(seed);
    let d = params.edwards_d().into_repr();
    let d = pairing::bls12_381::Fr::from_repr(pairing::bls12_381::FrRepr(d)).unwrap();
    let mut valid = 0;
    let mut odd = 0;
    for _ in 0..n {
        let (x, y) = draw(&mut rng, &params).into_xy();
        if y.is_odd() {
            odd += 1;
        }
        let x = pairing::bls12_381::Fr::from_repr(pairing::bls12_381::FrRepr(x.into_repr())).unwrap();
        let y = pairing::bls12_381::Fr::from_repr(pairing::bls12_381::FrRepr(y.into_repr())).unwrap();
        let mut x2 = x;
        pairing::Field::square(&mut x2);
        let mut y2 = y;
        pairing::Field::square(&mut y2);
        let mut lhs = y2;
        pairing::Field::sub_assign(&mut lhs, &x2);
        let mut rhs = d;
        pairing::Field::mul_assign(&mut rhs, &x2);
        pairing::Field::mul_assign(&mut rhs, &y2);
        pairing::Field::add_assign(&mut rhs, &<pairing::bls12_381::Fr as pairing::Field>::one());
        if lhs == rhs {
            valid += 1;
        }
    }
    (valid, odd)
}

#[test]
fn adding_zero_leaves_a_point() {
    let params = jubjub();
    let mut rng = generator(2);
    let zero: Point<Unknown> = Point::zero();
    for _ in 0..50 {
        let p = draw(&mut rng, &params);
        assert!(p.add(&zero, &params) == p);
        assert!(zero.add(&p, &params) == p);
    }
}

#[test]
fn addition_commutes() {
    let params = jubjub();
    let mut rng = generator(3);
    for _ in 0..50 {
        let p = draw(&mut rng, &params);
        let q = draw(&mut rng, &params);
        let pq = p.add(&q, &params);
        let qp = q.add(&p, &params);
        assert!(pq == qp);
        let (x1, y1) = pq.into_xy();
        let (x2, y2) = qp.into_xy();
        assert_eq!(x1.into_repr(), x2.into_repr());
        assert_eq!(y1.into_repr(), y2.into_repr());
    }
}

#[test]
fn addition_is_associative() {
    let params = jubjub();
    let mut rng = generator(4);
    for _ in 0..50 {
        let p = draw(&mut rng, &params);
        let q = draw(&mut rng, &params);
        let r = draw(&mut rng, &params);
        let left = p.add(&q, &params).add(&r, &params);
        let right = p.add(&q.add(&r, &params), &params);
        assert!(left == right);
    }
}

#[test]
fn a_point_and_its_negative_add_to_zero() {
    let params = jubjub();
    let mut rng = generator(5);
    let zero: Point<Unknown> = Point::zero();
    for _ in 0..50 {
        let p = draw(&mut rng, &params);
        assert!(p.add(&p.negate(), &params) == zero);
        assert!(p.negate().add(&p, &params) == zero);
        assert!(p.negate().negate() == p);
    }
}

#[test]
fn doubling_is_adding_a_point_to_itself() {
    let params = jubjub();
    let mut rng = generator(6);
    for _ in 0..50 {
        let p = draw(&mut rng, &params);
        assert!(p.double(&params) == p.add(&p, &params));
    }
}

#[test]
fn multiplication_distributes_over_the_sum_of_scalars() {
    let params = jubjub();
    let mut rng = generator(7);
    for _ in 0..5 {
        let p = draw(&mut rng, &params);
        let a: u64 = rng.gen();
        let b: u64 = rng.gen();
        let (low, carry) = a.overflowing_add(b);
        let sum = FsRepr([low, carry as u64, 0, 0]);
        let left = p.mul(sum, &params);
        let right = p
            .mul(FsRepr([a, 0, 0, 0]), &params)
            .add(&p.mul(FsRepr([b, 0, 0, 0]), &params), &params);
        assert!(left == right);
    }
}

#[test]
fn multiplication_by_small_scalars_is_repeated_addition() {
    let params = jubjub();
    let mut rng = generator(8);
    let p = draw(&mut rng, &params);
    let mut sum: Point<Unknown> = Point::zero();
    for n in 0..20u64 {
        assert!(p.mul(FsRepr([n, 0, 0, 0]), &params) == sum);
        sum = sum.add(&p, &params);
    }
}

#[test]
fn multiplication_by_the_order_kills_the_subgroup() {
    let params = jubjub();
    let mut rng = generator(9);
    let zero: Point<Unknown> = Point::zero();
    for _ in 0..3 {
        let p: Point<Unknown> = draw(&mut rng, &params).mul_by_cofactor(&params).into();
        assert!(p.mul(jubjub::fs::Fs::char(), &params) == zero);
    }
}

#[test]
fn cofactor_clearing_lands_in_the_subgroup() {
    let params = jubjub();
    let mut rng = generator(10);
    for _ in 0..10 {
        let p = draw(&mut rng, &params);
        let q = p.mul_by_cofactor(&params);
        assert!(q.as_prime_order(&params).is_some());
    }
}

#[test]
fn a_verified_point_is_the_point_that_was_verified() {
    let params = jubjub();
    let mut rng = generator(11);
    for _ in 0..5 {
        let p: Point<Unknown> = draw(&mut rng, &params).mul_by_cofactor(&params).into();
        let verified = p.as_prime_order(&params).unwrap();
        let back: Point<Unknown> = verified.into();
        assert!(back == p);
        let (x1, y1) = back.into_xy();
        let (x2, y2) = p.into_xy();
        assert_eq!(x1.into_repr(), x2.into_repr());
        assert_eq!(y1.into_repr(), y2.into_repr());
    }
}

#[test]
fn two_thousand_samples_are_valid_first_seed() {
    let (valid, odd) = count_valid(21, 2000);
    assert_eq!(valid, 2000);
    assert!(odd > 850 && odd < 1150);
}

#[test]
fn two_thousand_samples_are_valid_second_seed() {
    let (valid, odd) = count_valid(22, 2000);
    assert_eq!(valid, 2000);
    assert!(odd > 850 && odd < 1150);
}

#[test]
fn two_thousand_samples_are_valid_third_seed() {
    let (valid, odd) = count_valid(23, 2000);
    assert_eq!(valid, 2000);
    assert!(odd > 850 && odd < 1150);
}

#[test]
fn two_thousand_samples_are_valid_fourth_seed() {
    let (valid, odd) = count_valid(24, 2000);
    assert_eq!(valid, 2000);
    assert!(odd > 850 && odd < 1150);
}

#[test]
fn two_thousand_samples_are_valid_fifth_seed() {
    let (valid, odd) = count_valid(25, 2000);
    assert_eq!(valid, 2000);
    assert!(odd > 850 && odd < 1150);
}

#[test]
fn samples_are_not_all_the_same() {
    let params = jubjub();
    let mut rng = generator(26);
    let first = draw(&mut rng, &params);
    let mut differ = 0;
    for _ in 0..20 {
        if draw(&mut rng, &params) != first {
            differ += 1;
        }
    }
    assert_eq!(differ, 20);
}

#[test]
fn multiplication_by_a_product_is_repeated_multiplication() {
    let params = jubjub();
    let mut rng = generator(12);
    for _ in 0..5 {
        let p = draw(&mut rng, &params);
        let a: u32 = rng.gen();
        let b: u32 = rng.gen();
        let product = (a as u64) * (b as u64);
        let left = p.mul(FsRepr([product, 0, 0, 0]), &params);
        let right = p.mul(FsRepr([a as u64, 0, 0, 0]), &params).mul(FsRepr([b as u64, 0, 0, 0]), &params);
        assert!(left == right);
    }
}

#[test]
fn eight_times_the_order_kills_every_point() {
    let params = jubjub();
    let mut rng = generator(13);
    let zero: Point<Unknown> = Point::zero();
    // 8 * order, in limbs
    let FsRepr(order) = jubjub::fs::Fs::char();
    let mut limbs = [0u64; 4];
    let mut carry = 0u64;
    for i in 0..4 {
        limbs[i] = (order[i] << 3) | carry;
        carry = order[i] >> 61;
    }
    assert_eq!(carry, 0);
    for _ in 0..3 {
        let p = draw(&mut rng, &params);
        assert!(p.mul(FsRepr(limbs), &params) == zero);
    }
}

#[test]
fn adding_the_order_to_a_scalar_changes_nothing_in_the_subgroup() {
    let params = jubjub();
    let mut rng = generator(14);
    let FsRepr(order) = jubjub::fs::Fs::char();
    for _ in 0..3 {
        let p: Point<Unknown> = draw(&mut rng, &params).mul_by_cofactor(&params).into();
        let a: u32 = rng.gen();
        let (low, carry) = order[0].overflowing_add(a as u64);
        let mut limbs = order;
        limbs[0] = low;
        if carry {
            limbs[1] += 1;
        }
        assert!(p.mul(FsRepr(limbs), &params) == p.mul(FsRepr([a as u64, 0, 0, 0]), &params));
    }
}
