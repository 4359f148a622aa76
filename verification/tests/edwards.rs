use jubjub::edwards::Point;
use jubjub::fr::Fr;
use jubjub::fs::{Fs, FsRepr};
use jubjub::montgomery;
use jubjub::{JubjubParams, PrimeOrder, Unknown};
use pairing::bls12_381::FrRepr;
use pairing::PrimeField;
use rand::{Rng, SeedableRng, XorShiftRng};

fn fr(s: &str) -> Fr {
    let v = pairing::bls12_381::Fr::from_str(s).unwrap();
    Fr::from_repr(v.into_repr().0).unwrap()
}

fn decimal(v: &Fr) -> String {
    let v = pairing::bls12_381::Fr::from_repr(FrRepr(v.into_repr())).unwrap();
    let mut digits = Vec::new();
    let mut limbs = v.into_repr().0;
    loop {
        let mut rem: u128 = 0;
        for limb in limbs.iter_mut().rev() {
            let cur = (rem << 64) | (*limb as u128);
            *limb = (cur / 10) as u64;
            rem = cur % 10;
        }
        digits.push(std::char::from_digit(rem as u32, 10).unwrap());
        if limbs == [0, 0, 0, 0] {
            break;
        }
    }
    digits.iter().rev().collect()
}

fn params() -> JubjubParams {
    JubjubParams::new(
        fr("19257038036680949359750312669786877991949435402254120286184196891950884077233"),
        fr("17814886934372412843466061268024708274627479829237077604635722030778476050649"),
    )
}

fn sample(rng: &mut XorShiftRng, params: &JubjubParams) -> Point<Unknown> {
    loop {
        let x: pairing::bls12_381::Fr = rng.gen();
        let sign: bool = rng.gen();
        let x = Fr::from_repr(x.into_repr().0).unwrap();
        if let Some(p) = Point::from_sample(x, sign, params) {
            return p;
        }
    }
}

fn seeded() -> XorShiftRng {
    XorShiftRng::from_seed([0x5dbe6259, 0x8d313d76, 0x3237db17, 0xe5bc0654])
}

fn affine(p: &Point<Unknown>) -> (String, String) {
    let (x, y) = p.into_xy();
    (decimal(&x), decimal(&y))
}

fn base(params: &JubjubParams) -> Point<Unknown> {
    Point::from_sample(fr("3"), false, params).unwrap()
}

const MINUS_ONE: &str =
    "52435875175126190479447740508185965837690552500527637822603658699938581184512";

#[test]
fn zero_is_the_point_zero_one() {
    let zero: Point<Unknown> = Point::zero();
    assert_eq!(affine(&zero), ("0".to_string(), "1".to_string()));
}

#[test]
fn sample_at_three_has_the_even_ordinate() {
    let p = base(&params());
    assert_eq!(
        affine(&p),
        (
            "3".to_string(),
            "26280151522934517387565960656678100021834114703215728743346941324647811642188"
                .to_string()
        )
    );
}

#[test]
fn sample_at_three_has_the_odd_ordinate() {
    let p = Point::from_sample(fr("3"), true, &params()).unwrap();
    assert_eq!(
        affine(&p),
        (
            "3".to_string(),
            "26155723652191673091881779851507865815856437797311909079256717375290769542325"
                .to_string()
        )
    );
}

#[test]
fn sample_at_one_has_no_point() {
    assert!(Point::from_sample(fr("1"), false, &params()).is_none());
    assert!(Point::from_sample(fr("1"), true, &params()).is_none());
}

#[test]
fn sample_at_zero_ignores_the_sign_of_a_zero_ordinate() {
    // x = 0 gives y^2 = 1, so y is 1 (odd) or -1 (even)
    let params = params();
    let odd = Point::from_sample(Fr::zero(), true, &params).unwrap();
    let even = Point::from_sample(Fr::zero(), false, &params).unwrap();
    assert_eq!(affine(&odd), ("0".to_string(), "1".to_string()));
    assert_eq!(affine(&even), ("0".to_string(), MINUS_ONE.to_string()));
}

#[test]
fn add_gives_the_sum() {
    let params = params();
    let p = base(&params);
    let q = Point::from_sample(fr("4"), true, &params).unwrap();
    assert_eq!(
        affine(&q),
        (
            "4".to_string(),
            "22866251426105516270824602415882894224063170285842023092857697201218493598605"
                .to_string()
        )
    );
    assert_eq!(
        affine(&p.add(&q, &params)),
        (
            "27728099767548371730084225767518895066029534895437454392946885517541501125527"
                .to_string(),
            "41947372855638434052756125816335929385936449931594281019801283437039059909759"
                .to_string()
        )
    );
}

#[test]
fn double_gives_twice_the_point() {
    let params = params();
    let p = base(&params);
    let expected = (
        "8152407343797569480574112064375510057102530231269466392589909638484545605480".to_string(),
        "38723139104534249968958209854966263925640670962649455418335639072110822623749"
            .to_string(),
    );
    assert_eq!(affine(&p.double(&params)), expected);
    assert_eq!(affine(&p.add(&p, &params)), expected);
}

#[test]
fn negate_flips_the_abscissa() {
    let params = params();
    let p = base(&params);
    assert_eq!(
        affine(&p.negate()),
        (
            "52435875175126190479447740508185965837690552500527637822603658699938581184510"
                .to_string(),
            "26280151522934517387565960656678100021834114703215728743346941324647811642188"
                .to_string()
        )
    );
}

#[test]
fn mul_by_five() {
    let params = params();
    let p = base(&params);
    assert_eq!(
        affine(&p.mul(FsRepr([5, 0, 0, 0]), &params)),
        (
            "49939883181802392460951319101845353764567692361160407783959171103382196813632"
                .to_string(),
            "21149102336486296001429205083581030104959673769681859839735343845175714341647"
                .to_string()
        )
    );
}

#[test]
fn mul_by_a_scalar_of_four_limbs() {
    let params = params();
    let p = base(&params);
    let n = FsRepr([0x0011223344556677, 0x0f1e2d3c4b5a6978, 0xfedcba9876543210, 0x0123456789abcdef]);
    assert_eq!(
        affine(&p.mul(n, &params)),
        (
            "40938005853821180462449353673634795407548150023494273890074719776783675057016"
                .to_string(),
            "26437040725239413126384440480003675483758676486333506890585621952160816479599"
                .to_string()
        )
    );
}

#[test]
fn mul_by_zero_and_one() {
    let params = params();
    let p = base(&params);
    let zero: Point<Unknown> = Point::zero();
    assert!(p.mul(FsRepr([0, 0, 0, 0]), &params) == zero);
    assert!(p.mul(FsRepr([1, 0, 0, 0]), &params) == p);
}

#[test]
fn mul_by_cofactor_is_eight_times_the_point() {
    let params = params();
    let p = base(&params);
    let q: Point<Unknown> = p.mul_by_cofactor(&params).into();
    assert_eq!(
        affine(&q),
        (
            "15566034152163360678659351341740636225662236463530704409363958125086959372605"
                .to_string(),
            "26806550371703875088078492170846421044290979298428875311661997866288555847726"
                .to_string()
        )
    );
    assert!(q == p.mul(FsRepr([8, 0, 0, 0]), &params));
}

#[test]
fn as_prime_order_accepts_a_point_of_the_subgroup() {
    let params = params();
    let p: Point<Unknown> = base(&params).mul_by_cofactor(&params).into();
    let checked: Point<PrimeOrder> = p.as_prime_order(&params).unwrap();
    let back: Point<Unknown> = checked.into();
    assert!(back == p);
    assert_eq!(affine(&back), affine(&p));
}

#[test]
fn as_prime_order_rejects_a_point_outside_the_subgroup() {
    let params = params();
    // 3 is the abscissa of a point whose multiple by the order is not zero
    let p = base(&params);
    assert!(p.as_prime_order(&params).is_none());
    assert_eq!(
        affine(&p.mul(Fs::char(), &params)),
        (
            "51487464086487745867707624970564403863932192230710361188278096157071779040579"
                .to_string(),
            "19260245455242183936012133194672327304390353749328020389743628630787497879844"
                .to_string()
        )
    );
}

#[test]
fn as_prime_order_rejects_the_point_of_order_two() {
    let params = params();
    let m = montgomery::Point::from_xy(Fr::zero(), Fr::zero());
    let p = Point::from_montgomery(&m, &params);
    assert!(p.as_prime_order(&params).is_none());
    // twice the point is zero
    let zero: Point<Unknown> = Point::zero();
    assert!(p.double(&params) == zero);
}

#[test]
fn as_prime_order_accepts_zero() {
    let params = params();
    let zero: Point<Unknown> = Point::zero();
    assert!(zero.as_prime_order(&params).is_some());
}

#[test]
fn order_is_the_characteristic_of_the_scalar_field() {
    let FsRepr(limbs) = Fs::char();
    assert_eq!(
        limbs,
        [0xd0970e5ed6f72cb7, 0xa6682093ccc81082, 0x06673b0101343b00, 0x0e7db4ea6533afa9]
    );
}

#[test]
fn montgomery_infinity_maps_to_zero() {
    let params = params();
    let m: montgomery::Point<Unknown> = montgomery::Point::zero();
    assert!(m.into_xy().is_none());
    let zero: Point<Unknown> = Point::zero();
    let p = Point::from_montgomery(&m, &params);
    assert!(p == zero);
    assert_eq!(affine(&p), ("0".to_string(), "1".to_string()));
}

#[test]
fn montgomery_point_of_order_two_maps_to_zero_minus_one() {
    let params = params();
    let m = montgomery::Point::from_xy(Fr::zero(), Fr::zero());
    let p = Point::from_montgomery(&m, &params);
    assert_eq!(affine(&p), ("0".to_string(), MINUS_ONE.to_string()));
}

#[test]
fn montgomery_point_maps_by_the_birational_map() {
    let params = params();
    let x = fr("6");
    let y = fr("15348092496554959986330049962028694891709809859603651563811756322622203551148");
    let m = montgomery::Point::from_xy(x, y);
    let (mx, my) = m.into_xy().unwrap();
    assert_eq!(decimal(&mx), "6");
    assert_eq!(
        decimal(&my),
        "15348092496554959986330049962028694891709809859603651563811756322622203551148"
    );
    let p = Point::from_montgomery(&m, &params);
    assert_eq!(
        affine(&p),
        (
            "9605511867661120433374745948928302193314359161475414444110224078189935587950"
                .to_string(),
            "22472517932196938776906174503508271073295951071654701923972996585687963364792"
                .to_string()
        )
    );
}

#[test]
fn equal_points_may_differ_in_scale() {
    // the image of a Montgomery point has Z = y (x + 1); the sampled point
    // with the same affine coordinates has Z = 1
    let params = params();
    let y = fr("15348092496554959986330049962028694891709809859603651563811756322622203551148");
    let scaled = Point::from_montgomery(&montgomery::Point::from_xy(fr("6"), y), &params);
    let (u, v) = scaled.into_xy();
    let plain = Point::from_sample(u, v.is_odd(), &params).unwrap();
    assert!(scaled == plain);
    assert!(plain == scaled);
    assert_eq!(affine(&scaled), affine(&plain));
    // and a sum with zero scales the coordinates by Z
    let zero: Point<Unknown> = Point::zero();
    assert!(scaled.add(&zero, &params) == plain);
}

#[test]
fn different_points_are_not_equal() {
    let params = params();
    let p = base(&params);
    let q = Point::from_sample(fr("3"), true, &params).unwrap();
    assert!(p != q);
    assert!(p != p.negate());
    assert!(p != p.double(&params));
}

#[test]
fn clone_is_the_same_point() {
    let params = params();
    let p = base(&params);
    let q = p.clone();
    assert!(p == q);
    assert_eq!(affine(&p), affine(&q));
}

#[test]
fn thousand_samples_are_on_the_curve_and_vary() {
    let params = params();
    let mut rng = seeded();
    let d = pairing::bls12_381::Fr::from_repr(FrRepr(params.edwards_d().into_repr())).unwrap();
    let mut odd = 0;
    let mut first: Option<(String, String)> = None;
    let mut varied = false;
    for _ in 0..1000 {
        let p = sample(&mut rng, &params);
        let (x, y) = p.into_xy();
        if y.is_odd() {
            odd += 1;
        }
        let xo = pairing::bls12_381::Fr::from_repr(FrRepr(x.into_repr())).unwrap();
        let yo = pairing::bls12_381::Fr::from_repr(FrRepr(y.into_repr())).unwrap();
        // -x^2 + y^2 = 1 + d x^2 y^2
        let mut x2 = xo;
        pairing::Field::square(&mut x2);
        let mut y2 = yo;
        pairing::Field::square(&mut y2);
        let mut lhs = y2;
        pairing::Field::sub_assign(&mut lhs, &x2);
        let mut rhs = d;
        pairing::Field::mul_assign(&mut rhs, &x2);
        pairing::Field::mul_assign(&mut rhs, &y2);
        pairing::Field::add_assign(&mut rhs, &<pairing::bls12_381::Fr as pairing::Field>::one());
        assert!(lhs == rhs);
        let a = (decimal(&x), decimal(&y));
        match &first {
            None => first = Some(a),
            Some(f) => {
                if *f != a {
                    varied = true;
                }
            }
        }
    }
    assert!(varied);
    assert!(odd > 400 && odd < 600);
}

#[test]
fn parameters_of_the_two_forms_belong_together() {
    // s^2 = -(a + 2) and d (a + 2) = -(a - 2) for the Montgomery coefficient a = 40962
    let params = params();
    let outside = |v: &Fr| pairing::bls12_381::Fr::from_repr(FrRepr(v.into_repr())).unwrap();
    let a = pairing::bls12_381::Fr::from_str("40962").unwrap();
    let two = pairing::bls12_381::Fr::from_str("2").unwrap();
    let mut a_plus = a;
    pairing::Field::add_assign(&mut a_plus, &two);
    let mut a_minus = a;
    pairing::Field::sub_assign(&mut a_minus, &two);
    let mut left = outside(params.scale());
    pairing::Field::square(&mut left);
    pairing::Field::add_assign(&mut left, &a_plus);
    assert!(pairing::Field::is_zero(&left));
    let mut right = outside(params.edwards_d());
    pairing::Field::mul_assign(&mut right, &a_plus);
    pairing::Field::add_assign(&mut right, &a_minus);
    assert!(pairing::Field::is_zero(&right));
}

#[test]
fn image_of_a_montgomery_point_is_on_the_curve() {
    let params = params();
    let y = fr("15348092496554959986330049962028694891709809859603651563811756322622203551148");
    let p = Point::from_montgomery(&montgomery::Point::from_xy(fr("6"), y), &params);
    let (u, v) = p.into_xy();
    // the sampled point with the same abscissa and parity is the same point
    let q = Point::from_sample(u, v.is_odd(), &params).unwrap();
    assert_eq!(affine(&p), affine(&q));
    // and it lies in the subgroup after clearing the cofactor
    assert!(p.mul_by_cofactor(&params).as_prime_order(&params).is_some());
}

#[test]
fn into_xy_divides_by_z() {
    // a sum has Z different from one; its affine coordinates are those of the
    // sum computed with inverses
    let params = params();
    let p = base(&params);
    let sum = p.add(&p, &params).add(&p, &params);
    let triple = p.mul(FsRepr([3, 0, 0, 0]), &params);
    assert_eq!(affine(&sum), affine(&triple));
}
