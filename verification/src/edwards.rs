//! Points of the twisted Edwards curve in extended coordinates.

use vstd::prelude::*;
use vstd::arithmetic::power2::{pow2, lemma2_to64};
use vstd::pervasive::unreached;
use vstd::std_specs::cmp::PartialEqSpecImpl;
use vstd::std_specs::convert::{FromSpec, FromSpecImpl};
use std::marker::PhantomData;
use crate::curve::{
    forms_match, has_ordinate, is_ordinate, montgomery_to_edwards, on_curve, on_montgomery_curve,
    point_add, point_double, point_neg, point_zero, same_point, scalar_mul, Coords,
};
use crate::fr::Fr;
use crate::fs::{Fs, FsRepr, bit_of, subgroup_order, lemma_scalar_bound};
use crate::group_law::{
    lemma_add_on_curve, lemma_montgomery_image_on_curve, lemma_neg_on_curve, lemma_zero_on_curve,
};
use crate::sampling::{
    lemma_divide_then_multiply, lemma_negated_ordinate, lemma_ordinate_is_root,
    lemma_ordinate_on_curve, lemma_root_is_ordinate,
};
use crate::scalar_law::{lemma_scalar_mul_on_curve, lemma_scalar_mul_step};
use crate::modular::{fmul, fneg, is_canonical};
use crate::montgomery;
use crate::{JubjubParams, PrimeOrder, Unknown};

verus! {

/// A point of the curve, tagged with what is known of its subgroup.
pub struct Point<Subgroup> {
    x: Fr,
    y: Fr,
    t: Fr,
    z: Fr,
    _marker: PhantomData<Subgroup>,
}

/// The same point under another tag.
fn convert_subgroup<S1, S2>(from: &Point<S1>) -> (r: Point<S2>)
    ensures
        r@ == from@,
        r == (Point::<S2> { x: from.x, y: from.y, t: from.t, z: from.z, _marker: PhantomData }),
{
    Point { x: from.x, y: from.y, t: from.t, z: from.z, _marker: PhantomData }
}

impl From<Point<PrimeOrder>> for Point<Unknown> {
    fn from(p: Point<PrimeOrder>) -> (r: Point<Unknown>) {
        convert_subgroup(&p)
    }
}

impl FromSpecImpl<Point<PrimeOrder>> for Point<Unknown> {
    open spec fn obeys_from_spec() -> bool {
        true
    }

    closed spec fn from_spec(p: Point<PrimeOrder>) -> Point<Unknown> {
        Point { x: p.x, y: p.y, t: p.t, z: p.z, _marker: PhantomData }
    }
}

/// A point of the prime-order subgroup taken as a point of unknown subgroup
/// has the same coordinates.
pub proof fn lemma_from_keeps_coordinates(p: Point<PrimeOrder>)
    ensures
        ({
            let r: Point<Unknown> = FromSpec::from_spec(p);
            r@ == p@
        }),
{
}

impl<Subgroup> Clone for Point<Subgroup> {
    fn clone(&self) -> (r: Self)
        ensures
            r@ == self@,
    {
        convert_subgroup(self)
    }
}

impl<Subgroup> PartialEq for Point<Subgroup> {
    /// Whether the two points are the same affine point. The coordinates are
    /// multiplied crosswise, so no inverse is taken.
    fn eq(&self, other: &Point<Subgroup>) -> (r: bool) {
        let mut x1 = self.x;
        x1.mul_assign(&other.z);

        let mut y1 = self.y;
        y1.mul_assign(&other.z);

        let mut x2 = other.x;
        x2.mul_assign(&self.z);

        let mut y2 = other.y;
        y2.mul_assign(&self.z);

        proof {
            Fr::lemma_view_injective(x1, x2);
            Fr::lemma_view_injective(y1, y2);
        }
        x1 == x2 && y1 == y2
    }
}

impl<Subgroup> PartialEqSpecImpl for Point<Subgroup> {
    open spec fn obeys_eq_spec() -> bool {
        true
    }

    open spec fn eq_spec(&self, other: &Point<Subgroup>) -> bool {
        same_point(self@, other@)
    }
}

impl Point<Unknown> {
    /// Eight times this point, by three doublings. Eight is the cofactor of
    /// the curve, so the result is tagged as an element of the prime-order
    /// subgroup.
    pub fn mul_by_cofactor(&self, params: &JubjubParams) -> (r: Point<PrimeOrder>)
        ensures
            r@ == point_double(
                point_double(point_double(self@, params.d()), params.d()),
                params.d(),
            ),
            on_curve(self@, params.d()) ==> on_curve(r@, params.d()),
    {
        let tmp = self.double(params).double(params).double(params);

        convert_subgroup(&tmp)
    }

    /// The point with the abscissa `x` whose ordinate is odd exactly if `sign`
    /// is set, or nothing if the curve has no such point. A uniform `x` and a
    /// uniform `sign`, drawn again until a point comes back, give a uniform
    /// point of the curve.
    pub fn from_sample(x: Fr, sign: bool, params: &JubjubParams) -> (r: Option<Point<Unknown>>)
        ensures
            r.is_some() == has_ordinate(x@, params.d()),
            r matches Some(p) ==> {
                &&& p@.x == x@
                &&& p@.z == 1
                &&& p@.t == fmul(x@, p@.y)
                &&& is_ordinate(x@, p@.y, params.d())
                &&& p@.y != 0 ==> (p@.y % 2 == 1) == sign
                &&& on_curve(p@, params.d())
            },
    {
        // given an x on the curve, y^2 = (1 + x^2) / (1 - dx^2)
        let mut x2 = x;
        x2.square();

        let mut num = Fr::one();
        num.add_assign(&x2);

        x2.mul_assign(params.edwards_d());

        let mut den = Fr::one();
        den.sub_assign(&x2);

        match den.inverse() {
            Some(invden) => {
                let ghost n = num@;
                num.mul_assign(&invden);

                match num.sqrt() {
                    Some(mut y) => {
                        let ghost y0 = y@;
                        proof {
                            use_type_invariant(&y);
                            y.lemma_in_field();
                            lemma_root_is_ordinate(y0, n, den@, invden@);
                        }
                        if y.is_odd() != sign {
                            y.negate();
                            proof {
                                lemma_negated_ordinate(y0, den@);
                            }
                        }
                        let mut t = x;
                        t.mul_assign(&y);

                        proof {
                            assert(is_ordinate(x@, y@, params.d()));
                            lemma_ordinate_on_curve(x@, y@, params.d());
                            assert(has_ordinate(x@, params.d()));
                        }
                        Some(Point { x, y, t, z: Fr::one(), _marker: PhantomData })
                    },
                    None => {
                        proof {
                            assert forall|w: int| !#[trigger] is_ordinate(x@, w, params.d()) by {
                                if is_ordinate(x@, w, params.d()) {
                                    lemma_ordinate_is_root(w, n, den@, invden@);
                                    assert(fmul(w, w) == num@);
                                }
                            }
                            assert(!has_ordinate(x@, params.d()));
                        }
                        None
                    },
                }
            },
            None => None,
        }
    }
}

impl<Subgroup> Point<Subgroup> {
    /// The coordinates of this point.
    pub closed spec fn view(&self) -> Coords {
        Coords { x: self.x@, y: self.y@, t: self.t@, z: self.z@ }
    }

    /// This point tagged as an element of the prime-order subgroup, if it is
    /// one: if its multiple by the order of that subgroup is the neutral
    /// element.
    pub fn as_prime_order(&self, params: &JubjubParams) -> (r: Option<Point<PrimeOrder>>)
        ensures
            r.is_some() == same_point(
                scalar_mul(self@, subgroup_order(), params.d()),
                point_zero(),
            ),
            r matches Some(p) ==> p@ == self@,
    {
        let multiple = self.mul(Fs::char(), params);
        let zero: Point<Subgroup> = Point::zero();
        if multiple == zero {
            Some(convert_subgroup(self))
        } else {
            None
        }
    }

    /// The affine coordinates `(X/Z, Y/Z)` of this point.
    pub fn into_xy(&self) -> (r: (Fr, Fr))
        requires
            self@.z != 0,
        ensures
            is_canonical(r.0@),
            is_canonical(r.1@),
            fmul(r.0@, self@.z) == self@.x,
            fmul(r.1@, self@.z) == self@.y,
    {
        match self.z.inverse() {
            Some(zinv) => {
                let mut x = self.x;
                x.mul_assign(&zinv);

                let mut y = self.y;
                y.mul_assign(&zinv);

                proof {
                    use_type_invariant(&self.x);
                    use_type_invariant(&self.y);
                    self.x.lemma_in_field();
                    self.y.lemma_in_field();
                    lemma_divide_then_multiply(self.x@, self.z@, zinv@);
                    lemma_divide_then_multiply(self.y@, self.z@, zinv@);
                }
                (x, y)
            },
            None => unreached(),
        }
    }

    /// The neutral element.
    pub fn zero() -> (r: Self)
        ensures
            r@ == point_zero(),
            forall|d: int| on_curve(r@, d),
    {
        let r = Point {
            x: Fr::zero(),
            y: Fr::one(),
            t: Fr::zero(),
            z: Fr::one(),
            _marker: PhantomData,
        };
        proof {
            assert forall|d: int| on_curve(r@, d) by {
                lemma_zero_on_curve(d);
            }
        }
        r
    }

    /// The point of the Edwards form that the point `m` of the Montgomery form
    /// maps to. The point at infinity goes to the neutral element, the point of
    /// order two to `(0, -1)`.
    pub fn from_montgomery(m: &montgomery::Point<Subgroup>, params: &JubjubParams) -> (r: Self)
        ensures
            r@ == montgomery_to_edwards(m@, params.s()),
            m@.is_none() ==> r@ == point_zero(),
            m@ == Some((0int, 0int)) ==> r@ == (Coords { x: 0, y: fneg(1), t: 0, z: 1 }),
            forall|a: int|
                forms_match(a, params.s(), params.d()) && (m@ matches Some((x, y))
                    ==> on_montgomery_curve(x, y, a)) ==> on_curve(r@, params.d()),
    {
        proof {
            assert forall|a: int|
                forms_match(a, params.s(), params.d()) && (m@ matches Some((x, y))
                    ==> on_montgomery_curve(x, y, a)) implies on_curve(
                montgomery_to_edwards(m@, params.s()),
                params.d(),
            ) by {
                lemma_montgomery_image_on_curve(m@, a, params.s(), params.d());
            }
        }
        match m.into_xy() {
            None => {
                // The point at infinity is the neutral element.
                Point::zero()
            },
            Some((x, y)) => {
                if y.is_zero() {
                    // The only affine point with y = 0 is (0, 0), of order two.
                    let mut neg1 = Fr::one();
                    neg1.negate();
                    Point {
                        x: Fr::zero(),
                        y: neg1,
                        t: Fr::zero(),
                        z: Fr::one(),
                        _marker: PhantomData,
                    }
                } else {
                    // u = xs
                    let mut u = x;
                    u.mul_assign(params.scale());

                    // v = x - 1
                    let mut v = x;
                    v.sub_assign(&Fr::one());

                    // t = xs(x - 1)
                    let mut t = u;
                    t.mul_assign(&v);

                    // z = (x + 1)
                    let mut z = x;
                    z.add_assign(&Fr::one());

                    // u = xs(x + 1)
                    u.mul_assign(&z);

                    // z = y(x + 1)
                    z.mul_assign(&y);

                    // v = y(x - 1)
                    v.mul_assign(&y);

                    Point { x: u, y: v, t, z, _marker: PhantomData }
                }
            },
        }
    }

    /// The negative of this point.
    pub fn negate(&self) -> (r: Self)
        ensures
            r@ == point_neg(self@),
            forall|d: int| on_curve(self@, d) ==> on_curve(r@, d),
    {
        proof {
            assert forall|d: int| on_curve(self@, d) implies on_curve(point_neg(self@), d) by {
                lemma_neg_on_curve(self@, d);
            }
        }
        let mut x = self.x;
        x.negate();
        let mut t = self.t;
        t.negate();
        Point { x, y: self.y, t, z: self.z, _marker: PhantomData }
    }

    /// Twice this point.
    pub fn double(&self, params: &JubjubParams) -> (r: Self)
        ensures
            r@ == point_double(self@, params.d()),
            r@ == point_add(self@, self@, params.d()),
            on_curve(self@, params.d()) ==> on_curve(r@, params.d()),
    {
        self.add(self, params)
    }

    /// This point multiplied by `scalar`.
    pub fn mul(&self, scalar: FsRepr, params: &JubjubParams) -> (r: Self)
        ensures
            r@ == scalar_mul(self@, scalar@, params.d()),
            on_curve(self@, params.d()) ==> on_curve(r@, params.d()),
    {
        let mut res = Self::zero();
        let bits = scalar.bits_be();
        proof {
            lemma_scalar_bound(scalar);
            if on_curve(self@, params.d()) {
                lemma_scalar_mul_on_curve(self@, scalar@, params.d());
            }
        }
        let mut i: usize = 0;
        while i < 256
            invariant
                i <= 256,
                bits@.len() == 256,
                0 <= scalar@,
                forall|j: int| 0 <= j < 256 ==> bits@[j] == bit_of(scalar@, (255 - j) as nat),
                res@ == scalar_mul(self@, scalar@ / (pow2((256 - i) as nat) as int), params.d()),
            decreases 256 - i,
        {
            proof {
                lemma_scalar_mul_step(self@, scalar@, (255 - i) as nat, params.d());
                assert((255 - i) as nat + 1 == (256 - i) as nat);
            }
            res = res.double(params);
            if bits[i] {
                res = res.add(self, params);
            }
            i += 1;
        }
        proof {
            lemma2_to64();
            assert(scalar@ / (pow2(0) as int) == scalar@);
        }
        res
    }

    /// The sum of this point and `other`.
    pub fn add(&self, other: &Self, params: &JubjubParams) -> (r: Self)
        ensures
            r@ == point_add(self@, other@, params.d()),
            on_curve(self@, params.d()) && on_curve(other@, params.d()) ==> on_curve(
                r@,
                params.d(),
            ),
    {
        proof {
            if on_curve(self@, params.d()) && on_curve(other@, params.d()) {
                lemma_add_on_curve(self@, other@, params.d());
            }
        }
        // A = x1 * x2
        let mut a = self.x;
        a.mul_assign(&other.x);

        // B = y1 * y2
        let mut b = self.y;
        b.mul_assign(&other.y);

        // C = d * t1 * t2
        let mut c = *params.edwards_d();
        c.mul_assign(&self.t);
        c.mul_assign(&other.t);

        // D = z1 * z2
        let mut d = self.z;
        d.mul_assign(&other.z);

        // H = B + A
        let mut h = b;
        h.add_assign(&a);

        // E = (x1 + y1) * (x2 + y2) - H
        let mut e = self.x;
        e.add_assign(&self.y);
        let mut tmp = other.x;
        tmp.add_assign(&other.y);
        e.mul_assign(&tmp);
        e.sub_assign(&h);

        // F = D - C
        let mut f = d;
        f.sub_assign(&c);

        // G = D + C
        let mut g = d;
        g.add_assign(&c);

        // x3 = E * F
        let mut x3 = e;
        x3.mul_assign(&f);

        // y3 = G * H
        let mut y3 = g;
        y3.mul_assign(&h);

        // t3 = E * H
        let mut t3 = e;
        t3.mul_assign(&h);

        // z3 = F * G
        let mut z3 = f;
        z3.mul_assign(&g);

        Point { x: x3, y: y3, t: t3, z: z3, _marker: PhantomData }
    }
}

} // verus!
