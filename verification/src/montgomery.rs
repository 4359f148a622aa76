//! Points of the Montgomery form of the curve, as far as the mapping onto the
//! Edwards form needs them.

use vstd::prelude::*;
use crate::fr::Fr;
use crate::Unknown;
use std::marker::PhantomData;

verus! {

/// A point of the Montgomery form: the point at infinity or an affine point,
/// tagged with what is known of its subgroup.
pub struct Point<Subgroup> {
    x: Fr,
    y: Fr,
    infinity: bool,
    _marker: PhantomData<Subgroup>,
}

impl<Subgroup> Point<Subgroup> {
    /// The affine coordinates of this point, or nothing for the point at
    /// infinity.
    pub closed spec fn view(&self) -> Option<(int, int)> {
        if self.infinity {
            None
        } else {
            Some((self.x@, self.y@))
        }
    }

    /// The point at infinity, which is the neutral element.
    pub fn zero() -> (r: Self)
        ensures
            r@.is_none(),
    {
        Point { x: Fr::zero(), y: Fr::zero(), infinity: true, _marker: PhantomData }
    }

    /// The affine coordinates of this point, or nothing for the point at
    /// infinity.
    pub fn into_xy(&self) -> (r: Option<(Fr, Fr)>)
        ensures
            match r {
                Some((x, y)) => self@ == Some((x@, y@)),
                None => self@.is_none(),
            },
    {
        if self.infinity {
            None
        } else {
            Some((self.x, self.y))
        }
    }
}

impl Point<Unknown> {
    /// The affine point with the given coordinates.
    pub fn from_xy(x: Fr, y: Fr) -> (r: Self)
        ensures
            r@ == Some((x@, y@)),
    {
        Point { x, y, infinity: false, _marker: PhantomData }
    }
}

} // verus!
