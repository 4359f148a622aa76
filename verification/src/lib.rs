//! Point arithmetic on the Jubjub twisted Edwards curve
//! `-x^2 + y^2 = 1 + d x^2 y^2`, with the arithmetic of the base field
//! supplied by the `pairing` crate.
//!
//! [`edwards`] holds the points and their operations, [`montgomery`] the
//! points of the Montgomery form that can be mapped onto them, [`fr`] and
//! [`fs`] the field elements and the scalars. The contracts are stated over
//! [`curve`]: coordinates as integers modulo the order of the field.
//!
//! The laws of the group are proved in [`group_law`] (neutral element,
//! commutativity, associativity, negative, closure), [`equivalence`]
//! (equality up to scale), [`completeness`] (sums of finite points are
//! finite), [`scalar_law`] (multiplication by scalars) and [`sampling`]
//! (the ordinates of the curve at an abscissa). They rest on
//! [`modular`] and [`lifting`], which carry statements between the field and
//! the integers, and on the polynomial identities of [`polynomial`],
//! [`assoc_abscissa`] and [`assoc_ordinate`], checked with [`monomial`].

use vstd::prelude::*;
use crate::fr::Fr;

pub mod modular;
pub mod fr;
pub mod fs;
pub mod curve;
pub mod montgomery;
pub mod edwards;
pub mod lifting;
pub mod group_law;
pub mod equivalence;
pub mod scalar_law;
pub mod completeness;
pub mod sampling;
pub mod polynomial;
pub mod monomial;
pub mod assoc_abscissa;
pub mod assoc_ordinate;

verus! {

/// Tag of a point of which no subgroup is known.
#[derive(Debug)]
pub struct Unknown;

/// Tag of a point that lies in the prime-order subgroup.
#[derive(Debug)]
pub struct PrimeOrder;

/// The constants of one instance of the curve.
#[derive(Clone, Copy, Debug)]
pub struct JubjubParams {
    edwards_d: Fr,
    scale: Fr,
}

impl JubjubParams {
    /// The coefficient `d` of the curve `-x^2 + y^2 = 1 + d x^2 y^2`.
    pub closed spec fn d(&self) -> int {
        self.edwards_d@
    }

    /// The factor that scales the Montgomery form onto the Edwards form.
    pub closed spec fn s(&self) -> int {
        self.scale@
    }

    /// The parameters with the given coefficient and scale factor.
    pub fn new(edwards_d: Fr, scale: Fr) -> (params: JubjubParams)
        ensures
            params.d() == edwards_d@,
            params.s() == scale@,
    {
        JubjubParams { edwards_d, scale }
    }

    /// The coefficient `d` of the curve.
    pub fn edwards_d(&self) -> (d: &Fr)
        ensures
            d@ == self.d(),
    {
        &self.edwards_d
    }

    /// The factor that scales the Montgomery form onto the Edwards form.
    pub fn scale(&self) -> (s: &Fr)
        ensures
            s@ == self.s(),
    {
        &self.scale
    }
}

} // verus!
