//! Fuels as type-level capabilities, and the container that carries a
//! quantity of a chosen fuel.
//!
//! A fuel's energy density is a physical constant of the fuel type, not of
//! any instance, so it lives on the type: the `Fuel` capability names the
//! native unit a fuel delivers and the density in that unit. Providers can
//! then be generic over any fuel without runtime tagging.

use core::marker::PhantomData;

use vstd::prelude::*;

use crate::units::{Calorie, EnergyUnit, Joule, BTU};

verus! {

/// A technology for storing energy for later consumption.
///
/// The density delivered by `energy_density` is, in base-unit terms, the
/// type's `density()`; it is expressed in the fuel's native unit, so the
/// stored magnitude carries the unit's ratio as an exact multiple.
pub trait Fuel {
    /// The unit in which this fuel delivers energy.
    type Output: EnergyUnit;

    /// The fuel's energy density, counted in base units per unit of fuel.
    spec fn density() -> u32;

    /// The energy contained in a single unit of fuel, in the native unit.
    fn energy_density() -> (r: Self::Output)
        ensures
            r.value() == Self::density() * <Self::Output as EnergyUnit>::ratio(),
    ;
}

/// Diesel delivers Joules, 100 base units per unit of fuel.
pub struct Diesel;

impl Fuel for Diesel {
    type Output = Joule;

    open spec fn density() -> u32 {
        100
    }

    fn energy_density() -> (r: Joule) {
        Joule::from_base(100)
    }
}

/// Lithium batteries deliver Calories, 200 base units per unit of fuel.
pub struct LithiumBattery;

impl Fuel for LithiumBattery {
    type Output = Calorie;

    open spec fn density() -> u32 {
        200
    }

    fn energy_density() -> (r: Calorie) {
        Calorie::from_base(200)
    }
}

/// Uranium delivers Joules, 1000 base units per unit of fuel.
pub struct Uranium;

impl Fuel for Uranium {
    type Output = Joule;

    open spec fn density() -> u32 {
        1000
    }

    fn energy_density() -> (r: Joule) {
        Joule::from_base(1000)
    }
}

/// A marker capability with no operations: fuels carrying it count as
/// renewable.
pub trait IsRenewable {}

impl IsRenewable for LithiumBattery {}

/// A quantity of fuel of a fixed type, created by the caller and consumed
/// by exactly one conversion call. Its view is the quantity it holds.
pub struct FuelContainer<F: Fuel> {
    amount: u32,
    _marker: PhantomData<F>,
}

impl<F: Fuel> View for FuelContainer<F> {
    type V = u32;

    closed spec fn view(&self) -> u32 {
        self.amount
    }
}

impl<F: Fuel> FuelContainer<F> {
    /// Wraps a quantity of fuel; any quantity is legal, zero included.
    pub fn new(amount: u32) -> (r: Self)
        ensures
            r@ == amount,
    {
        FuelContainer { amount, _marker: PhantomData }
    }

    /// The quantity of fuel held.
    pub fn amount(&self) -> (r: u32)
        ensures
            r == self@,
    {
        self.amount
    }
}

} // verus!
