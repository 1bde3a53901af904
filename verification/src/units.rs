//! The unit algebra: a canonical base unit (BTU) and two native units,
//! each tied to the base unit by a fixed integer ratio.
//!
//! Converting a native magnitude to the base unit floor-divides by the
//! unit's ratio; converting back multiplies. Round trips are therefore
//! lossy, but by less than one ratio's worth (see `laws`).

use vstd::prelude::*;

verus! {

/// The canonical energy unit. All cross-unit arithmetic routes through it.
pub type BTU = u32;

/// How many Joule steps make up one base unit.
pub const JOULES_PER_BTU: u32 = 1055;

/// How many Calorie steps make up one base unit.
pub const CALORIES_PER_BTU: u32 = 251;

/// A magnitude of energy measured in Joules.
#[derive(PartialEq, Eq, Structural, Clone, Copy, Debug)]
pub struct Joule(pub u32);

/// A magnitude of energy measured in Calories.
#[derive(PartialEq, Eq, Structural, Clone, Copy, Debug)]
pub struct Calorie(pub u32);

/// A unit of energy: a stored magnitude together with a fixed ratio to the
/// base unit. Narrowing to the base unit floor-divides by the ratio, so a
/// magnitude `v` stands for `v / ratio` base units; widening multiplies.
pub trait EnergyUnit: Sized {
    /// The fixed ratio of this unit to the base unit.
    spec fn ratio() -> u32;

    /// The stored magnitude.
    spec fn value(self) -> u32;

    /// Every unit's ratio is a positive number of steps per base unit.
    proof fn ratio_positive()
        ensures
            Self::ratio() >= 1,
    ;

    /// Narrow this magnitude to base units (floor division; lossy).
    fn to_base(self) -> (r: BTU)
        ensures
            r == self.value() / Self::ratio(),
    ;

    /// Widen a base-unit magnitude into this unit (exact).
    fn from_base(b: BTU) -> (r: Self)
        requires
            b * Self::ratio() <= u32::MAX,
        ensures
            r.value() == b * Self::ratio(),
    ;
}

impl EnergyUnit for Joule {
    open spec fn ratio() -> u32 {
        JOULES_PER_BTU
    }

    open spec fn value(self) -> u32 {
        self.0
    }

    proof fn ratio_positive() {
    }

    fn to_base(self) -> (r: BTU) {
        self.0 / JOULES_PER_BTU
    }

    fn from_base(b: BTU) -> (r: Self) {
        Joule(b * JOULES_PER_BTU)
    }
}

impl EnergyUnit for Calorie {
    open spec fn ratio() -> u32 {
        CALORIES_PER_BTU
    }

    open spec fn value(self) -> u32 {
        self.0
    }

    proof fn ratio_positive() {
    }

    fn to_base(self) -> (r: BTU) {
        self.0 / CALORIES_PER_BTU
    }

    fn from_base(b: BTU) -> (r: Self) {
        Calorie(b * CALORIES_PER_BTU)
    }
}

/// The base unit is itself a unit, with a ratio of one; both conversions
/// are then the identity.
impl EnergyUnit for u32 {
    open spec fn ratio() -> u32 {
        1
    }

    open spec fn value(self) -> u32 {
        self
    }

    proof fn ratio_positive() {
    }

    fn to_base(self) -> (r: BTU) {
        self
    }

    fn from_base(b: BTU) -> (r: Self) {
        b
    }
}

} // verus!
