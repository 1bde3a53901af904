//! Laws of the model, stated once over the spec functions that the
//! executable contracts use, and proved for all inputs.

use vstd::arithmetic::div_mod::{
    lemma_div_by_multiple, lemma_div_multiples_vanish, lemma_fundamental_div_mod,
    lemma_remainder_lower, lemma_remainder_upper,
};
use vstd::prelude::*;

use crate::blend::{CustomMixed, Mixed};
use crate::fuel::Fuel;
use crate::provider::{clamp_percent, scaled, NuclearReactor, ProvideEnergy};
use crate::units::EnergyUnit;

verus! {

/// A unit round-trip through the base unit is lossy, but boundedly so: the
/// magnitude that comes back never exceeds the one put in, and the
/// discrepancy is smaller than one conversion ratio's worth.
pub proof fn lemma_round_trip_lossy<U: EnergyUnit>(x: U)
    ensures
        (x.value() / U::ratio()) * U::ratio() <= x.value(),
        x.value() - (x.value() / U::ratio()) * U::ratio() < U::ratio(),
{
    U::ratio_positive();
    lemma_remainder_lower(x.value() as int, U::ratio() as int);
    lemma_remainder_upper(x.value() as int, U::ratio() as int);
}

/// Supplying any efficiency above 100 behaves identically to supplying
/// exactly 100: scaled energy depends on the requested percentage only
/// through its saturation at 100.
pub proof fn lemma_efficiency_clamp(energy: int, e: u8)
    requires
        e >= 100,
    ensures
        scaled(energy, clamp_percent(e) as int) == scaled(energy, clamp_percent(100) as int),
{
}

/// A perfect-efficiency conversion loses nothing: scaling by exactly 100
/// percent returns the energy unchanged.
pub proof fn lemma_perfect_efficiency(energy: int)
    requires
        0 <= energy,
    ensures
        scaled(energy, 100) == energy,
{
    lemma_div_by_multiple(energy, 100);
}

/// A nuclear reactor carries no state: a conversion leaves it unchanged,
/// so repeated calls with identical input yield identical output.
pub proof fn lemma_nuclear_stateless<F: Fuel>(n: NuclearReactor)
    ensures
        <NuclearReactor as ProvideEnergy<F>>::next_state(n) == n,
{
}

/// An evenly weighted blend agrees with the plain blend whenever both
/// densities are even, so that neither average loses a remainder to floor
/// division.
pub proof fn lemma_even_split_matches_mixed<F1: Fuel, F2: Fuel>()
    requires
        F1::density() % 2 == 0,
        F2::density() % 2 == 0,
    ensures
        <CustomMixed<50, F1, F2> as Fuel>::density() == <Mixed<F1, F2> as Fuel>::density(),
{
    let d1 = F1::density() as int;
    let d2 = F2::density() as int;
    let h1 = d1 / 2;
    let h2 = d2 / 2;
    lemma_fundamental_div_mod(d1, 2);
    lemma_fundamental_div_mod(d2, 2);
    lemma_div_multiples_vanish(h1, 100);
    lemma_div_multiples_vanish(h2, 100);
    lemma_div_multiples_vanish(h1 + h2, 2);
    assert(d1 * 50 == 100 * h1);
    assert(d2 * 50 == 100 * h2);
    assert(d1 + d2 == 2 * (h1 + h2));
}

} // verus!
