//! Energy providers: devices that consume a container of fuel and yield
//! energy in the fuel's native unit, each under its own efficiency policy.
//!
//! Every provider defines one primitive, `provide_energy`; the two derived
//! operations (apply a given efficiency, apply the ideal 100%) are written
//! once on the capability itself, so partial-efficiency semantics are the
//! same for every provider. A provider's policy is captured by two spec
//! functions: the percentage it applies on its next call, and its state
//! after the call. All scaling is floor arithmetic over unsigned integers.

use core::marker::PhantomData;

use vstd::arithmetic::div_mod::{
    lemma_div_by_multiple, lemma_div_is_ordered, lemma_div_pos_is_pos, lemma_remainder_lower,
};
use vstd::arithmetic::mul::{lemma_mul_inequality, lemma_mul_nonnegative, lemma_mul_upper_bound};
use vstd::prelude::*;

use crate::fuel::{Fuel, FuelContainer, IsRenewable};
use crate::units::EnergyUnit;

verus! {

/// A percentage saturates at 100: anything above counts as exactly 100.
pub open spec fn clamp_percent(e: u8) -> u32 {
    if e > 100 {
        100
    } else {
        e as u32
    }
}

/// `energy` scaled down to `percent` of itself, in floor arithmetic.
pub open spec fn scaled(energy: int, percent: int) -> int {
    energy * percent / 100
}

/// The magnitude, in a native unit of ratio `ratio`, that a conversion of
/// `amount` units of fuel of density `density` yields when `percent`
/// efficiency is applied: the scaled base-unit energy, widened exactly.
pub open spec fn provided(amount: u32, density: u32, percent: u32, ratio: u32) -> int {
    scaled(amount * density, percent as int) * ratio
}

proof fn lemma_scaled_nonneg(energy: int, percent: int)
    requires
        0 <= energy,
        0 <= percent,
    ensures
        0 <= scaled(energy, percent),
{
    lemma_mul_nonnegative(energy, percent);
    lemma_div_pos_is_pos(energy * percent, 100);
}

proof fn lemma_scaled_le(energy: int, percent: int)
    requires
        0 <= energy,
        0 <= percent,
        percent <= 100,
    ensures
        scaled(energy, percent) <= energy,
{
    lemma_mul_inequality(percent, 100, energy);
    lemma_div_is_ordered(energy * percent, energy * 100, 100);
    lemma_div_by_multiple(energy, 100);
}

/// Converts `amount` units of fuel `F` at `percent` efficiency: the shared
/// arithmetic behind every provider's primitive. The base-unit energy is
/// `amount` times the fuel's density; it is scaled by `percent` with floor
/// division and widened back into the fuel's native unit.
fn convert_with_percent<F: Fuel>(amount: u32, percent: u8) -> (r: F::Output)
    requires
        percent <= 100,
        amount * F::density() * <F::Output as EnergyUnit>::ratio() <= u32::MAX,
    ensures
        r.value() == provided(
            amount,
            F::density(),
            percent as u32,
            <F::Output as EnergyUnit>::ratio(),
        ),
{
    let ghost ratio = <F::Output as EnergyUnit>::ratio() as int;
    let ghost ideal = amount * F::density();
    proof {
        <F::Output as EnergyUnit>::ratio_positive();
        lemma_mul_nonnegative(amount as int, F::density() as int);
        // the ideal base-unit energy already fits in a u32
        lemma_mul_inequality(1, ratio, ideal);
    }
    let density: u32 = F::energy_density().to_base();
    proof {
        lemma_div_by_multiple(F::density() as int, ratio);
    }
    let raw: u64 = (amount as u64) * (density as u64);
    proof {
        lemma_mul_upper_bound(raw as int, u32::MAX as int, percent as int, 100);
        lemma_scaled_nonneg(ideal, percent as int);
        lemma_scaled_le(ideal, percent as int);
        lemma_mul_inequality(scaled(ideal, percent as int), ideal, ratio);
    }
    let wide: u64 = raw * (percent as u64);
    let adjusted: u32 = (wide / 100) as u32;
    <F::Output as EnergyUnit>::from_base(adjusted)
}

/// Something that can provide energy from a given fuel type `F`, like a
/// power plant.
///
/// The policy of a provider is described by `percent_on_call`, the
/// efficiency percentage its primitive applies on the next call, and
/// `next_state`, its state after that call; stateless providers leave the
/// state unchanged. The primitive consumes the container and yields
/// `provided(quantity, density, percentage, ratio)` in the fuel's native
/// unit.
pub trait ProvideEnergy<F: Fuel>: Sized {
    /// The efficiency percentage the primitive applies on the next call.
    spec fn percent_on_call(self) -> u32;

    /// The provider's state after one conversion call.
    spec fn next_state(self) -> Self;

    /// Every provider's efficiency is a true percentage: it is clamped to
    /// [0, 100] before use.
    proof fn percent_on_call_bounded(self)
        ensures
            self.percent_on_call() <= 100,
    ;

    /// Consume the fuel container and return the created energy, based on
    /// the density of the fuel and this provider's policy.
    fn provide_energy(&mut self, f: FuelContainer<F>) -> (r: F::Output)
        requires
            f@ * F::density() * <F::Output as EnergyUnit>::ratio() <= u32::MAX,
        ensures
            *final(self) == old(self).next_state(),
            r.value() == provided(
                f@,
                F::density(),
                old(self).percent_on_call(),
                <F::Output as EnergyUnit>::ratio(),
            ),
    ;

    /// Convert the fuel in `f` with an exact efficiency of `e`, applied on
    /// top of the provider's own policy: the primitive's result is narrowed
    /// to base units, scaled by `e` saturated at 100, and widened back.
    fn provide_energy_with_efficiency(&mut self, f: FuelContainer<F>, e: u8) -> (r: F::Output)
        requires
            f@ * F::density() * <F::Output as EnergyUnit>::ratio() <= u32::MAX,
        ensures
            *final(self) == old(self).next_state(),
            r.value() == scaled(
                scaled(f@ * F::density(), old(self).percent_on_call() as int),
                clamp_percent(e) as int,
            ) * <F::Output as EnergyUnit>::ratio(),
    {
        let ghost ratio = <F::Output as EnergyUnit>::ratio() as int;
        let ghost ideal = f@ * F::density();
        let ghost inner = scaled(ideal, old(self).percent_on_call() as int);
        let e_clamped: u8 = if e > 100 {
            100
        } else {
            e
        };
        let energy: F::Output = self.provide_energy(f);
        let energy_in_btu: u32 = energy.to_base();
        proof {
            <F::Output as EnergyUnit>::ratio_positive();
            lemma_mul_nonnegative(f@ as int, F::density() as int);
            lemma_scaled_nonneg(ideal, old(self).percent_on_call() as int);
            // narrowing the primitive's result recovers the scaled energy
            lemma_div_by_multiple(inner, ratio);
        }
        proof {
            lemma_mul_upper_bound(energy_in_btu as int, u32::MAX as int, e_clamped as int, 100);
            lemma_scaled_le(energy_in_btu as int, e_clamped as int);
            lemma_scaled_nonneg(energy_in_btu as int, e_clamped as int);
        }
        let wide: u64 = (energy_in_btu as u64) * (e_clamped as u64);
        let adjusted: u32 = (wide / 100) as u32;
        proof {
            lemma_mul_inequality(adjusted as int, energy_in_btu as int, ratio);
            lemma_remainder_lower(energy.value() as int, ratio);
        }
        <F::Output as EnergyUnit>::from_base(adjusted)
    }

    /// Same as `provide_energy_with_efficiency`, but with an efficiency of
    /// 100: it returns exactly what the primitive yields.
    fn provide_energy_ideal(&mut self, f: FuelContainer<F>) -> (r: F::Output)
        requires
            f@ * F::density() * <F::Output as EnergyUnit>::ratio() <= u32::MAX,
        ensures
            *final(self) == old(self).next_state(),
            r.value() == provided(
                f@,
                F::density(),
                old(self).percent_on_call(),
                <F::Output as EnergyUnit>::ratio(),
            ),
    {
        let ghost ideal = f@ * F::density();
        let ghost inner = scaled(ideal, old(self).percent_on_call() as int);
        let r = self.provide_energy_with_efficiency(f, 100);
        proof {
            lemma_mul_nonnegative(f@ as int, F::density() as int);
            lemma_scaled_nonneg(ideal, old(self).percent_on_call() as int);
            // scaling by exactly 100 changes nothing
            lemma_div_by_multiple(inner, 100);
        }
        r
    }
}

/// A nuclear reactor: stateless, with a fixed 99% efficiency baked into its
/// primitive. It is conventionally meant for Uranium, but the capability is
/// deliberately generic: any fuel is accepted.
pub struct NuclearReactor;

impl<F: Fuel> ProvideEnergy<F> for NuclearReactor {
    open spec fn percent_on_call(self) -> u32 {
        99
    }

    open spec fn next_state(self) -> Self {
        self
    }

    proof fn percent_on_call_bounded(self) {
    }

    fn provide_energy(&mut self, f: FuelContainer<F>) -> (r: F::Output) {
        convert_with_percent::<F>(f.amount(), 99)
    }
}

/// A combustion engine whose efficiency decays with use.
///
/// `DECAY` is the interval of the decay policy: the engine counts calls,
/// and on the call at which the counter reaches `DECAY` it resets the
/// counter and steps the efficiency down by one, saturating at zero; the
/// already-lowered efficiency applies to that same call. The initial
/// efficiency is configurable and saturates at 100. The counters are plain
/// fields updated through exclusive access, so the decay step can never be
/// lost or applied twice.
pub struct InternalCombustion<const DECAY: u32> {
    efficiency: u8,
    count: u32,
}

/// The efficiency stored after one decay step: one less, saturating at
/// zero (a stored value above 100 counts as 100 first).
pub open spec fn decayed(e: u8) -> u8 {
    if e > 100 {
        99
    } else if e == 0 {
        0
    } else {
        (e - 1) as u8
    }
}

impl<const DECAY: u32> InternalCombustion<DECAY> {
    /// The engine's current efficiency percentage.
    pub closed spec fn efficiency(self) -> u8 {
        self.efficiency
    }

    /// How many calls the engine has counted since the last decay step.
    pub closed spec fn count(self) -> u32 {
        self.count
    }

    /// A fresh engine: the configured efficiency saturated at 100, and a
    /// call counter at zero.
    pub fn new(efficiency: u8) -> (r: Self)
        ensures
            r.efficiency() == (if efficiency > 100 {
                100u8
            } else {
                efficiency
            }),
            r.count() == 0,
    {
        InternalCombustion {
            efficiency: if efficiency > 100 {
                100
            } else {
                efficiency
            },
            count: 0,
        }
    }

    /// Records one more call: the counter becomes `new_count + 1`.
    pub fn update_count(&mut self, new_count: u32)
        requires
            new_count < u32::MAX,
        ensures
            final(self).count() == new_count + 1,
            final(self).efficiency() == old(self).efficiency(),
    {
        self.count = new_count + 1;
    }
}

impl<const DECAY: u32, F: Fuel> ProvideEnergy<F> for InternalCombustion<DECAY> {
    open spec fn percent_on_call(self) -> u32 {
        if self.count() >= DECAY {
            decayed(self.efficiency()) as u32
        } else {
            clamp_percent(self.efficiency())
        }
    }

    closed spec fn next_state(self) -> Self {
        if self.count >= DECAY {
            InternalCombustion { efficiency: decayed(self.efficiency), count: 0 }
        } else {
            InternalCombustion { efficiency: self.efficiency, count: (self.count + 1) as u32 }
        }
    }

    proof fn percent_on_call_bounded(self) {
    }

    fn provide_energy(&mut self, f: FuelContainer<F>) -> (r: F::Output)
        ensures
            final(self).efficiency() == (if old(self).count() >= DECAY {
                decayed(old(self).efficiency())
            } else {
                old(self).efficiency()
            }),
            final(self).count() == (if old(self).count() >= DECAY {
                0u32
            } else {
                (old(self).count() + 1) as u32
            }),
    {
        let percent: u8;
        if self.count >= DECAY {
            self.count = 0;
            let base: u8 = if self.efficiency > 100 {
                100
            } else {
                self.efficiency
            };
            percent = if base == 0 {
                0
            } else {
                base - 1
            };
            self.efficiency = percent;
        } else {
            let seen: u32 = self.count;
            self.update_count(seen);
            percent = if self.efficiency > 100 {
                100
            } else {
                self.efficiency
            };
        }
        convert_with_percent::<F>(f.amount(), percent)
    }
}

/// A hypothetical device that can consume any fuel at a fixed efficiency,
/// configured once and for all as `EFFICIENCY`, saturating at 100.
/// Stateless and deterministic.
pub struct OmniGenerator<const EFFICIENCY: u8>;

impl<const EFFICIENCY: u8, F: Fuel> ProvideEnergy<F> for OmniGenerator<EFFICIENCY> {
    open spec fn percent_on_call(self) -> u32 {
        clamp_percent(EFFICIENCY)
    }

    open spec fn next_state(self) -> Self {
        self
    }

    proof fn percent_on_call_bounded(self) {
    }

    fn provide_energy(&mut self, f: FuelContainer<F>) -> (r: F::Output) {
        let percent: u8 = if EFFICIENCY > 100 {
            100
        } else {
            EFFICIENCY
        };
        convert_with_percent::<F>(f.amount(), percent)
    }
}

/// An engine that only accepts fuels marked renewable; the restriction is a
/// bound on the fuel parameter, so a disqualified fuel is rejected when the
/// program is type-checked, never at run time. Perfect efficiency.
pub struct GreenEngine<F: Fuel + IsRenewable>(pub PhantomData<F>);

impl<F: Fuel + IsRenewable> ProvideEnergy<F> for GreenEngine<F> {
    open spec fn percent_on_call(self) -> u32 {
        100
    }

    open spec fn next_state(self) -> Self {
        self
    }

    proof fn percent_on_call_bounded(self) {
    }

    fn provide_energy(&mut self, f: FuelContainer<F>) -> (r: F::Output) {
        convert_with_percent::<F>(f.amount(), 100)
    }
}

/// An engine meant, by convention, for fuels whose native unit is the base
/// unit, such as blended fuels. The fuel parameter is deliberately left
/// unrestricted, so any fuel is accepted. Perfect efficiency.
pub struct BritishEngine<F: Fuel>(pub PhantomData<F>);

impl<F: Fuel> ProvideEnergy<F> for BritishEngine<F> {
    open spec fn percent_on_call(self) -> u32 {
        100
    }

    open spec fn next_state(self) -> Self {
        self
    }

    proof fn percent_on_call_bounded(self) {
    }

    fn provide_energy(&mut self, f: FuelContainer<F>) -> (r: F::Output) {
        convert_with_percent::<F>(f.amount(), 100)
    }
}

} // verus!
