//! Fuel combinators: types that synthesize a new fuel from two existing
//! ones. A blend's density is computed from the two fuels' densities after
//! both are narrowed to base units, so fuels of different native units can
//! be combined; the blend itself delivers base units. Since a blend fully
//! satisfies the `Fuel` capability, any provider can consume it as if it
//! were an ordinary fuel.

use core::marker::PhantomData;

use vstd::arithmetic::div_mod::{
    lemma_div_by_multiple, lemma_div_is_ordered, lemma_div_pos_is_pos, lemma_fundamental_div_mod,
    lemma_hoist_over_denominator, lemma_mod_division_less_than_divisor,
};
use vstd::arithmetic::mul::{
    lemma_mul_inequality, lemma_mul_is_distributive_add, lemma_mul_nonnegative,
};
use vstd::prelude::*;

use crate::fuel::{Diesel, Fuel, FuelContainer, LithiumBattery};
use crate::provider::{clamp_percent, OmniGenerator, ProvideEnergy};
use crate::units::{EnergyUnit, BTU};

verus! {

/// The sum of two floor quotients never exceeds the quotient of the sum.
proof fn lemma_div_sum_le(a: int, b: int, d: int)
    requires
        0 <= a,
        0 <= b,
        0 < d,
    ensures
        a / d + b / d <= (a + b) / d,
{
    lemma_fundamental_div_mod(a, d);
    lemma_fundamental_div_mod(b, d);
    lemma_mod_division_less_than_divisor(a, d);
    lemma_mod_division_less_than_divisor(b, d);
    lemma_div_pos_is_pos(a % d + b % d, d);
    lemma_hoist_over_denominator(a % d + b % d, a / d + b / d, d as nat);
    lemma_mul_is_distributive_add(d, a / d, b / d);
}

/// A fuel made by mixing two fuel types in equal parts: its density is the
/// average of the two densities in base units, floor-divided, and it
/// delivers base units.
pub struct Mixed<F1: Fuel, F2: Fuel>(PhantomData<(F1, F2)>);

impl<F1: Fuel, F2: Fuel> Fuel for Mixed<F1, F2> {
    type Output = BTU;

    open spec fn density() -> u32 {
        (((F1::density() + F2::density()) / 2) as u32)
    }

    fn energy_density() -> (r: BTU) {
        proof {
            <F1::Output as EnergyUnit>::ratio_positive();
            <F2::Output as EnergyUnit>::ratio_positive();
            lemma_div_by_multiple(F1::density() as int, <F1::Output as EnergyUnit>::ratio() as int);
            lemma_div_by_multiple(F2::density() as int, <F2::Output as EnergyUnit>::ratio() as int);
        }
        let d1: BTU = F1::energy_density().to_base();
        let d2: BTU = F2::energy_density().to_base();
        let sum: u64 = (d1 as u64) + (d2 as u64);
        ((sum / 2) as u32)
    }
}

/// A fuel made by mixing two fuel types in a configurable ratio: `C`
/// percent of the first fuel's density and the rest of the second's, each
/// term floor-divided on its own before the two are added. A ratio above
/// 100 counts as 100. The blend delivers base units.
pub struct CustomMixed<const C: u8, F1, F2>(PhantomData<(F1, F2)>);

impl<const C: u8, F1: Fuel, F2: Fuel> Fuel for CustomMixed<C, F1, F2> {
    type Output = BTU;

    open spec fn density() -> u32 {
        ((F1::density() * clamp_percent(C) / 100 + F2::density() * (100 - clamp_percent(C)) / 100)
            as u32)
    }

    fn energy_density() -> (r: BTU) {
        proof {
            <F1::Output as EnergyUnit>::ratio_positive();
            <F2::Output as EnergyUnit>::ratio_positive();
            lemma_div_by_multiple(F1::density() as int, <F1::Output as EnergyUnit>::ratio() as int);
            lemma_div_by_multiple(F2::density() as int, <F2::Output as EnergyUnit>::ratio() as int);
        }
        let share: u8 = if C > 100 {
            100
        } else {
            C
        };
        let d1: BTU = F1::energy_density().to_base();
        let d2: BTU = F2::energy_density().to_base();
        proof {
            lemma_weighted_sum_bounded(
                F1::density() as int,
                F2::density() as int,
                share as int,
                u32::MAX as int,
            );
        }
        let w1: u64 = (d1 as u64) * (share as u64) / 100;
        let w2: u64 = (d2 as u64) * ((100 - share) as u64) / 100;
        ((w1 + w2) as u32)
    }
}

/// Weighting two bounded densities by complementary percentages and adding
/// the floor-divided terms stays within the same bound.
proof fn lemma_weighted_sum_bounded(d1: int, d2: int, c: int, bound: int)
    requires
        0 <= d1 <= bound,
        0 <= d2 <= bound,
        0 <= c <= 100,
    ensures
        d1 * c / 100 + d2 * (100 - c) / 100 <= bound,
{
    lemma_mul_nonnegative(d1, c);
    lemma_mul_nonnegative(d2, 100 - c);
    lemma_mul_inequality(d1, bound, c);
    lemma_mul_inequality(d2, bound, 100 - c);
    lemma_div_sum_le(d1 * c, d2 * (100 - c), 100);
    lemma_div_is_ordered(d1 * c + d2 * (100 - c), bound * c + bound * (100 - c), 100);
    lemma_mul_is_distributive_add(bound, c, 100 - c);
    lemma_div_by_multiple(bound, 100);
}

/// The energy produced by an `OmniGenerator` at 80% efficiency from an
/// equal mix of Diesel and lithium-battery fuel: 120 base units per unit of
/// the blended fuel.
pub fn omni_80_energy(amount: u32) -> (r: BTU)
    requires
        amount * <Mixed<Diesel, LithiumBattery> as Fuel>::density() <= u32::MAX,
    ensures
        r == 120 * amount,
{
    let mut og = OmniGenerator::<80>;
    let energy: BTU = og.provide_energy(FuelContainer::<Mixed<Diesel, LithiumBattery>>::new(amount));
    proof {
        lemma_div_by_multiple(120 * amount, 100);
        assert(amount * 150 * 80 == (120 * amount) * 100) by (nonlinear_arith);
    }
    energy
}

} // verus!
