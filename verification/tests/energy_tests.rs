use std::marker::PhantomData;

use energy::blend::{omni_80_energy, CustomMixed, Mixed};
use energy::fuel::{Diesel, Fuel, FuelContainer, LithiumBattery, Uranium};
use energy::provider::{
    BritishEngine, GreenEngine, InternalCombustion, NuclearReactor, OmniGenerator, ProvideEnergy,
};
use energy::units::{Calorie, EnergyUnit, Joule, BTU};

#[test]
fn nuclear() {
    let mut nr = NuclearReactor;
    assert_eq!(
        nr.provide_energy(FuelContainer::<Uranium>::new(10)).to_base(),
        9900
    );
    assert_eq!(
        nr.provide_energy(FuelContainer::<Uranium>::new(10)).to_base(),
        9900
    );
}

#[test]
fn ic_1() {
    let mut ic = InternalCombustion::<3>::new(120);
    assert_eq!(
        ic.provide_energy(FuelContainer::<Diesel>::new(10)).to_base(),
        1000
    );
    assert_eq!(
        ic.provide_energy(FuelContainer::<Diesel>::new(10)).to_base(),
        1000
    );
    assert_eq!(
        ic.provide_energy(FuelContainer::<Diesel>::new(10)).to_base(),
        1000
    );
    assert_eq!(
        ic.provide_energy(FuelContainer::<Diesel>::new(10)).to_base(),
        990
    );
}

#[test]
fn omni_1() {
    let mut og = OmniGenerator::<100>;
    assert_eq!(
        og.provide_energy(FuelContainer::<Uranium>::new(10)).to_base(),
        10000
    );
    assert_eq!(
        og.provide_energy(FuelContainer::<Diesel>::new(10)).to_base(),
        1000
    );
    assert_eq!(
        og.provide_energy(FuelContainer::<LithiumBattery>::new(10))
            .to_base(),
        2000
    );
}

#[test]
fn mixed_1() {
    assert_eq!(Mixed::<Diesel, LithiumBattery>::energy_density().to_base(), 150);
}

#[test]
fn custom_mixed_1() {
    // custom with 50 is the same as Mixed.
    assert_eq!(
        CustomMixed::<50, Diesel, LithiumBattery>::energy_density().to_base(),
        Mixed::<Diesel, LithiumBattery>::energy_density()
    );
}

#[test]
fn green_should_work() {
    let mut green_engine = GreenEngine::<LithiumBattery>(PhantomData);
    let amout = FuelContainer::<LithiumBattery>::new(10);

    let energy_produced = green_engine.provide_energy(amout);

    assert_eq!(energy_produced, Calorie(200 * 10 * 251));
}

#[test]
fn british_should_work() {
    let mut british_engine = BritishEngine::<Diesel>(PhantomData);
    let amout = FuelContainer::<Diesel>::new(10);

    let energy_produced = british_engine.provide_energy(amout);

    assert_eq!(energy_produced, Joule(100 * 10 * 1055));
}

#[test]
fn container_exposes_its_quantity() {
    let c = FuelContainer::<Diesel>::new(42);
    assert_eq!(c.amount(), 42);
    let zero = FuelContainer::<Uranium>::new(0);
    assert_eq!(zero.amount(), 0);
}

#[test]
fn unit_conversions_are_fixed_ratios() {
    assert_eq!(Joule::from_base(100), Joule(105500));
    assert_eq!(Joule(105500).to_base(), 100);
    assert_eq!(Calorie::from_base(200), Calorie(50200));
    assert_eq!(Calorie(50200).to_base(), 200);
    let identity: BTU = <BTU as EnergyUnit>::from_base(7);
    assert_eq!(identity, 7);
}

#[test]
fn unit_round_trip_is_lossy_but_bounded() {
    // 2000 Joules narrow to 1 base unit and widen back to 1055 Joules:
    // never more than what was put in, and short of it by less than one
    // ratio's worth.
    let j = Joule(2000);
    let back = Joule::from_base(j.to_base());
    assert_eq!(back, Joule(1055));
    assert!(back.0 <= j.0);
    assert!(j.0 - back.0 < 1055);

    let c = Calorie(500);
    let back_c = Calorie::from_base(c.to_base());
    assert_eq!(back_c, Calorie(251));
    assert!(back_c.0 <= c.0);
    assert!(c.0 - back_c.0 < 251);

    // an exact multiple of the ratio loses nothing
    let exact = Joule(2110);
    assert_eq!(Joule::from_base(exact.to_base()), exact);
}

#[test]
fn efficiency_above_100_acts_as_100() {
    let mut nr = NuclearReactor;
    let clamped = nr.provide_energy_with_efficiency(FuelContainer::<Uranium>::new(10), 150);
    let mut nr2 = NuclearReactor;
    let full = nr2.provide_energy_with_efficiency(FuelContainer::<Uranium>::new(10), 100);
    assert_eq!(clamped, full);

    let mut over = OmniGenerator::<200>;
    let mut hundred = OmniGenerator::<100>;
    assert_eq!(
        over.provide_energy(FuelContainer::<Diesel>::new(10)),
        hundred.provide_energy(FuelContainer::<Diesel>::new(10))
    );

    let mut ic_over = InternalCombustion::<3>::new(255);
    let mut ic_full = InternalCombustion::<3>::new(100);
    assert_eq!(
        ic_over.provide_energy(FuelContainer::<Diesel>::new(10)),
        ic_full.provide_energy(FuelContainer::<Diesel>::new(10))
    );
}

#[test]
fn partial_efficiency_scales_with_floor_arithmetic() {
    let mut nr = NuclearReactor;
    // 99% of 10000 is 9900; 50% of that is 4950, widened back to Joules
    let half = nr.provide_energy_with_efficiency(FuelContainer::<Uranium>::new(10), 50);
    assert_eq!(half, Joule(4950 * 1055));

    // 33% of 9900 floor-divides: 9900 * 33 / 100 = 3267
    let mut nr2 = NuclearReactor;
    let third = nr2.provide_energy_with_efficiency(FuelContainer::<Uranium>::new(10), 33);
    assert_eq!(third, Joule(3267 * 1055));
}

#[test]
fn ideal_efficiency_returns_the_primitive_result() {
    let mut nr = NuclearReactor;
    let ideal = nr.provide_energy_ideal(FuelContainer::<Uranium>::new(10));
    let mut nr2 = NuclearReactor;
    let primitive = nr2.provide_energy(FuelContainer::<Uranium>::new(10));
    assert_eq!(ideal, primitive);
}

#[test]
fn combustion_decay_continues_and_saturates() {
    let mut ic = InternalCombustion::<3>::new(100);
    let mut seen = Vec::new();
    for _ in 0..8 {
        seen.push(ic.provide_energy(FuelContainer::<Diesel>::new(10)).to_base());
    }
    // the efficiency drop is persistent: after the first decay step every
    // call runs at 99 until the counter reaches the interval again
    assert_eq!(seen, vec![1000, 1000, 1000, 990, 990, 990, 990, 980]);
}

#[test]
fn combustion_efficiency_never_drops_below_zero() {
    let mut ic = InternalCombustion::<0>::new(1);
    assert_eq!(
        ic.provide_energy(FuelContainer::<Diesel>::new(10)).to_base(),
        0
    );
    assert_eq!(
        ic.provide_energy(FuelContainer::<Diesel>::new(10)).to_base(),
        0
    );
}

#[test]
fn update_count_advances_the_decay_clock() {
    let mut ic = InternalCombustion::<3>::new(100);
    ic.update_count(2);
    // the counter now reads 3, so the very next call takes the decay step
    assert_eq!(
        ic.provide_energy(FuelContainer::<Diesel>::new(10)).to_base(),
        990
    );
}

#[test]
fn omni_80_mixed_energy() {
    assert_eq!(omni_80_energy(10), 1200);
    assert_eq!(omni_80_energy(0), 0);
}

#[test]
fn custom_mixed_weights_each_side_separately() {
    assert_eq!(
        CustomMixed::<30, Diesel, LithiumBattery>::energy_density(),
        170
    );
    assert_eq!(
        CustomMixed::<0, Diesel, LithiumBattery>::energy_density(),
        200
    );
    assert_eq!(
        CustomMixed::<100, Diesel, LithiumBattery>::energy_density(),
        100
    );
    // a ratio above 100 saturates at 100
    assert_eq!(
        CustomMixed::<130, Diesel, LithiumBattery>::energy_density(),
        100
    );
}

#[test]
fn providers_consume_blended_fuels() {
    let mut british = BritishEngine::<Mixed<Diesel, LithiumBattery>>(PhantomData);
    let energy = british.provide_energy(FuelContainer::<Mixed<Diesel, LithiumBattery>>::new(10));
    assert_eq!(energy, 1500);

    let mut nr = NuclearReactor;
    let nuclear_blend = nr.provide_energy(FuelContainer::<Mixed<Diesel, LithiumBattery>>::new(10));
    assert_eq!(nuclear_blend, 1500 * 99 / 100);
}

#[test]
fn green_engine_loses_nothing() {
    let mut green = GreenEngine::<LithiumBattery>(PhantomData);
    assert_eq!(
        green.provide_energy(FuelContainer::<LithiumBattery>::new(0)),
        Calorie(0)
    );
    let mut green2 = GreenEngine::<LithiumBattery>(PhantomData);
    assert_eq!(
        green2.provide_energy(FuelContainer::<LithiumBattery>::new(7)).to_base(),
        1400
    );
}
