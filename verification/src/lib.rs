//! An energy-accounting model: units of energy with fixed conversion ratios,
//! fuels described by type-level capabilities, providers that turn fuel into
//! energy under an efficiency policy, and blends that synthesize new fuels.

pub mod blend;
pub mod fuel;
pub mod laws;
pub mod provider;
pub mod units;
