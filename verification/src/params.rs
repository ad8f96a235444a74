//! The per-block control snapshot.
//!
//! The host side owns the live, automatable parameters; once per block it
//! hands the engine a plain copy of their current values. The engine never
//! shares mutable state with the control path: this snapshot is the whole
//! interface. Each component clamps the values it consumes, so any snapshot
//! is acceptable and none is ever rejected.
//!
//! Units: frequencies and the tuning reference in millihertz, times in
//! milliseconds, and every ratio (depth, sustain, staged levels and rates,
//! resonance) in `SCALE` units.

use vstd::prelude::*;

use crate::filter::FilterTopology;
use crate::fixed::SCALE;

verus! {

/// Which envelope generator a voice runs.
#[derive(Clone, Copy, PartialEq, Eq, Debug)]
pub enum EnvVariant {
    Conventional,
    Staged,
}

#[derive(Clone, Copy)]
pub struct AmSynthParams {
    pub carrier_freq: u64,
    pub modulator_freq: u64,
    pub mod_depth: i64,
    pub env_variant: EnvVariant,
    pub attack_ms: u64,
    pub decay_ms: u64,
    pub sustain: i64,
    pub release_ms: u64,
    pub staged_level1: i64,
    pub staged_level2: i64,
    pub staged_level3: i64,
    pub staged_level4: i64,
    pub staged_rate1: i64,
    pub staged_rate2: i64,
    pub staged_rate3: i64,
    pub staged_rate4: i64,
    pub envelope_bypass: bool,
    pub carrier_filter_enabled: bool,
    pub carrier_filter_type: FilterTopology,
    pub carrier_filter_cutoff: u64,
    pub carrier_filter_resonance: i64,
    pub modulator_filter_enabled: bool,
    pub modulator_filter_type: FilterTopology,
    pub modulator_filter_cutoff: u64,
    pub modulator_filter_resonance: i64,
    pub global_filter_enabled: bool,
    pub global_filter_type: FilterTopology,
    pub global_filter_cutoff: u64,
    pub global_filter_resonance: i64,
    pub carrier_keyboard: bool,
    pub modulator_keyboard: bool,
    pub tuning: u64,
}

/// The customary resting snapshot: 440 Hz carrier, 2 Hz modulator at half
/// depth, a conventional half-sustain envelope, filters parked at 1 kHz and
/// half resonance but out of the signal path, keyboard tracking on the
/// carrier only.
pub open spec fn default_params() -> AmSynthParams {
    AmSynthParams {
        carrier_freq: 440_000,
        modulator_freq: 2_000,
        mod_depth: (SCALE / 2) as i64,
        env_variant: EnvVariant::Conventional,
        attack_ms: 10,
        decay_ms: 100,
        sustain: (SCALE / 2) as i64,
        release_ms: 100,
        staged_level1: SCALE,
        staged_level2: 49152,
        staged_level3: 32768,
        staged_level4: 0,
        staged_rate1: 655,
        staged_rate2: 655,
        staged_rate3: 655,
        staged_rate4: 655,
        envelope_bypass: false,
        carrier_filter_enabled: false,
        carrier_filter_type: FilterTopology::Moog,
        carrier_filter_cutoff: 1000,
        carrier_filter_resonance: (SCALE / 2) as i64,
        modulator_filter_enabled: false,
        modulator_filter_type: FilterTopology::Moog,
        modulator_filter_cutoff: 1000,
        modulator_filter_resonance: (SCALE / 2) as i64,
        global_filter_enabled: false,
        global_filter_type: FilterTopology::Moog,
        global_filter_cutoff: 1000,
        global_filter_resonance: (SCALE / 2) as i64,
        carrier_keyboard: true,
        modulator_keyboard: false,
        tuning: 440_000,
    }
}

impl Default for AmSynthParams {
    fn default() -> (p: Self)
        ensures
            p == default_params(),
    {
        AmSynthParams {
            carrier_freq: 440_000,
            modulator_freq: 2_000,
            mod_depth: SCALE / 2,
            env_variant: EnvVariant::Conventional,
            attack_ms: 10,
            decay_ms: 100,
            sustain: SCALE / 2,
            release_ms: 100,
            staged_level1: SCALE,
            staged_level2: 49152,
            staged_level3: 32768,
            staged_level4: 0,
            staged_rate1: 655,
            staged_rate2: 655,
            staged_rate3: 655,
            staged_rate4: 655,
            envelope_bypass: false,
            carrier_filter_enabled: false,
            carrier_filter_type: FilterTopology::Moog,
            carrier_filter_cutoff: 1000,
            carrier_filter_resonance: SCALE / 2,
            modulator_filter_enabled: false,
            modulator_filter_type: FilterTopology::Moog,
            modulator_filter_cutoff: 1000,
            modulator_filter_resonance: SCALE / 2,
            global_filter_enabled: false,
            global_filter_type: FilterTopology::Moog,
            global_filter_cutoff: 1000,
            global_filter_resonance: SCALE / 2,
            carrier_keyboard: true,
            modulator_keyboard: false,
            tuning: 440_000,
        }
    }
}

} // verus!
