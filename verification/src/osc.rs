//! Phase-accumulating sine oscillator.
//!
//! Phase is kept in binary fractions of a turn: a full cycle is `PHASE_UNITS`
//! counts, so wrapping is an exact modulo and the phase is in range after
//! every advance. The sine itself is a rational quarter-wave approximation
//! evaluated in integers; its output provably stays in `[-SCALE, SCALE]` and
//! peaks at exactly `SCALE` on the quarter turn.

use vstd::prelude::*;

use crate::fixed::SCALE;

verus! {

/// One full turn of oscillator phase.
pub const PHASE_UNITS: u64 = 0x1_0000_0000;

/// Half a turn: the sine is positive below this and negative above.
pub const HALF_TURN: u64 = 0x8000_0000;

/// Slowest sample rate the core accepts; lower values are clamped up.
pub const MIN_SAMPLE_RATE: u64 = 1000;

/// Fastest sample rate the core accepts; higher values are clamped down.
pub const MAX_SAMPLE_RATE: u64 = 192000;

/// Largest frequency accepted, in millihertz; higher values are clamped.
pub const MAX_FREQ_MILLIHZ: u64 = 2_000_000_000;

/// The positive half wave of the fixed-point sine, for `n` in
/// `[0, HALF_TURN]`: a rational approximation of `sin(pi * n / HALF_TURN)`
/// scaled by `SCALE`. `q` is `n/H * (1 - n/H)` in 2^28 units (`H` a half
/// turn); the quotient below is the classical `32u / (5 - 8u)` shape with
/// `u = q / 2^31`.
pub open spec fn half_wave(n: int) -> int {
    let q = (n * (HALF_TURN - n)) / (PHASE_UNITS as int);
    (2097152 * q) / (10737418240 - 8 * q)
}

/// The fixed-point sine of a phase in `[0, PHASE_UNITS)`.
pub open spec fn sine_units(phase: int) -> int {
    if phase < HALF_TURN {
        half_wave(phase)
    } else {
        -half_wave(phase - HALF_TURN)
    }
}

pub proof fn lemma_half_wave_bounds(n: int)
    requires
        0 <= n <= HALF_TURN,
    ensures
        0 <= half_wave(n) <= SCALE,
{
    assert(0 <= n * (HALF_TURN - n) <= 0x1000_0000_0000_0000) by (nonlinear_arith)
        requires
            0 <= n <= 0x8000_0000,
    ;
    let q = (n * (HALF_TURN - n)) / (PHASE_UNITS as int);
    assert(0 <= q <= 0x1000_0000);
    let num = 2097152 * q;
    let denom = 10737418240 - 8 * q;
    assert(denom >= 8589934592);
    assert(num <= SCALE * denom);
    assert(0 <= num / denom && num / denom <= SCALE) by (nonlinear_arith)
        requires
            num >= 0,
            denom > 0,
            num <= SCALE * denom,
    ;
}

/// The fixed-point sine never leaves `[-SCALE, SCALE]`, whatever the phase:
/// the oscillator's output is bounded for every frequency and sample rate.
pub proof fn lemma_sine_bounds(phase: int)
    requires
        0 <= phase < PHASE_UNITS,
    ensures
        -SCALE <= sine_units(phase) <= SCALE,
{
    if phase < HALF_TURN {
        lemma_half_wave_bounds(phase);
    } else {
        lemma_half_wave_bounds(phase - HALF_TURN as int);
    }
}

/// The sine's cardinal points are exact: zero at the turn boundaries, a full
/// positive unit on the quarter turn, a full negative unit on the three
/// quarter turn.
pub proof fn lemma_sine_cardinal_points()
    ensures
        sine_units(0) == 0,
        sine_units(0x4000_0000) == SCALE,
        sine_units(0x8000_0000) == 0,
        sine_units(0xC000_0000) == -SCALE,
{
    assert(half_wave(0x4000_0000) == SCALE) by {
        let n: int = 0x4000_0000;
        assert(n * (HALF_TURN - n) == 0x1000_0000_0000_0000int) by (nonlinear_arith)
            requires
                n == 0x4000_0000,
        ;
        vstd::arithmetic::div_mod::lemma_fundamental_div_mod_converse(
            0x1000_0000_0000_0000,
            0x1_0000_0000,
            0x1000_0000,
            0,
        );
        vstd::arithmetic::div_mod::lemma_fundamental_div_mod_converse(
            0x2_0000_0000_0000,
            0x2_0000_0000,
            65536,
            0,
        );
    }
}

/// Evaluates the positive half wave in integers.
fn half_wave_exec(n: u64) -> (r: i64)
    requires
        n <= HALF_TURN,
    ensures
        r == half_wave(n as int),
        0 <= r <= SCALE,
{
    proof {
        lemma_half_wave_bounds(n as int);
    }
    assert(n * (HALF_TURN - n) <= 0x1000_0000_0000_0000) by (nonlinear_arith)
        requires
            0 <= n <= 0x8000_0000,
    ;
    let q: u64 = (n * (HALF_TURN - n)) / PHASE_UNITS;
    let num: u64 = 2097152 * q;
    let denom: u64 = 10737418240 - 8 * q;
    (num / denom) as i64
}

/// The fixed-point sine of a phase inside one turn.
pub fn sine(phase: u64) -> (s: i64)
    requires
        phase < PHASE_UNITS,
    ensures
        s == sine_units(phase as int),
        -SCALE <= s <= SCALE,
{
    if phase < HALF_TURN {
        half_wave_exec(phase)
    } else {
        -half_wave_exec(phase - HALF_TURN)
    }
}

/// How far the phase advances per sample for a control frequency, after
/// clamping the frequency into the accepted band: a fraction
/// `freq / sample_rate` of a turn.
pub open spec fn step_for(freq_millihz: int, sample_rate: int) -> int {
    let f = if freq_millihz > MAX_FREQ_MILLIHZ {
        MAX_FREQ_MILLIHZ as int
    } else {
        freq_millihz
    };
    let raw = (f * PHASE_UNITS) / (1000 * sample_rate);
    if raw >= PHASE_UNITS {
        PHASE_UNITS - 1
    } else {
        raw
    }
}

/// The sample rate actually used for a requested one.
pub open spec fn clamp_sample_rate(rate: int) -> int {
    if rate < MIN_SAMPLE_RATE {
        MIN_SAMPLE_RATE as int
    } else if rate > MAX_SAMPLE_RATE {
        MAX_SAMPLE_RATE as int
    } else {
        rate
    }
}

/// Clamps a requested sample rate into the accepted band.
pub fn clamp_sample_rate_exec(rate: u64) -> (r: u64)
    ensures
        r == clamp_sample_rate(rate as int),
        MIN_SAMPLE_RATE <= r <= MAX_SAMPLE_RATE,
{
    if rate < MIN_SAMPLE_RATE {
        MIN_SAMPLE_RATE
    } else if rate > MAX_SAMPLE_RATE {
        MAX_SAMPLE_RATE
    } else {
        rate
    }
}

pub struct SineOscillator {
    /// Current phase, always in `[0, PHASE_UNITS)`.
    pub phase: u64,
    /// Phase advance per sample, always in `[0, PHASE_UNITS)`.
    pub step: u64,
    /// Sample rate in Hz, fixed per session.
    pub sample_rate: u64,
}

impl SineOscillator {
    pub open spec fn wf(&self) -> bool {
        &&& self.phase < PHASE_UNITS
        &&& self.step < PHASE_UNITS
        &&& MIN_SAMPLE_RATE <= self.sample_rate <= MAX_SAMPLE_RATE
    }

    /// A silent oscillator at phase zero.
    pub fn new(sample_rate: u64) -> (o: Self)
        ensures
            o.wf(),
            o.phase == 0,
            o.step == 0,
            o.sample_rate == clamp_sample_rate(sample_rate as int),
    {
        SineOscillator { phase: 0, step: 0, sample_rate: clamp_sample_rate_exec(sample_rate) }
    }

    /// Retunes the oscillator without touching the phase, so a frequency
    /// sweep never produces a discontinuity. A frequency of zero leaves the
    /// phase frozen, which plays as DC.
    pub fn set_frequency(&mut self, freq_millihz: u64)
        requires
            old(self).wf(),
        ensures
            final(self).wf(),
            final(self).phase == old(self).phase,
            final(self).sample_rate == old(self).sample_rate,
            final(self).step == step_for(freq_millihz as int, old(self).sample_rate as int),
    {
        let f = if freq_millihz > MAX_FREQ_MILLIHZ {
            MAX_FREQ_MILLIHZ
        } else {
            freq_millihz
        };
        let raw = (f * PHASE_UNITS) / (1000 * self.sample_rate);
        self.step = if raw >= PHASE_UNITS {
            PHASE_UNITS - 1
        } else {
            raw
        };
    }

    /// Advances the phase by one sample's worth, wraps it into a single
    /// turn, and returns the sine of the wrapped phase.
    pub fn generate(&mut self) -> (s: i64)
        requires
            old(self).wf(),
        ensures
            final(self).wf(),
            final(self).phase == (old(self).phase + old(self).step) % (PHASE_UNITS as int),
            final(self).step == old(self).step,
            final(self).sample_rate == old(self).sample_rate,
            s == sine_units(final(self).phase as int),
            -SCALE <= s <= SCALE,
    {
        self.phase = (self.phase + self.step) % PHASE_UNITS;
        sine(self.phase)
    }
}

} // verus!
