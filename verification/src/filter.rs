//! Resonant lowpass filter, two selectable topologies.
//!
//! Two one-pole stages are cascaded; each stage moves its state toward its
//! input by a cutoff-derived fraction per sample (with a mandatory unit
//! step, so a silent input drains the state completely instead of stalling).
//! Resonance is a feed-forward emphasis of the band component (the
//! difference of the two pole outputs); the two topologies differ in their
//! emphasis curve: the Moog-style curve grows linearly up to a gain of four,
//! the Roland-style curve grows quadratically up to a gain of two. Because
//! the emphasis never feeds back into the state, the filter is stable for
//! every cutoff and the full resonance range, and changing parameters never
//! touches the state (no clicks on sweeps).

use vstd::prelude::*;

use crate::fixed::{div_trunc, iabs, is_level, lemma_move_toward, move_toward, move_toward_exec,
    SCALE};
use crate::osc::{MAX_SAMPLE_RATE, MIN_SAMPLE_RATE};

verus! {

/// Largest sample magnitude the filter accepts and keeps in its state.
pub const FILTER_IN_MAX: i64 = 262144;

/// Lowest accepted cutoff, in Hz.
pub const MIN_CUTOFF_HZ: u64 = 20;

/// Highest accepted cutoff, in Hz.
pub const MAX_CUTOFF_HZ: u64 = 20000;

#[derive(Clone, Copy, PartialEq, Eq, Debug)]
pub enum FilterTopology {
    Moog,
    Roland,
}

/// The mathematical state of a filter: cutoff in Hz, resonance in `SCALE`
/// units, and the two pole states.
pub struct FilterModel {
    pub cutoff: int,
    pub resonance: int,
    pub topology: FilterTopology,
    pub y1: int,
    pub y2: int,
}

impl FilterModel {
    pub open spec fn wf(&self) -> bool {
        &&& MIN_CUTOFF_HZ <= self.cutoff <= MAX_CUTOFF_HZ
        &&& is_level(self.resonance)
        &&& -FILTER_IN_MAX <= self.y1 <= FILTER_IN_MAX
        &&& -FILTER_IN_MAX <= self.y2 <= FILTER_IN_MAX
    }
}

/// The per-sample approach fraction for a cutoff at a sample rate:
/// `w / (1 + w)` in `SCALE` units, where `w = 2*pi*cutoff/rate` (the angular
/// increment, with `2*pi` as `6283/1000`). Always in `[1, SCALE]`.
pub open spec fn cutoff_coeff(cutoff: int, rate: int) -> int {
    (6283 * cutoff * SCALE) / (1000 * rate + 6283 * cutoff)
}

pub proof fn lemma_cutoff_coeff_range(cutoff: int, rate: int)
    requires
        MIN_CUTOFF_HZ <= cutoff <= MAX_CUTOFF_HZ,
        MIN_SAMPLE_RATE <= rate <= MAX_SAMPLE_RATE,
    ensures
        1 <= cutoff_coeff(cutoff, rate) <= SCALE,
{
    let num = 6283 * cutoff * SCALE;
    let denom = 1000 * rate + 6283 * cutoff;
    assert(num >= denom);
    assert(num <= SCALE * denom) by (nonlinear_arith)
        requires
            num == 6283 * cutoff * SCALE,
            denom == 1000 * rate + 6283 * cutoff,
            cutoff >= 0,
            rate >= 0,
    ;
    assert(1 <= num / denom <= SCALE) by (nonlinear_arith)
        requires
            denom <= num <= SCALE * denom,
            denom > 0,
    ;
}

/// One sample of filter time at approach fraction `g`: each pole chases its
/// input.
pub open spec fn filter_step(m: FilterModel, x: int, g: int) -> FilterModel {
    let y1 = move_toward(m.y1, x, g);
    let y2 = move_toward(m.y2, y1, g);
    FilterModel { y1: y1, y2: y2, ..m }
}

/// The resonance emphasis gain, in `SCALE` units: linear up to four for the
/// Moog-style topology, quadratic up to two for the Roland-style one.
pub open spec fn emphasis(m: FilterModel) -> int {
    match m.topology {
        FilterTopology::Moog => 4 * m.resonance,
        FilterTopology::Roland => (2 * (m.resonance * m.resonance)) / (SCALE as int),
    }
}

/// What the filter hands out after a step: the lowpass output plus the
/// emphasized band component.
pub open spec fn filter_out(m: FilterModel) -> int {
    m.y2 + div_trunc((m.y1 - m.y2) * emphasis(m), SCALE as int)
}

pub proof fn lemma_emphasis_range(m: FilterModel)
    requires
        m.wf(),
    ensures
        0 <= emphasis(m) <= 4 * SCALE,
{
    match m.topology {
        FilterTopology::Moog => {},
        FilterTopology::Roland => {
            assert(0 <= 2 * (m.resonance * m.resonance) <= 2 * SCALE * SCALE) by (nonlinear_arith)
                requires
                    0 <= m.resonance <= SCALE,
            ;
            assert(0 <= (2 * (m.resonance * m.resonance)) / (SCALE as int) <= 2 * SCALE)
                by (nonlinear_arith)
                requires
                    0 <= 2 * (m.resonance * m.resonance) <= 2 * SCALE * SCALE,
            ;
        },
    }
}

/// A filter step keeps the state well formed as long as the input is in
/// range: the poles never leave the band their inputs live in.
pub proof fn lemma_filter_step_wf(m: FilterModel, x: int, g: int)
    requires
        m.wf(),
        -FILTER_IN_MAX <= x <= FILTER_IN_MAX,
        0 <= g <= SCALE,
    ensures
        filter_step(m, x, g).wf(),
        filter_step(m, x, g).cutoff == m.cutoff,
        filter_step(m, x, g).resonance == m.resonance,
        filter_step(m, x, g).topology == m.topology,
{
    lemma_move_toward(m.y1, x, g);
    let y1 = move_toward(m.y1, x, g);
    lemma_move_toward(m.y2, y1, g);
}

/// The emphasized output is bounded by a small multiple of the state bound:
/// the filter cannot blow up for any parameters in range.
pub proof fn lemma_filter_out_bounded(m: FilterModel)
    requires
        m.wf(),
    ensures
        -9 * FILTER_IN_MAX <= filter_out(m) <= 9 * FILTER_IN_MAX,
{
    lemma_emphasis_range(m);
    let band = m.y1 - m.y2;
    let e = emphasis(m);
    assert(-8 * FILTER_IN_MAX * SCALE <= band * e <= 8 * FILTER_IN_MAX * SCALE)
        by (nonlinear_arith)
        requires
            -2 * FILTER_IN_MAX <= band <= 2 * FILTER_IN_MAX,
            0 <= e <= 4 * SCALE,
    ;
    if band * e >= 0 {
        assert(0 <= (band * e) / (SCALE as int) <= 8 * FILTER_IN_MAX) by (nonlinear_arith)
            requires
                0 <= band * e <= 8 * FILTER_IN_MAX * SCALE,
        ;
    } else {
        assert(0 <= (-(band * e)) / (SCALE as int) <= 8 * FILTER_IN_MAX) by (nonlinear_arith)
            requires
                0 <= -(band * e) <= 8 * FILTER_IN_MAX * SCALE,
        ;
    }
}

/// Zero-input iteration at a fixed approach fraction.
pub open spec fn filter_zero_iter(m: FilterModel, g: int, n: nat) -> FilterModel
    decreases n,
{
    if n == 0 {
        m
    } else {
        filter_zero_iter(filter_step(m, 0, g), g, (n - 1) as nat)
    }
}

/// Fed silence, the first pole is fully drained after at most `|y1|`
/// samples, and meanwhile neither pole ever exceeds the larger of the two
/// starting magnitudes.
proof fn lemma_filter_y1_drains(m: FilterModel, g: int, n: nat)
    requires
        m.wf(),
        1 <= g <= SCALE,
        n >= iabs(m.y1),
    ensures
        filter_zero_iter(m, g, n).wf(),
        filter_zero_iter(m, g, n).y1 == 0,
        iabs(filter_zero_iter(m, g, n).y2) <= if iabs(m.y1) >= iabs(m.y2) {
            iabs(m.y1)
        } else {
            iabs(m.y2)
        },
        filter_zero_iter(m, g, n).cutoff == m.cutoff,
        filter_zero_iter(m, g, n).resonance == m.resonance,
        filter_zero_iter(m, g, n).topology == m.topology,
    decreases n,
{
    if n == 0 {
        assert(m.y1 == 0);
    } else {
        lemma_filter_step_wf(m, 0, g);
        lemma_move_toward(m.y1, 0, g);
        let m1 = filter_step(m, 0, g);
        lemma_move_toward(m.y2, m1.y1, g);
        lemma_filter_y1_drains(m1, g, (n - 1) as nat);
    }
}

/// Once the first pole is silent, the second is fully drained after at most
/// `|y2|` further samples.
proof fn lemma_filter_y2_drains(m: FilterModel, g: int, n: nat)
    requires
        m.wf(),
        1 <= g <= SCALE,
        m.y1 == 0,
        n >= iabs(m.y2),
    ensures
        filter_zero_iter(m, g, n).wf(),
        filter_zero_iter(m, g, n).y1 == 0,
        filter_zero_iter(m, g, n).y2 == 0,
        filter_zero_iter(m, g, n).cutoff == m.cutoff,
        filter_zero_iter(m, g, n).resonance == m.resonance,
        filter_zero_iter(m, g, n).topology == m.topology,
    decreases n,
{
    if n == 0 {
        assert(m.y2 == 0);
    } else {
        lemma_filter_step_wf(m, 0, g);
        lemma_move_toward(m.y1, 0, g);
        let m1 = filter_step(m, 0, g);
        lemma_move_toward(m.y2, m1.y1, g);
        lemma_filter_y2_drains(m1, g, (n - 1) as nat);
    }
}

/// Splitting a zero-input run.
proof fn lemma_filter_zero_iter_add(m: FilterModel, g: int, a: nat, b: nat)
    ensures
        filter_zero_iter(m, g, a + b) == filter_zero_iter(filter_zero_iter(m, g, a), g, b),
    decreases a,
{
    if a > 0 {
        lemma_filter_zero_iter_add(filter_step(m, 0, g), g, (a - 1) as nat, b);
    }
}

/// Fed silence, the filter drains to exactly zero within
/// `|y1| + max(|y1|, |y2|)` samples — and output and state stay bounded the
/// whole way (`lemma_filter_step_wf`, `lemma_filter_out_bounded`), so a
/// zero-input tail can never diverge.
pub proof fn lemma_filter_silence_decays(m: FilterModel, g: int, n: nat)
    requires
        m.wf(),
        1 <= g <= SCALE,
        n >= iabs(m.y1) + (if iabs(m.y1) >= iabs(m.y2) {
            iabs(m.y1)
        } else {
            iabs(m.y2)
        }),
    ensures
        filter_zero_iter(m, g, n).y1 == 0,
        filter_zero_iter(m, g, n).y2 == 0,
        filter_out(filter_zero_iter(m, g, n)) == 0,
{
    let k1 = iabs(m.y1) as nat;
    let cap = if iabs(m.y1) >= iabs(m.y2) {
        iabs(m.y1)
    } else {
        iabs(m.y2)
    };
    lemma_filter_y1_drains(m, g, k1);
    let m1 = filter_zero_iter(m, g, k1);
    let rest = (n - k1) as nat;
    lemma_filter_y2_drains(m1, g, rest);
    lemma_filter_zero_iter_add(m, g, k1, rest);
    let f = filter_zero_iter(m, g, n);
    assert(f.y1 == 0 && f.y2 == 0);
    assert((f.y1 - f.y2) * emphasis(f) == 0) by (nonlinear_arith)
        requires
            f.y1 - f.y2 == 0,
    ;
}

/// The resonant lowpass filter.
pub struct ResonantFilter {
    pub cutoff: u64,
    pub resonance: i64,
    pub topology: FilterTopology,
    pub y1: i64,
    pub y2: i64,
}

impl View for ResonantFilter {
    type V = FilterModel;

    open spec fn view(&self) -> FilterModel {
        FilterModel {
            cutoff: self.cutoff as int,
            resonance: self.resonance as int,
            topology: self.topology,
            y1: self.y1 as int,
            y2: self.y2 as int,
        }
    }
}

/// Clamps a requested cutoff into the audible band.
pub open spec fn clamp_cutoff(hz: int) -> int {
    if hz < MIN_CUTOFF_HZ {
        MIN_CUTOFF_HZ as int
    } else if hz > MAX_CUTOFF_HZ {
        MAX_CUTOFF_HZ as int
    } else {
        hz
    }
}

/// The filter value a fresh voice carries: customary defaults, zeroed state.
pub open spec fn fresh_filter() -> ResonantFilter {
    ResonantFilter {
        cutoff: 1000,
        resonance: 32768,
        topology: FilterTopology::Moog,
        y1: 0,
        y2: 0,
    }
}

/// The executable filter a model stands for: every model field cast back to
/// its machine type.
pub open spec fn filter_exec(m: FilterModel) -> ResonantFilter {
    ResonantFilter {
        cutoff: m.cutoff as u64,
        resonance: m.resonance as i64,
        topology: m.topology,
        y1: m.y1 as i64,
        y2: m.y2 as i64,
    }
}

impl ResonantFilter {
    pub open spec fn wf(&self) -> bool {
        self@.wf()
    }

    /// A quiet filter with the customary defaults: 1 kHz cutoff, half
    /// resonance, Moog-style curve.
    pub fn new() -> (f: Self)
        ensures
            f.wf(),
            f == fresh_filter(),
            f@ == (FilterModel {
                cutoff: 1000,
                resonance: (SCALE / 2) as int,
                topology: FilterTopology::Moog,
                y1: 0,
                y2: 0,
            }),
    {
        ResonantFilter {
            cutoff: 1000,
            resonance: SCALE / 2,
            topology: FilterTopology::Moog,
            y1: 0,
            y2: 0,
        }
    }

    /// Retunes cutoff and resonance, both clamped; the pole states are left
    /// alone, so a parameter sweep cannot click.
    pub fn set_params(&mut self, cutoff_hz: u64, resonance: i64)
        requires
            old(self).wf(),
        ensures
            final(self).wf(),
            final(self)@ == (FilterModel {
                cutoff: clamp_cutoff(cutoff_hz as int),
                resonance: crate::envelope::clamp_level(resonance as int),
                ..old(self)@
            }),
    {
        self.cutoff = if cutoff_hz < MIN_CUTOFF_HZ {
            MIN_CUTOFF_HZ
        } else if cutoff_hz > MAX_CUTOFF_HZ {
            MAX_CUTOFF_HZ
        } else {
            cutoff_hz
        };
        self.resonance = crate::envelope::clamp_level_exec(resonance);
    }

    /// Switches the resonance curve; the pole states are left alone.
    pub fn set_topology(&mut self, topology: FilterTopology)
        requires
            old(self).wf(),
        ensures
            final(self).wf(),
            final(self)@ == (FilterModel { topology: topology, ..old(self)@ }),
    {
        self.topology = topology;
    }

    /// Feeds one sample through the filter and returns the emphasized
    /// lowpass output.
    pub fn process(&mut self, input: i64, sample_rate: u64) -> (out: i64)
        requires
            old(self).wf(),
            -FILTER_IN_MAX <= input <= FILTER_IN_MAX,
            MIN_SAMPLE_RATE <= sample_rate <= MAX_SAMPLE_RATE,
        ensures
            final(self).wf(),
            final(self)@ == filter_step(
                old(self)@,
                input as int,
                cutoff_coeff(old(self)@.cutoff, sample_rate as int),
            ),
            out == filter_out(final(self)@),
            -9 * FILTER_IN_MAX <= out <= 9 * FILTER_IN_MAX,
    {
        proof {
            lemma_cutoff_coeff_range(self@.cutoff, sample_rate as int);
            lemma_filter_step_wf(
                self@,
                input as int,
                cutoff_coeff(self@.cutoff, sample_rate as int),
            );
        }
        let num = 6283 * self.cutoff * (SCALE as u64);
        let denom = 1000 * sample_rate + 6283 * self.cutoff;
        let g = (num / denom) as i64;
        let y1 = move_toward_exec(self.y1, input, g);
        let y2 = move_toward_exec(self.y2, y1, g);
        self.y1 = y1;
        self.y2 = y2;
        let band = y1 - y2;
        let emph: i64 = match self.topology {
            FilterTopology::Moog => 4 * self.resonance,
            FilterTopology::Roland => {
                assert(0 <= self.resonance * self.resonance <= SCALE * SCALE) by (nonlinear_arith)
                    requires
                        0 <= self.resonance <= SCALE,
                ;
                let rr = (self.resonance as u64) * (self.resonance as u64);
                ((2 * rr) / (SCALE as u64)) as i64
            },
        };
        proof {
            lemma_emphasis_range(self@);
            lemma_filter_out_bounded(self@);
        }
        let scaled: i64 = if band >= 0 {
            assert(0 <= band * emph <= 2 * FILTER_IN_MAX * (4 * SCALE)) by (nonlinear_arith)
                requires
                    0 <= band <= 2 * FILTER_IN_MAX,
                    0 <= emph <= 4 * SCALE,
            ;
            let p = (band as u64) * (emph as u64);
            (p / (SCALE as u64)) as i64
        } else {
            assert(0 <= (-band) * emph <= 2 * FILTER_IN_MAX * (4 * SCALE)) by (nonlinear_arith)
                requires
                    0 <= -band <= 2 * FILTER_IN_MAX,
                    0 <= emph <= 4 * SCALE,
            ;
            assert((-band) * emph == -(band * emph)) by (nonlinear_arith);
            let p = ((-band) as u64) * (emph as u64);
            -((p / (SCALE as u64)) as i64)
        };
        y2 + scaled
    }
}

} // verus!
