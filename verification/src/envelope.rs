//! Conventional ADSR envelope generator.
//!
//! The state machine is `Idle -> Attack -> Decay -> Sustain -> Release ->
//! Idle`. Attack and decay are linear ramps computed from the number of
//! samples elapsed in the stage, so the ramp is exact and free of drift.
//! For the release stage two laws circulate (ramp the sustain level down, or
//! decay the output proportionally); this implementation deliberately ramps
//! linearly from the level held at note-off down to zero, so that the output
//! reaches zero within the configured release time from *any* starting
//! level. Stage times are clamped so every ramp lasts at least one sample,
//! which stands in for the usual minimum-time clamp and keeps the arithmetic
//! total.

use vstd::prelude::*;

use crate::fixed::{is_level, SCALE};
use crate::osc::{clamp_sample_rate, clamp_sample_rate_exec, MAX_SAMPLE_RATE, MIN_SAMPLE_RATE};

verus! {

/// Longest stage time accepted, in milliseconds.
pub const MAX_TIME_MS: u64 = 60_000;

/// Longest stage length in samples: `MAX_TIME_MS` at the fastest rate.
pub const MAX_STAGE_SAMPLES: u64 = 11_520_000;

#[derive(Clone, Copy, PartialEq, Eq, Debug)]
pub enum EnvelopeStage {
    Idle,
    Attack,
    Decay,
    Sustain,
    Release,
}

/// The mathematical state of an envelope: stage lengths in samples, levels
/// in `SCALE` units.
pub struct EnvModel {
    pub stage: EnvelopeStage,
    pub attack: int,
    pub decay: int,
    pub sustain: int,
    pub release: int,
    pub elapsed: int,
    pub output: int,
    pub release_start: int,
}

impl EnvModel {
    pub open spec fn wf(&self) -> bool {
        &&& 1 <= self.attack <= MAX_STAGE_SAMPLES
        &&& 1 <= self.decay <= MAX_STAGE_SAMPLES
        &&& 1 <= self.release <= MAX_STAGE_SAMPLES
        &&& is_level(self.sustain)
        &&& is_level(self.output)
        &&& is_level(self.release_start)
        &&& 0 <= self.elapsed <= MAX_STAGE_SAMPLES
        &&& (self.stage is Idle ==> self.output == 0)
    }
}

/// How triggering rewrites the state: restart the attack ramp from silence.
pub open spec fn env_trigger(m: EnvModel) -> EnvModel {
    EnvModel { stage: EnvelopeStage::Attack, elapsed: 0, output: 0, ..m }
}

/// How note-off rewrites the state: enter the release ramp from the current
/// level.
pub open spec fn env_release(m: EnvModel) -> EnvModel {
    EnvModel { stage: EnvelopeStage::Release, elapsed: 0, release_start: m.output, ..m }
}

/// One sample of envelope time.
pub open spec fn env_step(m: EnvModel) -> EnvModel {
    match m.stage {
        EnvelopeStage::Idle => m,
        EnvelopeStage::Attack => {
            let t = m.elapsed + 1;
            if t >= m.attack {
                EnvModel { stage: EnvelopeStage::Decay, elapsed: 0, output: SCALE as int, ..m }
            } else {
                EnvModel { elapsed: t, output: (t * SCALE) / m.attack, ..m }
            }
        },
        EnvelopeStage::Decay => {
            let t = m.elapsed + 1;
            if t >= m.decay {
                EnvModel { stage: EnvelopeStage::Sustain, elapsed: 0, output: m.sustain, ..m }
            } else {
                EnvModel { elapsed: t, output: SCALE - ((SCALE - m.sustain) * t) / m.decay, ..m }
            }
        },
        EnvelopeStage::Sustain => EnvModel { output: m.sustain, ..m },
        EnvelopeStage::Release => {
            let t = m.elapsed + 1;
            if t >= m.release {
                EnvModel { stage: EnvelopeStage::Idle, elapsed: 0, output: 0, ..m }
            } else {
                let v = (m.release_start * (m.release - t)) / m.release;
                if v <= 0 {
                    EnvModel { stage: EnvelopeStage::Idle, elapsed: 0, output: 0, ..m }
                } else {
                    EnvModel { elapsed: t, output: v, ..m }
                }
            }
        },
    }
}

/// `n` samples of envelope time.
pub open spec fn env_iter(m: EnvModel, n: nat) -> EnvModel
    decreases n,
{
    if n == 0 {
        m
    } else {
        env_iter(env_step(m), (n - 1) as nat)
    }
}

/// One envelope step keeps the state well formed; in particular the output
/// never leaves `[0, SCALE]`.
pub proof fn lemma_env_step_wf(m: EnvModel)
    requires
        m.wf(),
    ensures
        env_step(m).wf(),
{
    match m.stage {
        EnvelopeStage::Attack => {
            let t = m.elapsed + 1;
            if t < m.attack {
                assert(0 <= (t * SCALE) / m.attack <= SCALE) by (nonlinear_arith)
                    requires
                        1 <= t <= m.attack,
                        m.attack >= 1,
                ;
            }
        },
        EnvelopeStage::Decay => {
            let t = m.elapsed + 1;
            if t < m.decay {
                assert(0 <= ((SCALE - m.sustain) * t) / m.decay <= SCALE - m.sustain)
                    by (nonlinear_arith)
                    requires
                        1 <= t <= m.decay,
                        m.decay >= 1,
                        0 <= m.sustain <= SCALE,
                ;
            }
        },
        EnvelopeStage::Release => {
            let t = m.elapsed + 1;
            if t < m.release {
                assert(0 <= (m.release_start * (m.release - t)) / m.release <= m.release_start)
                    by (nonlinear_arith)
                    requires
                        1 <= t <= m.release,
                        m.release >= 1,
                        0 <= m.release_start <= SCALE,
                ;
            }
        },
        _ => {},
    }
}

/// Along any run the state stays well formed.
pub proof fn lemma_env_iter_wf(m: EnvModel, n: nat)
    requires
        m.wf(),
    ensures
        env_iter(m, n).wf(),
    decreases n,
{
    if n > 0 {
        lemma_env_step_wf(m);
        lemma_env_iter_wf(env_step(m), (n - 1) as nat);
    }
}

/// Running `a + b` samples is running `a`, then `b`.
pub proof fn lemma_env_iter_add(m: EnvModel, a: nat, b: nat)
    ensures
        env_iter(m, a + b) == env_iter(env_iter(m, a), b),
    decreases a,
{
    if a > 0 {
        lemma_env_iter_add(env_step(m), (a - 1) as nat, b);
    }
}

/// An idle envelope stays exactly as it is.
pub proof fn lemma_idle_holds(m: EnvModel, n: nat)
    requires
        m.stage is Idle,
    ensures
        env_iter(m, n) == m,
    decreases n,
{
    if n > 0 {
        lemma_idle_holds(m, (n - 1) as nat);
    }
}

/// A sustaining envelope whose output equals the sustain level stays exactly
/// as it is.
pub proof fn lemma_sustain_holds(m: EnvModel, n: nat)
    requires
        m.stage is Sustain,
        m.output == m.sustain,
    ensures
        env_iter(m, n) == m,
    decreases n,
{
    if n > 0 {
        assert(env_step(m) == m);
        lemma_sustain_holds(m, (n - 1) as nat);
    }
}

/// From anywhere inside the attack ramp, the envelope reaches full level and
/// enters the decay stage after exactly the remaining attack samples.
proof fn lemma_attack_reaches_decay(m: EnvModel)
    requires
        m.wf(),
        m.stage is Attack,
        m.elapsed < m.attack,
    ensures
        env_iter(m, (m.attack - m.elapsed) as nat) == (EnvModel {
            stage: EnvelopeStage::Decay,
            elapsed: 0,
            output: SCALE as int,
            ..m
        }),
    decreases m.attack - m.elapsed,
{
    lemma_env_step_wf(m);
    let m1 = env_step(m);
    assert(env_iter(m1, 0) == m1);
    if m.elapsed + 1 >= m.attack {
        assert(env_iter(m, 1) == env_iter(m1, 0));
    } else {
        lemma_attack_reaches_decay(m1);
    }
}

/// From anywhere inside the decay ramp, the envelope settles on the sustain
/// level after exactly the remaining decay samples.
proof fn lemma_decay_reaches_sustain(m: EnvModel)
    requires
        m.wf(),
        m.stage is Decay,
        m.elapsed < m.decay,
    ensures
        env_iter(m, (m.decay - m.elapsed) as nat) == (EnvModel {
            stage: EnvelopeStage::Sustain,
            elapsed: 0,
            output: m.sustain,
            ..m
        }),
    decreases m.decay - m.elapsed,
{
    lemma_env_step_wf(m);
    let m1 = env_step(m);
    assert(env_iter(m1, 0) == m1);
    if m.elapsed + 1 >= m.decay {
        assert(env_iter(m, 1) == env_iter(m1, 0));
    } else {
        lemma_decay_reaches_sustain(m1);
    }
}

/// From anywhere inside the release ramp, the envelope is silent and idle
/// after at most the remaining release samples.
proof fn lemma_release_reaches_idle(m: EnvModel)
    requires
        m.wf(),
        m.stage is Release,
        m.elapsed < m.release,
    ensures
        env_iter(m, (m.release - m.elapsed) as nat) == (EnvModel {
            stage: EnvelopeStage::Idle,
            elapsed: 0,
            output: 0,
            ..m
        }),
    decreases m.release - m.elapsed,
{
    lemma_env_step_wf(m);
    let m1 = env_step(m);
    let idle = EnvModel { stage: EnvelopeStage::Idle, elapsed: 0, output: 0, ..m };
    assert(env_iter(m1, 0) == m1);
    if m.elapsed + 1 >= m.release {
        assert(env_iter(m, 1) == env_iter(m1, 0));
    } else if m1.stage is Idle {
        assert(m1 == idle);
        lemma_idle_holds(m1, (m.release - m.elapsed - 1) as nat);
        assert(env_iter(m, (m.release - m.elapsed) as nat) == env_iter(
            m1,
            (m.release - m.elapsed - 1) as nat,
        ));
    } else {
        lemma_release_reaches_idle(m1);
    }
}

/// A triggered envelope that is never released reaches the sustain stage and
/// holds exactly the sustain level after at most `attack + decay` samples;
/// `lemma_env_iter_wf` separately keeps its output inside `[0, SCALE]`
/// throughout.
pub proof fn lemma_adsr_reaches_and_holds_sustain(m: EnvModel, n: nat)
    requires
        m.wf(),
        m.stage is Attack,
        m.elapsed == 0,
        n >= m.attack + m.decay,
    ensures
        env_iter(m, n).stage is Sustain,
        env_iter(m, n).output == m.sustain,
{
    let a = m.attack as nat;
    let d = m.decay as nat;
    lemma_attack_reaches_decay(m);
    let md = env_iter(m, a);
    lemma_env_iter_wf(m, a);
    lemma_decay_reaches_sustain(md);
    let ms = env_iter(md, d);
    lemma_env_iter_add(m, a, d);
    assert(ms == env_iter(m, a + d));
    let rest = (n - a - d) as nat;
    lemma_sustain_holds(ms, rest);
    lemma_env_iter_add(m, a + d, rest);
}

/// An envelope released from any level is silent and idle after at most
/// `release` samples, and stays silent until the next trigger.
pub proof fn lemma_adsr_release_to_zero(m: EnvModel, n: nat)
    requires
        m.wf(),
        m.stage is Release,
        m.elapsed == 0,
        n >= m.release,
    ensures
        env_iter(m, n).stage is Idle,
        env_iter(m, n).output == 0,
{
    let r = m.release as nat;
    lemma_release_reaches_idle(m);
    let mi = env_iter(m, r);
    let rest = (n - r) as nat;
    lemma_idle_holds(mi, rest);
    lemma_env_iter_add(m, r, rest);
}

/// How many samples a stage time in milliseconds lasts at a sample rate:
/// clamped to the accepted window and to at least one sample.
pub open spec fn stage_samples(ms: int, rate: int) -> int {
    let c = if ms > MAX_TIME_MS {
        MAX_TIME_MS as int
    } else {
        ms
    };
    let s = (c * rate) / 1000;
    if s < 1 {
        1
    } else {
        s
    }
}

/// Converts a stage time to samples at the envelope's rate.
fn stage_samples_exec(ms: u64, rate: u64) -> (r: u64)
    requires
        MIN_SAMPLE_RATE <= rate <= MAX_SAMPLE_RATE,
    ensures
        r == stage_samples(ms as int, rate as int),
        1 <= r <= MAX_STAGE_SAMPLES,
{
    let c = if ms > MAX_TIME_MS {
        MAX_TIME_MS
    } else {
        ms
    };
    assert(c * rate <= 11_520_000_000) by (nonlinear_arith)
        requires
            c <= 60_000,
            rate <= 192_000,
    ;
    let s = (c * rate) / 1000;
    if s < 1 {
        1
    } else {
        s
    }
}

/// Clamps a requested sustain (or any ratio) into `[0, SCALE]`.
pub open spec fn clamp_level(v: int) -> int {
    if v < 0 {
        0
    } else if v > SCALE {
        SCALE as int
    } else {
        v
    }
}

/// Clamps a ratio into `[0, SCALE]`.
pub fn clamp_level_exec(v: i64) -> (r: i64)
    ensures
        r == clamp_level(v as int),
        is_level(r as int),
{
    if v < 0 {
        0
    } else if v > SCALE {
        SCALE
    } else {
        v
    }
}

/// The executable envelope a model stands for at a sample rate: every model
/// field cast back to its machine type.
pub open spec fn env_exec(m: EnvModel, sample_rate: u64) -> Envelope {
    Envelope {
        stage: m.stage,
        attack: m.attack as u64,
        decay: m.decay as u64,
        sustain: m.sustain as i64,
        release: m.release as u64,
        elapsed: m.elapsed as u64,
        output: m.output as i64,
        release_start: m.release_start as i64,
        sample_rate: sample_rate,
    }
}

/// The envelope a fresh voice carries at an (already clamped) sample rate:
/// idle and silent, with the customary defaults of `Envelope::new`.
pub open spec fn fresh_envelope(sample_rate: u64) -> Envelope {
    env_exec(
        EnvModel {
            stage: EnvelopeStage::Idle,
            attack: stage_samples(10, sample_rate as int),
            decay: stage_samples(100, sample_rate as int),
            sustain: 32768,
            release: stage_samples(100, sample_rate as int),
            elapsed: 0,
            output: 0,
            release_start: 0,
        },
        sample_rate,
    )
}

/// The conventional ADSR envelope. Stage lengths are stored in samples,
/// levels in `SCALE` units.
pub struct Envelope {
    pub attack: u64,
    pub decay: u64,
    pub sustain: i64,
    pub release: u64,
    pub stage: EnvelopeStage,
    pub elapsed: u64,
    pub output: i64,
    pub release_start: i64,
    pub sample_rate: u64,
}

impl View for Envelope {
    type V = EnvModel;

    open spec fn view(&self) -> EnvModel {
        EnvModel {
            stage: self.stage,
            attack: self.attack as int,
            decay: self.decay as int,
            sustain: self.sustain as int,
            release: self.release as int,
            elapsed: self.elapsed as int,
            output: self.output as int,
            release_start: self.release_start as int,
        }
    }
}

impl Envelope {
    pub open spec fn wf(&self) -> bool {
        &&& self@.wf()
        &&& MIN_SAMPLE_RATE <= self.sample_rate <= MAX_SAMPLE_RATE
    }

    /// A silent, idle envelope with the customary defaults: 10 ms attack,
    /// 100 ms decay, half sustain, 100 ms release.
    pub fn new(sample_rate: u64) -> (e: Self)
        ensures
            e.wf(),
            e.sample_rate == clamp_sample_rate(sample_rate as int),
            e@ == (EnvModel {
                stage: EnvelopeStage::Idle,
                attack: stage_samples(10, clamp_sample_rate(sample_rate as int)),
                decay: stage_samples(100, clamp_sample_rate(sample_rate as int)),
                sustain: (SCALE / 2) as int,
                release: stage_samples(100, clamp_sample_rate(sample_rate as int)),
                elapsed: 0,
                output: 0,
                release_start: 0,
            }),
            e == fresh_envelope(clamp_sample_rate(sample_rate as int) as u64),
    {
        let rate = clamp_sample_rate_exec(sample_rate);
        Envelope {
            attack: stage_samples_exec(10, rate),
            decay: stage_samples_exec(100, rate),
            sustain: SCALE / 2,
            release: stage_samples_exec(100, rate),
            stage: EnvelopeStage::Idle,
            elapsed: 0,
            output: 0,
            release_start: 0,
            sample_rate: rate,
        }
    }

    /// Replaces the ADSR parameters without disturbing the running stage or
    /// level. Times are in milliseconds, sustain in `SCALE` units; all are
    /// clamped, never rejected.
    pub fn set_params(&mut self, attack_ms: u64, decay_ms: u64, sustain: i64, release_ms: u64)
        requires
            old(self).wf(),
        ensures
            final(self).wf(),
            final(self).sample_rate == old(self).sample_rate,
            final(self)@ == (EnvModel {
                attack: stage_samples(attack_ms as int, old(self).sample_rate as int),
                decay: stage_samples(decay_ms as int, old(self).sample_rate as int),
                sustain: clamp_level(sustain as int),
                release: stage_samples(release_ms as int, old(self).sample_rate as int),
                ..old(self)@
            }),
    {
        self.attack = stage_samples_exec(attack_ms, self.sample_rate);
        self.decay = stage_samples_exec(decay_ms, self.sample_rate);
        self.sustain = clamp_level_exec(sustain);
        self.release = stage_samples_exec(release_ms, self.sample_rate);
    }

    /// Starts the attack ramp from silence.
    pub fn trigger(&mut self)
        requires
            old(self).wf(),
        ensures
            final(self).wf(),
            final(self).sample_rate == old(self).sample_rate,
            final(self)@ == env_trigger(old(self)@),
            *final(self) == env_exec(env_trigger(old(self)@), old(self).sample_rate),
    {
        self.stage = EnvelopeStage::Attack;
        self.elapsed = 0;
        self.output = 0;
    }

    /// Enters the release ramp from whatever level is currently held.
    pub fn release(&mut self)
        requires
            old(self).wf(),
        ensures
            final(self).wf(),
            final(self).sample_rate == old(self).sample_rate,
            final(self)@ == env_release(old(self)@),
            *final(self) == env_exec(env_release(old(self)@), old(self).sample_rate),
    {
        self.stage = EnvelopeStage::Release;
        self.elapsed = 0;
        self.release_start = self.output;
    }

    /// Advances the envelope by one sample and returns the new level.
    pub fn process(&mut self) -> (level: i64)
        requires
            old(self).wf(),
        ensures
            final(self).wf(),
            final(self).sample_rate == old(self).sample_rate,
            final(self)@ == env_step(old(self)@),
            *final(self) == env_exec(env_step(old(self)@), old(self).sample_rate),
            level == final(self)@.output,
            is_level(level as int),
    {
        proof {
            lemma_env_step_wf(self@);
        }
        match self.stage {
            EnvelopeStage::Idle => {},
            EnvelopeStage::Attack => {
                let t = self.elapsed + 1;
                if t >= self.attack {
                    self.stage = EnvelopeStage::Decay;
                    self.elapsed = 0;
                    self.output = SCALE;
                } else {
                    self.elapsed = t;
                    self.output = ((t * (SCALE as u64)) / self.attack) as i64;
                }
            },
            EnvelopeStage::Decay => {
                let t = self.elapsed + 1;
                if t >= self.decay {
                    self.stage = EnvelopeStage::Sustain;
                    self.elapsed = 0;
                    self.output = self.sustain;
                } else {
                    self.elapsed = t;
                    let diff = (SCALE - self.sustain) as u64;
                    assert(diff * t <= 0xE8_8000_0000_0000) by (nonlinear_arith)
                        requires
                            diff <= 65536,
                            t <= 11_520_000,
                    ;
                    let drop = (diff * t) / self.decay;
                    self.output = SCALE - (drop as i64);
                }
            },
            EnvelopeStage::Sustain => {
                self.output = self.sustain;
            },
            EnvelopeStage::Release => {
                let t = self.elapsed + 1;
                if t >= self.release {
                    self.stage = EnvelopeStage::Idle;
                    self.elapsed = 0;
                    self.output = 0;
                } else {
                    let rem = self.release - t;
                    let start = self.release_start as u64;
                    assert(start * rem <= 0xE8_8000_0000_0000) by (nonlinear_arith)
                        requires
                            start <= 65536,
                            rem <= 11_520_000,
                    ;
                    let v = (start * rem) / self.release;
                    if v == 0 {
                        self.stage = EnvelopeStage::Idle;
                        self.elapsed = 0;
                        self.output = 0;
                    } else {
                        self.elapsed = t;
                        self.output = v as i64;
                    }
                }
            },
        }
        self.output
    }

    /// Whether the envelope has run to silence.
    pub fn is_idle(&self) -> (r: bool)
        ensures
            r == (self@.stage is Idle),
    {
        match self.stage {
            EnvelopeStage::Idle => true,
            _ => false,
        }
    }
}

} // verus!
