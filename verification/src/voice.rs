//! One voice: a carrier/modulator oscillator pair, an AM bridge, an
//! envelope (either variant), and three optional filter stages.
//!
//! The per-sample chain is: advance both oscillators (frequency taken from
//! the note when keyboard tracking is on, else from the control snapshot),
//! filter each branch if its stage is enabled, combine through the AM
//! bridge, scale by velocity and by the envelope level, then pass through
//! the optional global filter. Signals entering a filter are clamped to the
//! filter's headroom (`4 * SCALE`), the sanctioned guard against numeric
//! blow-up; the nominal unfiltered path never reaches that bound, so the
//! clamp is inaudible there.
//!
//! A voice stays active after note-off until its envelope has released to
//! silence; the render step then retires it so the engine can reuse the
//! slot.

use vstd::prelude::*;

use crate::am::{am_value, AmBridge};
use crate::envelope::{clamp_level, clamp_level_exec, env_exec, fresh_envelope, stage_samples,
    EnvModel, Envelope, EnvelopeStage, env_step, env_trigger, env_release};
use crate::filter::{clamp_cutoff, cutoff_coeff, filter_exec, filter_out, filter_step,
    fresh_filter, FilterModel, ResonantFilter};
use crate::fixed::{clamp_sample, clamp_sample_exec, is_level, scale_by_level, mul_level, SCALE};
use crate::osc::{clamp_sample_rate, step_for, sine_units, MAX_SAMPLE_RATE, MIN_SAMPLE_RATE,
    PHASE_UNITS, SineOscillator};
use crate::params::{AmSynthParams, EnvVariant};
use crate::staged::{fresh_staged_envelope, staged_exec, staged_note_off, staged_step,
    staged_trigger, StagedEnvelope, StagedModel};
use crate::util::midi_freq;

verus! {

/// Largest magnitude a voice sample can have: the headroom of a filter
/// output (nine times the filter input bound).
pub const VOICE_OUT_MAX: i64 = 2_359_296;

/// Headroom of a filter stage: signals entering a filter are clamped here.
pub const FILTER_CLAMP: i64 = 262144;

/// The mathematical state of a voice's envelope, whichever variant runs.
pub enum VoiceEnvModel {
    Conventional(EnvModel),
    Staged(StagedModel),
}

pub open spec fn venv_step(m: VoiceEnvModel) -> VoiceEnvModel {
    match m {
        VoiceEnvModel::Conventional(e) => VoiceEnvModel::Conventional(env_step(e)),
        VoiceEnvModel::Staged(s) => VoiceEnvModel::Staged(staged_step(s)),
    }
}

pub open spec fn venv_output(m: VoiceEnvModel) -> int {
    match m {
        VoiceEnvModel::Conventional(e) => e.output,
        VoiceEnvModel::Staged(s) => s.output,
    }
}

pub open spec fn venv_trigger(m: VoiceEnvModel) -> VoiceEnvModel {
    match m {
        VoiceEnvModel::Conventional(e) => VoiceEnvModel::Conventional(env_trigger(e)),
        VoiceEnvModel::Staged(s) => VoiceEnvModel::Staged(staged_trigger(s)),
    }
}

pub open spec fn venv_release(m: VoiceEnvModel) -> VoiceEnvModel {
    match m {
        VoiceEnvModel::Conventional(e) => VoiceEnvModel::Conventional(env_release(e)),
        VoiceEnvModel::Staged(s) => VoiceEnvModel::Staged(staged_note_off(s)),
    }
}

/// Whether the envelope has run (or released) to silence.
pub open spec fn venv_idle(m: VoiceEnvModel) -> bool {
    match m {
        VoiceEnvModel::Conventional(e) => e.stage is Idle,
        VoiceEnvModel::Staged(s) => s.stage == 3 && s.output == 0,
    }
}

/// What a control snapshot turns the envelope into: the selected variant
/// takes the snapshot's parameters; picking the other variant reinitializes
/// its state instead of mutating mid-flight.
pub open spec fn applied_env(m: VoiceEnvModel, p: AmSynthParams, rate: int) -> VoiceEnvModel {
    match p.env_variant {
        EnvVariant::Conventional => {
            let kept = match m {
                VoiceEnvModel::Conventional(e) => e,
                VoiceEnvModel::Staged(_) => EnvModel {
                    stage: EnvelopeStage::Idle,
                    attack: 1,
                    decay: 1,
                    sustain: 0,
                    release: 1,
                    elapsed: 0,
                    output: 0,
                    release_start: 0,
                },
            };
            VoiceEnvModel::Conventional(
                EnvModel {
                    attack: stage_samples(p.attack_ms as int, rate),
                    decay: stage_samples(p.decay_ms as int, rate),
                    sustain: clamp_level(p.sustain as int),
                    release: stage_samples(p.release_ms as int, rate),
                    ..kept
                },
            )
        },
        EnvVariant::Staged => {
            let kept = match m {
                VoiceEnvModel::Staged(s) => s,
                VoiceEnvModel::Conventional(_) => StagedModel {
                    stage: 3,
                    level1: 0,
                    level2: 0,
                    level3: 0,
                    level4: 0,
                    rate1: 0,
                    rate2: 0,
                    rate3: 0,
                    rate4: 0,
                    output: 0,
                },
            };
            VoiceEnvModel::Staged(
                StagedModel {
                    level1: clamp_level(p.staged_level1 as int),
                    level2: clamp_level(p.staged_level2 as int),
                    level3: clamp_level(p.staged_level3 as int),
                    level4: clamp_level(p.staged_level4 as int),
                    rate1: clamp_level(p.staged_rate1 as int),
                    rate2: clamp_level(p.staged_rate2 as int),
                    rate3: clamp_level(p.staged_rate3 as int),
                    rate4: clamp_level(p.staged_rate4 as int),
                    ..kept
                },
            )
        },
    }
}

/// The envelope value a fresh voice carries at an (already clamped) sample
/// rate: the conventional variant selected, both variants silent.
pub open spec fn fresh_voice_envelope(sample_rate: u64) -> VoiceEnvelope {
    VoiceEnvelope {
        variant: EnvVariant::Conventional,
        conventional: fresh_envelope(sample_rate),
        staged: fresh_staged_envelope(),
    }
}

/// The envelope value after a trigger: the running variant restarted, the
/// resting one untouched.
pub open spec fn venv_trigger_exec(ve: VoiceEnvelope) -> VoiceEnvelope {
    match ve.variant {
        EnvVariant::Conventional => VoiceEnvelope {
            conventional: env_exec(env_trigger(ve.conventional@), ve.conventional.sample_rate),
            ..ve
        },
        EnvVariant::Staged => VoiceEnvelope { staged: staged_exec(staged_trigger(ve.staged@)), ..ve },
    }
}

/// The envelope value after a note-off: the running variant sent toward
/// silence, the resting one untouched.
pub open spec fn venv_release_exec(ve: VoiceEnvelope) -> VoiceEnvelope {
    match ve.variant {
        EnvVariant::Conventional => VoiceEnvelope {
            conventional: env_exec(env_release(ve.conventional@), ve.conventional.sample_rate),
            ..ve
        },
        EnvVariant::Staged => VoiceEnvelope {
            staged: staged_exec(staged_note_off(ve.staged@)),
            ..ve
        },
    }
}

/// The envelope value after one sample: the running variant stepped, the
/// resting one untouched.
pub open spec fn venv_step_exec(ve: VoiceEnvelope) -> VoiceEnvelope {
    match ve.variant {
        EnvVariant::Conventional => VoiceEnvelope {
            conventional: env_exec(env_step(ve.conventional@), ve.conventional.sample_rate),
            ..ve
        },
        EnvVariant::Staged => VoiceEnvelope { staged: staged_exec(staged_step(ve.staged@)), ..ve },
    }
}

/// A voice's envelope: both variants are kept allocated (nothing is
/// allocated on the audio path) and a tag selects the one that runs, so the
/// engine can swap variants per voice without special-casing.
pub struct VoiceEnvelope {
    pub variant: EnvVariant,
    pub conventional: Envelope,
    pub staged: StagedEnvelope,
}

impl View for VoiceEnvelope {
    type V = VoiceEnvModel;

    open spec fn view(&self) -> VoiceEnvModel {
        match self.variant {
            EnvVariant::Conventional => VoiceEnvModel::Conventional(self.conventional@),
            EnvVariant::Staged => VoiceEnvModel::Staged(self.staged@),
        }
    }
}

impl VoiceEnvelope {
    pub open spec fn wf(&self) -> bool {
        &&& self.conventional.wf()
        &&& self.staged.wf()
    }

    /// A silent conventional envelope.
    pub fn new(sample_rate: u64) -> (e: Self)
        ensures
            e.wf(),
            venv_idle(e@),
            e.variant == EnvVariant::Conventional,
            e.conventional.sample_rate == clamp_sample_rate(sample_rate as int),
            e == fresh_voice_envelope(clamp_sample_rate(sample_rate as int) as u64),
    {
        VoiceEnvelope {
            variant: EnvVariant::Conventional,
            conventional: Envelope::new(sample_rate),
            staged: StagedEnvelope::new(),
        }
    }

    /// Adopts a control snapshot: parameters for the selected variant, a
    /// reinitialized state if the variant changed.
    pub fn apply_params(&mut self, p: &AmSynthParams)
        requires
            old(self).wf(),
        ensures
            final(self).wf(),
            final(self)@ == applied_env(
                old(self)@,
                *p,
                old(self).conventional.sample_rate as int,
            ),
            final(self).variant == p.env_variant,
            final(self).conventional.sample_rate == old(self).conventional.sample_rate,
    {
        match p.env_variant {
            EnvVariant::Conventional => {
                match self.variant {
                    EnvVariant::Staged => {
                        self.conventional.stage = EnvelopeStage::Idle;
                        self.conventional.elapsed = 0;
                        self.conventional.output = 0;
                        self.conventional.release_start = 0;
                        self.conventional.attack = 1;
                        self.conventional.decay = 1;
                        self.conventional.sustain = 0;
                        self.conventional.release = 1;
                    },
                    _ => {},
                }
                self.conventional.set_params(p.attack_ms, p.decay_ms, p.sustain, p.release_ms);
                self.variant = EnvVariant::Conventional;
            },
            EnvVariant::Staged => {
                match self.variant {
                    EnvVariant::Conventional => {
                        self.staged.stage = 3;
                        self.staged.output = 0;
                        self.staged.level1 = 0;
                        self.staged.level2 = 0;
                        self.staged.level3 = 0;
                        self.staged.level4 = 0;
                        self.staged.rate1 = 0;
                        self.staged.rate2 = 0;
                        self.staged.rate3 = 0;
                        self.staged.rate4 = 0;
                    },
                    _ => {},
                }
                self.staged.set_params(
                    [p.staged_level1, p.staged_level2, p.staged_level3, p.staged_level4],
                    [p.staged_rate1, p.staged_rate2, p.staged_rate3, p.staged_rate4],
                );
                self.variant = EnvVariant::Staged;
            },
        }
    }

    /// Restarts the running variant from silence.
    pub fn note_on(&mut self)
        requires
            old(self).wf(),
        ensures
            final(self).wf(),
            final(self)@ == venv_trigger(old(self)@),
            *final(self) == venv_trigger_exec(*old(self)),
            final(self).variant == old(self).variant,
            final(self).conventional.sample_rate == old(self).conventional.sample_rate,
    {
        match self.variant {
            EnvVariant::Conventional => self.conventional.trigger(),
            EnvVariant::Staged => self.staged.note_on(),
        }
    }

    /// Sends the running variant toward silence.
    pub fn note_off(&mut self)
        requires
            old(self).wf(),
        ensures
            final(self).wf(),
            final(self)@ == venv_release(old(self)@),
            *final(self) == venv_release_exec(*old(self)),
            final(self).variant == old(self).variant,
            final(self).conventional.sample_rate == old(self).conventional.sample_rate,
    {
        match self.variant {
            EnvVariant::Conventional => self.conventional.release(),
            EnvVariant::Staged => self.staged.note_off(),
        }
    }

    /// Advances the running variant by one sample and returns its level.
    pub fn process(&mut self) -> (level: i64)
        requires
            old(self).wf(),
        ensures
            final(self).wf(),
            final(self)@ == venv_step(old(self)@),
            *final(self) == venv_step_exec(*old(self)),
            level == venv_output(final(self)@),
            is_level(level as int),
            final(self).variant == old(self).variant,
            final(self).conventional.sample_rate == old(self).conventional.sample_rate,
    {
        match self.variant {
            EnvVariant::Conventional => self.conventional.process(),
            EnvVariant::Staged => self.staged.process(),
        }
    }

    /// Whether the running variant has reached silence.
    pub fn is_idle(&self) -> (r: bool)
        ensures
            r == venv_idle(self@),
    {
        match self.variant {
            EnvVariant::Conventional => self.conventional.is_idle(),
            EnvVariant::Staged => self.staged.is_idle(),
        }
    }
}

/// The frequency the carrier runs at: the note's pitch under keyboard
/// tracking, the control value otherwise.
pub open spec fn eff_carrier_freq(v: Voice, p: AmSynthParams) -> int {
    if p.carrier_keyboard {
        midi_freq(v.note as int, p.tuning as int)
    } else {
        p.carrier_freq as int
    }
}

/// The frequency the modulator runs at.
pub open spec fn eff_modulator_freq(v: Voice, p: AmSynthParams) -> int {
    if p.modulator_keyboard {
        midi_freq(v.note as int, p.tuning as int)
    } else {
        p.modulator_freq as int
    }
}

/// The carrier phase after this sample's advance.
pub open spec fn carrier_phase_after(v: Voice, p: AmSynthParams) -> int {
    (v.carrier.phase + step_for(eff_carrier_freq(v, p), v.carrier.sample_rate as int)) % (
    PHASE_UNITS as int)
}

/// The modulator phase after this sample's advance.
pub open spec fn modulator_phase_after(v: Voice, p: AmSynthParams) -> int {
    (v.modulator.phase + step_for(eff_modulator_freq(v, p), v.modulator.sample_rate as int)) % (
    PHASE_UNITS as int)
}

/// The raw carrier sample of this step.
pub open spec fn carrier_raw(v: Voice, p: AmSynthParams) -> int {
    sine_units(carrier_phase_after(v, p))
}

/// The raw modulator sample of this step.
pub open spec fn modulator_raw(v: Voice, p: AmSynthParams) -> int {
    sine_units(modulator_phase_after(v, p))
}

/// The carrier filter's state after this step (untouched if its stage is
/// off).
pub open spec fn carrier_filter_after(v: Voice, p: AmSynthParams) -> FilterModel {
    if p.carrier_filter_enabled {
        filter_step(
            v.carrier_filter@,
            carrier_raw(v, p),
            cutoff_coeff(v.carrier_filter@.cutoff, v.sample_rate as int),
        )
    } else {
        v.carrier_filter@
    }
}

/// The modulator filter's state after this step.
pub open spec fn modulator_filter_after(v: Voice, p: AmSynthParams) -> FilterModel {
    if p.modulator_filter_enabled {
        filter_step(
            v.modulator_filter@,
            modulator_raw(v, p),
            cutoff_coeff(v.modulator_filter@.cutoff, v.sample_rate as int),
        )
    } else {
        v.modulator_filter@
    }
}

/// The carrier branch signal handed to the bridge.
pub open spec fn carrier_sig(v: Voice, p: AmSynthParams) -> int {
    if p.carrier_filter_enabled {
        clamp_sample(filter_out(carrier_filter_after(v, p)), FILTER_CLAMP as int)
    } else {
        carrier_raw(v, p)
    }
}

/// The modulator branch signal handed to the bridge.
pub open spec fn modulator_sig(v: Voice, p: AmSynthParams) -> int {
    if p.modulator_filter_enabled {
        clamp_sample(filter_out(modulator_filter_after(v, p)), FILTER_CLAMP as int)
    } else {
        modulator_raw(v, p)
    }
}

/// The bridged (amplitude-modulated) sample of this step.
pub open spec fn bridged(v: Voice, p: AmSynthParams) -> int {
    am_value(carrier_sig(v, p), modulator_sig(v, p), clamp_level(p.mod_depth as int))
}

/// The envelope level applied this step: full level under bypass.
pub open spec fn env_level(v: Voice, p: AmSynthParams) -> int {
    if p.envelope_bypass {
        SCALE as int
    } else {
        venv_output(venv_step(v.envelope@))
    }
}

/// The bridged sample after velocity and envelope shaping.
pub open spec fn shaped(v: Voice, p: AmSynthParams) -> int {
    scale_by_level(scale_by_level(bridged(v, p), v.velocity as int), env_level(v, p))
}

/// The global filter's state after this step.
pub open spec fn global_filter_after(v: Voice, p: AmSynthParams) -> FilterModel {
    if p.global_filter_enabled {
        filter_step(
            v.global_filter@,
            clamp_sample(shaped(v, p), FILTER_CLAMP as int),
            cutoff_coeff(v.global_filter@.cutoff, v.sample_rate as int),
        )
    } else {
        v.global_filter@
    }
}

/// What the voice contributes to the mix this step.
pub open spec fn voice_output(v: Voice, p: AmSynthParams) -> int {
    if p.global_filter_enabled {
        filter_out(global_filter_after(v, p))
    } else {
        shaped(v, p)
    }
}

/// The voice value after one render step: both oscillators advanced, the
/// enabled filter stages stepped, the envelope stepped, and the voice
/// retired exactly when its envelope reached silence.
pub open spec fn voice_after(v: Voice, p: AmSynthParams) -> Voice {
    Voice {
        carrier: SineOscillator {
            phase: carrier_phase_after(v, p) as u64,
            step: step_for(eff_carrier_freq(v, p), v.carrier.sample_rate as int) as u64,
            sample_rate: v.carrier.sample_rate,
        },
        modulator: SineOscillator {
            phase: modulator_phase_after(v, p) as u64,
            step: step_for(eff_modulator_freq(v, p), v.modulator.sample_rate as int) as u64,
            sample_rate: v.modulator.sample_rate,
        },
        carrier_filter: filter_exec(carrier_filter_after(v, p)),
        modulator_filter: filter_exec(modulator_filter_after(v, p)),
        global_filter: filter_exec(global_filter_after(v, p)),
        envelope: venv_step_exec(v.envelope),
        active: v.active && !venv_idle(venv_step(v.envelope@)),
        ..v
    }
}

/// The voice value after claiming a note: active, holding the clamped note
/// and velocity, its envelope retriggered.
pub open spec fn voice_note_on_after(v: Voice, note: u8, velocity: i64) -> Voice {
    Voice {
        active: true,
        note: crate::util::clamp_note(note as int) as u8,
        velocity: clamp_level(velocity as int) as i64,
        envelope: venv_trigger_exec(v.envelope),
        ..v
    }
}

/// The voice value after a note-off: only the envelope moves, into release.
pub open spec fn voice_note_off_after(v: Voice) -> Voice {
    Voice { envelope: venv_release_exec(v.envelope), ..v }
}

/// The voice value a fresh pool slot holds at an (already clamped) sample
/// rate: inactive and silent, every component at its resting value.
pub open spec fn fresh_voice_value(sample_rate: u64) -> Voice {
    Voice {
        carrier: SineOscillator { phase: 0, step: 0, sample_rate: sample_rate },
        modulator: SineOscillator { phase: 0, step: 0, sample_rate: sample_rate },
        bridge: AmBridge,
        carrier_filter: fresh_filter(),
        modulator_filter: fresh_filter(),
        global_filter: fresh_filter(),
        active: false,
        note: 0,
        velocity: 0,
        envelope: fresh_voice_envelope(sample_rate),
        sample_rate: sample_rate,
    }
}

pub struct Voice {
    pub carrier: SineOscillator,
    pub modulator: SineOscillator,
    pub bridge: AmBridge,
    pub carrier_filter: ResonantFilter,
    pub modulator_filter: ResonantFilter,
    pub global_filter: ResonantFilter,
    pub active: bool,
    pub note: u8,
    pub velocity: i64,
    pub envelope: VoiceEnvelope,
    pub sample_rate: u64,
}

impl Voice {
    pub open spec fn wf(&self) -> bool {
        &&& self.carrier.wf()
        &&& self.modulator.wf()
        &&& self.carrier_filter@.wf()
        &&& self.modulator_filter@.wf()
        &&& self.global_filter@.wf()
        &&& self.envelope.wf()
        &&& is_level(self.velocity as int)
        &&& MIN_SAMPLE_RATE <= self.sample_rate <= MAX_SAMPLE_RATE
        &&& self.carrier.sample_rate == self.sample_rate
        &&& self.modulator.sample_rate == self.sample_rate
        &&& self.envelope.conventional.sample_rate == self.sample_rate
    }

    /// A silent, inactive voice.
    pub fn new(sample_rate: u64) -> (v: Self)
        ensures
            v.wf(),
            v == fresh_voice_value(clamp_sample_rate(sample_rate as int) as u64),
            !v.active,
            v.note == 0,
            v.velocity == 0,
            venv_idle(v.envelope@),
            v.carrier.phase == 0,
            v.modulator.phase == 0,
            v.sample_rate == clamp_sample_rate(sample_rate as int),
    {
        let rate = crate::osc::clamp_sample_rate_exec(sample_rate);
        Voice {
            carrier: SineOscillator::new(rate),
            modulator: SineOscillator::new(rate),
            bridge: AmBridge::new(),
            carrier_filter: ResonantFilter::new(),
            modulator_filter: ResonantFilter::new(),
            global_filter: ResonantFilter::new(),
            active: false,
            note: 0,
            velocity: 0,
            envelope: VoiceEnvelope::new(rate),
            sample_rate: rate,
        }
    }

    pub fn is_active(&self) -> (r: bool)
        ensures
            r == self.active,
    {
        self.active
    }

    /// Claims the voice for a note: marks it active, stores the (clamped)
    /// note and velocity, and retriggers the envelope.
    pub fn note_on(&mut self, note: u8, velocity: i64)
        requires
            old(self).wf(),
        ensures
            final(self).wf(),
            *final(self) == voice_note_on_after(*old(self), note, velocity),
            final(self).active,
            final(self).note == crate::util::clamp_note(note as int),
            final(self).velocity == clamp_level(velocity as int),
            final(self).envelope@ == venv_trigger(old(self).envelope@),
            final(self).sample_rate == old(self).sample_rate,
    {
        self.active = true;
        self.note = if note > 127 {
            127
        } else {
            note
        };
        self.velocity = clamp_level_exec(velocity);
        self.envelope.note_on();
    }

    /// Sends the voice's envelope into release; the voice stays active (and
    /// audible) until the envelope reaches silence.
    pub fn note_off(&mut self)
        requires
            old(self).wf(),
        ensures
            final(self).wf(),
            *final(self) == voice_note_off_after(*old(self)),
            final(self).envelope@ == venv_release(old(self).envelope@),
            final(self).active == old(self).active,
            final(self).note == old(self).note,
    {
        self.envelope.note_off();
    }

    /// Adopts a control snapshot: envelope parameters (and variant) and the
    /// three filter stages' parameters. No oscillator or filter state moves.
    pub fn apply_params(&mut self, p: &AmSynthParams)
        requires
            old(self).wf(),
        ensures
            final(self).wf(),
            final(self).envelope@ == applied_env(
                old(self).envelope@,
                *p,
                old(self).sample_rate as int,
            ),
            final(self).carrier_filter@ == (FilterModel {
                cutoff: clamp_cutoff(p.carrier_filter_cutoff as int),
                resonance: clamp_level(p.carrier_filter_resonance as int),
                topology: p.carrier_filter_type,
                ..old(self).carrier_filter@
            }),
            final(self).modulator_filter@ == (FilterModel {
                cutoff: clamp_cutoff(p.modulator_filter_cutoff as int),
                resonance: clamp_level(p.modulator_filter_resonance as int),
                topology: p.modulator_filter_type,
                ..old(self).modulator_filter@
            }),
            final(self).global_filter@ == (FilterModel {
                cutoff: clamp_cutoff(p.global_filter_cutoff as int),
                resonance: clamp_level(p.global_filter_resonance as int),
                topology: p.global_filter_type,
                ..old(self).global_filter@
            }),
            final(self).carrier == old(self).carrier,
            final(self).modulator == old(self).modulator,
            final(self).active == old(self).active,
            final(self).note == old(self).note,
            final(self).velocity == old(self).velocity,
            final(self).sample_rate == old(self).sample_rate,
    {
        self.envelope.apply_params(p);
        self.carrier_filter.set_params(p.carrier_filter_cutoff, p.carrier_filter_resonance);
        self.carrier_filter.set_topology(p.carrier_filter_type);
        self.modulator_filter.set_params(p.modulator_filter_cutoff, p.modulator_filter_resonance);
        self.modulator_filter.set_topology(p.modulator_filter_type);
        self.global_filter.set_params(p.global_filter_cutoff, p.global_filter_resonance);
        self.global_filter.set_topology(p.global_filter_type);
    }

    /// Produces this voice's sample for the current step and advances all of
    /// its state; a voice whose envelope has reached silence retires itself.
    pub fn render_sample(&mut self, p: &AmSynthParams) -> (s: i64)
        requires
            old(self).wf(),
        ensures
            final(self).wf(),
            s == voice_output(*old(self), *p),
            -VOICE_OUT_MAX <= s <= VOICE_OUT_MAX,
            *final(self) == voice_after(*old(self), *p),
    {
        let ghost v0 = *self;
        let carrier_freq = if p.carrier_keyboard {
            crate::util::midi_note_to_freq(self.note, p.tuning)
        } else {
            p.carrier_freq
        };
        let modulator_freq = if p.modulator_keyboard {
            crate::util::midi_note_to_freq(self.note, p.tuning)
        } else {
            p.modulator_freq
        };
        self.carrier.set_frequency(carrier_freq);
        self.modulator.set_frequency(modulator_freq);
        let c_raw = self.carrier.generate();
        let m_raw = self.modulator.generate();
        let c_sig = if p.carrier_filter_enabled {
            let c_f = self.carrier_filter.process(c_raw, self.sample_rate);
            clamp_sample_exec(c_f, FILTER_CLAMP)
        } else {
            c_raw
        };
        let m_sig = if p.modulator_filter_enabled {
            let m_f = self.modulator_filter.process(m_raw, self.sample_rate);
            clamp_sample_exec(m_f, FILTER_CLAMP)
        } else {
            m_raw
        };
        let depth = clamp_level_exec(p.mod_depth);
        let combined = self.bridge.process(c_sig, m_sig, depth);
        let level = self.envelope.process();
        let applied_level = if p.envelope_bypass {
            SCALE
        } else {
            level
        };
        let with_velocity = mul_level(combined, self.velocity);
        let shaped_sample = mul_level(with_velocity, applied_level);
        let out = if p.global_filter_enabled {
            let g_in = clamp_sample_exec(shaped_sample, FILTER_CLAMP);
            self.global_filter.process(g_in, self.sample_rate)
        } else {
            shaped_sample
        };
        if self.envelope.is_idle() {
            self.active = false;
        }
        proof {
            assert(carrier_sig(v0, *p) == c_sig);
            assert(modulator_sig(v0, *p) == m_sig);
            assert(bridged(v0, *p) == combined);
            assert(env_level(v0, *p) == applied_level);
            assert(shaped(v0, *p) == shaped_sample);
        }
        out
    }
}

} // verus!
