//! The voice manager: a fixed pool of voices, note allocation, and block
//! rendering.
//!
//! The pool holds a constant eight voices, all allocated up front; the
//! per-sample path allocates nothing. A note-on claims the first inactive
//! voice and is silently dropped when the pool is exhausted (no voice
//! stealing). A note-off releases the first active voice holding that note;
//! if a note was retriggered before its earlier voice finished releasing,
//! only the first match is released — a known, deliberate limitation. Within
//! a block, note events take effect in the order received, starting at the
//! sample index they carry.

use vstd::prelude::*;

use crate::osc::{clamp_sample_rate, clamp_sample_rate_exec, MAX_SAMPLE_RATE, MIN_SAMPLE_RATE};
use crate::params::AmSynthParams;
use crate::util::clamp_note;
use crate::envelope::clamp_level;
use crate::voice::{applied_env, fresh_voice_value, venv_release, venv_trigger, voice_after,
    voice_note_off_after, voice_note_on_after, voice_output, Voice, VOICE_OUT_MAX};
use crate::filter::{clamp_cutoff, FilterModel};

verus! {

/// The fixed size of the voice pool.
pub const VOICE_COUNT: usize = 8;

/// Largest magnitude of a mixed output sample: the whole pool at voice
/// headroom.
pub const MIX_OUT_MAX: i64 = 18_874_368;

/// One note event inside a block: `offset` is the sample index it takes
/// effect at, velocity is in `SCALE` units.
pub struct NoteEvent {
    pub offset: usize,
    pub is_on: bool,
    pub note: u8,
    pub velocity: i64,
}

/// The first index at or after `i` holding an inactive voice, or the pool
/// length when every remaining voice is busy.
pub open spec fn first_inactive_from(vs: Seq<Voice>, i: int) -> int
    decreases vs.len() - i when 0 <= i <= vs.len()
{
    if i >= vs.len() {
        vs.len() as int
    } else if !vs[i].active {
        i
    } else {
        first_inactive_from(vs, i + 1)
    }
}

/// The first index at or after `i` holding an active voice playing `note`,
/// or the pool length when there is none.
pub open spec fn first_match_from(vs: Seq<Voice>, note: int, i: int) -> int
    decreases vs.len() - i when 0 <= i <= vs.len()
{
    if i >= vs.len() {
        vs.len() as int
    } else if vs[i].active && vs[i].note == note {
        i
    } else {
        first_match_from(vs, note, i + 1)
    }
}

proof fn lemma_first_inactive_prefix(vs: Seq<Voice>, i: int)
    requires
        0 <= i <= vs.len(),
        forall|j: int| 0 <= j < i ==> vs[j].active,
    ensures
        first_inactive_from(vs, 0) == first_inactive_from(vs, i),
    decreases i,
{
    if i > 0 {
        lemma_first_inactive_prefix(vs, i - 1);
    }
}

proof fn lemma_first_match_prefix(vs: Seq<Voice>, note: int, i: int)
    requires
        0 <= i <= vs.len(),
        forall|j: int| 0 <= j < i ==> !(vs[j].active && vs[j].note == note),
    ensures
        first_match_from(vs, note, 0) == first_match_from(vs, note, i),
    decreases i,
{
    if i > 0 {
        lemma_first_match_prefix(vs, note, i - 1);
    }
}

/// The pool after a note-on: the first inactive voice claims the note; an
/// exhausted pool drops the event whole.
pub open spec fn note_on_pool(vs: Seq<Voice>, note: u8, velocity: i64) -> Seq<Voice> {
    let k = first_inactive_from(vs, 0);
    if k < vs.len() {
        vs.update(k, voice_note_on_after(vs[k], note, velocity))
    } else {
        vs
    }
}

/// The pool after a note-off: the first active voice holding the note is
/// released; with no match the event is dropped whole.
pub open spec fn note_off_pool(vs: Seq<Voice>, note: u8) -> Seq<Voice> {
    let k = first_match_from(vs, note as int, 0);
    if k < vs.len() {
        vs.update(k, voice_note_off_after(vs[k]))
    } else {
        vs
    }
}

/// The pool after one sample: every active voice stepped, idle slots frozen.
pub open spec fn step_pool(vs: Seq<Voice>, p: AmSynthParams) -> Seq<Voice> {
    Seq::new(
        vs.len(),
        |i: int|
            if vs[i].active {
                voice_after(vs[i], p)
            } else {
                vs[i]
            },
    )
}

/// The mix of the first `n` voices for one step: active voices contribute
/// their output, idle slots contribute silence.
pub open spec fn mix(vs: Seq<Voice>, p: AmSynthParams, n: int) -> int
    decreases n when 0 <= n <= vs.len()
{
    if n <= 0 {
        0
    } else {
        mix(vs, p, n - 1) + if vs[n - 1].active {
            voice_output(vs[n - 1], p)
        } else {
            0
        }
    }
}

/// One note event applied to the pool, by the allocation rules.
pub open spec fn event_applied(vs: Seq<Voice>, e: NoteEvent) -> Seq<Voice> {
    if e.is_on {
        note_on_pool(vs, e.note, e.velocity)
    } else {
        note_off_pool(vs, e.note)
    }
}

/// The samples a block renders, starting at sample `s` with event index
/// `ei`: while the next event is due (its offset reached, in arrival order)
/// it is applied to the pool; otherwise the pool is mixed into one output
/// sample and stepped, and the block moves to the next sample.
pub open spec fn block_outputs(
    vs: Seq<Voice>,
    p: AmSynthParams,
    events: Seq<NoteEvent>,
    ei: int,
    s: int,
    n: int,
) -> Seq<int>
    decreases n - s, events.len() - ei when 0 <= ei <= events.len()
{
    if s >= n {
        Seq::empty()
    } else if ei < events.len() && events[ei].offset <= s {
        block_outputs(event_applied(vs, events[ei]), p, events, ei + 1, s, n)
    } else {
        seq![mix(vs, p, vs.len() as int)] + block_outputs(step_pool(vs, p), p, events, ei, s + 1, n)
    }
}

/// The pool a block leaves behind, evolving exactly as `block_outputs` does.
pub open spec fn block_pool(
    vs: Seq<Voice>,
    p: AmSynthParams,
    events: Seq<NoteEvent>,
    ei: int,
    s: int,
    n: int,
) -> Seq<Voice>
    decreases n - s, events.len() - ei when 0 <= ei <= events.len()
{
    if s >= n {
        vs
    } else if ei < events.len() && events[ei].offset <= s {
        block_pool(event_applied(vs, events[ei]), p, events, ei + 1, s, n)
    } else {
        block_pool(step_pool(vs, p), p, events, ei, s + 1, n)
    }
}

/// The synthesis engine: the fixed voice pool, the session sample rate, and
/// the control snapshot the current block runs under.
pub struct Engine {
    pub voices: Vec<Voice>,
    pub sample_rate: u64,
    pub params: AmSynthParams,
}

impl Engine {
    pub open spec fn wf(&self) -> bool {
        &&& self.voices@.len() == VOICE_COUNT
        &&& MIN_SAMPLE_RATE <= self.sample_rate <= MAX_SAMPLE_RATE
        &&& forall|i: int|
            0 <= i < self.voices@.len() ==> (#[trigger] self.voices@[i]).wf()
                && self.voices@[i].sample_rate == self.sample_rate
    }

    /// A fresh engine: eight silent voices and the default snapshot.
    pub fn new(sample_rate: u64) -> (e: Self)
        ensures
            e.wf(),
            e.sample_rate == clamp_sample_rate(sample_rate as int),
            forall|i: int| 0 <= i < e.voices@.len() ==> !(#[trigger] e.voices@[i]).active,
            forall|i: int|
                0 <= i < e.voices@.len() ==> #[trigger] e.voices@[i] == fresh_voice_value(
                    e.sample_rate,
                ),
            e.params == crate::params::default_params(),
    {
        let rate = clamp_sample_rate_exec(sample_rate);
        let mut voices: Vec<Voice> = Vec::new();
        while voices.len() < VOICE_COUNT
            invariant
                voices@.len() <= VOICE_COUNT,
                MIN_SAMPLE_RATE <= rate <= MAX_SAMPLE_RATE,
                forall|i: int|
                    0 <= i < voices@.len() ==> (#[trigger] voices@[i]).wf() && !voices@[i].active
                        && voices@[i].sample_rate == rate,
                forall|i: int|
                    0 <= i < voices@.len() ==> #[trigger] voices@[i] == fresh_voice_value(rate),
            decreases VOICE_COUNT - voices.len(),
        {
            voices.push(Voice::new(rate));
        }
        Engine { voices, sample_rate: rate, params: AmSynthParams::default() }
    }

    /// Rebuilds the pool for a (new) session sample rate.
    pub fn initialize(&mut self, sample_rate: u64)
        ensures
            final(self).wf(),
            final(self).sample_rate == clamp_sample_rate(sample_rate as int),
            forall|i: int|
                0 <= i < final(self).voices@.len() ==> !(#[trigger] final(self).voices@[i]).active,
            forall|i: int|
                0 <= i < final(self).voices@.len() ==> #[trigger] final(self).voices@[i]
                    == fresh_voice_value(final(self).sample_rate),
            final(self).params == old(self).params,
    {
        let params = self.params;
        let mut fresh = Engine::new(sample_rate);
        fresh.params = params;
        *self = fresh;
    }

    /// Returns every voice to its silent, inactive resting state; safe to
    /// call between blocks.
    pub fn reset(&mut self)
        requires
            old(self).wf(),
        ensures
            final(self).wf(),
            final(self).sample_rate == old(self).sample_rate,
            forall|i: int|
                0 <= i < final(self).voices@.len() ==> !(#[trigger] final(self).voices@[i]).active,
            forall|i: int|
                0 <= i < final(self).voices@.len() ==> #[trigger] final(self).voices@[i]
                    == fresh_voice_value(final(self).sample_rate),
            final(self).params == old(self).params,
    {
        let mut i: usize = 0;
        while i < self.voices.len()
            invariant
                self.wf(),
                i <= self.voices@.len(),
                self.sample_rate == old(self).sample_rate,
                self.params == old(self).params,
                forall|j: int| 0 <= j < i ==> !(#[trigger] self.voices@[j]).active,
                forall|j: int|
                    0 <= j < i ==> #[trigger] self.voices@[j] == fresh_voice_value(
                        self.sample_rate,
                    ),
            decreases self.voices@.len() - i,
        {
            let rate = self.sample_rate;
            self.voices[i] = Voice::new(rate);
            i = i + 1;
        }
    }

    /// Adopts a control snapshot for the coming block and distributes it to
    /// every voice.
    pub fn set_params(&mut self, p: &AmSynthParams)
        requires
            old(self).wf(),
        ensures
            final(self).wf(),
            final(self).params == *p,
            final(self).sample_rate == old(self).sample_rate,
            final(self).voices@.len() == old(self).voices@.len(),
            forall|i: int|
                0 <= i < final(self).voices@.len() ==> {
                    let v0 = #[trigger] old(self).voices@[i];
                    let v1 = final(self).voices@[i];
                    &&& v1.envelope@ == applied_env(v0.envelope@, *p, v0.sample_rate as int)
                    &&& v1.carrier_filter@ == (FilterModel {
                        cutoff: clamp_cutoff(p.carrier_filter_cutoff as int),
                        resonance: clamp_level(p.carrier_filter_resonance as int),
                        topology: p.carrier_filter_type,
                        ..v0.carrier_filter@
                    })
                    &&& v1.modulator_filter@ == (FilterModel {
                        cutoff: clamp_cutoff(p.modulator_filter_cutoff as int),
                        resonance: clamp_level(p.modulator_filter_resonance as int),
                        topology: p.modulator_filter_type,
                        ..v0.modulator_filter@
                    })
                    &&& v1.global_filter@ == (FilterModel {
                        cutoff: clamp_cutoff(p.global_filter_cutoff as int),
                        resonance: clamp_level(p.global_filter_resonance as int),
                        topology: p.global_filter_type,
                        ..v0.global_filter@
                    })
                    &&& v1.active == v0.active
                    &&& v1.note == v0.note
                    &&& v1.velocity == v0.velocity
                    &&& v1.carrier == v0.carrier
                    &&& v1.modulator == v0.modulator
                },
    {
        self.params = *p;
        let ghost vs0 = self.voices@;
        let mut i: usize = 0;
        while i < self.voices.len()
            invariant
                i <= self.voices@.len(),
                self.voices@.len() == vs0.len(),
                vs0.len() == VOICE_COUNT,
                vs0 == old(self).voices@,
                self.params == *p,
                self.sample_rate == old(self).sample_rate,
                MIN_SAMPLE_RATE <= self.sample_rate <= MAX_SAMPLE_RATE,
                forall|j: int| i <= j < vs0.len() ==> #[trigger] self.voices@[j] == vs0[j],
                forall|j: int|
                    0 <= j < vs0.len() ==> (#[trigger] vs0[j]).wf() && vs0[j].sample_rate
                        == self.sample_rate,
                forall|j: int|
                    0 <= j < i ==> {
                        let v0 = #[trigger] vs0[j];
                        let v1 = self.voices@[j];
                        &&& v1.wf()
                        &&& v1.sample_rate == v0.sample_rate
                        &&& v1.envelope@ == applied_env(v0.envelope@, *p, v0.sample_rate as int)
                        &&& v1.carrier_filter@ == (FilterModel {
                            cutoff: clamp_cutoff(p.carrier_filter_cutoff as int),
                            resonance: clamp_level(p.carrier_filter_resonance as int),
                            topology: p.carrier_filter_type,
                            ..v0.carrier_filter@
                        })
                        &&& v1.modulator_filter@ == (FilterModel {
                            cutoff: clamp_cutoff(p.modulator_filter_cutoff as int),
                            resonance: clamp_level(p.modulator_filter_resonance as int),
                            topology: p.modulator_filter_type,
                            ..v0.modulator_filter@
                        })
                        &&& v1.global_filter@ == (FilterModel {
                            cutoff: clamp_cutoff(p.global_filter_cutoff as int),
                            resonance: clamp_level(p.global_filter_resonance as int),
                            topology: p.global_filter_type,
                            ..v0.global_filter@
                        })
                        &&& v1.active == v0.active
                        &&& v1.note == v0.note
                        &&& v1.velocity == v0.velocity
                        &&& v1.carrier == v0.carrier
                        &&& v1.modulator == v0.modulator
                    },
            decreases self.voices@.len() - i,
        {
            self.voices[i].apply_params(p);
            i = i + 1;
        }
        proof {
            assert forall|ii: int|
                0 <= ii < self.voices@.len() implies (#[trigger] self.voices@[ii]).wf()
                && self.voices@[ii].sample_rate == self.sample_rate by {
                assert(0 <= ii < i);
                let v0 = vs0[ii];
                let v1 = self.voices@[ii];
                assert(v1.wf());
            }
        }
    }

    /// Claims the first inactive voice for the note; with the pool exhausted
    /// the event is dropped whole, touching nothing.
    pub fn note_on(&mut self, note: u8, velocity: i64)
        requires
            old(self).wf(),
        ensures
            final(self).wf(),
            final(self).sample_rate == old(self).sample_rate,
            final(self).params == old(self).params,
            final(self).voices@.len() == old(self).voices@.len(),
            final(self).voices@ == note_on_pool(old(self).voices@, note, velocity),
            ({
                let k = first_inactive_from(old(self).voices@, 0);
                if k < old(self).voices@.len() {
                    &&& final(self).voices@[k].active
                    &&& final(self).voices@[k].note == clamp_note(note as int)
                    &&& final(self).voices@[k].velocity == clamp_level(velocity as int)
                    &&& final(self).voices@[k].envelope@ == venv_trigger(
                        old(self).voices@[k].envelope@,
                    )
                    &&& forall|j: int|
                        0 <= j < old(self).voices@.len() && j != k
                            ==> #[trigger] final(self).voices@[j] == old(self).voices@[j]
                } else {
                    final(self).voices@ == old(self).voices@
                }
            }),
    {
        let ghost vs0 = self.voices@;
        let mut i: usize = 0;
        while i < self.voices.len()
            invariant
                i <= self.voices@.len(),
                self.voices@ == vs0,
                self.sample_rate == old(self).sample_rate,
                self.params == old(self).params,
                old(self).wf(),
                vs0 == old(self).voices@,
                forall|j: int| 0 <= j < i ==> (#[trigger] vs0[j]).active,
            decreases self.voices@.len() - i,
        {
            if !self.voices[i].is_active() {
                proof {
                    lemma_first_inactive_prefix(vs0, i as int);
                }
                self.voices[i].note_on(note, velocity);
                return ;
            }
            i = i + 1;
        }
        proof {
            lemma_first_inactive_prefix(vs0, vs0.len() as int);
        }
    }

    /// Releases the first active voice playing the note; a re-triggered
    /// note's later voices are left untouched (first match only). With no
    /// match the event is dropped whole.
    pub fn note_off(&mut self, note: u8)
        requires
            old(self).wf(),
        ensures
            final(self).wf(),
            final(self).sample_rate == old(self).sample_rate,
            final(self).params == old(self).params,
            final(self).voices@.len() == old(self).voices@.len(),
            final(self).voices@ == note_off_pool(old(self).voices@, note),
            ({
                let k = first_match_from(old(self).voices@, note as int, 0);
                if k < old(self).voices@.len() {
                    &&& final(self).voices@[k].envelope@ == venv_release(
                        old(self).voices@[k].envelope@,
                    )
                    &&& final(self).voices@[k].active == old(self).voices@[k].active
                    &&& final(self).voices@[k].note == old(self).voices@[k].note
                    &&& forall|j: int|
                        0 <= j < old(self).voices@.len() && j != k
                            ==> #[trigger] final(self).voices@[j] == old(self).voices@[j]
                } else {
                    final(self).voices@ == old(self).voices@
                }
            }),
    {
        let ghost vs0 = self.voices@;
        let mut i: usize = 0;
        while i < self.voices.len()
            invariant
                i <= self.voices@.len(),
                self.voices@ == vs0,
                self.sample_rate == old(self).sample_rate,
                self.params == old(self).params,
                old(self).wf(),
                vs0 == old(self).voices@,
                forall|j: int|
                    0 <= j < i ==> !((#[trigger] vs0[j]).active && vs0[j].note == note),
            decreases self.voices@.len() - i,
        {
            let matches_note = self.voices[i].is_active() && self.voices[i].note == note;
            if matches_note {
                proof {
                    lemma_first_match_prefix(vs0, note as int, i as int);
                }
                self.voices[i].note_off();
                return ;
            }
            i = i + 1;
        }
        proof {
            lemma_first_match_prefix(vs0, note as int, vs0.len() as int);
        }
    }

    /// Renders one sample: every active voice advances and their outputs are
    /// summed; inactive slots stay frozen and silent.
    pub fn render_sample(&mut self) -> (s: i64)
        requires
            old(self).wf(),
        ensures
            final(self).wf(),
            final(self).sample_rate == old(self).sample_rate,
            final(self).params == old(self).params,
            final(self).voices@.len() == old(self).voices@.len(),
            s == mix(old(self).voices@, old(self).params, old(self).voices@.len() as int),
            -MIX_OUT_MAX <= s <= MIX_OUT_MAX,
            final(self).voices@ == step_pool(old(self).voices@, old(self).params),
    {
        let ghost vs0 = self.voices@;
        let ghost p = self.params;
        let mut sum: i64 = 0;
        let mut i: usize = 0;
        while i < self.voices.len()
            invariant
                i <= self.voices@.len(),
                self.voices@.len() == vs0.len(),
                vs0.len() == VOICE_COUNT,
                self.params == p,
                self.sample_rate == old(self).sample_rate,
                MIN_SAMPLE_RATE <= self.sample_rate <= MAX_SAMPLE_RATE,
                forall|j: int|
                    0 <= j < vs0.len() ==> (#[trigger] vs0[j]).wf() && vs0[j].sample_rate
                        == self.sample_rate,
                forall|j: int| i <= j < vs0.len() ==> #[trigger] self.voices@[j] == vs0[j],
                forall|j: int|
                    0 <= j < i ==> {
                        let v1 = #[trigger] self.voices@[j];
                        &&& v1 == step_pool(vs0, p)[j]
                        &&& v1.wf()
                        &&& v1.sample_rate == self.sample_rate
                    },
                sum == mix(vs0, p, i as int),
                -(i as i64) * VOICE_OUT_MAX <= sum <= (i as i64) * VOICE_OUT_MAX,
            decreases self.voices@.len() - i,
        {
            if self.voices[i].is_active() {
                let params = self.params;
                let out = self.voices[i].render_sample(&params);
                sum = sum + out;
            }
            i = i + 1;
        }
        proof {
            assert(self.voices@ =~= step_pool(vs0, p));
        }
        sum
    }

    /// Renders a block: for each sample index, first applies the note events
    /// that have come due (in the order received), then mixes one sample
    /// from every active voice into the mono output. The whole block — every
    /// output sample and the pool it leaves behind — equals the fold of
    /// event application and per-sample stepping that `block_outputs` and
    /// `block_pool` define.
    pub fn render_block(&mut self, num_samples: usize, events: &Vec<NoteEvent>) -> (out: Vec<i64>)
        requires
            old(self).wf(),
        ensures
            final(self).wf(),
            final(self).sample_rate == old(self).sample_rate,
            final(self).params == old(self).params,
            final(self).voices@.len() == old(self).voices@.len(),
            out@.len() == num_samples,
            forall|i: int| 0 <= i < out@.len() ==> -MIX_OUT_MAX <= #[trigger] out@[i] <= MIX_OUT_MAX,
            forall|i: int|
                0 <= i < out@.len() ==> #[trigger] out@[i] as int == block_outputs(
                    old(self).voices@,
                    old(self).params,
                    events@,
                    0,
                    0,
                    num_samples as int,
                )[i],
            final(self).voices@ == block_pool(
                old(self).voices@,
                old(self).params,
                events@,
                0,
                0,
                num_samples as int,
            ),
    {
        let ghost vs0 = self.voices@;
        let ghost p0 = self.params;
        let ghost n = num_samples as int;
        let ghost mut outs: Seq<int> = Seq::empty();
        let mut out: Vec<i64> = Vec::new();
        let mut ei: usize = 0;
        let mut s: usize = 0;
        proof {
            assert(Seq::<int>::empty() + block_outputs(vs0, p0, events@, 0, 0, n) =~= block_outputs(
                vs0,
                p0,
                events@,
                0,
                0,
                n,
            ));
        }
        while s < num_samples
            invariant
                self.wf(),
                self.sample_rate == old(self).sample_rate,
                self.params == p0,
                p0 == old(self).params,
                vs0 == old(self).voices@,
                n == num_samples as int,
                self.voices@.len() == vs0.len(),
                out@.len() == s,
                s <= num_samples,
                ei <= events@.len(),
                outs.len() == s,
                forall|i: int|
                    0 <= i < out@.len() ==> -MIX_OUT_MAX <= #[trigger] out@[i] <= MIX_OUT_MAX,
                forall|i: int| 0 <= i < out@.len() ==> #[trigger] out@[i] as int == outs[i],
                block_outputs(vs0, p0, events@, 0, 0, n) == outs + block_outputs(
                    self.voices@,
                    p0,
                    events@,
                    ei as int,
                    s as int,
                    n,
                ),
                block_pool(vs0, p0, events@, 0, 0, n) == block_pool(
                    self.voices@,
                    p0,
                    events@,
                    ei as int,
                    s as int,
                    n,
                ),
            decreases num_samples - s,
        {
            while ei < events.len() && events[ei].offset <= s
                invariant
                    self.wf(),
                    self.sample_rate == old(self).sample_rate,
                    self.params == p0,
                    self.voices@.len() == vs0.len(),
                    s < num_samples,
                    n == num_samples as int,
                    ei <= events@.len(),
                    block_outputs(vs0, p0, events@, 0, 0, n) == outs + block_outputs(
                        self.voices@,
                        p0,
                        events@,
                        ei as int,
                        s as int,
                        n,
                    ),
                    block_pool(vs0, p0, events@, 0, 0, n) == block_pool(
                        self.voices@,
                        p0,
                        events@,
                        ei as int,
                        s as int,
                        n,
                    ),
                decreases events@.len() - ei,
            {
                let ghost vs_pre = self.voices@;
                let ev = &events[ei];
                if ev.is_on {
                    self.note_on(ev.note, ev.velocity);
                } else {
                    self.note_off(ev.note);
                }
                proof {
                    assert(self.voices@ == event_applied(vs_pre, events@[ei as int]));
                    assert(block_outputs(vs_pre, p0, events@, ei as int, s as int, n)
                        == block_outputs(self.voices@, p0, events@, ei + 1, s as int, n));
                    assert(block_pool(vs_pre, p0, events@, ei as int, s as int, n) == block_pool(
                        self.voices@,
                        p0,
                        events@,
                        ei + 1,
                        s as int,
                        n,
                    ));
                }
                ei = ei + 1;
            }
            let ghost vs_cur = self.voices@;
            let sample = self.render_sample();
            proof {
                let m = mix(vs_cur, p0, vs_cur.len() as int);
                let rest = block_outputs(step_pool(vs_cur, p0), p0, events@, ei as int, s + 1, n);
                assert(block_outputs(vs_cur, p0, events@, ei as int, s as int, n) == seq![m]
                    + rest);
                assert(outs + (seq![m] + rest) =~= (outs + seq![m]) + rest);
                outs = outs + seq![m];
            }
            out.push(sample);
            s = s + 1;
        }
        proof {
            assert(block_outputs(self.voices@, p0, events@, ei as int, s as int, n)
                =~= Seq::<int>::empty());
            assert(outs + Seq::<int>::empty() =~= outs);
            assert(block_pool(vs0, p0, events@, 0, 0, n) == self.voices@);
        }
        out
    }
}

} // verus!