//! Four-stage envelope with exponential-style segments.
//!
//! Each of the four ordered stages carries a target level and a per-sample
//! approach rate; every call moves the output a `rate/SCALE` fraction of the
//! remaining distance toward the current target, but always by at least one
//! unit, so in integer arithmetic the segment lands exactly on its target.
//! The advance-on-epsilon rule therefore collapses to advance-on-arrival.
//! Triggering restarts stage 0 from silence, note-off forces stage 3 (the
//! release segment) from anywhere.

use vstd::prelude::*;

use crate::fixed::{is_level, lemma_move_toward, move_toward, move_toward_exec, SCALE};

verus! {

/// The mathematical state of a staged envelope: levels in `SCALE` units,
/// rates as per-sample approach fractions in `[0, SCALE]`.
pub struct StagedModel {
    pub stage: int,
    pub level1: int,
    pub level2: int,
    pub level3: int,
    pub level4: int,
    pub rate1: int,
    pub rate2: int,
    pub rate3: int,
    pub rate4: int,
    pub output: int,
}

/// The target level of a stage.
pub open spec fn staged_target(m: StagedModel, stage: int) -> int {
    if stage <= 0 {
        m.level1
    } else if stage == 1 {
        m.level2
    } else if stage == 2 {
        m.level3
    } else {
        m.level4
    }
}

/// The approach rate of a stage.
pub open spec fn staged_rate(m: StagedModel, stage: int) -> int {
    if stage <= 0 {
        m.rate1
    } else if stage == 1 {
        m.rate2
    } else if stage == 2 {
        m.rate3
    } else {
        m.rate4
    }
}

impl StagedModel {
    pub open spec fn wf(&self) -> bool {
        &&& 0 <= self.stage <= 3
        &&& is_level(self.level1)
        &&& is_level(self.level2)
        &&& is_level(self.level3)
        &&& is_level(self.level4)
        &&& is_level(self.rate1)
        &&& is_level(self.rate2)
        &&& is_level(self.rate3)
        &&& is_level(self.rate4)
        &&& is_level(self.output)
    }

    /// Distance still to cover in the current stage.
    pub open spec fn dist(&self) -> int {
        let t = staged_target(*self, self.stage);
        if self.output <= t {
            t - self.output
        } else {
            self.output - t
        }
    }
}

/// Triggering restarts the first segment from silence.
pub open spec fn staged_trigger(m: StagedModel) -> StagedModel {
    StagedModel { stage: 0, output: 0, ..m }
}

/// Note-off forces the release segment, whatever stage was running.
pub open spec fn staged_note_off(m: StagedModel) -> StagedModel {
    StagedModel { stage: 3, ..m }
}

/// One sample of staged-envelope time: approach the current target; on
/// arrival, advance to the next stage (the final stage holds).
pub open spec fn staged_step(m: StagedModel) -> StagedModel {
    let t = staged_target(m, m.stage);
    let moved = move_toward(m.output, t, staged_rate(m, m.stage));
    let st = if moved == t && m.stage < 3 {
        m.stage + 1
    } else {
        m.stage
    };
    StagedModel { stage: st, output: moved, ..m }
}

/// `n` samples of staged-envelope time.
pub open spec fn staged_iter(m: StagedModel, n: nat) -> StagedModel
    decreases n,
{
    if n == 0 {
        m
    } else {
        staged_iter(staged_step(m), (n - 1) as nat)
    }
}

/// One step keeps the state well formed, never moves the stage backward or
/// by more than one, approaches the current target monotonically, and lands
/// exactly on the target whenever it advances.
pub proof fn lemma_staged_step(m: StagedModel)
    requires
        m.wf(),
    ensures
        staged_step(m).wf(),
        m.stage <= staged_step(m).stage <= m.stage + 1,
        staged_step(m).stage <= 3,
        staged_step(m).dist() <= m.dist() || staged_step(m).stage != m.stage,
        m.output <= staged_target(m, m.stage) ==> m.output <= staged_step(m).output
            <= staged_target(m, m.stage),
        m.output >= staged_target(m, m.stage) ==> staged_target(m, m.stage)
            <= staged_step(m).output <= m.output,
        staged_step(m).stage == m.stage + 1 ==> staged_step(m).output == staged_target(
            m,
            m.stage,
        ),
{
    lemma_move_toward(m.output, staged_target(m, m.stage), staged_rate(m, m.stage));
}

/// Along any run the state stays well formed and the stage index never moves
/// backward: the stages are visited in order.
pub proof fn lemma_staged_iter_monotone(m: StagedModel, n: nat)
    requires
        m.wf(),
    ensures
        staged_iter(m, n).wf(),
        m.stage <= staged_iter(m, n).stage <= 3,
    decreases n,
{
    if n > 0 {
        lemma_staged_step(m);
        lemma_staged_iter_monotone(staged_step(m), (n - 1) as nat);
    }
}

/// Running `a + b` samples is running `a`, then `b`.
pub proof fn lemma_staged_iter_add(m: StagedModel, a: nat, b: nat)
    ensures
        staged_iter(m, a + b) == staged_iter(staged_iter(m, a), b),
    decreases a,
{
    if a > 0 {
        lemma_staged_iter_add(staged_step(m), (a - 1) as nat, b);
    }
}

/// Any stage below the last is left within `dist + 1` samples, and it is
/// left by landing exactly on its target.
proof fn lemma_staged_advances(m: StagedModel)
    requires
        m.wf(),
        m.stage < 3,
    ensures
        exists|k: nat|
            1 <= k <= m.dist() + 1 && staged_iter(m, k) == (StagedModel {
                stage: m.stage + 1,
                output: staged_target(m, m.stage),
                ..m
            }),
    decreases m.dist(),
{
    lemma_staged_step(m);
    let m1 = staged_step(m);
    let arrival = StagedModel { stage: m.stage + 1, output: staged_target(m, m.stage), ..m };
    assert(staged_iter(m1, 0) == m1);
    if m1.stage == m.stage + 1 {
        assert(staged_iter(m, 1) == staged_iter(m1, 0));
        assert(staged_iter(m, 1nat) == arrival);
    } else {
        assert(m1.stage == m.stage);
        assert(m1.output != staged_target(m, m.stage));
        lemma_move_toward(m.output, staged_target(m, m.stage), staged_rate(m, m.stage));
        assert(m1.dist() < m.dist());
        lemma_staged_advances(m1);
        let k1 = choose|k: nat|
            1 <= k <= m1.dist() + 1 && staged_iter(m1, k) == (StagedModel {
                stage: m1.stage + 1,
                output: staged_target(m1, m1.stage),
                ..m1
            });
        assert(staged_iter(m, k1 + 1) == staged_iter(m1, k1));
        assert(staged_iter(m, (k1 + 1) as nat) == arrival);
    }
}

/// Once the final stage is reached it is never left.
proof fn lemma_staged_final_stays(m: StagedModel, n: nat)
    requires
        m.wf(),
        m.stage == 3,
    ensures
        staged_iter(m, n).stage == 3,
    decreases n,
{
    if n > 0 {
        lemma_staged_step(m);
        lemma_staged_final_stays(staged_step(m), (n - 1) as nat);
    }
}

/// A triggered staged envelope visits the stages in order and has passed
/// through all of them after at most `3 * (SCALE + 1)` samples, each segment
/// having approached its own target monotonically
/// (`lemma_staged_step`); no stage is ever skipped or revisited
/// (`lemma_staged_iter_monotone`).
pub proof fn lemma_staged_visits_stages(m: StagedModel, n: nat)
    requires
        m.wf(),
        m.stage == 0,
        n >= 3 * (SCALE + 1),
    ensures
        staged_iter(m, n).stage == 3,
{
    lemma_staged_advances(m);
    let k1 = choose|k: nat|
        1 <= k <= m.dist() + 1 && staged_iter(m, k) == (StagedModel {
            stage: m.stage + 1,
            output: staged_target(m, m.stage),
            ..m
        });
    let m1 = staged_iter(m, k1);
    lemma_staged_advances(m1);
    let k2 = choose|k: nat|
        1 <= k <= m1.dist() + 1 && staged_iter(m1, k) == (StagedModel {
            stage: m1.stage + 1,
            output: staged_target(m1, m1.stage),
            ..m1
        });
    let m2 = staged_iter(m1, k2);
    lemma_staged_advances(m2);
    let k3 = choose|k: nat|
        1 <= k <= m2.dist() + 1 && staged_iter(m2, k) == (StagedModel {
            stage: m2.stage + 1,
            output: staged_target(m2, m2.stage),
            ..m2
        });
    let m3 = staged_iter(m2, k3);
    assert(m3.stage == 3);
    let rest = (n - k1 - k2 - k3) as nat;
    lemma_staged_final_stays(m3, rest);
    lemma_staged_iter_add(m, k1, k2);
    lemma_staged_iter_add(m, k1 + k2, k3);
    lemma_staged_iter_add(m, k1 + k2 + k3, rest);
    assert(staged_iter(m, n) == staged_iter(m3, rest));
}

/// The four-segment envelope, stage index in `[0, 3]`.
pub struct StagedEnvelope {
    pub stage: u8,
    pub level1: i64,
    pub level2: i64,
    pub level3: i64,
    pub level4: i64,
    pub rate1: i64,
    pub rate2: i64,
    pub rate3: i64,
    pub rate4: i64,
    pub output: i64,
}

impl View for StagedEnvelope {
    type V = StagedModel;

    open spec fn view(&self) -> StagedModel {
        StagedModel {
            stage: self.stage as int,
            level1: self.level1 as int,
            level2: self.level2 as int,
            level3: self.level3 as int,
            level4: self.level4 as int,
            rate1: self.rate1 as int,
            rate2: self.rate2 as int,
            rate3: self.rate3 as int,
            rate4: self.rate4 as int,
            output: self.output as int,
        }
    }
}

/// The staged envelope a fresh voice carries: silent in the release segment,
/// with a gentle default contour (full, three-quarter and half level,
/// released to silence, all at a centisecond-scale rate).
pub open spec fn fresh_staged_envelope() -> StagedEnvelope {
    StagedEnvelope {
        stage: 3,
        level1: 65536,
        level2: 49152,
        level3: 32768,
        level4: 0,
        rate1: 655,
        rate2: 655,
        rate3: 655,
        rate4: 655,
        output: 0,
    }
}

/// The executable envelope a model stands for: every model field cast back
/// to its machine type.
pub open spec fn staged_exec(m: StagedModel) -> StagedEnvelope {
    StagedEnvelope {
        stage: m.stage as u8,
        level1: m.level1 as i64,
        level2: m.level2 as i64,
        level3: m.level3 as i64,
        level4: m.level4 as i64,
        rate1: m.rate1 as i64,
        rate2: m.rate2 as i64,
        rate3: m.rate3 as i64,
        rate4: m.rate4 as i64,
        output: m.output as i64,
    }
}

impl StagedEnvelope {
    pub open spec fn wf(&self) -> bool {
        self@.wf()
    }

    /// A silent envelope resting in the release segment, with the default
    /// contour of `fresh_staged_envelope`.
    pub fn new() -> (e: Self)
        ensures
            e.wf(),
            e == fresh_staged_envelope(),
            e@.stage == 3,
            e@.output == 0,
    {
        StagedEnvelope {
            stage: 3,
            level1: SCALE,
            level2: 49152,
            level3: 32768,
            level4: 0,
            rate1: 655,
            rate2: 655,
            rate3: 655,
            rate4: 655,
            output: 0,
        }
    }

    /// Replaces the four `(level, rate)` pairs, each clamped to `[0, SCALE]`;
    /// the running stage and output are untouched.
    pub fn set_params(&mut self, levels: [i64; 4], rates: [i64; 4])
        requires
            old(self).wf(),
        ensures
            final(self).wf(),
            final(self)@ == (StagedModel {
                level1: crate::envelope::clamp_level(levels[0] as int),
                level2: crate::envelope::clamp_level(levels[1] as int),
                level3: crate::envelope::clamp_level(levels[2] as int),
                level4: crate::envelope::clamp_level(levels[3] as int),
                rate1: crate::envelope::clamp_level(rates[0] as int),
                rate2: crate::envelope::clamp_level(rates[1] as int),
                rate3: crate::envelope::clamp_level(rates[2] as int),
                rate4: crate::envelope::clamp_level(rates[3] as int),
                ..old(self)@
            }),
    {
        self.level1 = crate::envelope::clamp_level_exec(levels[0]);
        self.level2 = crate::envelope::clamp_level_exec(levels[1]);
        self.level3 = crate::envelope::clamp_level_exec(levels[2]);
        self.level4 = crate::envelope::clamp_level_exec(levels[3]);
        self.rate1 = crate::envelope::clamp_level_exec(rates[0]);
        self.rate2 = crate::envelope::clamp_level_exec(rates[1]);
        self.rate3 = crate::envelope::clamp_level_exec(rates[2]);
        self.rate4 = crate::envelope::clamp_level_exec(rates[3]);
    }

    /// Restarts the first segment from silence.
    pub fn note_on(&mut self)
        requires
            old(self).wf(),
        ensures
            final(self).wf(),
            final(self)@ == staged_trigger(old(self)@),
            *final(self) == staged_exec(staged_trigger(old(self)@)),
    {
        self.stage = 0;
        self.output = 0;
    }

    /// Forces the release segment, whatever stage was running.
    pub fn note_off(&mut self)
        requires
            old(self).wf(),
        ensures
            final(self).wf(),
            final(self)@ == staged_note_off(old(self)@),
            *final(self) == staged_exec(staged_note_off(old(self)@)),
            final(self)@.stage == 3,
    {
        self.stage = 3;
    }

    /// Advances the envelope by one sample and returns the new level.
    pub fn process(&mut self) -> (level: i64)
        requires
            old(self).wf(),
        ensures
            final(self).wf(),
            final(self)@ == staged_step(old(self)@),
            *final(self) == staged_exec(staged_step(old(self)@)),
            level == final(self)@.output,
            is_level(level as int),
    {
        proof {
            lemma_staged_step(self@);
        }
        let target = if self.stage == 0 {
            self.level1
        } else if self.stage == 1 {
            self.level2
        } else if self.stage == 2 {
            self.level3
        } else {
            self.level4
        };
        let rate = if self.stage == 0 {
            self.rate1
        } else if self.stage == 1 {
            self.rate2
        } else if self.stage == 2 {
            self.rate3
        } else {
            self.rate4
        };
        let moved = move_toward_exec(self.output, target, rate);
        self.output = moved;
        if moved == target && self.stage < 3 {
            self.stage = self.stage + 1;
        }
        self.output
    }

    /// Whether the envelope has released to silence.
    pub fn is_idle(&self) -> (r: bool)
        ensures
            r == (self@.stage == 3 && self@.output == 0),
    {
        self.stage == 3 && self.output == 0
    }
}

} // verus!
