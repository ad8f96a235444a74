//! The fixed-point sample format shared by every component.

use vstd::prelude::*;

verus! {

/// One full amplitude: levels, depths, velocities and resonance amounts are
/// integers in `[0, SCALE]`, audio samples are integers in `[-SCALE, SCALE]`
/// (before mixing).
pub const SCALE: i64 = 65536;

/// A value usable as a level ratio (envelope output, sustain, depth,
/// velocity, resonance): the fixed-point image of `[0.0, 1.0]`.
pub open spec fn is_level(v: int) -> bool {
    0 <= v <= SCALE
}

/// Truncating signed division by a positive divisor, as the executable code
/// performs it: the magnitude is divided and the sign is put back.
pub open spec fn div_trunc(a: int, b: int) -> int {
    if a >= 0 {
        a / b
    } else {
        -((-a) / b)
    }
}

/// Scaling a sample by a level ratio: `sample * level / SCALE`, truncated
/// toward zero.
pub open spec fn scale_by_level(sample: int, level: int) -> int {
    div_trunc(sample * level, SCALE as int)
}

/// Largest sample magnitude accepted by `mul_level`; generous enough for the
/// whole voice chain, small enough that `sample * SCALE` fits in an `i64`.
pub const LEVEL_IN_MAX: i64 = 0x10_0000_0000;

/// A product of two magnitude-bounded factors is magnitude-bounded by the
/// product of the bounds.
pub proof fn lemma_mul_abs_bound(x: int, y: int, xb: int, yb: int)
    by (nonlinear_arith)
    requires
        -xb <= x <= xb,
        -yb <= y <= yb,
        0 <= xb,
        0 <= yb,
    ensures
        -(xb * yb) <= x * y <= xb * yb,
{
}

proof fn lemma_scale_by_level_shrinks(sample: int, level: int)
    by (nonlinear_arith)
    requires
        0 <= sample,
        is_level(level),
    ensures
        0 <= (sample * level) / (SCALE as int) <= sample,
{
}

/// Multiplies a sample by a level ratio and scales back down. The result
/// never grows in magnitude, and a full level leaves the sample unchanged.
pub fn mul_level(sample: i64, level: i64) -> (r: i64)
    requires
        -LEVEL_IN_MAX <= sample <= LEVEL_IN_MAX,
        is_level(level as int),
    ensures
        r == scale_by_level(sample as int, level as int),
        level == SCALE ==> r == sample,
        level == 0 ==> r == 0,
        sample >= 0 ==> 0 <= r <= sample,
        sample < 0 ==> sample <= r <= 0,
{
    let neg = sample < 0;
    let mag: u64 = if neg {
        (-sample) as u64
    } else {
        sample as u64
    };
    assert(mag * level <= LEVEL_IN_MAX * SCALE) by (nonlinear_arith)
        requires
            mag <= LEVEL_IN_MAX,
            0 <= level <= SCALE,
    ;
    let scaled: u64 = (mag * (level as u64)) / (SCALE as u64);
    proof {
        lemma_scale_by_level_shrinks(mag as int, level as int);
        if neg {
            assert((mag as int) * (level as int) == -((sample as int) * (level as int)))
                by (nonlinear_arith)
                requires
                    mag == -(sample as int),
            ;
        } else {
            assert(sample * level >= 0) by (nonlinear_arith)
                requires
                    sample >= 0,
                    level >= 0,
            ;
        }
        if level == SCALE {
            assert(mag * SCALE / (SCALE as int) == mag) by (nonlinear_arith);
        }
        if level == 0 {
            assert(mag * 0 == 0);
        }
    }
    if neg {
        -(scaled as i64)
    } else {
        scaled as i64
    }
}

/// A sample clamped into `[-bound, bound]`.
pub open spec fn clamp_sample(v: int, bound: int) -> int {
    if v < -bound {
        -bound
    } else if v > bound {
        bound
    } else {
        v
    }
}

/// Clamps a sample into `[-bound, bound]`.
pub fn clamp_sample_exec(v: i64, bound: i64) -> (r: i64)
    requires
        0 < bound,
    ensures
        r == clamp_sample(v as int, bound as int),
        -bound <= r <= bound,
{
    if v < -bound {
        -bound
    } else if v > bound {
        bound
    } else {
        v
    }
}

/// Integer magnitude.
pub open spec fn iabs(v: int) -> int {
    if v < 0 {
        -v
    } else {
        v
    }
}

/// Largest magnitude `move_toward_exec` accepts for its endpoints.
pub const TOWARD_MAX: i64 = 0x10_0000_0000;

/// One step of an exponential-style approach: move from `cur` toward
/// `target` by `rate/SCALE` of the remaining distance, but always by at
/// least one unit and never past the target. The mandatory unit step is what
/// makes every approach terminate in integer arithmetic.
pub open spec fn move_toward(cur: int, target: int, rate: int) -> int {
    if cur == target {
        cur
    } else if cur < target {
        let d = ((target - cur) * rate) / (SCALE as int);
        let d1 = if d < 1 {
            1
        } else {
            d
        };
        let d2 = if d1 > target - cur {
            target - cur
        } else {
            d1
        };
        cur + d2
    } else {
        let d = ((cur - target) * rate) / (SCALE as int);
        let d1 = if d < 1 {
            1
        } else {
            d
        };
        let d2 = if d1 > cur - target {
            cur - target
        } else {
            d1
        };
        cur - d2
    }
}

/// The approach step lands between the current value and the target, and
/// strictly closer to the target whenever they differ.
pub proof fn lemma_move_toward(cur: int, target: int, rate: int)
    requires
        0 <= rate <= SCALE,
    ensures
        cur <= target ==> cur <= move_toward(cur, target, rate) <= target,
        cur >= target ==> target <= move_toward(cur, target, rate) <= cur,
        cur < target ==> cur < move_toward(cur, target, rate),
        cur > target ==> move_toward(cur, target, rate) < cur,
{
    if cur < target {
        assert(((target - cur) * rate) / (SCALE as int) >= 0) by (nonlinear_arith)
            requires
                target - cur >= 0,
                rate >= 0,
        ;
    } else if cur > target {
        assert(((cur - target) * rate) / (SCALE as int) >= 0) by (nonlinear_arith)
            requires
                cur - target >= 0,
                rate >= 0,
        ;
    }
}

/// Executable approach step; mirrors `move_toward` exactly.
pub fn move_toward_exec(cur: i64, target: i64, rate: i64) -> (r: i64)
    requires
        -TOWARD_MAX <= cur <= TOWARD_MAX,
        -TOWARD_MAX <= target <= TOWARD_MAX,
        0 <= rate <= SCALE,
    ensures
        r == move_toward(cur as int, target as int, rate as int),
        cur <= target ==> cur <= r <= target,
        cur >= target ==> target <= r <= cur,
{
    proof {
        lemma_move_toward(cur as int, target as int, rate as int);
    }
    if cur == target {
        cur
    } else if cur < target {
        let diff = (target - cur) as u64;
        assert(diff * rate <= 0x20_0000_0000 * 0x1_0000) by (nonlinear_arith)
            requires
                diff <= 0x20_0000_0000,
                0 <= rate <= 0x1_0000,
        ;
        let d = (diff * (rate as u64)) / (SCALE as u64);
        let d1 = if d < 1 {
            1
        } else {
            d
        };
        let d2 = if d1 > diff {
            diff
        } else {
            d1
        };
        cur + (d2 as i64)
    } else {
        let diff = (cur - target) as u64;
        assert(diff * rate <= 0x20_0000_0000 * 0x1_0000) by (nonlinear_arith)
            requires
                diff <= 0x20_0000_0000,
                0 <= rate <= 0x1_0000,
        ;
        let d = (diff * (rate as u64)) / (SCALE as u64);
        let d1 = if d < 1 {
            1
        } else {
            d
        };
        let d2 = if d1 > diff {
            diff
        } else {
            d1
        };
        cur - (d2 as i64)
    }
}

} // verus!
