//! Note-number arithmetic.

use vstd::prelude::*;

verus! {

/// Lowest accepted tuning reference, in millihertz.
pub const MIN_TUNING_MILLIHZ: u64 = 415_000;

/// Highest accepted tuning reference, in millihertz.
pub const MAX_TUNING_MILLIHZ: u64 = 465_000;

/// Equal-temperament semitone ratios `2^(k/12)` in `SCALE` units, for `k`
/// in `[0, 12)`.
pub open spec fn semitone_ratio(k: int) -> int {
    if k <= 0 {
        65536
    } else if k == 1 {
        69433
    } else if k == 2 {
        73562
    } else if k == 3 {
        77936
    } else if k == 4 {
        82570
    } else if k == 5 {
        87480
    } else if k == 6 {
        92682
    } else if k == 7 {
        98193
    } else if k == 8 {
        104032
    } else if k == 9 {
        110218
    } else if k == 10 {
        116772
    } else {
        123715
    }
}

/// Scales a value by `2^(oct - 12)` for an octave index in `[6, 16]`: whole
/// octaves are exact powers of two.
pub open spec fn apply_octave(v: int, oct: int) -> int {
    if oct >= 12 {
        if oct >= 16 {
            v * 16
        } else if oct == 15 {
            v * 8
        } else if oct == 14 {
            v * 4
        } else if oct == 13 {
            v * 2
        } else {
            v
        }
    } else {
        if oct <= 6 {
            v / 64
        } else if oct == 7 {
            v / 32
        } else if oct == 8 {
            v / 16
        } else if oct == 9 {
            v / 8
        } else if oct == 10 {
            v / 4
        } else {
            v / 2
        }
    }
}

/// The tuning reference actually used for a requested one.
pub open spec fn clamp_tuning(t: int) -> int {
    if t < MIN_TUNING_MILLIHZ {
        MIN_TUNING_MILLIHZ as int
    } else if t > MAX_TUNING_MILLIHZ {
        MAX_TUNING_MILLIHZ as int
    } else {
        t
    }
}

/// The note number actually used: MIDI notes run 0 to 127.
pub open spec fn clamp_note(note: int) -> int {
    if note > 127 {
        127
    } else {
        note
    }
}

/// The frequency of a MIDI note in millihertz against a tuning reference:
/// `tuning * 2^((note - 69) / 12)`, evaluated as a semitone ratio and a
/// whole-octave power of two. `note + 75` is `note - 69` offset into
/// nonnegative range; its octave index lies in `[6, 16]`, with 12 standing
/// for the reference octave.
pub open spec fn midi_freq(note: int, tuning_millihz: int) -> int {
    let idx = clamp_note(note) + 75;
    let oct = idx / 12;
    let sem = idx % 12;
    let base = (clamp_tuning(tuning_millihz) * semitone_ratio(sem)) / 65536;
    apply_octave(base, oct)
}

/// Converts a MIDI note number to a frequency in millihertz, against a
/// tuning reference for note 69 (clamped into `[415, 465]` Hz).
pub fn midi_note_to_freq(note: u8, tuning_millihz: u64) -> (freq: u64)
    ensures
        freq == midi_freq(note as int, tuning_millihz as int),
        freq <= 16_000_000,
{
    let n: u64 = if note > 127 {
        127
    } else {
        note as u64
    };
    let tuning: u64 = if tuning_millihz < MIN_TUNING_MILLIHZ {
        MIN_TUNING_MILLIHZ
    } else if tuning_millihz > MAX_TUNING_MILLIHZ {
        MAX_TUNING_MILLIHZ
    } else {
        tuning_millihz
    };
    let idx = n + 75;
    let oct = idx / 12;
    let sem = idx % 12;
    let ratio: u64 = if sem == 0 {
        65536
    } else if sem == 1 {
        69433
    } else if sem == 2 {
        73562
    } else if sem == 3 {
        77936
    } else if sem == 4 {
        82570
    } else if sem == 5 {
        87480
    } else if sem == 6 {
        92682
    } else if sem == 7 {
        98193
    } else if sem == 8 {
        104032
    } else if sem == 9 {
        110218
    } else if sem == 10 {
        116772
    } else {
        123715
    };
    let base = (tuning * ratio) / 65536;
    if oct >= 12 {
        if oct >= 16 {
            base * 16
        } else if oct == 15 {
            base * 8
        } else if oct == 14 {
            base * 4
        } else if oct == 13 {
            base * 2
        } else {
            base
        }
    } else {
        if oct <= 6 {
            base / 64
        } else if oct == 7 {
            base / 32
        } else if oct == 8 {
            base / 16
        } else if oct == 9 {
            base / 8
        } else if oct == 10 {
            base / 4
        } else {
            base / 2
        }
    }
}

} // verus!
