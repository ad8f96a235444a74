//! Core of a polyphonic amplitude-modulation synthesizer.
//!
//! Every signal value in this crate is a fixed-point integer: amplitudes,
//! envelope levels, modulation depths and resonance amounts are scaled by
//! `fixed::SCALE`, oscillator phase lives in binary fractions of a turn, and
//! frequencies are given in millihertz. The host-facing layer converts these
//! plain integers from and to whatever sample format it needs; the engine
//! itself never touches floating point, so every per-sample operation is a
//! total function with a proved contract.

pub mod am;
pub mod engine;
pub mod envelope;
pub mod filter;
pub mod fixed;
pub mod osc;
pub mod params;
pub mod staged;
pub mod util;
pub mod voice;
