//! A clock-accurate driver for an FM sound-chip model.
//!
//! The chip itself is an opaque state machine reached through the
//! [`chip::ChipModel`] interface; everything around it — translating register
//! writes into chip-clock cycles, extracting audio samples at a fixed
//! cycles-per-sample cadence, scaling and clamping raw chip output into
//! 16-bit range, and assembling a fixed-duration waveform — is this crate's
//! verified logic.
#![verifier::loop_isolation(false)]

pub mod chip;
pub mod driver;
pub mod program;
pub mod render;
pub mod sample;

use vstd::prelude::*;

verus! {

/// Output sample rate, in frames per second.
pub const SAMPLE_RATE: u32 = 44100;

} // verus!
