//! The render pipeline: one complete fixed-duration render.
//!
//! A fresh driver is reset and warmed up, the voice program is played (the
//! samples generated while its writes settle are the waveform's opening),
//! the chip is then clocked on until the target length is reached, and the
//! buffer is cut to exactly the target — truncation only, the fill step
//! already guarantees sufficiency.

use vstd::prelude::*;

use crate::SAMPLE_RATE;
use crate::chip::ChipModel;
use crate::driver::WARMUP_CYCLES;
use crate::driver::Ym2151;
use crate::driver::clock_n;
use crate::driver::extracted;
use crate::program::program_samples;
use crate::program::program_st;
use crate::program::setup_440hz_tone;
use crate::program::voice_program_spec;
use crate::sample::SamplePair;

verus! {

/// The waveform of one whole render of `duration_seconds` seconds: the
/// samples collected while the voice program settles, extended by clocking
/// the configured chip until the target frame count is covered, cut to
/// exactly `SAMPLE_RATE * duration_seconds` frames.
pub open spec fn rendered_wave<C: ChipModel>(duration_seconds: u32) -> Seq<SamplePair> {
    let target = SAMPLE_RATE * duration_seconds;
    let warmed = clock_n::<C>(C::reset_st(), WARMUP_CYCLES as nat);
    let setup = program_samples::<C>(warmed, 0, voice_program_spec());
    let configured = program_st::<C>(warmed, voice_program_spec());
    let fill = if setup.len() < target {
        extracted::<C>(configured, 0, (64 * (target - setup.len())) as nat)
    } else {
        Seq::empty()
    };
    (setup + fill).take(target as int)
}

/// Render `duration_seconds` seconds of the 440 Hz tone on a fresh chip:
/// exactly `SAMPLE_RATE * duration_seconds` frames, the waveform being a
/// function of the chip model alone.
pub fn render_tone<C: ChipModel>(chip: C, duration_seconds: u32) -> (buf: Vec<SamplePair>)
    requires
        SAMPLE_RATE * duration_seconds <= usize::MAX,
    ensures
        buf@.len() == SAMPLE_RATE * duration_seconds,
        buf@ == rendered_wave::<C>(duration_seconds),
{
    let mut ym = Ym2151::new(chip);
    let mut samples: Vec<SamplePair> = Vec::new();
    setup_440hz_tone(&mut ym, &mut samples);
    proof {
        assert(samples@ =~= program_samples::<C>(
            clock_n::<C>(C::reset_st(), WARMUP_CYCLES as nat),
            0,
            voice_program_spec(),
        ));
    }
    let target: usize = (SAMPLE_RATE as usize) * (duration_seconds as usize);
    if samples.len() < target {
        let shortfall = target - samples.len();
        let mut fill = ym.generate_samples(shortfall);
        samples.append(&mut fill);
    }
    samples.truncate(target);
    proof {
        assert(samples@ =~= rendered_wave::<C>(duration_seconds));
    }
    samples
}

} // verus!
