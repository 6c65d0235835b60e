//! The voice program: the declarative register-write table that configures
//! one synthesis voice, and the driver operation that plays a table through
//! the chip.
//!
//! Register bit-packing is encoded here and nowhere else: the driver and the
//! render pipeline never interpret register contents.

use vstd::prelude::*;

use crate::chip::ChipModel;
use crate::driver::Ym2151;
use crate::driver::clock_n;
use crate::driver::extracted;
use crate::driver::write_step;
use crate::sample::SamplePair;

verus! {

/// Output samples generated after each voice-program write, letting the
/// chip settle before the next write: 10 milliseconds at 44100 Hz.
pub const SETTLE_SAMPLES: usize = 441;

/// One register write of a voice program: an 8-bit register address, the
/// 8-bit value to store there, and how many output samples to generate
/// afterwards so the write can settle.
#[derive(Clone, Copy, Debug, PartialEq, Eq, Structural)]
pub struct RegisterWrite {
    pub address: u8,
    pub data: u8,
    pub settle_samples: usize,
}

/// The chip state reached by playing the entries in order: each entry is one
/// register write followed by its settle time's worth of sample periods.
pub open spec fn program_st<C: ChipModel>(s: Seq<u8>, entries: Seq<RegisterWrite>) -> Seq<u8>
    decreases entries.len(),
{
    if entries.len() == 0 {
        s
    } else {
        program_st::<C>(
            clock_n::<C>(
                write_step::<C>(s, entries[0].address, entries[0].data),
                (64 * entries[0].settle_samples) as nat,
            ),
            entries.skip(1),
        )
    }
}

/// The samples collected while playing the entries in order from state `s`,
/// the driver being `phase` cycles into its sample period. Register writes
/// produce no samples themselves, so the phase is the same at every entry.
pub open spec fn program_samples<C: ChipModel>(
    s: Seq<u8>,
    phase: nat,
    entries: Seq<RegisterWrite>,
) -> Seq<SamplePair>
    decreases entries.len(),
{
    if entries.len() == 0 {
        Seq::empty()
    } else {
        let written = write_step::<C>(s, entries[0].address, entries[0].data);
        extracted::<C>(written, phase, (64 * entries[0].settle_samples) as nat)
            + program_samples::<C>(
            clock_n::<C>(written, (64 * entries[0].settle_samples) as nat),
            phase,
            entries.skip(1),
        )
    }
}

/// The total settle time of a program, in output samples: how many samples
/// playing it generates.
pub open spec fn total_settle(entries: Seq<RegisterWrite>) -> nat
    decreases entries.len(),
{
    if entries.len() == 0 {
        0
    } else {
        (entries[0].settle_samples + total_settle(entries.skip(1))) as nat
    }
}

/// Playing a program generates exactly its total settle time in samples.
pub proof fn lemma_program_samples_len<C: ChipModel>(
    s: Seq<u8>,
    phase: nat,
    entries: Seq<RegisterWrite>,
)
    requires
        phase < 64,
    ensures
        program_samples::<C>(s, phase, entries).len() == total_settle(entries),
    decreases entries.len(),
{
    if entries.len() > 0 {
        let written = write_step::<C>(s, entries[0].address, entries[0].data);
        crate::driver::lemma_whole_periods(phase, entries[0].settle_samples as nat);
        lemma_program_samples_len::<C>(
            clock_n::<C>(written, (64 * entries[0].settle_samples) as nat),
            phase,
            entries.skip(1),
        );
    }
}

/// The register-write table that configures channel 0 as a single-operator
/// 440 Hz voice and triggers key-on, in write order: first every channel is
/// keyed off (no settle time), then the channel and operator parameters are
/// set and the key-on is issued, each with a 10 ms settle delay.
///
/// Addresses follow the chip's register map: 0x08 key-on/off; per-channel
/// bases 0x20 (output/feedback/algorithm), 0x28 (key code), 0x30 (key
/// fraction), 0x38 (modulation sensitivity); per-operator bases 0x40
/// (detune/multiplier), 0x60 (total level), 0x80 (key scale/attack), 0xA0
/// (first decay), 0xC0 (second decay), 0xE0 (sustain level/release), the
/// operator's slot offset added to the base.
pub open spec fn voice_program_spec() -> Seq<RegisterWrite> {
    seq![
        // key off on every channel
        RegisterWrite { address: 0x08, data: 0x00, settle_samples: 0 },
        RegisterWrite { address: 0x08, data: 0x01, settle_samples: 0 },
        RegisterWrite { address: 0x08, data: 0x02, settle_samples: 0 },
        RegisterWrite { address: 0x08, data: 0x03, settle_samples: 0 },
        RegisterWrite { address: 0x08, data: 0x04, settle_samples: 0 },
        RegisterWrite { address: 0x08, data: 0x05, settle_samples: 0 },
        RegisterWrite { address: 0x08, data: 0x06, settle_samples: 0 },
        RegisterWrite { address: 0x08, data: 0x07, settle_samples: 0 },
        // channel 0: output to both sides, no feedback, algorithm 7
        RegisterWrite { address: 0x20, data: 0xC7, settle_samples: SETTLE_SAMPLES },
        // key code for A4 (440 Hz)
        RegisterWrite { address: 0x28, data: 0x4A, settle_samples: SETTLE_SAMPLES },
        // key fraction 0
        RegisterWrite { address: 0x30, data: 0x00, settle_samples: SETTLE_SAMPLES },
        // no phase/amplitude modulation sensitivity
        RegisterWrite { address: 0x38, data: 0x00, settle_samples: SETTLE_SAMPLES },
        // operator 1 (slot 0): multiplier 1, full level (the carrier),
        // attack 31, first decay 5, second decay 5, sustain 15 / release 7
        RegisterWrite { address: 0x40, data: 0x01, settle_samples: SETTLE_SAMPLES },
        RegisterWrite { address: 0x60, data: 0x00, settle_samples: SETTLE_SAMPLES },
        RegisterWrite { address: 0x80, data: 0x1F, settle_samples: SETTLE_SAMPLES },
        RegisterWrite { address: 0xA0, data: 0x05, settle_samples: SETTLE_SAMPLES },
        RegisterWrite { address: 0xC0, data: 0x05, settle_samples: SETTLE_SAMPLES },
        RegisterWrite { address: 0xE0, data: 0xF7, settle_samples: SETTLE_SAMPLES },
        // operator 2 (slot 8): as operator 1 but silent (level 0x7F)
        RegisterWrite { address: 0x48, data: 0x01, settle_samples: SETTLE_SAMPLES },
        RegisterWrite { address: 0x68, data: 0x7F, settle_samples: SETTLE_SAMPLES },
        RegisterWrite { address: 0x88, data: 0x1F, settle_samples: SETTLE_SAMPLES },
        RegisterWrite { address: 0xA8, data: 0x05, settle_samples: SETTLE_SAMPLES },
        RegisterWrite { address: 0xC8, data: 0x05, settle_samples: SETTLE_SAMPLES },
        RegisterWrite { address: 0xE8, data: 0xF7, settle_samples: SETTLE_SAMPLES },
        // operator 3 (slot 16): silent
        RegisterWrite { address: 0x50, data: 0x01, settle_samples: SETTLE_SAMPLES },
        RegisterWrite { address: 0x70, data: 0x7F, settle_samples: SETTLE_SAMPLES },
        RegisterWrite { address: 0x90, data: 0x1F, settle_samples: SETTLE_SAMPLES },
        RegisterWrite { address: 0xB0, data: 0x05, settle_samples: SETTLE_SAMPLES },
        RegisterWrite { address: 0xD0, data: 0x05, settle_samples: SETTLE_SAMPLES },
        RegisterWrite { address: 0xF0, data: 0xF7, settle_samples: SETTLE_SAMPLES },
        // operator 4 (slot 24): silent
        RegisterWrite { address: 0x58, data: 0x01, settle_samples: SETTLE_SAMPLES },
        RegisterWrite { address: 0x78, data: 0x7F, settle_samples: SETTLE_SAMPLES },
        RegisterWrite { address: 0x98, data: 0x1F, settle_samples: SETTLE_SAMPLES },
        RegisterWrite { address: 0xB8, data: 0x05, settle_samples: SETTLE_SAMPLES },
        RegisterWrite { address: 0xD8, data: 0x05, settle_samples: SETTLE_SAMPLES },
        RegisterWrite { address: 0xF8, data: 0xF7, settle_samples: SETTLE_SAMPLES },
        // key on: all four operators of channel 0
        RegisterWrite { address: 0x08, data: 0x78, settle_samples: SETTLE_SAMPLES },
    ]
}

/// Build the 440 Hz voice program, entry for entry as
/// [`voice_program_spec`] lists it.
pub fn voice_program() -> (entries: Vec<RegisterWrite>)
    ensures
        entries@ == voice_program_spec(),
{
    let mut entries: Vec<RegisterWrite> = Vec::new();
    entries.push(RegisterWrite { address: 0x08, data: 0x00, settle_samples: 0 });
    entries.push(RegisterWrite { address: 0x08, data: 0x01, settle_samples: 0 });
    entries.push(RegisterWrite { address: 0x08, data: 0x02, settle_samples: 0 });
    entries.push(RegisterWrite { address: 0x08, data: 0x03, settle_samples: 0 });
    entries.push(RegisterWrite { address: 0x08, data: 0x04, settle_samples: 0 });
    entries.push(RegisterWrite { address: 0x08, data: 0x05, settle_samples: 0 });
    entries.push(RegisterWrite { address: 0x08, data: 0x06, settle_samples: 0 });
    entries.push(RegisterWrite { address: 0x08, data: 0x07, settle_samples: 0 });
    push_settled(&mut entries, 0x20, 0xC7);
    push_settled(&mut entries, 0x28, 0x4A);
    push_settled(&mut entries, 0x30, 0x00);
    push_settled(&mut entries, 0x38, 0x00);
    push_settled(&mut entries, 0x40, 0x01);
    push_settled(&mut entries, 0x60, 0x00);
    push_settled(&mut entries, 0x80, 0x1F);
    push_settled(&mut entries, 0xA0, 0x05);
    push_settled(&mut entries, 0xC0, 0x05);
    push_settled(&mut entries, 0xE0, 0xF7);
    push_settled(&mut entries, 0x48, 0x01);
    push_settled(&mut entries, 0x68, 0x7F);
    push_settled(&mut entries, 0x88, 0x1F);
    push_settled(&mut entries, 0xA8, 0x05);
    push_settled(&mut entries, 0xC8, 0x05);
    push_settled(&mut entries, 0xE8, 0xF7);
    push_settled(&mut entries, 0x50, 0x01);
    push_settled(&mut entries, 0x70, 0x7F);
    push_settled(&mut entries, 0x90, 0x1F);
    push_settled(&mut entries, 0xB0, 0x05);
    push_settled(&mut entries, 0xD0, 0x05);
    push_settled(&mut entries, 0xF0, 0xF7);
    push_settled(&mut entries, 0x58, 0x01);
    push_settled(&mut entries, 0x78, 0x7F);
    push_settled(&mut entries, 0x98, 0x1F);
    push_settled(&mut entries, 0xB8, 0x05);
    push_settled(&mut entries, 0xD8, 0x05);
    push_settled(&mut entries, 0xF8, 0xF7);
    push_settled(&mut entries, 0x08, 0x78);
    proof {
        assert(entries@ =~= voice_program_spec());
    }
    entries
}

/// Append one voice-program entry with the standard settle delay.
fn push_settled(entries: &mut Vec<RegisterWrite>, address: u8, data: u8)
    ensures
        final(entries)@ == old(entries)@.push(
            RegisterWrite { address, data, settle_samples: SETTLE_SAMPLES },
        ),
{
    entries.push(RegisterWrite { address, data, settle_samples: SETTLE_SAMPLES });
}

/// Configure a 440 Hz tone on channel 0 and trigger key-on, by playing the
/// whole voice program; the samples generated while each write settles are
/// appended to `samples`.
pub fn setup_440hz_tone<C: ChipModel>(ym: &mut Ym2151<C>, samples: &mut Vec<SamplePair>)
    requires
        old(ym).wf(),
    ensures
        final(ym).wf(),
        final(ym).phase() == old(ym).phase(),
        final(ym).chip_st() == program_st::<C>(old(ym).chip_st(), voice_program_spec()),
        final(samples)@ == old(samples)@ + program_samples::<C>(
            old(ym).chip_st(),
            old(ym).phase(),
            voice_program_spec(),
        ),
        final(samples)@.len() == old(samples)@.len() + total_settle(voice_program_spec()),
{
    let entries = voice_program();
    ym.run_program(&entries, samples);
}

impl<C: ChipModel> Ym2151<C> {
    /// Issue one register write and then generate [`SETTLE_SAMPLES`] output
    /// samples, appending them to `samples`, so the write settles before
    /// anything else reaches the chip.
    pub fn write_with_delay(&mut self, address: u8, data: u8, samples: &mut Vec<SamplePair>)
        requires
            old(self).wf(),
        ensures
            final(self).wf(),
            final(self).phase() == old(self).phase(),
            final(self).chip_st() == clock_n::<C>(
                write_step::<C>(old(self).chip_st(), address, data),
                (64 * SETTLE_SAMPLES) as nat,
            ),
            final(samples)@ == old(samples)@ + extracted::<C>(
                write_step::<C>(old(self).chip_st(), address, data),
                old(self).phase(),
                (64 * SETTLE_SAMPLES) as nat,
            ),
            final(samples)@.len() == old(samples)@.len() + SETTLE_SAMPLES,
    {
        self.write_register(address, data);
        let mut settled = self.generate_samples(SETTLE_SAMPLES);
        samples.append(&mut settled);
    }

    /// Play a whole program: for each entry in order, write its register and
    /// generate its settle time's worth of samples, appending everything to
    /// `samples`.
    pub fn run_program(&mut self, entries: &Vec<RegisterWrite>, samples: &mut Vec<SamplePair>)
        requires
            old(self).wf(),
        ensures
            final(self).wf(),
            final(self).phase() == old(self).phase(),
            final(self).chip_st() == program_st::<C>(old(self).chip_st(), entries@),
            final(samples)@ == old(samples)@ + program_samples::<C>(
                old(self).chip_st(),
                old(self).phase(),
                entries@,
            ),
            final(samples)@.len() == old(samples)@.len() + total_settle(entries@),
    {
        let ghost s0 = old(self).chip_st();
        let ghost p0 = old(self).phase();
        proof {
            lemma_program_samples_len::<C>(s0, p0, entries@);
            assert(entries@.skip(0) =~= entries@);
        }
        let mut idx: usize = 0;
        while idx < entries.len()
            invariant
                idx <= entries@.len(),
                self.wf(),
                self.phase() == p0,
                program_st::<C>(s0, entries@) == program_st::<C>(
                    self.chip_st(),
                    entries@.skip(idx as int),
                ),
                old(samples)@ + program_samples::<C>(s0, p0, entries@) == samples@
                    + program_samples::<C>(self.chip_st(), p0, entries@.skip(idx as int)),
            decreases entries@.len() - idx,
        {
            let ghost suffix = entries@.skip(idx as int);
            let e = entries[idx];
            self.write_register(e.address, e.data);
            let mut chunk = self.generate_samples(e.settle_samples);
            samples.append(&mut chunk);
            proof {
                assert(suffix[0] == entries@[idx as int]);
                assert(suffix.skip(1) =~= entries@.skip(idx as int + 1));
            }
            idx += 1;
        }
        proof {
            assert(entries@.skip(entries@.len() as int) =~= Seq::<RegisterWrite>::empty());
        }
    }
}

} // verus!
