//! The clock-accurate chip driver.
//!
//! [`Ym2151`] owns one chip model and bridges between discrete register
//! events and periodic sample extraction. It advances the chip one clock
//! cycle at a time and harvests one output sample every
//! [`CLOCKS_PER_SAMPLE`] cycles (zero-order hold: the raw pair produced by
//! the cycle that completes a period is scaled and kept, nothing is
//! interpolated). A cycle-phase accumulator carries partial periods across
//! calls, so no cycles are lost when `clock_cycles` is called with counts
//! that are not multiples of the ratio.

use vstd::prelude::*;

use crate::chip::ChipModel;
use crate::sample::SamplePair;
use crate::sample::scale_pair;
use crate::sample::scale_sample;

verus! {

/// Chip clock cycles consumed per extracted audio sample.
pub const CLOCKS_PER_SAMPLE: usize = 64;

/// Clock cycles run after each half of a register write (address latch,
/// data store) so the chip can absorb it. A finer-grained timing unit than
/// the audio-rate settle delay: these cycles produce no output samples.
pub const CLOCKS_BETWEEN_WRITES: usize = 10;

/// Clock cycles run once after reset, before any writes, to stabilize the
/// chip's internal oscillator state.
pub const WARMUP_CYCLES: usize = 100;

/// The chip state reached from `s` after `n` clock cycles.
pub open spec fn clock_n<C: ChipModel>(s: Seq<u8>, n: nat) -> Seq<u8>
    decreases n,
{
    if n == 0 {
        s
    } else {
        C::clock_st(clock_n::<C>(s, (n - 1) as nat))
    }
}

/// The output sample extracted by the clock cycle that starts from
/// `clock_n(s, i)`: that cycle's raw pair, scaled and clamped.
pub open spec fn sample_at<C: ChipModel>(s: Seq<u8>, i: nat) -> SamplePair {
    scale_pair(C::clock_out(clock_n::<C>(s, i)))
}

/// All samples extracted while clocking `n` cycles from state `s`, the
/// driver being `phase` cycles into its current sample period. One sample
/// falls every 64 cycles; for `phase < 64` exactly `(phase + n) / 64` of
/// them fall within the `n` cycles, the `k`-th at cycle `63 - phase + 64 k`.
pub open spec fn extracted<C: ChipModel>(s: Seq<u8>, phase: nat, n: nat) -> Seq<SamplePair> {
    Seq::new((phase + n) / 64, |k: int| sample_at::<C>(s, ((63 - phase) + 64 * k) as nat))
}

/// The chip state transition of one full register write: latch the address
/// on port 0, clock 10 settle cycles, store the data on port 1, clock 10
/// settle cycles.
pub open spec fn write_step<C: ChipModel>(s: Seq<u8>, address: u8, data: u8) -> Seq<u8> {
    clock_n::<C>(
        C::write_st(clock_n::<C>(C::write_st(s, 0, address), 10), 1, data),
        10,
    )
}

/// Clocking `a + b` cycles is clocking `a`, then `b`.
pub proof fn lemma_clock_n_add<C: ChipModel>(s: Seq<u8>, a: nat, b: nat)
    ensures
        clock_n::<C>(s, a + b) == clock_n::<C>(clock_n::<C>(s, a), b),
    decreases b,
{
    if b > 0 {
        lemma_clock_n_add::<C>(s, a, (b - 1) as nat);
    }
}

/// How one more cycle moves the sample-period arithmetic: the period
/// completes exactly when `x` is 63 cycles past a period boundary.
proof fn lemma_period_step(x: int)
    requires
        x >= 0,
    ensures
        x % 64 == 63 ==> (x + 1) / 64 == x / 64 + 1 && (x + 1) % 64 == 0,
        x % 64 != 63 ==> (x + 1) / 64 == x / 64 && (x + 1) % 64 == x % 64 + 1,
{
    vstd::arithmetic::div_mod::lemma_fundamental_div_mod(x, 64);
    if x % 64 == 63 {
        vstd::arithmetic::div_mod::lemma_fundamental_div_mod_converse(x + 1, 64, x / 64 + 1, 0);
    } else {
        vstd::arithmetic::div_mod::lemma_fundamental_div_mod_converse(
            x + 1,
            64,
            x / 64,
            x % 64 + 1,
        );
    }
}

/// Whole sample periods consume exactly 64 cycles each: starting `p < 64`
/// cycles into a period, `64 c` further cycles complete exactly `c` samples
/// and return to the same phase.
pub proof fn lemma_whole_periods(p: nat, c: nat)
    requires
        p < 64,
    ensures
        (p + 64 * c) / 64 == c,
        (p + 64 * c) % 64 == p,
{
    vstd::arithmetic::div_mod::lemma_fundamental_div_mod_converse(
        p + 64 * (c as int),
        64,
        c as int,
        p as int,
    );
}

/// The driver: one chip model plus the cycle-phase accumulator that keeps
/// chip cycles and output samples in lock-step.
pub struct Ym2151<C: ChipModel> {
    chip: C,
    phase: u8,
}

impl<C: ChipModel> Ym2151<C> {
    /// The owned chip's abstract state.
    pub closed spec fn chip_st(&self) -> Seq<u8> {
        self.chip.st()
    }

    /// How many cycles of the current sample period have already run.
    pub closed spec fn phase(&self) -> nat {
        self.phase as nat
    }

    /// The phase accumulator never reaches a full period.
    pub open spec fn wf(&self) -> bool {
        self.phase() < 64
    }

    /// Take ownership of a chip, reset it to its power-up state and run the
    /// warm-up cycles.
    pub fn new(chip: C) -> (d: Self)
        ensures
            d.wf(),
            d.phase() == 0,
            d.chip_st() == clock_n::<C>(C::reset_st(), WARMUP_CYCLES as nat),
    {
        let mut d = Ym2151 { chip, phase: 0 };
        d.reset();
        d
    }

    /// Put the chip back into its power-up state, run the warm-up cycles and
    /// clear the phase accumulator: the driver is as if freshly constructed.
    pub fn reset(&mut self)
        ensures
            final(self).wf(),
            final(self).phase() == 0,
            final(self).chip_st() == clock_n::<C>(C::reset_st(), WARMUP_CYCLES as nat),
    {
        self.chip.reset();
        self.phase = 0;
        self.clock_settle(WARMUP_CYCLES);
    }

    /// Run `n` settle cycles, discarding all raw output. The sample-period
    /// phase is untouched: settle cycles never count toward extraction.
    fn clock_settle(&mut self, n: usize)
        ensures
            final(self).chip_st() == clock_n::<C>(old(self).chip_st(), n as nat),
            final(self).phase() == old(self).phase(),
    {
        let mut i: usize = 0;
        while i < n
            invariant
                i <= n,
                self.chip.st() == clock_n::<C>(old(self).chip_st(), i as nat),
                self.phase == old(self).phase,
            decreases n - i,
        {
            let _ = self.chip.clock();
            i += 1;
        }
    }

    /// Issue one register write: latch `address` on port 0, run the settle
    /// cycles, store `data` on port 1, run the settle cycles. Produces no
    /// audio output and leaves the sample-period phase alone.
    pub fn write_register(&mut self, address: u8, data: u8)
        ensures
            final(self).chip_st() == write_step::<C>(old(self).chip_st(), address, data),
            final(self).phase() == old(self).phase(),
    {
        self.chip.write(0, address);
        self.clock_settle(CLOCKS_BETWEEN_WRITES);
        self.chip.write(1, data);
        self.clock_settle(CLOCKS_BETWEEN_WRITES);
    }

    /// Advance the chip by exactly `n` clock cycles, extracting one scaled,
    /// clamped sample each time a 64-cycle period completes. Partial periods
    /// carry over to the next call through the phase accumulator.
    pub fn clock_cycles(&mut self, n: usize) -> (out: Vec<SamplePair>)
        requires
            old(self).wf(),
        ensures
            final(self).wf(),
            out@ == extracted::<C>(old(self).chip_st(), old(self).phase(), n as nat),
            out@.len() == (old(self).phase() + n) / 64,
            final(self).chip_st() == clock_n::<C>(old(self).chip_st(), n as nat),
            final(self).phase() == (old(self).phase() + n) % 64,
    {
        let ghost s0 = old(self).chip_st();
        let ghost p0 = old(self).phase();
        let mut out: Vec<SamplePair> = Vec::new();
        let mut i: usize = 0;
        while i < n
            invariant
                i <= n,
                self.chip.st() == clock_n::<C>(s0, i as nat),
                self.phase < 64,
                self.phase as nat == (p0 + i) % 64,
                out@ == extracted::<C>(s0, p0, i as nat),
                out@.len() == (p0 + i) / 64,
            decreases n - i,
        {
            let (l, r) = self.chip.clock();
            proof {
                lemma_period_step(p0 as int + i as int);
            }
            self.phase = self.phase + 1;
            if self.phase == 64 {
                self.phase = 0;
                out.push(SamplePair { left: scale_sample(l), right: scale_sample(r) });
                proof {
                    assert(out@ =~= extracted::<C>(s0, p0, (i + 1) as nat));
                }
            } else {
                proof {
                    assert(out@ =~= extracted::<C>(s0, p0, (i + 1) as nat));
                }
            }
            i += 1;
        }
        out
    }

    /// Advance the chip by one whole sample period and return the one sample
    /// it yields.
    pub fn generate_sample(&mut self) -> (s: SamplePair)
        requires
            old(self).wf(),
        ensures
            final(self).wf(),
            s == sample_at::<C>(old(self).chip_st(), (63 - old(self).phase()) as nat),
            final(self).chip_st() == clock_n::<C>(old(self).chip_st(), 64),
            final(self).phase() == old(self).phase(),
    {
        proof {
            lemma_whole_periods(old(self).phase(), 1);
        }
        let out = self.clock_cycles(CLOCKS_PER_SAMPLE);
        out[0]
    }

    /// Advance the chip by exactly `count` whole sample periods and return
    /// exactly `count` samples, one per period.
    pub fn generate_samples(&mut self, count: usize) -> (out: Vec<SamplePair>)
        requires
            old(self).wf(),
        ensures
            final(self).wf(),
            out@.len() == count,
            out@ == extracted::<C>(old(self).chip_st(), old(self).phase(), (64 * count) as nat),
            final(self).chip_st() == clock_n::<C>(old(self).chip_st(), (64 * count) as nat),
            final(self).phase() == old(self).phase(),
    {
        let ghost s0 = old(self).chip_st();
        let ghost p0 = old(self).phase();
        let mut out: Vec<SamplePair> = Vec::new();
        let mut i: usize = 0;
        while i < count
            invariant
                i <= count,
                self.wf(),
                self.chip_st() == clock_n::<C>(s0, (64 * i) as nat),
                self.phase() == p0,
                out@ == extracted::<C>(s0, p0, (64 * i) as nat),
                out@.len() == i,
            decreases count - i,
        {
            let s = self.generate_sample();
            out.push(s);
            proof {
                lemma_generate_step::<C>(s0, p0, i as nat);
            }
            i += 1;
        }
        out
    }
}

/// One more whole sample period extends the extracted sequence by exactly
/// the sample falling at the period's end.
proof fn lemma_generate_step<C: ChipModel>(s0: Seq<u8>, p0: nat, i: nat)
    requires
        p0 < 64,
    ensures
        clock_n::<C>(clock_n::<C>(s0, 64 * i), 64) == clock_n::<C>(s0, 64 * (i + 1)),
        sample_at::<C>(clock_n::<C>(s0, 64 * i), (63 - p0) as nat) == sample_at::<C>(
            s0,
            ((63 - p0) + 64 * i) as nat,
        ),
        extracted::<C>(s0, p0, 64 * (i + 1)) == extracted::<C>(s0, p0, 64 * i).push(
            sample_at::<C>(s0, ((63 - p0) + 64 * i) as nat),
        ),
{
    lemma_clock_n_add::<C>(s0, 64 * i, 64);
    lemma_clock_n_add::<C>(s0, 64 * i, (63 - p0) as nat);
    lemma_whole_periods(p0, i);
    lemma_whole_periods(p0, i + 1);
    assert(extracted::<C>(s0, p0, 64 * (i + 1)) =~= extracted::<C>(s0, p0, 64 * i).push(
        sample_at::<C>(s0, ((63 - p0) + 64 * i) as nat),
    ));
}

/// The driver is deterministic: the samples extracted and the state reached
/// by `clock_cycles` are functions of the starting chip state, the phase
/// accumulator and the cycle count alone — two runs from equal states are
/// bit-for-bit identical.
pub proof fn lemma_clock_cycles_deterministic<C: ChipModel>(
    s1: Seq<u8>,
    p1: nat,
    s2: Seq<u8>,
    p2: nat,
    n: nat,
)
    requires
        s1 == s2,
        p1 == p2,
    ensures
        extracted::<C>(s1, p1, n) == extracted::<C>(s2, p2, n),
        clock_n::<C>(s1, n) == clock_n::<C>(s2, n),
{
}

} // verus!
