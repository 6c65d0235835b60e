//! The boundary to the emulated sound chip.
//!
//! The chip is a black box: an opaque blob of internal state advanced one
//! clock cycle at a time. This module pins down what the rest of the crate
//! may assume of it — nothing but that `reset`, `write` and `clock` are
//! functions of the state they start from.

use vstd::prelude::*;

verus! {

/// One emulated sound chip.
///
/// The chip's state is modelled abstractly as a byte sequence ([`st`]); each
/// operation is a pure function of that state, so a chip run is determined
/// entirely by its starting state and the operations applied. `write` latches
/// an address (port 0) or stores data into the latched register (port 1); no
/// read-back path exists, so that a register holds the last value written to
/// it is an assumption on the model, not something this crate can observe.
///
/// [`st`]: ChipModel::st
pub trait ChipModel: Sized {
    /// The chip's internal state, abstractly. A model that leaves the state
    /// specifications at their defaults describes a chip with no observable
    /// state at all: writes absorbed, clocking stateless and silent.
    open spec fn st(&self) -> Seq<u8> {
        Seq::empty()
    }

    /// The state established by `reset`.
    open spec fn reset_st() -> Seq<u8> {
        Seq::empty()
    }

    /// The state transition of one `write`.
    open spec fn write_st(s: Seq<u8>, port: u8, value: u8) -> Seq<u8> {
        s
    }

    /// The state transition of one `clock`.
    open spec fn clock_st(s: Seq<u8>) -> Seq<u8> {
        s
    }

    /// The raw stereo output of one `clock`, as a function of the state the
    /// cycle starts from.
    open spec fn clock_out(s: Seq<u8>) -> (i32, i32) {
        (0, 0)
    }

    /// Put the chip into its defined power-up state.
    fn reset(&mut self)
        ensures
            final(self).st() == Self::reset_st(),
    ;

    /// Write `value` to the chip: port 0 latches a register address, port 1
    /// stores data into the latched register. The chip absorbs any
    /// combination; no validation is performed.
    fn write(&mut self, port: u8, value: u8)
        ensures
            final(self).st() == Self::write_st(old(self).st(), port, value),
    ;

    /// Advance the chip by exactly one clock cycle, producing one raw stereo
    /// sample pair. Raw output is wider than 16-bit range.
    fn clock(&mut self) -> (out: (i32, i32))
        ensures
            final(self).st() == Self::clock_st(old(self).st()),
            out == Self::clock_out(old(self).st()),
    ;
}

/// A chip model that is always silent: writes are absorbed, clocking never
/// changes state, and every cycle outputs zero — the trait's default state
/// specifications, word for word. It exercises the driver's timing and
/// bookkeeping without any synthesis behind it.
pub struct SilentChip {
}

impl SilentChip {
    /// A fresh silent chip.
    pub fn new() -> (c: SilentChip)
        ensures
            c.st() == Seq::<u8>::empty(),
    {
        SilentChip {  }
    }
}

impl ChipModel for SilentChip {
    fn reset(&mut self) {
    }

    fn write(&mut self, port: u8, value: u8) {
    }

    fn clock(&mut self) -> (out: (i32, i32)) {
        (0, 0)
    }
}

} // verus!
