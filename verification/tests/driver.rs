use ym2151::chip::SilentChip;
use ym2151::driver::Ym2151;
use ym2151::program::voice_program;
use ym2151::program::RegisterWrite;
use ym2151::program::SETTLE_SAMPLES;
use ym2151::sample::scale_sample;
use ym2151::sample::SamplePair;

fn silent_driver() -> Ym2151<SilentChip> {
    Ym2151::new(SilentChip::new())
}

#[test]
fn scale_zero_and_rounding() {
    assert_eq!(scale_sample(0), 0);
    assert_eq!(scale_sample(31), 0);
    assert_eq!(scale_sample(32), 1);
    assert_eq!(scale_sample(63), 1);
    assert_eq!(scale_sample(64), 2);
    // the shift rounds toward negative infinity
    assert_eq!(scale_sample(-1), -1);
    assert_eq!(scale_sample(-32), -1);
    assert_eq!(scale_sample(-33), -2);
}

#[test]
fn scale_clamps_instead_of_wrapping() {
    assert_eq!(scale_sample(32 * 32767), 32767);
    assert_eq!(scale_sample(32 * 32767 + 31), 32767);
    assert_eq!(scale_sample(32 * 32768), 32767);
    assert_eq!(scale_sample(i32::MAX), 32767);
    assert_eq!(scale_sample(-32 * 32768), -32768);
    assert_eq!(scale_sample(-32 * 32768 - 1), -32768);
    assert_eq!(scale_sample(i32::MIN), -32768);
}

#[test]
fn generate_samples_returns_exact_count() {
    let mut ym = silent_driver();
    assert_eq!(ym.generate_samples(0).len(), 0);
    assert_eq!(ym.generate_samples(1).len(), 1);
    assert_eq!(ym.generate_samples(10).len(), 10);
    assert_eq!(ym.generate_samples(441).len(), 441);
}

#[test]
fn samples_are_in_sixteen_bit_range() {
    let mut ym = silent_driver();
    for pair in ym.generate_samples(100) {
        assert!(-32768 <= i32::from(pair.left) && i32::from(pair.left) <= 32767);
        assert!(-32768 <= i32::from(pair.right) && i32::from(pair.right) <= 32767);
    }
}

#[test]
fn clock_cycles_carries_partial_periods() {
    let mut ym = silent_driver();
    // 32 cycles: not yet a full 64-cycle period
    assert_eq!(ym.clock_cycles(32).len(), 0);
    // 32 more: the carried half-period completes
    assert_eq!(ym.clock_cycles(32).len(), 1);
    // 130 cycles complete two periods and carry 2 cycles
    assert_eq!(ym.clock_cycles(130).len(), 2);
    // 62 more cycles complete the carried period exactly
    assert_eq!(ym.clock_cycles(62).len(), 1);
}

#[test]
fn reset_clears_the_phase_accumulator() {
    let mut ym = silent_driver();
    assert_eq!(ym.clock_cycles(32).len(), 0);
    ym.reset();
    // without the reset, the 32 carried cycles would complete a period here
    assert_eq!(ym.clock_cycles(32).len(), 0);
    assert_eq!(ym.clock_cycles(32).len(), 1);
}

#[test]
fn idle_reset_chip_outputs_silence() {
    // a reset chip clocked for one sample period with no writes issued
    let mut ym = silent_driver();
    let pair = ym.generate_sample();
    assert_eq!(pair, SamplePair { left: 0, right: 0 });
}

#[test]
fn repeated_identical_write_adds_no_audible_change() {
    let mut once = silent_driver();
    once.write_register(0x28, 0x4A);
    let after_once = once.generate_samples(20);

    let mut twice = silent_driver();
    twice.write_register(0x28, 0x4A);
    twice.write_register(0x28, 0x4A);
    let after_twice = twice.generate_samples(20);

    assert_eq!(after_once, after_twice);
}

#[test]
fn equal_runs_are_bit_for_bit_identical() {
    let mut a = silent_driver();
    let mut b = silent_driver();
    a.write_register(0x20, 0xC7);
    b.write_register(0x20, 0xC7);
    let out_a = a.clock_cycles(1000);
    let out_b = b.clock_cycles(1000);
    assert_eq!(out_a, out_b);
    assert_eq!(out_a.len(), 1000 / 64);
}

#[test]
fn write_with_delay_appends_settle_samples() {
    let mut ym = silent_driver();
    let mut samples: Vec<SamplePair> = Vec::new();
    ym.write_with_delay(0x28, 0x4A, &mut samples);
    assert_eq!(samples.len(), SETTLE_SAMPLES);
    ym.write_with_delay(0x30, 0x00, &mut samples);
    assert_eq!(samples.len(), 2 * SETTLE_SAMPLES);
}

#[test]
fn run_program_appends_every_settle_time() {
    let mut ym = silent_driver();
    let mut samples: Vec<SamplePair> = Vec::new();
    let table = vec![
        RegisterWrite { address: 0x08, data: 0x00, settle_samples: 0 },
        RegisterWrite { address: 0x20, data: 0xC7, settle_samples: 3 },
        RegisterWrite { address: 0x28, data: 0x4A, settle_samples: 5 },
    ];
    ym.run_program(&table, &mut samples);
    assert_eq!(samples.len(), 8);
}

#[test]
fn voice_program_table() {
    let entries = voice_program();
    assert_eq!(entries.len(), 37);
    // every channel keyed off first, with no settle time
    for ch in 0..8u8 {
        assert_eq!(entries[ch as usize].address, 0x08);
        assert_eq!(entries[ch as usize].data, ch);
        assert_eq!(entries[ch as usize].settle_samples, 0);
    }
    // channel parameters
    assert_eq!((entries[8].address, entries[8].data), (0x20, 0xC7));
    assert_eq!((entries[9].address, entries[9].data), (0x28, 0x4A));
    assert_eq!((entries[10].address, entries[10].data), (0x30, 0x00));
    assert_eq!((entries[11].address, entries[11].data), (0x38, 0x00));
    // one operator block per slot offset
    for op in 0..4usize {
        let base = 12 + 6 * op;
        let slot = (op as u8) * 8;
        assert_eq!((entries[base].address, entries[base].data), (0x40 + slot, 0x01));
        let level = if op == 0 { 0x00 } else { 0x7F };
        assert_eq!((entries[base + 1].address, entries[base + 1].data), (0x60 + slot, level));
        assert_eq!((entries[base + 2].address, entries[base + 2].data), (0x80 + slot, 0x1F));
        assert_eq!((entries[base + 3].address, entries[base + 3].data), (0xA0 + slot, 0x05));
        assert_eq!((entries[base + 4].address, entries[base + 4].data), (0xC0 + slot, 0x05));
        assert_eq!((entries[base + 5].address, entries[base + 5].data), (0xE0 + slot, 0xF7));
    }
    // key-on of channel 0 last
    assert_eq!((entries[36].address, entries[36].data), (0x08, 0x78));
    // every configuring write settles for 10 ms worth of samples
    for e in entries.iter().skip(8) {
        assert_eq!(e.settle_samples, SETTLE_SAMPLES);
    }
    let total: usize = entries.iter().map(|e| e.settle_samples).sum();
    assert_eq!(total, 29 * 441);
}
