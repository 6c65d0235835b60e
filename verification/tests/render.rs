use ym2151::chip::SilentChip;
use ym2151::driver::Ym2151;
use ym2151::program::setup_440hz_tone;
use ym2151::render::render_tone;
use ym2151::sample::SamplePair;
use ym2151::SAMPLE_RATE;

#[test]
fn setup_produces_settle_samples_only() {
    let mut ym = Ym2151::new(SilentChip::new());
    let mut samples: Vec<SamplePair> = Vec::new();
    setup_440hz_tone(&mut ym, &mut samples);
    // 29 settled writes of 441 samples each
    assert_eq!(samples.len(), 12789);
    assert!(samples.iter().all(|p| p.left == 0 && p.right == 0));
}

#[test]
fn three_seconds_is_exactly_132300_frames() {
    let buf = render_tone(SilentChip::new(), 3);
    assert_eq!(buf.len(), 132300);
    assert_eq!(buf.len(), (SAMPLE_RATE as usize) * 3);
}

#[test]
fn render_length_is_exact_for_any_duration() {
    // shorter than the setup phase: the buffer is cut down
    assert_eq!(render_tone(SilentChip::new(), 0).len(), 0);
    // longer than the setup phase: the fill step tops it up
    assert_eq!(render_tone(SilentChip::new(), 1).len(), 44100);
    assert_eq!(render_tone(SilentChip::new(), 2).len(), 88200);
}

#[test]
fn render_is_deterministic() {
    let a = render_tone(SilentChip::new(), 1);
    let b = render_tone(SilentChip::new(), 1);
    assert_eq!(a, b);
}
