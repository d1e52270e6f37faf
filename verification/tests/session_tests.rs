use synth::Bank;
use synth::FakeEngine;
use synth::FmOperator;
use synth::FmTone;
use synth::Note;
use synth::RegWrite;
use synth::SynthSession;

const NATIVE_RATE: u32 = 166_400;
const SAMPLE_RATE: u32 = 44_100;

fn session() -> SynthSession<FakeEngine> {
    SynthSession::new(FakeEngine::new(NATIVE_RATE, 100, -100))
}

fn low(addr: u8, data: u8) -> RegWrite {
    RegWrite { bank: Bank::Low, addr, data }
}

fn high(addr: u8, data: u8) -> RegWrite {
    RegWrite { bank: Bank::High, addr, data }
}

fn test_tone() -> FmTone {
    let operator = FmOperator {
        ar: 0x1f,
        dr: 0x00,
        sr: 0x00,
        rr: 0x00,
        sl: 0x00,
        tl: 28,
        ks: 0x00,
        ml: 0x04,
        dt: 0x00,
        am: false,
        ssg_eg: 0x00,
    };
    FmTone { al: 0x04, fb: 0x07, op: [operator; 4], lfo_freq: 0, ams: 0, pms: 0 }
}

#[test]
fn test_synth() {
    let mut s = session();

    assert_eq!(s.create(SAMPLE_RATE), true);

    s.set_tone(&test_tone());

    s.note_on(0, Note::C(4));

    const BUF_SIZE: usize = 100;
    let mut left_buf: Vec<i16> = Vec::new();
    let mut right_buf: Vec<i16> = Vec::new();
    s.generate(&mut left_buf, &mut right_buf, BUF_SIZE);
    assert_eq!(left_buf.len(), BUF_SIZE);
    assert_eq!(right_buf.len(), BUF_SIZE);

    s.note_off(0);

    assert_eq!(s.destroy(), true);
}

#[test]
fn test_synth_multiple_call() {
    let mut s = session();

    assert_eq!(s.create(SAMPLE_RATE), true);
    assert_eq!(s.create(SAMPLE_RATE), false);

    assert_eq!(s.destroy(), true);
    assert_eq!(s.destroy(), false);
}

#[test]
fn test_ym2608_multiple_call() {
    let mut s = session();

    assert_eq!(s.create(SAMPLE_RATE), true);
    assert_eq!(s.create(SAMPLE_RATE), false);

    assert_eq!(s.destroy(), true);
    assert_eq!(s.destroy(), false);
}

#[test]
fn test_create_writes_mode_and_panning() {
    let mut s = session();
    assert!(s.create(SAMPLE_RATE));
    let expected = vec![
        low(0x29, 0x80),
        low(0xb4, 0xc0),
        high(0xb4, 0xc0),
        low(0xb5, 0xc0),
        high(0xb5, 0xc0),
        low(0xb6, 0xc0),
        high(0xb6, 0xc0),
    ];
    assert_eq!(s.engine.log, expected);
}

#[test]
fn test_create_rejects_unusable_rates() {
    let mut s = session();
    assert_eq!(s.create(0), false);
    assert_eq!(s.create(NATIVE_RATE * 17), false);
    assert!(s.engine.log.is_empty());
    assert_eq!(s.create(SAMPLE_RATE), true);

    // The clock-to-rate ratio must stay within the resampler's maximum.
    let mut s2 = SynthSession::new(FakeEngine::new(u32::MAX, 0, 0));
    assert_eq!(s2.create(1), false);
    assert_eq!(s2.create(4096), true);
}

#[test]
fn test_create_accepts_output_above_native() {
    // An output rate above the chip's native rate is served as well: the
    // resampler then upsamples.
    let mut s = SynthSession::new(FakeEngine::new(NATIVE_RATE, 250, -250));
    assert_eq!(s.create(192_000), true);
    let mut left: Vec<i16> = Vec::new();
    let mut right: Vec<i16> = Vec::new();
    s.generate(&mut left, &mut right, 2000);
    assert_eq!(left.len(), 2000);
    assert_eq!(right.len(), 2000);
    s.generate(&mut left, &mut right, 2000);
    assert_eq!(left.len(), 2000);
    assert_eq!(right.len(), 2000);
    assert_eq!(s.destroy(), true);
}

#[test]
fn test_note_on_low_bank_writes() {
    let mut s = session();
    assert!(s.create(SAMPLE_RATE));
    let base = s.engine.log.len();
    s.note_on(0, Note::C(4));
    assert_eq!(s.engine.log.len(), base + 3);
    assert_eq!(s.engine.log[base], low(0xa4, 0x22));
    assert_eq!(s.engine.log[base + 1], low(0xa0, 0x66));
    assert_eq!(s.engine.log[base + 2], low(0x28, 0xf0));
    s.note_off(0);
    assert_eq!(s.engine.log[base + 3], low(0x28, 0x00));
}

#[test]
fn test_note_on_high_bank_writes() {
    let mut s = session();
    assert!(s.create(SAMPLE_RATE));
    let base = s.engine.log.len();
    s.note_on(3, Note::C(4));
    assert_eq!(s.engine.log.len(), base + 3);
    assert_eq!(s.engine.log[base], high(0xa5, 0x22));
    assert_eq!(s.engine.log[base + 1], high(0xa1, 0x66));
    assert_eq!(s.engine.log[base + 2], low(0x28, 0xf5));
    s.note_off(5);
    assert_eq!(s.engine.log[base + 3], low(0x28, 0x07));
}

#[test]
fn test_note_on_channel_out_of_range_is_noop() {
    let mut s = session();
    assert!(s.create(SAMPLE_RATE));
    let base = s.engine.log.len();
    s.note_on(6, Note::C(4));
    s.note_on(7, Note::A(3));
    s.note_on(255, Note::B(7));
    s.note_off(6);
    s.note_off(7);
    s.note_off(255);
    assert_eq!(s.engine.log.len(), base);
}

#[test]
fn test_set_tone_register_sequence() {
    let mut s = session();
    assert!(s.create(SAMPLE_RATE));
    let base = s.engine.log.len();
    let tone = test_tone();
    s.set_tone(&tone);
    // 1 LFO write + 3 channels x 2 register pairs + 4 operators x 3 channels
    // x 7 register pairs, each pair hitting both banks.
    assert_eq!(s.engine.log.len(), base + 1 + 3 * 4 + 4 * 3 * 14);
    assert_eq!(s.engine.log[base], low(0x24, 0x00));
    // Channel slot writes: feedback/algorithm, then panning with ams/pms.
    assert_eq!(s.engine.log[base + 1], low(0xb0, 0x3c));
    assert_eq!(s.engine.log[base + 2], high(0xb0, 0x3c));
    assert_eq!(s.engine.log[base + 3], low(0xb4, 0xc0));
    assert_eq!(s.engine.log[base + 4], high(0xb4, 0xc0));
    assert_eq!(s.engine.log[base + 5], low(0xb1, 0x3c));
    // The four operators sit at fixed address offsets 0x00, 0x08, 0x04, 0x0c.
    let op_start = base + 1 + 12;
    assert_eq!(s.engine.log[op_start], low(0x30, 0x04));
    assert_eq!(s.engine.log[op_start + 1], high(0x30, 0x04));
    assert_eq!(s.engine.log[op_start + 2], low(0x40, 28));
    assert_eq!(s.engine.log[op_start + 42], low(0x38, 0x04));
    assert_eq!(s.engine.log[op_start + 84], low(0x34, 0x04));
    assert_eq!(s.engine.log[op_start + 126], low(0x3c, 0x04));
}

#[test]
fn test_set_tone_idempotent_sequence() {
    let mut s = session();
    assert!(s.create(SAMPLE_RATE));
    let base = s.engine.log.len();
    let tone = test_tone();
    s.set_tone(&tone);
    let len = s.engine.log.len() - base;
    let first: Vec<RegWrite> = s.engine.log[base..].to_vec();
    s.set_tone(&tone);
    assert_eq!(s.engine.log.len(), base + 2 * len);
    assert_eq!(&s.engine.log[base + len..], &first[..]);
}

#[test]
fn test_generate_inactive_is_noop() {
    let mut s = session();
    let mut left = vec![9i16; 3];
    let mut right = vec![9i16; 3];
    s.generate(&mut left, &mut right, 100);
    assert_eq!(left, vec![9i16; 3]);
    assert_eq!(right, vec![9i16; 3]);
    assert!(s.engine.log.is_empty());
}

#[test]
fn test_generate_exact_counts_and_continuity() {
    // Every generate call yields exactly the requested count, before and
    // after a note-on/note-off pair, and the previous-sample state carries
    // across frames: with a constant engine output the resampled stream has
    // no jumps at call boundaries once the initial step response has passed.
    let mut s = SynthSession::new(FakeEngine::new(NATIVE_RATE, 1000, -1000));
    assert!(s.create(SAMPLE_RATE));

    let mut all_left: Vec<i16> = Vec::new();
    let mut all_right: Vec<i16> = Vec::new();
    for _ in 0..5 {
        let mut left = Vec::new();
        let mut right = Vec::new();
        s.generate(&mut left, &mut right, 2000);
        assert_eq!(left.len(), 2000);
        assert_eq!(right.len(), 2000);
        all_left.extend_from_slice(&left);
        all_right.extend_from_slice(&right);
    }
    s.note_on(0, Note::C(4));
    s.note_off(0);
    for _ in 0..5 {
        let mut left = Vec::new();
        let mut right = Vec::new();
        s.generate(&mut left, &mut right, 2000);
        assert_eq!(left.len(), 2000);
        assert_eq!(right.len(), 2000);
        all_left.extend_from_slice(&left);
        all_right.extend_from_slice(&right);
    }
    assert_eq!(all_left.len(), 20_000);
    assert_eq!(all_right.len(), 20_000);

    // The constant engine output actually reaches the stream: shortly after
    // the band-limited step the samples sit near the input amplitude.
    assert!(all_left[100] > 500);
    assert!(all_right[100] < -500);

    // After the band-limited step transient, the output decays smoothly; a
    // dropped or duplicated span at a frame or call boundary would show as a
    // jump on the order of the signal amplitude.
    for i in 1000..all_left.len() {
        assert!((all_left[i] as i32 - all_left[i - 1] as i32).abs() <= 8);
        assert!((all_right[i] as i32 - all_right[i - 1] as i32).abs() <= 8);
    }
}
