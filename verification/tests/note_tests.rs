use synth::Note;

#[test]
fn test_note_display() {
    assert_eq!(Note::C(2).display_string(), "C2");
    assert_eq!(Note::Gs(5).display_string(), "G#5");
}

#[test]
fn test_note_display_all_names() {
    assert_eq!(Note::Cs(0).display_string(), "C#0");
    assert_eq!(Note::D(1).display_string(), "D1");
    assert_eq!(Note::Eb(3).display_string(), "Eb3");
    assert_eq!(Note::E(4).display_string(), "E4");
    assert_eq!(Note::F(4).display_string(), "F4");
    assert_eq!(Note::Fs(6).display_string(), "F#6");
    assert_eq!(Note::G(7).display_string(), "G7");
    assert_eq!(Note::A(4).display_string(), "A4");
    assert_eq!(Note::Bb(2).display_string(), "Bb2");
    assert_eq!(Note::B(10).display_string(), "B10");
    assert_eq!(Note::B(255).display_string(), "B255");
}

#[test]
fn test_note_to_f_number_block() {
    assert_eq!(Note::C(0).to_f_number_low(), 0x66);
    assert_eq!(Note::C(0).to_f_number_high_block(), 0x02);

    assert_eq!(Note::Bb(5).to_f_number_low(), 0x42);
    assert_eq!(Note::Bb(5).to_f_number_high_block(), 0x2c);
}

#[test]
fn test_note_f_number_roundtrip_all() {
    let notes = [
        Note::C(0),
        Note::Cs(1),
        Note::D(2),
        Note::Eb(3),
        Note::E(4),
        Note::F(5),
        Note::Fs(6),
        Note::G(7),
        Note::Gs(0),
        Note::A(3),
        Note::Bb(6),
        Note::B(7),
    ];
    for n in notes {
        let low = n.to_f_number_low();
        let high = n.to_f_number_high_block();
        let recombined = (((high & 0x07) as u16) << 8) | (low as u16);
        assert_eq!(recombined, n.to_f_number());
        assert_eq!(high >> 3, n.octave());
    }
}

#[test]
fn test_note_octave_masked_in_high_block() {
    // An octave above 7 is truncated to 3 bits in the high/block byte.
    assert_eq!(Note::C(9).to_f_number_high_block(), ((9u8 & 0x07) << 3) | 0x02);
    assert_eq!(Note::C(9).to_f_number_high_block() >> 3, 1);
}
