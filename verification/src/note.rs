//! Musical notes and their mapping to the chip's frequency registers.

use vstd::prelude::*;

verus! {

/// A musical pitch class together with an octave number. Octaves 0 to 7 are
/// the meaningful range; the octave is masked to 3 bits when encoded.
#[derive(Clone, Copy)]
pub enum Note {
    /// C
    C(u8),
    /// C sharp
    Cs(u8),
    /// D
    D(u8),
    /// E flat
    Eb(u8),
    /// E
    E(u8),
    /// F
    F(u8),
    /// F sharp
    Fs(u8),
    /// G
    G(u8),
    /// G sharp
    Gs(u8),
    /// A
    A(u8),
    /// B flat
    Bb(u8),
    /// B
    B(u8),
}

impl Note {
    /// The octave number carried by the note.
    pub open spec fn spec_octave(self) -> u8 {
        match self {
            Note::C(octave) => octave,
            Note::Cs(octave) => octave,
            Note::D(octave) => octave,
            Note::Eb(octave) => octave,
            Note::E(octave) => octave,
            Note::F(octave) => octave,
            Note::Fs(octave) => octave,
            Note::G(octave) => octave,
            Note::Gs(octave) => octave,
            Note::A(octave) => octave,
            Note::Bb(octave) => octave,
            Note::B(octave) => octave,
        }
    }

    /// The 11-bit frequency divider of the pitch class, from the fixed
    /// 12-entry lookup table.
    pub open spec fn spec_f_number(self) -> u16 {
        match self {
            Note::C(_) => 0x0266,
            Note::Cs(_) => 0x028b,
            Note::D(_) => 0x02b2,
            Note::Eb(_) => 0x02db,
            Note::E(_) => 0x0307,
            Note::F(_) => 0x0334,
            Note::Fs(_) => 0x0365,
            Note::G(_) => 0x0398,
            Note::Gs(_) => 0x03ce,
            Note::A(_) => 0x0406,
            Note::Bb(_) => 0x0442,
            Note::B(_) => 0x0480,
        }
    }

    /// The low byte of the frequency register pair.
    pub open spec fn spec_f_number_low(self) -> u8 {
        (self.spec_f_number() & 0xff) as u8
    }

    /// The high/block byte: the octave in bits 3 to 5, the top 3 bits of the
    /// divider in bits 0 to 2.
    pub open spec fn spec_f_number_high_block(self) -> u8 {
        ((self.spec_octave() & 0x07) << 3) | (((self.spec_f_number() >> 8) & 0x07) as u8)
    }

    /// Returns the octave number of the note.
    pub fn octave(&self) -> (r: u8)
        ensures
            r == self.spec_octave(),
    {
        match self {
            Note::C(octave) => *octave,
            Note::Cs(octave) => *octave,
            Note::D(octave) => *octave,
            Note::Eb(octave) => *octave,
            Note::E(octave) => *octave,
            Note::F(octave) => *octave,
            Note::Fs(octave) => *octave,
            Note::G(octave) => *octave,
            Note::Gs(octave) => *octave,
            Note::A(octave) => *octave,
            Note::Bb(octave) => *octave,
            Note::B(octave) => *octave,
        }
    }

    /// Looks up the 11-bit frequency divider of the pitch class.
    pub fn to_f_number(&self) -> (r: u16)
        ensures
            r == self.spec_f_number(),
    {
        match self {
            Note::C(_) => 0x0266,
            Note::Cs(_) => 0x028b,
            Note::D(_) => 0x02b2,
            Note::Eb(_) => 0x02db,
            Note::E(_) => 0x0307,
            Note::F(_) => 0x0334,
            Note::Fs(_) => 0x0365,
            Note::G(_) => 0x0398,
            Note::Gs(_) => 0x03ce,
            Note::A(_) => 0x0406,
            Note::Bb(_) => 0x0442,
            Note::B(_) => 0x0480,
        }
    }

    /// The low byte of the frequency register pair: `f_number & 0xff`.
    pub fn to_f_number_low(&self) -> (r: u8)
        ensures
            r == self.spec_f_number_low(),
    {
        (self.to_f_number() & 0xff) as u8
    }

    /// The high/block byte: `(octave & 0x7) << 3 | (f_number >> 8) & 0x7`.
    pub fn to_f_number_high_block(&self) -> (r: u8)
        ensures
            r == self.spec_f_number_high_block(),
    {
        ((self.octave() & 0x07) << 3) | (((self.to_f_number() >> 8) & 0x07) as u8)
    }
}

/// The character for a single decimal digit.
pub open spec fn spec_digit_char(d: u8) -> char
    recommends
        d < 10,
{
    ((d + 0x30) as u8) as char
}

/// The decimal digits of an octave number, without leading zeros.
pub open spec fn spec_octave_chars(o: u8) -> Seq<char> {
    if o < 10 {
        seq![spec_digit_char(o)]
    } else if o < 100 {
        seq![spec_digit_char(o / 10), spec_digit_char(o % 10)]
    } else {
        seq![spec_digit_char(o / 100), spec_digit_char((o / 10) % 10), spec_digit_char(o % 10)]
    }
}

/// Relies on String::push from std: it appends exactly one character at the
/// end of the string.
#[verifier::external_body]
fn push_char(s: &mut String, c: char)
    ensures
        final(s)@ == old(s)@.push(c),
{
    s.push(c);
}

impl Note {
    /// The name of the pitch class, as characters.
    pub open spec fn spec_name(self) -> Seq<char> {
        match self {
            Note::C(_) => seq!['C'],
            Note::Cs(_) => seq!['C', '#'],
            Note::D(_) => seq!['D'],
            Note::Eb(_) => seq!['E', 'b'],
            Note::E(_) => seq!['E'],
            Note::F(_) => seq!['F'],
            Note::Fs(_) => seq!['F', '#'],
            Note::G(_) => seq!['G'],
            Note::Gs(_) => seq!['G', '#'],
            Note::A(_) => seq!['A'],
            Note::Bb(_) => seq!['B', 'b'],
            Note::B(_) => seq!['B'],
        }
    }

    /// The textual form of the note: the pitch-class name followed by the
    /// octave in decimal.
    pub open spec fn spec_display(self) -> Seq<char> {
        self.spec_name() + spec_octave_chars(self.spec_octave())
    }

    /// Returns the name of the pitch class.
    pub fn name_str(&self) -> (r: &'static str)
        ensures
            r@ == self.spec_name(),
    {
        match self {
            Note::C(_) => {
                proof {
                    reveal_strlit("C");
                    assert("C"@ =~= seq!['C']);
                }
                "C"
            },
            Note::Cs(_) => {
                proof {
                    reveal_strlit("C#");
                    assert("C#"@ =~= seq!['C', '#']);
                }
                "C#"
            },
            Note::D(_) => {
                proof {
                    reveal_strlit("D");
                    assert("D"@ =~= seq!['D']);
                }
                "D"
            },
            Note::Eb(_) => {
                proof {
                    reveal_strlit("Eb");
                    assert("Eb"@ =~= seq!['E', 'b']);
                }
                "Eb"
            },
            Note::E(_) => {
                proof {
                    reveal_strlit("E");
                    assert("E"@ =~= seq!['E']);
                }
                "E"
            },
            Note::F(_) => {
                proof {
                    reveal_strlit("F");
                    assert("F"@ =~= seq!['F']);
                }
                "F"
            },
            Note::Fs(_) => {
                proof {
                    reveal_strlit("F#");
                    assert("F#"@ =~= seq!['F', '#']);
                }
                "F#"
            },
            Note::G(_) => {
                proof {
                    reveal_strlit("G");
                    assert("G"@ =~= seq!['G']);
                }
                "G"
            },
            Note::Gs(_) => {
                proof {
                    reveal_strlit("G#");
                    assert("G#"@ =~= seq!['G', '#']);
                }
                "G#"
            },
            Note::A(_) => {
                proof {
                    reveal_strlit("A");
                    assert("A"@ =~= seq!['A']);
                }
                "A"
            },
            Note::Bb(_) => {
                proof {
                    reveal_strlit("Bb");
                    assert("Bb"@ =~= seq!['B', 'b']);
                }
                "Bb"
            },
            Note::B(_) => {
                proof {
                    reveal_strlit("B");
                    assert("B"@ =~= seq!['B']);
                }
                "B"
            },
        }
    }

    /// Renders the note as text, for example C4 or G#5.
    pub fn display_string(&self) -> (r: String)
        ensures
            r@ == self.spec_display(),
    {
        let o = self.octave();
        let mut s: String = self.name_str().to_owned();
        if o >= 100 {
            push_char(&mut s, (0x30 + o / 100) as char);
            push_char(&mut s, (0x30 + (o / 10) % 10) as char);
            push_char(&mut s, (0x30 + o % 10) as char);
            proof {
                assert(s@ =~= self.spec_display());
            }
        } else if o >= 10 {
            push_char(&mut s, (0x30 + o / 10) as char);
            push_char(&mut s, (0x30 + o % 10) as char);
            proof {
                assert(s@ =~= self.spec_display());
            }
        } else {
            push_char(&mut s, (0x30 + o) as char);
            proof {
                assert(s@ =~= self.spec_display());
            }
        }
        s
    }
}

/// Law: for every pitch class, the divider table holds an 11-bit value.
pub proof fn lemma_f_number_fits(n: Note)
    ensures
        n.spec_f_number() < 0x800,
{
    match n {
        Note::C(_) => {},
        Note::Cs(_) => {},
        Note::D(_) => {},
        Note::Eb(_) => {},
        Note::E(_) => {},
        Note::F(_) => {},
        Note::Fs(_) => {},
        Note::G(_) => {},
        Note::Gs(_) => {},
        Note::A(_) => {},
        Note::Bb(_) => {},
        Note::B(_) => {},
    }
}

/// Law: for every pitch class and every octave 0 to 7, recombining the two
/// frequency register bytes gives back the table's 11-bit divider, and the
/// top 3 bits of the high/block byte give back the octave.
pub proof fn lemma_note_f_number_roundtrip(n: Note)
    requires
        n.spec_octave() < 8,
    ensures
        ((n.spec_f_number_high_block() & 0x07) as u16) << 8 | (n.spec_f_number_low() as u16)
            == n.spec_f_number(),
        n.spec_f_number_high_block() >> 3 == n.spec_octave(),
{
    lemma_f_number_fits(n);
    let f = n.spec_f_number();
    let o = n.spec_octave();
    assert(f < 0x800 && o < 8 ==> (((((o & 0x07) << 3) | (((f >> 8) & 0x07) as u8)) & 0x07) as u16)
        << 8 | (((f & 0xff) as u8) as u16) == f) by (bit_vector);
    assert(f < 0x800 && o < 8 ==> (((o & 0x07) << 3) | (((f >> 8) & 0x07) as u8)) >> 3 == o)
        by (bit_vector);
}

} // verus!
