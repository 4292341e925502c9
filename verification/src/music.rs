use vstd::prelude::*;

verus! {

// Standard note durations in milliseconds, at a tempo of 120 beats a minute.
pub const WHOLE: u64 = 1000;
pub const QUARTER: u64 = 250;
pub const EIGHTH: u64 = 125;
pub const SIXTEENTH: u64 = 63;

// Triplet note durations: two thirds of the plain ones, rounded down.
pub const QUARTER_TRIPLET: u64 = 166;
pub const SIXTEENTH_TRIPLET: u64 = 42;

/// The name of a musical note within an octave.
#[derive(Debug, Clone, Copy, PartialEq, Eq, Structural, Hash)]
pub enum NoteName {
    C,
    CSharp,
    D,
    DSharp,
    E,
    F,
    FSharp,
    G,
    GSharp,
    A,
    ASharp,
    B,
}

impl NoteName {
    /// Position of the note within its octave, in semitones above C.
    pub open spec fn semitone(self) -> int {
        match self {
            NoteName::C => 0,
            NoteName::CSharp => 1,
            NoteName::D => 2,
            NoteName::DSharp => 3,
            NoteName::E => 4,
            NoteName::F => 5,
            NoteName::FSharp => 6,
            NoteName::G => 7,
            NoteName::GSharp => 8,
            NoteName::A => 9,
            NoteName::ASharp => 10,
            NoteName::B => 11,
        }
    }
}

/// A musical note: a name, an octave number (4 is the octave of concert A),
/// and a duration in milliseconds.
#[derive(Debug, Clone, Copy)]
pub struct Note {
    pub name: NoteName,
    pub octave: i8,
    pub duration: u64,
}

impl Note {
    /// The note's position on the MIDI keyboard, whose octave numbering
    /// starts at -1: concert A (A, octave 4) is note 69.
    pub open spec fn midi_note_number_spec(self) -> int {
        self.name.semitone() + (self.octave + 1) * 12
    }

    pub fn midi_note_number(&self) -> (r: i32)
        ensures
            r == self.midi_note_number_spec(),
    {
        let note_index: i32 = match self.name {
            NoteName::C => 0,
            NoteName::CSharp => 1,
            NoteName::D => 2,
            NoteName::DSharp => 3,
            NoteName::E => 4,
            NoteName::F => 5,
            NoteName::FSharp => 6,
            NoteName::G => 7,
            NoteName::GSharp => 8,
            NoteName::A => 9,
            NoteName::ASharp => 10,
            NoteName::B => 11,
        };

        let octave_offset = (self.octave as i32 + 1) * 12;
        note_index + octave_offset
    }
}

/// An element of a music sequence: either a note or a rest.
#[derive(Debug, Clone, Copy)]
pub enum MusicElement {
    Note(Note),
    Rest { duration: u64 },
}

/// The game's theme, note for note.
pub open spec fn theme_seq() -> Seq<MusicElement> {
    seq![
        MusicElement::Note(Note { name: NoteName::C, octave: 4, duration: SIXTEENTH }),
        MusicElement::Note(Note { name: NoteName::C, octave: 5, duration: SIXTEENTH }),
        MusicElement::Note(Note { name: NoteName::A, octave: 3, duration: SIXTEENTH }),
        MusicElement::Note(Note { name: NoteName::A, octave: 4, duration: SIXTEENTH }),
        MusicElement::Note(Note { name: NoteName::ASharp, octave: 3, duration: SIXTEENTH }),
        MusicElement::Note(Note { name: NoteName::ASharp, octave: 4, duration: SIXTEENTH }),
        MusicElement::Rest { duration: EIGHTH },
        MusicElement::Rest { duration: QUARTER },
        MusicElement::Note(Note { name: NoteName::C, octave: 4, duration: SIXTEENTH }),
        MusicElement::Note(Note { name: NoteName::C, octave: 5, duration: SIXTEENTH }),
        MusicElement::Note(Note { name: NoteName::A, octave: 3, duration: SIXTEENTH }),
        MusicElement::Note(Note { name: NoteName::A, octave: 4, duration: SIXTEENTH }),
        MusicElement::Note(Note { name: NoteName::ASharp, octave: 3, duration: SIXTEENTH }),
        MusicElement::Note(Note { name: NoteName::ASharp, octave: 4, duration: SIXTEENTH }),
        MusicElement::Rest { duration: EIGHTH },
        MusicElement::Rest { duration: QUARTER },
        MusicElement::Note(Note { name: NoteName::F, octave: 3, duration: SIXTEENTH }),
        MusicElement::Note(Note { name: NoteName::F, octave: 4, duration: SIXTEENTH }),
        MusicElement::Note(Note { name: NoteName::D, octave: 3, duration: SIXTEENTH }),
        MusicElement::Note(Note { name: NoteName::D, octave: 4, duration: SIXTEENTH }),
        MusicElement::Note(Note { name: NoteName::DSharp, octave: 3, duration: SIXTEENTH }),
        MusicElement::Note(Note { name: NoteName::DSharp, octave: 4, duration: SIXTEENTH }),
        MusicElement::Rest { duration: EIGHTH },
        MusicElement::Rest { duration: QUARTER },
        MusicElement::Note(Note { name: NoteName::F, octave: 3, duration: SIXTEENTH }),
        MusicElement::Note(Note { name: NoteName::F, octave: 4, duration: SIXTEENTH }),
        MusicElement::Note(Note { name: NoteName::D, octave: 3, duration: SIXTEENTH }),
        MusicElement::Note(Note { name: NoteName::D, octave: 4, duration: SIXTEENTH }),
        MusicElement::Note(Note { name: NoteName::DSharp, octave: 3, duration: SIXTEENTH }),
        MusicElement::Note(Note { name: NoteName::DSharp, octave: 4, duration: SIXTEENTH }),
        MusicElement::Rest { duration: EIGHTH },
        MusicElement::Rest { duration: QUARTER },
        MusicElement::Note(Note { name: NoteName::DSharp, octave: 4, duration: SIXTEENTH_TRIPLET }),
        MusicElement::Note(Note { name: NoteName::D, octave: 4, duration: SIXTEENTH_TRIPLET }),
        MusicElement::Note(Note { name: NoteName::CSharp, octave: 4, duration: SIXTEENTH_TRIPLET }),
        MusicElement::Note(Note { name: NoteName::C, octave: 4, duration: QUARTER }),
        MusicElement::Note(Note { name: NoteName::DSharp, octave: 4, duration: QUARTER }),
        MusicElement::Note(Note { name: NoteName::D, octave: 4, duration: QUARTER }),
        MusicElement::Note(Note { name: NoteName::GSharp, octave: 3, duration: QUARTER }),
        MusicElement::Note(Note { name: NoteName::G, octave: 3, duration: QUARTER }),
        MusicElement::Note(Note { name: NoteName::CSharp, octave: 4, duration: QUARTER }),
        MusicElement::Note(Note { name: NoteName::C, octave: 4, duration: SIXTEENTH_TRIPLET }),
        MusicElement::Note(Note { name: NoteName::FSharp, octave: 4, duration: SIXTEENTH_TRIPLET }),
        MusicElement::Note(Note { name: NoteName::F, octave: 4, duration: SIXTEENTH_TRIPLET }),
        MusicElement::Note(Note { name: NoteName::E, octave: 4, duration: SIXTEENTH_TRIPLET }),
        MusicElement::Note(Note { name: NoteName::ASharp, octave: 4, duration: SIXTEENTH_TRIPLET }),
        MusicElement::Note(Note { name: NoteName::A, octave: 4, duration: SIXTEENTH_TRIPLET }),
        MusicElement::Note(Note { name: NoteName::GSharp, octave: 4, duration: QUARTER_TRIPLET }),
        MusicElement::Note(Note { name: NoteName::DSharp, octave: 4, duration: QUARTER_TRIPLET }),
        MusicElement::Note(Note { name: NoteName::B, octave: 3, duration: QUARTER_TRIPLET }),
        MusicElement::Note(Note { name: NoteName::ASharp, octave: 3, duration: QUARTER_TRIPLET }),
        MusicElement::Note(Note { name: NoteName::A, octave: 3, duration: QUARTER_TRIPLET }),
        MusicElement::Note(Note { name: NoteName::GSharp, octave: 3, duration: QUARTER_TRIPLET }),
        MusicElement::Rest { duration: WHOLE },
    ]
}

/// The fixed sequence of music elements the game loops as its theme.
#[verifier::rlimit(100)]
pub fn game_theme() -> (r: Vec<MusicElement>)
    ensures
        r@ == theme_seq(),
{
    let mut v: Vec<MusicElement> = Vec::new();
    v.push(MusicElement::Note(Note { name: NoteName::C, octave: 4, duration: SIXTEENTH }));
    v.push(MusicElement::Note(Note { name: NoteName::C, octave: 5, duration: SIXTEENTH }));
    v.push(MusicElement::Note(Note { name: NoteName::A, octave: 3, duration: SIXTEENTH }));
    v.push(MusicElement::Note(Note { name: NoteName::A, octave: 4, duration: SIXTEENTH }));
    v.push(MusicElement::Note(Note { name: NoteName::ASharp, octave: 3, duration: SIXTEENTH }));
    v.push(MusicElement::Note(Note { name: NoteName::ASharp, octave: 4, duration: SIXTEENTH }));
    v.push(MusicElement::Rest { duration: EIGHTH });
    v.push(MusicElement::Rest { duration: QUARTER });
    v.push(MusicElement::Note(Note { name: NoteName::C, octave: 4, duration: SIXTEENTH }));
    v.push(MusicElement::Note(Note { name: NoteName::C, octave: 5, duration: SIXTEENTH }));
    v.push(MusicElement::Note(Note { name: NoteName::A, octave: 3, duration: SIXTEENTH }));
    v.push(MusicElement::Note(Note { name: NoteName::A, octave: 4, duration: SIXTEENTH }));
    v.push(MusicElement::Note(Note { name: NoteName::ASharp, octave: 3, duration: SIXTEENTH }));
    v.push(MusicElement::Note(Note { name: NoteName::ASharp, octave: 4, duration: SIXTEENTH }));
    v.push(MusicElement::Rest { duration: EIGHTH });
    v.push(MusicElement::Rest { duration: QUARTER });
    v.push(MusicElement::Note(Note { name: NoteName::F, octave: 3, duration: SIXTEENTH }));
    v.push(MusicElement::Note(Note { name: NoteName::F, octave: 4, duration: SIXTEENTH }));
    v.push(MusicElement::Note(Note { name: NoteName::D, octave: 3, duration: SIXTEENTH }));
    v.push(MusicElement::Note(Note { name: NoteName::D, octave: 4, duration: SIXTEENTH }));
    v.push(MusicElement::Note(Note { name: NoteName::DSharp, octave: 3, duration: SIXTEENTH }));
    v.push(MusicElement::Note(Note { name: NoteName::DSharp, octave: 4, duration: SIXTEENTH }));
    v.push(MusicElement::Rest { duration: EIGHTH });
    v.push(MusicElement::Rest { duration: QUARTER });
    v.push(MusicElement::Note(Note { name: NoteName::F, octave: 3, duration: SIXTEENTH }));
    v.push(MusicElement::Note(Note { name: NoteName::F, octave: 4, duration: SIXTEENTH }));
    v.push(MusicElement::Note(Note { name: NoteName::D, octave: 3, duration: SIXTEENTH }));
    v.push(MusicElement::Note(Note { name: NoteName::D, octave: 4, duration: SIXTEENTH }));
    v.push(MusicElement::Note(Note { name: NoteName::DSharp, octave: 3, duration: SIXTEENTH }));
    v.push(MusicElement::Note(Note { name: NoteName::DSharp, octave: 4, duration: SIXTEENTH }));
    v.push(MusicElement::Rest { duration: EIGHTH });
    v.push(MusicElement::Rest { duration: QUARTER });
    v.push(MusicElement::Note(Note { name: NoteName::DSharp, octave: 4, duration: SIXTEENTH_TRIPLET }));
    v.push(MusicElement::Note(Note { name: NoteName::D, octave: 4, duration: SIXTEENTH_TRIPLET }));
    v.push(MusicElement::Note(Note { name: NoteName::CSharp, octave: 4, duration: SIXTEENTH_TRIPLET }));
    v.push(MusicElement::Note(Note { name: NoteName::C, octave: 4, duration: QUARTER }));
    v.push(MusicElement::Note(Note { name: NoteName::DSharp, octave: 4, duration: QUARTER }));
    v.push(MusicElement::Note(Note { name: NoteName::D, octave: 4, duration: QUARTER }));
    v.push(MusicElement::Note(Note { name: NoteName::GSharp, octave: 3, duration: QUARTER }));
    v.push(MusicElement::Note(Note { name: NoteName::G, octave: 3, duration: QUARTER }));
    v.push(MusicElement::Note(Note { name: NoteName::CSharp, octave: 4, duration: QUARTER }));
    v.push(MusicElement::Note(Note { name: NoteName::C, octave: 4, duration: SIXTEENTH_TRIPLET }));
    v.push(MusicElement::Note(Note { name: NoteName::FSharp, octave: 4, duration: SIXTEENTH_TRIPLET }));
    v.push(MusicElement::Note(Note { name: NoteName::F, octave: 4, duration: SIXTEENTH_TRIPLET }));
    v.push(MusicElement::Note(Note { name: NoteName::E, octave: 4, duration: SIXTEENTH_TRIPLET }));
    v.push(MusicElement::Note(Note { name: NoteName::ASharp, octave: 4, duration: SIXTEENTH_TRIPLET }));
    v.push(MusicElement::Note(Note { name: NoteName::A, octave: 4, duration: SIXTEENTH_TRIPLET }));
    v.push(MusicElement::Note(Note { name: NoteName::GSharp, octave: 4, duration: QUARTER_TRIPLET }));
    v.push(MusicElement::Note(Note { name: NoteName::DSharp, octave: 4, duration: QUARTER_TRIPLET }));
    v.push(MusicElement::Note(Note { name: NoteName::B, octave: 3, duration: QUARTER_TRIPLET }));
    v.push(MusicElement::Note(Note { name: NoteName::ASharp, octave: 3, duration: QUARTER_TRIPLET }));
    v.push(MusicElement::Note(Note { name: NoteName::A, octave: 3, duration: QUARTER_TRIPLET }));
    v.push(MusicElement::Note(Note { name: NoteName::GSharp, octave: 3, duration: QUARTER_TRIPLET }));
    v.push(MusicElement::Rest { duration: WHOLE });
    proof {
        assert(v@ =~= theme_seq());
    }
    v
}

} // verus!
