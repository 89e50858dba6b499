use vstd::prelude::*;

use crate::song_position::Positionable;
use crate::song_position::SongPosition;

verus! {

/// An accidental applied to a note name.
#[derive(Debug, Clone, Copy, PartialEq, Eq, Structural)]
pub enum NoteMod {
    Flat,
    Normal,
    Sharp,
}

impl Default for NoteMod {
    fn default() -> (r: Self)
        ensures
            r == NoteMod::Normal,
    {
        NoteMod::Normal
    }
}

/// One of the seven note letters, each carrying its accidental.
#[derive(Debug, Clone, Copy, PartialEq, Eq, Structural)]
pub enum NoteName {
    C(NoteMod),
    D(NoteMod),
    E(NoteMod),
    F(NoteMod),
    G(NoteMod),
    A(NoteMod),
    B(NoteMod),
}

impl Default for NoteName {
    fn default() -> (r: Self)
        ensures
            r == NoteName::C(NoteMod::Normal),
    {
        NoteName::C(NoteMod::Normal)
    }
}

impl NoteName {
    /// The characters of the conventional rendering: the letter, followed by
    /// `b` for a flat or `#` for a sharp.
    pub open spec fn spec_to_string(self) -> Seq<char> {
        match self {
            NoteName::C(m) => match m {
                NoteMod::Flat => "Cb"@,
                NoteMod::Normal => "C"@,
                NoteMod::Sharp => "C#"@,
            },
            NoteName::D(m) => match m {
                NoteMod::Flat => "Db"@,
                NoteMod::Normal => "D"@,
                NoteMod::Sharp => "D#"@,
            },
            NoteName::E(m) => match m {
                NoteMod::Flat => "Eb"@,
                NoteMod::Normal => "E"@,
                NoteMod::Sharp => "E#"@,
            },
            NoteName::F(m) => match m {
                NoteMod::Flat => "Fb"@,
                NoteMod::Normal => "F"@,
                NoteMod::Sharp => "F#"@,
            },
            NoteName::G(m) => match m {
                NoteMod::Flat => "Gb"@,
                NoteMod::Normal => "G"@,
                NoteMod::Sharp => "G#"@,
            },
            NoteName::A(m) => match m {
                NoteMod::Flat => "Ab"@,
                NoteMod::Normal => "A"@,
                NoteMod::Sharp => "A#"@,
            },
            NoteName::B(m) => match m {
                NoteMod::Flat => "Bb"@,
                NoteMod::Normal => "B"@,
                NoteMod::Sharp => "B#"@,
            },
        }
    }

    /// The conventional rendering of the note name.
    pub fn to_string(&self) -> (r: &str)
        ensures
            r@ == self.spec_to_string(),
    {
        match self {
            NoteName::C(m) => match m {
                NoteMod::Flat => "Cb",
                NoteMod::Normal => "C",
                NoteMod::Sharp => "C#",
            },
            NoteName::D(m) => match m {
                NoteMod::Flat => "Db",
                NoteMod::Normal => "D",
                NoteMod::Sharp => "D#",
            },
            NoteName::E(m) => match m {
                NoteMod::Flat => "Eb",
                NoteMod::Normal => "E",
                NoteMod::Sharp => "E#",
            },
            NoteName::F(m) => match m {
                NoteMod::Flat => "Fb",
                NoteMod::Normal => "F",
                NoteMod::Sharp => "F#",
            },
            NoteName::G(m) => match m {
                NoteMod::Flat => "Gb",
                NoteMod::Normal => "G",
                NoteMod::Sharp => "G#",
            },
            NoteName::A(m) => match m {
                NoteMod::Flat => "Ab",
                NoteMod::Normal => "A",
                NoteMod::Sharp => "A#",
            },
            NoteName::B(m) => match m {
                NoteMod::Flat => "Bb",
                NoteMod::Normal => "B",
                NoteMod::Sharp => "B#",
            },
        }
    }
}

/// The quality of a chord; a suspended chord carries the scale degree that
/// replaces the third.
#[derive(Debug, Clone, Copy, PartialEq, Eq, Structural)]
pub enum ChordType {
    Major,
    Minor,
    Diminished,
    Sus(u64),
}

impl Default for ChordType {
    fn default() -> (r: Self)
        ensures
            r == ChordType::Major,
    {
        ChordType::Major
    }
}

/// The function a note serves within a chord, each degree carrying its
/// accidental.
#[derive(Debug, Clone, Copy, PartialEq, Eq, Structural)]
pub enum ChordFuntion {
    Root(NoteMod),
    Second(NoteMod),
    Fourth(NoteMod),
    Fifth(NoteMod),
    Sixth(NoteMod),
    Seventh(NoteMod),
    Nineth(NoteMod),
    Eleventh(NoteMod),
    Thirteenth(NoteMod),
}

impl Default for ChordFuntion {
    fn default() -> (r: Self)
        ensures
            r == ChordFuntion::Root(NoteMod::Normal),
    {
        ChordFuntion::Root(NoteMod::Normal)
    }
}

/// A chord: a root note, an optional bass note, and up to six intervals.
#[derive(Debug, Clone, Copy, PartialEq, Eq, Structural)]
pub struct Chord {
    root: NoteName,
    base: Option<NoteName>,
    interval_1: Option<ChordFuntion>,
    interval_2: Option<ChordFuntion>,
    interval_3: Option<ChordFuntion>,
    interval_4: Option<ChordFuntion>,
    interval_5: Option<ChordFuntion>,
    interval_6: Option<ChordFuntion>,
}

impl Chord {
    pub closed spec fn spec_root(&self) -> NoteName {
        self.root
    }

    pub closed spec fn spec_base(&self) -> Option<NoteName> {
        self.base
    }

    /// The six interval slots, lowest first.
    pub closed spec fn spec_intervals(&self) -> Seq<Option<ChordFuntion>> {
        seq![
            self.interval_1,
            self.interval_2,
            self.interval_3,
            self.interval_4,
            self.interval_5,
            self.interval_6,
        ]
    }
}

impl Default for Chord {
    /// A bare C major triad placeholder: the root is a plain C and nothing
    /// else is set.
    fn default() -> (r: Self)
        ensures
            r.spec_root() == NoteName::C(NoteMod::Normal),
            r.spec_base() is None,
            forall|i: int| 0 <= i < r.spec_intervals().len() ==> r.spec_intervals()[i] is None,
    {
        Chord {
            root: NoteName::C(NoteMod::Normal),
            base: None,
            interval_1: None,
            interval_2: None,
            interval_3: None,
            interval_4: None,
            interval_5: None,
            interval_6: None,
        }
    }
}

/// A chord placed on the timeline at a single instant.
pub struct SongChord {
    pos: SongPosition,
    chord: Chord,
}

impl Positionable for SongChord {
    closed spec fn spec_position(&self) -> SongPosition {
        self.pos
    }

    fn get_position(&self) -> (r: &SongPosition) {
        &self.pos
    }
}

impl SongChord {
    pub closed spec fn spec_chord(&self) -> Chord {
        self.chord
    }

    /// Place `chord` at the instant `tick`.
    pub fn new(tick: u64, chord: Chord) -> (r: Self)
        ensures
            r.spec_position().spec_ticks_on() == tick,
            r.spec_position().spec_ticks_off() is None,
            r.spec_chord() == chord,
    {
        SongChord { pos: SongPosition::new(tick), chord }
    }
}

} // verus!
