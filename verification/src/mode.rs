//! Symbolic key and mode selection.
//!
//! One seven-letter enumeration serves two distinct roles, through two
//! distinct lookup tables: as a tonic letter it names a semitone offset above
//! the reference pitch A (`to_skip`), and as a mode it names a rotation of
//! the diatonic interval pattern (`to_usize`). The two tables are deliberate
//! separate functions; neither is derivable from the other.

use vstd::prelude::*;

verus! {

/// Medieval mode, and at the same time a tonic letter. Used for [`Key`].
#[derive(Clone, Copy, Debug, PartialEq, Eq)]
pub enum Mode {
    /// Hypodorian
    A,
    /// Hypophrygian
    B,
    /// Hypolydian
    C,
    /// Dorian
    D,
    /// Phrygian
    E,
    /// Lydian
    F,
    /// Mixolydian
    G,
}

impl Mode {
    /// Semitone offset of this letter's natural pitch above the reference A.
    pub open spec fn semitone_offset(self) -> int {
        match self {
            Mode::A => 0,
            Mode::B => 2,
            Mode::C => 3,
            Mode::D => 5,
            Mode::E => 7,
            Mode::F => 8,
            Mode::G => 10,
        }
    }

    /// Rotation of this mode in the diatonic pattern cycle: 0 is Ionian,
    /// 1 Dorian, and so on to 6, Locrian.
    pub open spec fn rotation(self) -> int {
        match self {
            Mode::A => 0,
            Mode::B => 1,
            Mode::C => 2,
            Mode::D => 3,
            Mode::E => 4,
            Mode::F => 5,
            Mode::G => 6,
        }
    }

    /// Tonic table: how many chromatic steps of a 12-tone stream seeded at
    /// the reference A to skip to reach this letter's natural pitch.
    pub fn to_skip(&self) -> (r: usize)
        ensures
            r == self.semitone_offset(),
            r <= 10,
    {
        match self {
            Mode::A => 0,
            Mode::B => 2,
            Mode::C => 3,
            Mode::D => 5,
            Mode::E => 7,
            Mode::F => 8,
            Mode::G => 10,
        }
    }

    /// Mode table: the rotation index of this mode, always below 7.
    pub fn to_usize(&self) -> (r: usize)
        ensures
            r == self.rotation(),
            r < 7,
    {
        match self {
            Mode::A => 0,
            Mode::B => 1,
            Mode::C => 2,
            Mode::D => 3,
            Mode::E => 4,
            Mode::F => 5,
            Mode::G => 6,
        }
    }

    /// The mode with the given rotation index: defined exactly for `n < 7`.
    pub fn from_usize(n: usize) -> (r: Option<Mode>)
        ensures
            n < 7 ==> (r matches Some(m) && m.rotation() == n),
            n >= 7 ==> r is None,
    {
        match n {
            0 => Some(Mode::A),
            1 => Some(Mode::B),
            2 => Some(Mode::C),
            3 => Some(Mode::D),
            4 => Some(Mode::E),
            5 => Some(Mode::F),
            6 => Some(Mode::G),
            _ => None,
        }
    }
}

impl Default for Mode {
    /// The default mode is A, rotation 0.
    fn default() -> (r: Self)
        ensures
            r == Mode::A,
    {
        Mode::A
    }
}

/// A key: a tonic letter and a sharp flag. Constructed once and consumed to
/// place the starting pitch of a scale.
pub struct Key {
    note: Mode,
    sharp: bool,
}

impl Key {
    /// The tonic letter.
    pub closed spec fn note(self) -> Mode {
        self.note
    }

    /// Whether the tonic is raised a semitone.
    pub closed spec fn sharp(self) -> bool {
        self.sharp
    }

    /// Pitch class of the tonic: semitones above the reference A, below 12.
    pub open spec fn pitch_class(self) -> int {
        self.note().semitone_offset() + if self.sharp() {
            1int
        } else {
            0int
        }
    }

    /// Makes a key from a tonic letter and a sharp flag.
    pub fn new(note: Mode, sharp: bool) -> (r: Self)
        ensures
            r.note() == note,
            r.sharp() == sharp,
    {
        Key { note, sharp }
    }

    /// Semitones of the tonic above the reference A.
    pub fn semitones(&self) -> (r: u32)
        ensures
            r == self.pitch_class(),
            r < 12,
    {
        self.note.to_skip() as u32 + if self.sharp {
            1
        } else {
            0
        }
    }
}

impl Default for Key {
    /// The default key is A natural.
    fn default() -> (r: Self)
        ensures
            r.note() == Mode::A,
            !r.sharp(),
    {
        Key { note: Mode::A, sharp: false }
    }
}

} // verus!
