//! The closed set of pitches the keyboard can play, and their frequencies.
use vstd::prelude::*;

verus! {

/// Number of pitches on the keyboard: two chromatic octaves, C4 up to B5.
pub const PITCH_COUNT: usize = 24;

/// One chromatic pitch between C4 and B5.
#[derive(Debug, Clone, Copy, PartialEq, Eq, Structural, Hash)]
pub enum StdScale {
    C4,
    CSharp4,
    D4,
    DSharp4,
    E4,
    F4,
    FSharp4,
    G4,
    GSharp4,
    A4,
    BFlat4,
    B4,
    C5,
    CSharp5,
    D5,
    DSharp5,
    E5,
    F5,
    FSharp5,
    G5,
    GSharp5,
    A5,
    BFlat5,
    B5,
}

impl StdScale {
    /// Position of the pitch on the keyboard, counted in semitones from C4.
    pub open spec fn ordinal(self) -> int {
        match self {
            StdScale::C4 => 0,
            StdScale::CSharp4 => 1,
            StdScale::D4 => 2,
            StdScale::DSharp4 => 3,
            StdScale::E4 => 4,
            StdScale::F4 => 5,
            StdScale::FSharp4 => 6,
            StdScale::G4 => 7,
            StdScale::GSharp4 => 8,
            StdScale::A4 => 9,
            StdScale::BFlat4 => 10,
            StdScale::B4 => 11,
            StdScale::C5 => 12,
            StdScale::CSharp5 => 13,
            StdScale::D5 => 14,
            StdScale::DSharp5 => 15,
            StdScale::E5 => 16,
            StdScale::F5 => 17,
            StdScale::FSharp5 => 18,
            StdScale::G5 => 19,
            StdScale::GSharp5 => 20,
            StdScale::A5 => 21,
            StdScale::BFlat5 => 22,
            StdScale::B5 => 23,
        }
    }

    /// Fundamental frequency in hundredths of a hertz (A4 is 440 Hz).
    pub open spec fn centihertz(self) -> u32 {
        match self {
            StdScale::C4 => 26163,
            StdScale::CSharp4 => 27718,
            StdScale::D4 => 29366,
            StdScale::DSharp4 => 31113,
            StdScale::E4 => 32963,
            StdScale::F4 => 34923,
            StdScale::FSharp4 => 36999,
            StdScale::G4 => 39200,
            StdScale::GSharp4 => 41530,
            StdScale::A4 => 44000,
            StdScale::BFlat4 => 46616,
            StdScale::B4 => 49388,
            StdScale::C5 => 52325,
            StdScale::CSharp5 => 55437,
            StdScale::D5 => 58733,
            StdScale::DSharp5 => 62225,
            StdScale::E5 => 65925,
            StdScale::F5 => 69846,
            StdScale::FSharp5 => 73999,
            StdScale::G5 => 78399,
            StdScale::GSharp5 => 83061,
            StdScale::A5 => 88000,
            StdScale::BFlat5 => 93233,
            StdScale::B5 => 98777,
        }
    }

    /// The name shown on the key: a letter, an accidental, an octave.
    pub open spec fn name_view(self) -> Seq<char> {
        match self {
            StdScale::C4 => "C4"@,
            StdScale::CSharp4 => "C#4"@,
            StdScale::D4 => "D4"@,
            StdScale::DSharp4 => "D#4"@,
            StdScale::E4 => "E4"@,
            StdScale::F4 => "F4"@,
            StdScale::FSharp4 => "F#4"@,
            StdScale::G4 => "G4"@,
            StdScale::GSharp4 => "G#4"@,
            StdScale::A4 => "A4"@,
            StdScale::BFlat4 => "Bb4"@,
            StdScale::B4 => "B4"@,
            StdScale::C5 => "C5"@,
            StdScale::CSharp5 => "C#5"@,
            StdScale::D5 => "D5"@,
            StdScale::DSharp5 => "D#5"@,
            StdScale::E5 => "E5"@,
            StdScale::F5 => "F5"@,
            StdScale::FSharp5 => "F#5"@,
            StdScale::G5 => "G5"@,
            StdScale::GSharp5 => "G#5"@,
            StdScale::A5 => "A5"@,
            StdScale::BFlat5 => "Bb5"@,
            StdScale::B5 => "B5"@,
        }
    }

    /// Position of the pitch on the keyboard; distinct pitches have distinct positions.
    pub fn index(&self) -> (r: usize)
        ensures
            r as int == self.ordinal(),
            r < PITCH_COUNT,
    {
        match self {
            StdScale::C4 => 0,
            StdScale::CSharp4 => 1,
            StdScale::D4 => 2,
            StdScale::DSharp4 => 3,
            StdScale::E4 => 4,
            StdScale::F4 => 5,
            StdScale::FSharp4 => 6,
            StdScale::G4 => 7,
            StdScale::GSharp4 => 8,
            StdScale::A4 => 9,
            StdScale::BFlat4 => 10,
            StdScale::B4 => 11,
            StdScale::C5 => 12,
            StdScale::CSharp5 => 13,
            StdScale::D5 => 14,
            StdScale::DSharp5 => 15,
            StdScale::E5 => 16,
            StdScale::F5 => 17,
            StdScale::FSharp5 => 18,
            StdScale::G5 => 19,
            StdScale::GSharp5 => 20,
            StdScale::A5 => 21,
            StdScale::BFlat5 => 22,
            StdScale::B5 => 23,
        }
    }

    /// Fundamental frequency of the pitch, in hundredths of a hertz.
    pub fn frequency(&self) -> (r: u32)
        ensures
            r == self.centihertz(),
            r > 0,
    {
        match self {
            StdScale::C4 => 26163,
            StdScale::CSharp4 => 27718,
            StdScale::D4 => 29366,
            StdScale::DSharp4 => 31113,
            StdScale::E4 => 32963,
            StdScale::F4 => 34923,
            StdScale::FSharp4 => 36999,
            StdScale::G4 => 39200,
            StdScale::GSharp4 => 41530,
            StdScale::A4 => 44000,
            StdScale::BFlat4 => 46616,
            StdScale::B4 => 49388,
            StdScale::C5 => 52325,
            StdScale::CSharp5 => 55437,
            StdScale::D5 => 58733,
            StdScale::DSharp5 => 62225,
            StdScale::E5 => 65925,
            StdScale::F5 => 69846,
            StdScale::FSharp5 => 73999,
            StdScale::G5 => 78399,
            StdScale::GSharp5 => 83061,
            StdScale::A5 => 88000,
            StdScale::BFlat5 => 93233,
            StdScale::B5 => 98777,
        }
    }

    /// The pitch's name for display, such as "C#4" or "Bb5".
    pub fn display_name(&self) -> (r: String)
        ensures
            r@ == self.name_view(),
    {
        let s: &str = match self {
            StdScale::C4 => "C4",
            StdScale::CSharp4 => "C#4",
            StdScale::D4 => "D4",
            StdScale::DSharp4 => "D#4",
            StdScale::E4 => "E4",
            StdScale::F4 => "F4",
            StdScale::FSharp4 => "F#4",
            StdScale::G4 => "G4",
            StdScale::GSharp4 => "G#4",
            StdScale::A4 => "A4",
            StdScale::BFlat4 => "Bb4",
            StdScale::B4 => "B4",
            StdScale::C5 => "C5",
            StdScale::CSharp5 => "C#5",
            StdScale::D5 => "D5",
            StdScale::DSharp5 => "D#5",
            StdScale::E5 => "E5",
            StdScale::F5 => "F5",
            StdScale::FSharp5 => "F#5",
            StdScale::G5 => "G5",
            StdScale::GSharp5 => "G#5",
            StdScale::A5 => "A5",
            StdScale::BFlat5 => "Bb5",
            StdScale::B5 => "B5",
        };
        s.to_owned()
    }
}

/// Distinct pitches stand at distinct keyboard positions, all below `PITCH_COUNT`.
pub proof fn lemma_ordinal_injective(p: StdScale, q: StdScale)
    ensures
        0 <= p.ordinal() < PITCH_COUNT,
        p.ordinal() == q.ordinal() ==> p == q,
{
}

} // verus!
