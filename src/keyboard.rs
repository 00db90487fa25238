//! How the on-screen and computer keyboards map onto pitches.
use vstd::prelude::*;
use crate::pitch::StdScale;

verus! {

/// Colour of a piano key: natural notes are white, sharps and flats black.
#[derive(Debug, Clone, Copy, PartialEq, Eq, Structural)]
pub enum KeyType {
    White,
    Black,
}

impl KeyType {
    pub open spec fn class_view(self) -> Seq<char> {
        match self {
            KeyType::White => "key"@,
            KeyType::Black => "key-sharp"@,
        }
    }

    /// Style class under which a key of this colour is drawn.
    pub fn class(&self) -> (r: &'static str)
        ensures
            r@ == self.class_view(),
    {
        match self {
            KeyType::White => "key",
            KeyType::Black => "key-sharp",
        }
    }
}

/// The pitch that a single typed character plays. The home row plays the
/// naturals from C4 to D5, the row above it the sharps and flats between.
pub open spec fn note_for_char(c: char) -> Option<StdScale> {
    match c {
        'a' => Some(StdScale::C4),
        's' => Some(StdScale::D4),
        'd' => Some(StdScale::E4),
        'f' => Some(StdScale::F4),
        'g' => Some(StdScale::G4),
        'h' => Some(StdScale::A4),
        'j' => Some(StdScale::B4),
        'k' => Some(StdScale::C5),
        'l' => Some(StdScale::D5),
        'w' => Some(StdScale::CSharp4),
        'e' => Some(StdScale::DSharp4),
        't' => Some(StdScale::FSharp4),
        'y' => Some(StdScale::GSharp4),
        'u' => Some(StdScale::BFlat4),
        _ => None,
    }
}

/// The pitch that a key's text plays: only a single mapped character plays one.
pub open spec fn note_for_key(key: Seq<char>) -> Option<StdScale> {
    if key.len() == 1 {
        note_for_char(key[0])
    } else {
        None
    }
}

/// The pitch played by the computer key whose text is `key`, if any.
pub fn key_to_note(key: &str) -> (r: Option<StdScale>)
    ensures
        r == note_for_key(key@),
{
    if key.unicode_len() != 1 {
        return None;
    }
    match key.get_char(0) {
        'a' => Some(StdScale::C4),
        's' => Some(StdScale::D4),
        'd' => Some(StdScale::E4),
        'f' => Some(StdScale::F4),
        'g' => Some(StdScale::G4),
        'h' => Some(StdScale::A4),
        'j' => Some(StdScale::B4),
        'k' => Some(StdScale::C5),
        'l' => Some(StdScale::D5),
        'w' => Some(StdScale::CSharp4),
        'e' => Some(StdScale::DSharp4),
        't' => Some(StdScale::FSharp4),
        'y' => Some(StdScale::GSharp4),
        'u' => Some(StdScale::BFlat4),
        _ => None,
    }
}

} // verus!
