use keysynth::waveform::{FADE_IN_MS, GAIN_PERCENT};
use keysynth::{key_to_note, KeyType, StdScale, Waveform};

#[test]
fn frequency_table_reference_pitches() {
    assert_eq!(StdScale::A4.frequency(), 44000);
    assert_eq!(StdScale::A4.frequency() as f64 / 100.0, 440.0);
    assert_eq!(StdScale::C4.frequency(), 26163);
    assert!((StdScale::C4.frequency() as f64 / 100.0 - 261.63).abs() <= 0.01);
    assert_eq!(StdScale::A5.frequency(), 88000);
    assert_eq!(StdScale::B5.frequency(), 98777);
}

#[test]
fn frequency_index_ascend_together() {
    let pitches = [
        StdScale::C4,
        StdScale::CSharp4,
        StdScale::D4,
        StdScale::DSharp4,
        StdScale::E4,
        StdScale::F4,
        StdScale::FSharp4,
        StdScale::G4,
        StdScale::GSharp4,
        StdScale::A4,
        StdScale::BFlat4,
        StdScale::B4,
        StdScale::C5,
        StdScale::CSharp5,
        StdScale::D5,
        StdScale::DSharp5,
        StdScale::E5,
        StdScale::F5,
        StdScale::FSharp5,
        StdScale::G5,
        StdScale::GSharp5,
        StdScale::A5,
        StdScale::BFlat5,
        StdScale::B5,
    ];
    for (i, p) in pitches.iter().enumerate() {
        assert_eq!(p.index(), i);
        if i > 0 {
            assert!(pitches[i - 1].frequency() < p.frequency());
        }
    }
}

#[test]
fn pitch_display_names() {
    assert_eq!(StdScale::C4.display_name(), "C4");
    assert_eq!(StdScale::CSharp4.display_name(), "C#4");
    assert_eq!(StdScale::BFlat4.display_name(), "Bb4");
    assert_eq!(StdScale::GSharp5.display_name(), "G#5");
    assert_eq!(StdScale::B5.display_name(), "B5");
}

#[test]
fn waveform_names_and_cycle() {
    assert_eq!(Waveform::Sine.display_name(), "Sine");
    assert_eq!(Waveform::Saw.display_name(), "Saw");
    assert_eq!(Waveform::Triangle.display_name(), "Triangle");
    assert_eq!(Waveform::Square.display_name(), "Square");
    assert_eq!(Waveform::Sine.next(), Waveform::Saw);
    assert_eq!(Waveform::Saw.next(), Waveform::Triangle);
    assert_eq!(Waveform::Triangle.next(), Waveform::Square);
    assert_eq!(Waveform::Square.next(), Waveform::Sine);
}

#[test]
fn envelope_constants() {
    assert_eq!(FADE_IN_MS, 10);
    assert_eq!(GAIN_PERCENT, 15);
}

#[test]
fn key_type_classes() {
    assert_eq!(KeyType::White.class(), "key");
    assert_eq!(KeyType::Black.class(), "key-sharp");
}

#[test]
fn home_row_keys_map_to_naturals() {
    assert_eq!(key_to_note("a"), Some(StdScale::C4));
    assert_eq!(key_to_note("s"), Some(StdScale::D4));
    assert_eq!(key_to_note("d"), Some(StdScale::E4));
    assert_eq!(key_to_note("f"), Some(StdScale::F4));
    assert_eq!(key_to_note("g"), Some(StdScale::G4));
    assert_eq!(key_to_note("h"), Some(StdScale::A4));
    assert_eq!(key_to_note("j"), Some(StdScale::B4));
    assert_eq!(key_to_note("k"), Some(StdScale::C5));
    assert_eq!(key_to_note("l"), Some(StdScale::D5));
}

#[test]
fn upper_row_keys_map_to_accidentals() {
    assert_eq!(key_to_note("w"), Some(StdScale::CSharp4));
    assert_eq!(key_to_note("e"), Some(StdScale::DSharp4));
    assert_eq!(key_to_note("t"), Some(StdScale::FSharp4));
    assert_eq!(key_to_note("y"), Some(StdScale::GSharp4));
    assert_eq!(key_to_note("u"), Some(StdScale::BFlat4));
}

#[test]
fn unmapped_keys_play_nothing() {
    assert_eq!(key_to_note(""), None);
    assert_eq!(key_to_note("A"), None);
    assert_eq!(key_to_note("r"), None);
    assert_eq!(key_to_note("aa"), None);
    assert_eq!(key_to_note("\u{e9}"), None);
    assert_eq!(key_to_note(" "), None);
}

#[test]
fn default_waveform_is_sine() {
    assert_eq!(Waveform::default(), Waveform::Sine);
}
