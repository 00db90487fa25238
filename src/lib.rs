//! Voice management for a small two-octave synthesizer keyboard.
//!
//! The library decides which voice sounds for which pitch; the audio
//! device, the sample generators and the window live around it.
pub mod keyboard;
pub mod pitch;
pub mod registry;
pub mod voice;
pub mod waveform;

pub use keyboard::{key_to_note, KeyType};
pub use pitch::StdScale;
pub use registry::AudioManager;
pub use voice::{Voice, VoicePhase};
pub use waveform::Waveform;
