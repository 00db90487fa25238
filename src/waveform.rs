//! The four periodic shapes a voice can play, and the envelope they share.
use vstd::prelude::*;

verus! {

/// Length of the fade-in that opens every voice, in milliseconds.
pub const FADE_IN_MS: u64 = 10;

/// Output gain shared by every shape, in hundredths of full scale.
pub const GAIN_PERCENT: u32 = 15;

/// Shape of the periodic signal a voice plays.
#[derive(Debug, Clone, Copy, PartialEq, Eq, Structural, Hash)]
pub enum Waveform {
    Sine,
    Saw,
    Triangle,
    Square,
}

impl Waveform {
    /// The shape's name for display.
    pub open spec fn name_view(self) -> Seq<char> {
        match self {
            Waveform::Sine => "Sine"@,
            Waveform::Saw => "Saw"@,
            Waveform::Triangle => "Triangle"@,
            Waveform::Square => "Square"@,
        }
    }

    /// The shape after this one in the cycle Sine, Saw, Triangle, Square, Sine.
    pub open spec fn spec_next(self) -> Waveform {
        match self {
            Waveform::Sine => Waveform::Saw,
            Waveform::Saw => Waveform::Triangle,
            Waveform::Triangle => Waveform::Square,
            Waveform::Square => Waveform::Sine,
        }
    }

    /// The shape's name for display, such as "Sine".
    pub fn display_name(&self) -> (r: String)
        ensures
            r@ == self.name_view(),
    {
        let s: &str = match self {
            Waveform::Sine => "Sine",
            Waveform::Saw => "Saw",
            Waveform::Triangle => "Triangle",
            Waveform::Square => "Square",
        };
        s.to_owned()
    }

    /// The next shape in the cycle that a selector button steps through.
    pub fn next(&self) -> (r: Waveform)
        ensures
            r == self.spec_next(),
    {
        match self {
            Waveform::Sine => Waveform::Saw,
            Waveform::Saw => Waveform::Triangle,
            Waveform::Triangle => Waveform::Square,
            Waveform::Square => Waveform::Sine,
        }
    }
}

impl Default for Waveform {
    /// A note started without a shape plays a sine.
    fn default() -> (r: Waveform)
        ensures
            r == Waveform::Sine,
    {
        Waveform::Sine
    }
}

/// Stepping through the cycle visits every shape and is back after four steps.
pub proof fn lemma_next_cycles(w: Waveform)
    ensures
        w.spec_next().spec_next().spec_next().spec_next() == w,
        w.spec_next() != w,
        w.spec_next().spec_next() != w,
        w.spec_next().spec_next().spec_next() != w,
{
}

} // verus!
