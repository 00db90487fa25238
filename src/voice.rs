//! One sounding instance of a pitch, and the phase it is in at a given time.
use vstd::prelude::*;
use crate::pitch::StdScale;
use crate::waveform::{Waveform, FADE_IN_MS};

verus! {

/// Where a voice stands in its life at some instant.
#[derive(Debug, Clone, Copy, PartialEq, Eq, Structural)]
pub enum VoicePhase {
    /// The fade-in is still raising the amplitude.
    Starting,
    /// Full amplitude, until a stop or the end of the sustain.
    Sustaining,
    /// The sustain has run out: the voice is silent for good.
    Stopped,
}

/// One voice: a pitch played with a shape from a start instant, for a
/// bounded sustain or until it is stopped, through an output handle.
///
/// Times are milliseconds on the caller's clock, which never runs back.
pub struct Voice<H> {
    pub pitch: StdScale,
    pub wave: Waveform,
    pub started_ms: u64,
    /// `None` holds the voice until an explicit stop.
    pub sustain_ms: Option<u64>,
    /// The output channel that carries the voice's samples.
    pub handle: H,
}

impl<H> Voice<H> {
    /// Time since the start, counted as zero before it.
    pub open spec fn elapsed(self, now_ms: u64) -> int {
        if now_ms >= self.started_ms {
            now_ms - self.started_ms
        } else {
            0
        }
    }

    /// The voice still sounds at `now_ms`: it is unbounded, or its sustain
    /// has not run out yet.
    pub open spec fn sounding(self, now_ms: u64) -> bool {
        match self.sustain_ms {
            None => true,
            Some(d) => self.elapsed(now_ms) < d,
        }
    }

    pub open spec fn spec_phase(self, now_ms: u64) -> VoicePhase {
        if !self.sounding(now_ms) {
            VoicePhase::Stopped
        } else if self.elapsed(now_ms) < FADE_IN_MS {
            VoicePhase::Starting
        } else {
            VoicePhase::Sustaining
        }
    }

    /// Whether the voice still sounds at `now_ms`.
    pub fn is_sounding(&self, now_ms: u64) -> (r: bool)
        ensures
            r == self.sounding(now_ms),
    {
        match self.sustain_ms {
            None => true,
            Some(d) => if now_ms >= self.started_ms {
                now_ms - self.started_ms < d
            } else {
                0 < d
            },
        }
    }

    /// The phase of the voice at `now_ms`.
    pub fn phase(&self, now_ms: u64) -> (r: VoicePhase)
        ensures
            r == self.spec_phase(now_ms),
    {
        if !self.is_sounding(now_ms) {
            VoicePhase::Stopped
        } else if now_ms < self.started_ms || now_ms - self.started_ms < FADE_IN_MS {
            VoicePhase::Starting
        } else {
            VoicePhase::Sustaining
        }
    }
}

/// A voice that has stopped sounding stays silent at every later instant.
pub proof fn lemma_silence_is_final<H>(v: Voice<H>, t1: u64, t2: u64)
    requires
        t1 <= t2,
        !v.sounding(t1),
    ensures
        !v.sounding(t2),
        v.spec_phase(t2) == VoicePhase::Stopped,
{
}

} // verus!
