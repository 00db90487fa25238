//! The note manager: one slot per pitch, each holding at most one voice.
//!
//! Starting a pitch puts a fresh voice in its slot and hands back the voice
//! it displaced; stopping a pitch empties its slot and hands back what was
//! there. Handing back is how the caller learns which output to silence:
//! the manager owns the mapping, the caller owns the audio device.
use vstd::prelude::*;
use crate::pitch::{StdScale, PITCH_COUNT};
use crate::voice::Voice;
use crate::waveform::Waveform;

verus! {

/// Every slot of `s` that holds a voice holds one for its own pitch.
pub open spec fn slots_wf<H>(s: Seq<Option<Voice<H>>>) -> bool {
    &&& s.len() == PITCH_COUNT
    &&& forall|i: int| 0 <= i < s.len() && #[trigger] s[i] is Some ==> s[i]->0.pitch.ordinal() == i
}

/// The voice registered for pitch `p`, if any.
pub open spec fn voice_for<H>(s: Seq<Option<Voice<H>>>, p: StdScale) -> Option<Voice<H>> {
    s[p.ordinal()]
}

/// The positions of `s` that hold a voice for pitch `p`.
pub open spec fn slots_for<H>(s: Seq<Option<Voice<H>>>, p: StdScale) -> Set<int> {
    Set::new(|i: int| 0 <= i < s.len() && s[i] is Some && s[i]->0.pitch == p)
}

/// Pitch `p` has a voice registered that still sounds at `now_ms`.
pub open spec fn active_in<H>(s: Seq<Option<Voice<H>>>, p: StdScale, now_ms: u64) -> bool {
    match voice_for(s, p) {
        Some(v) => v.sounding(now_ms),
        None => false,
    }
}

/// The slots after `v` is registered, in place of whatever its pitch held.
pub open spec fn with_voice<H>(s: Seq<Option<Voice<H>>>, v: Voice<H>) -> Seq<Option<Voice<H>>> {
    s.update(v.pitch.ordinal(), Some(v))
}

/// The slots after pitch `p` is emptied.
pub open spec fn without_pitch<H>(s: Seq<Option<Voice<H>>>, p: StdScale) -> Seq<Option<Voice<H>>> {
    s.update(p.ordinal(), None)
}

/// Keeps track of the voice sounding for each pitch. `H` is the handle of
/// the output channel that carries a voice's samples.
pub struct AudioManager<H> {
    notes: Vec<Option<Voice<H>>>,
}

impl<H> View for AudioManager<H> {
    type V = Seq<Option<Voice<H>>>;

    closed spec fn view(&self) -> Seq<Option<Voice<H>>> {
        self.notes@
    }
}

impl<H> AudioManager<H> {
    pub open spec fn wf(&self) -> bool {
        slots_wf(self@)
    }

    /// A manager with no voice registered.
    pub fn new() -> (r: Self)
        ensures
            r.wf(),
            forall|p: StdScale| #[trigger] voice_for(r@, p) is None,
            forall|i: int| 0 <= i < r@.len() ==> #[trigger] r@[i] is None,
    {
        let mut notes: Vec<Option<Voice<H>>> = Vec::new();
        let mut i: usize = 0;
        while i < PITCH_COUNT
            invariant
                i <= PITCH_COUNT,
                notes@.len() == i,
                forall|j: int| 0 <= j < i ==> #[trigger] notes@[j] is None,
            decreases PITCH_COUNT - i,
        {
            notes.push(None);
            i = i + 1;
        }
        let r = AudioManager { notes };
        assert forall|p: StdScale| #[trigger] voice_for(r@, p) is None by {
            crate::pitch::lemma_ordinal_injective(p, p);
        }
        r
    }

    /// Whether `note` has a voice that still sounds at `now_ms`.
    pub fn is_note_playing(&self, note: &StdScale, now_ms: u64) -> (r: bool)
        requires
            self.wf(),
        ensures
            r == active_in(self@, *note, now_ms),
    {
        match &self.notes[note.index()] {
            Some(v) => v.is_sounding(now_ms),
            None => false,
        }
    }

    /// The shape that `note` sounds with at `now_ms`, if it sounds.
    pub fn active_waveform(&self, note: &StdScale, now_ms: u64) -> (r: Option<Waveform>)
        requires
            self.wf(),
        ensures
            r == (if active_in(self@, *note, now_ms) {
                Some(voice_for(self@, *note)->0.wave)
            } else {
                None
            }),
    {
        match &self.notes[note.index()] {
            Some(v) => if v.is_sounding(now_ms) {
                Some(v.wave)
            } else {
                None
            },
            None => None,
        }
    }

    /// Registers a fresh voice for `note`, played with `wave_type` (a sine
    /// when none is given) from `now_ms`, for `sustain_ms` or until stopped,
    /// through `handle`. Returns the voice it replaced, which the caller
    /// must silence.
    pub fn start_note(
        &mut self,
        note: StdScale,
        wave_type: Option<Waveform>,
        sustain_ms: Option<u64>,
        now_ms: u64,
        handle: H,
    ) -> (replaced: Option<Voice<H>>)
        requires
            old(self).wf(),
        ensures
            final(self).wf(),
            final(self)@ == with_voice(
                old(self)@,
                (Voice {
                    pitch: note,
                    wave: wave_type.unwrap_or(Waveform::Sine),
                    started_ms: now_ms,
                    sustain_ms,
                    handle,
                }),
            ),
            replaced == voice_for(old(self)@, note),
    {
        let wave = wave_type.unwrap_or(Waveform::Sine);
        let i = note.index();
        let mut slot = Some(Voice { pitch: note, wave, started_ms: now_ms, sustain_ms, handle });
        std::mem::swap(&mut self.notes[i], &mut slot);
        slot
    }

    /// Removes the voice of `note`, if there is one, and returns it so the
    /// caller can silence it. With no voice registered this changes nothing.
    pub fn stop_note(&mut self, note: StdScale) -> (removed: Option<Voice<H>>)
        requires
            old(self).wf(),
        ensures
            final(self).wf(),
            final(self)@ == without_pitch(old(self)@, note),
            removed == voice_for(old(self)@, note),
    {
        let i = note.index();
        let mut slot: Option<Voice<H>> = None;
        std::mem::swap(&mut self.notes[i], &mut slot);
        slot
    }
}

/// At every instant, a well-formed manager holds at most one voice for any
/// pitch, and exactly one when that pitch is registered.
pub proof fn lemma_one_voice_per_pitch<H>(m: AudioManager<H>, p: StdScale)
    requires
        m.wf(),
    ensures
        slots_for(m@, p).finite(),
        slots_for(m@, p).len() <= 1,
        slots_for(m@, p).len() == 1 <==> voice_for(m@, p) is Some,
{
    let s = m@;
    crate::pitch::lemma_ordinal_injective(p, p);
    assert forall|i: int| #[trigger] slots_for(s, p).contains(i) implies i == p.ordinal() by {
        crate::pitch::lemma_ordinal_injective(s[i]->0.pitch, p);
    }
    if voice_for(s, p) is Some {
        assert(slots_for(s, p) =~= set![p.ordinal()]);
    } else {
        assert(slots_for(s, p) =~= Set::<int>::empty());
    }
}

/// Starting a pitch a second time leaves exactly one voice for it, the
/// second, and the second start hands back the first voice to be silenced.
pub proof fn lemma_restart_replaces<H>(m: AudioManager<H>, first: Voice<H>, second: Voice<H>)
    requires
        m.wf(),
        first.pitch == second.pitch,
    ensures
        ({
            let after_first = with_voice(m@, first);
            let after_second = with_voice(after_first, second);
            &&& slots_wf(after_second)
            &&& voice_for(after_first, second.pitch) == Some(first)
            &&& voice_for(after_second, second.pitch) == Some(second)
            &&& slots_for(after_second, second.pitch) == set![second.pitch.ordinal()]
        }),
{
    let p = second.pitch;
    let after_first = with_voice(m@, first);
    let after_second = with_voice(after_first, second);
    crate::pitch::lemma_ordinal_injective(p, p);
    assert forall|i: int| #[trigger] slots_for(after_second, p).contains(i) implies i
        == p.ordinal() by {
        if i != p.ordinal() {
            crate::pitch::lemma_ordinal_injective(m@[i]->0.pitch, p);
        }
    }
    assert(slots_for(after_second, p) =~= set![p.ordinal()]);
}

/// Stopping a pitch that has no voice leaves the manager as it was; stopping
/// one whose voice has already fallen silent changes what sounds at no later
/// instant, for any pitch.
pub proof fn lemma_stop_inactive_is_noop<H>(m: AudioManager<H>, p: StdScale, now_ms: u64)
    requires
        m.wf(),
        !active_in(m@, p, now_ms),
    ensures
        voice_for(m@, p) is None ==> without_pitch(m@, p) == m@,
        forall|q: StdScale, t: u64|
            t >= now_ms ==> #[trigger] active_in(without_pitch(m@, p), q, t) == active_in(m@, q, t),
{
    crate::pitch::lemma_ordinal_injective(p, p);
    if voice_for(m@, p) is None {
        assert(without_pitch(m@, p) =~= m@);
    }
    assert forall|q: StdScale, t: u64|
        t >= now_ms implies #[trigger] active_in(without_pitch(m@, p), q, t) == active_in(m@, q, t) by {
        crate::pitch::lemma_ordinal_injective(p, q);
        if q == p {
            if let Some(v) = voice_for(m@, p) {
                crate::voice::lemma_silence_is_final(v, now_ms, t);
            }
        }
    }
}

/// A voice started with a sustain no longer sounds once more than that
/// sustain has passed, with no other call in between.
pub proof fn lemma_sustain_expires<H>(m: AudioManager<H>, v: Voice<H>, t: u64)
    requires
        m.wf(),
        v.sustain_ms is Some,
        t > v.started_ms + v.sustain_ms->0,
    ensures
        !active_in(with_voice(m@, v), v.pitch, t),
{
    crate::pitch::lemma_ordinal_injective(v.pitch, v.pitch);
}

/// A voice started without a sustain sounds at every instant, whatever is
/// started or stopped on other pitches, until its own pitch is stopped.
pub proof fn lemma_unbounded_holds<H>(m: AudioManager<H>, v: Voice<H>, other: Voice<H>, t: u64)
    requires
        m.wf(),
        v.sustain_ms is None,
        other.pitch != v.pitch,
    ensures
        active_in(with_voice(m@, v), v.pitch, t),
        active_in(with_voice(with_voice(m@, v), other), v.pitch, t),
        active_in(without_pitch(with_voice(m@, v), other.pitch), v.pitch, t),
        !active_in(without_pitch(with_voice(m@, v), v.pitch), v.pitch, t),
{
    crate::pitch::lemma_ordinal_injective(v.pitch, v.pitch);
    crate::pitch::lemma_ordinal_injective(v.pitch, other.pitch);
}

} // verus!
