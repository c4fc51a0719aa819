use vstd::prelude::*;

use crate::filter::FilterHistory;
use crate::level::Level;
use crate::note::{lemma_applied_all_concat, NoteEvent, NoteState};
use crate::smoother::SmoothedValue;

verus! {

/// The state that the audio thread carries from block to block: the three
/// parameter ramps, the note and its envelope, and the filter history.
///
/// Cadences are fixed here: cutoff and resonance advance once per block (in
/// `begin_block`), gain and the envelope once per sample.
#[derive(Clone, Copy, Debug)]
pub struct SignalPath {
    pub gain: SmoothedValue,
    pub cutoff: SmoothedValue,
    pub resonance: SmoothedValue,
    pub note: NoteState,
    pub history: FilterHistory,
    /// Length in samples of an envelope ramp at the current sample rate.
    pub envelope_steps: u32,
}

impl SignalPath {
    pub open spec fn wf(self) -> bool {
        &&& self.gain.wf()
        &&& self.cutoff.wf()
        &&& self.resonance.wf()
        &&& self.note.wf()
    }

    /// The path after `reset`: note, envelope and filter history are cleared;
    /// the parameter ramps and the ramp length belong to the parameters and
    /// are kept.
    pub open spec fn reset_spec(self) -> SignalPath {
        SignalPath {
            note: NoteState::silent_spec(),
            history: FilterHistory::zeroed_spec(),
            ..self
        }
    }

    /// A path at rest: parameter ramps resting at the given values, no note,
    /// silent history.
    pub fn new(gain: Level, cutoff: Level, resonance: Level, envelope_steps: u32) -> (r: SignalPath)
        ensures
            r.wf(),
            r.gain == SmoothedValue::new_spec(gain),
            r.cutoff == SmoothedValue::new_spec(cutoff),
            r.resonance == SmoothedValue::new_spec(resonance),
            r.note == NoteState::silent_spec(),
            r.history == FilterHistory::zeroed_spec(),
            r.envelope_steps == envelope_steps,
    {
        SignalPath {
            gain: SmoothedValue::new(gain),
            cutoff: SmoothedValue::new(cutoff),
            resonance: SmoothedValue::new(resonance),
            note: NoteState::silent(),
            history: FilterHistory::new(),
            envelope_steps,
        }
    }

    /// Sets the envelope ramp length for a new sample rate.
    pub fn set_envelope_steps(&mut self, steps: u32)
        ensures
            *final(self) == (SignalPath { envelope_steps: steps, ..*old(self) }),
    {
        self.envelope_steps = steps;
    }

    /// Clears everything transient: the note, its envelope, the filter history.
    pub fn reset(&mut self)
        ensures
            *final(self) == old(self).reset_spec(),
            final(self).gain == old(self).gain,
            final(self).cutoff == old(self).cutoff,
            final(self).resonance == old(self).resonance,
            final(self).envelope_steps == old(self).envelope_steps,
            final(self).note == NoteState::silent_spec(),
            final(self).history.is_zeroed(),
    {
        self.note.reset();
        self.history.reset();
    }

    /// Opens a block. When bypassed nothing is touched and `None` comes back:
    /// the caller leaves the buffer as it is. Otherwise cutoff and resonance
    /// take their one step of this block (`cutoff_step` and `resonance_step`
    /// being the next points of their ramps), and the values for this block's
    /// filter coefficients come back.
    pub fn begin_block(&mut self, bypass: bool, cutoff_step: Level, resonance_step: Level) -> (r: Option<(Level, Level)>)
        requires
            old(self).wf(),
        ensures
            final(self).wf(),
            bypass ==> r.is_none() && *final(self) == *old(self),
            !bypass ==> r == Some((final(self).cutoff.current, final(self).resonance.current))
                && *final(self) == (SignalPath {
                    cutoff: old(self).cutoff.advanced(cutoff_step),
                    resonance: old(self).resonance.advanced(resonance_step),
                    ..*old(self)
                }),
    {
        if bypass {
            return None;
        }
        let c = self.cutoff.advance(cutoff_step);
        let q = self.resonance.advance(resonance_step);
        Some((c, q))
    }

    /// Before sample `sample` is generated: applies the note events that are
    /// due, from `cursor` on, and returns where the next sample resumes.
    pub fn begin_sample(&mut self, events: &Vec<NoteEvent>, cursor: usize, sample: u32) -> (r: usize)
        requires
            old(self).wf(),
            cursor <= events.len(),
        ensures
            final(self).wf(),
            cursor <= r <= events.len(),
            forall|j: int| cursor <= j < r ==> (#[trigger] events@[j]).timing_spec() <= sample,
            r == events.len() || events@[r as int].timing_spec() > sample,
            *final(self) == (SignalPath {
                note: old(self).note.applied_all(
                    events@.subrange(cursor as int, r as int),
                    old(self).envelope_steps,
                ),
                ..*old(self)
            }),
    {
        let steps = self.envelope_steps;
        self.note.drain_due(events, cursor, sample, steps)
    }

    /// The sample's step of the gain ramp and of the envelope; returns the
    /// gain and the envelope level for this sample.
    pub fn advance_sample(&mut self, gain_step: Level, envelope_step: Level) -> (r: (Level, Level))
        requires
            old(self).wf(),
        ensures
            final(self).wf(),
            *final(self) == (SignalPath {
                gain: old(self).gain.advanced(gain_step),
                note: NoteState {
                    envelope: old(self).note.envelope.advanced(envelope_step),
                    ..old(self).note
                },
                ..*old(self)
            }),
            r == (final(self).gain.current, final(self).note.envelope.current),
    {
        let g = self.gain.advance(gain_step);
        let e = self.note.envelope.advance(envelope_step);
        (g, e)
    }
}

/// Events whose timings never decrease.
pub open spec fn sorted_by_timing(events: Seq<NoteEvent>) -> bool {
    forall|a: int, b: int|
        0 <= a <= b < events.len() ==> (#[trigger] events[a]).timing_spec() <= (#[trigger] events[b]).timing_spec()
}

/// Sample accuracy: with events sorted by timing, once `begin_sample` has
/// run for a sample (from a cursor behind which every event was due), the
/// events consumed are exactly those due at or before that sample, and the
/// note state is the block's first state with exactly those applied in order.
pub proof fn lemma_dispatch_exact(
    start: NoteState,
    events: Seq<NoteEvent>,
    cursor: int,
    r: int,
    sample: u32,
    steps: u32,
)
    requires
        sorted_by_timing(events),
        0 <= cursor <= r <= events.len(),
        forall|j: int| 0 <= j < cursor ==> (#[trigger] events[j]).timing_spec() <= sample,
        forall|j: int| cursor <= j < r ==> (#[trigger] events[j]).timing_spec() <= sample,
        r == events.len() || events[r].timing_spec() > sample,
    ensures
        forall|j: int| 0 <= j < r ==> (#[trigger] events[j]).timing_spec() <= sample,
        forall|j: int| r <= j < events.len() ==> (#[trigger] events[j]).timing_spec() > sample,
        start.applied_all(events.subrange(0, cursor), steps).applied_all(events.subrange(cursor, r), steps)
            == start.applied_all(events.subrange(0, r), steps),
{
    assert forall|j: int| r <= j < events.len() implies (#[trigger] events[j]).timing_spec() > sample by {
        assert(events[r].timing_spec() <= events[j].timing_spec());
    }
    assert forall|j: int| 0 <= j < r implies (#[trigger] events[j]).timing_spec() <= sample by {
        if j < cursor {
        } else {
        }
    }
    lemma_applied_all_concat(start, events.subrange(0, cursor), events.subrange(cursor, r), steps);
    assert(events.subrange(0, cursor) + events.subrange(cursor, r) =~= events.subrange(0, r));
}

/// Determinism: after `reset`, two paths that agree on their parameters are
/// equal whatever they went through before, so the same events and the same
/// ramp points lead them to the same states and the same values.
pub proof fn lemma_reset_forgets(a: SignalPath, b: SignalPath, events: Seq<NoteEvent>)
    requires
        a.gain == b.gain,
        a.cutoff == b.cutoff,
        a.resonance == b.resonance,
        a.envelope_steps == b.envelope_steps,
    ensures
        a.reset_spec() == b.reset_spec(),
        a.reset_spec().note.applied_all(events, a.envelope_steps)
            == b.reset_spec().note.applied_all(events, b.envelope_steps),
{
}

} // verus!
