use vstd::prelude::*;

use crate::level::Level;
use crate::smoother::SmoothedValue;

verus! {

/// A decoded note event, stamped with the index of the sample within the
/// block at which it takes effect.
#[derive(Clone, Copy, Debug, PartialEq, Eq, Structural)]
pub enum NoteEvent {
    NoteOn { timing: u32, note: u8, velocity: Level },
    NoteOff { timing: u32, note: u8 },
    PolyPressure { timing: u32, note: u8, pressure: Level },
}

impl NoteEvent {
    pub open spec fn timing_spec(self) -> u32 {
        match self {
            NoteEvent::NoteOn { timing, .. } => timing,
            NoteEvent::NoteOff { timing, .. } => timing,
            NoteEvent::PolyPressure { timing, .. } => timing,
        }
    }

    /// The sample index at which the event takes effect.
    pub fn timing(&self) -> (r: u32)
        ensures
            r == self.timing_spec(),
    {
        match self {
            NoteEvent::NoteOn { timing, .. } => *timing,
            NoteEvent::NoteOff { timing, .. } => *timing,
            NoteEvent::PolyPressure { timing, .. } => *timing,
        }
    }
}

/// The one note that may sound, and the envelope that scales it.
///
/// `active_note == None` means that no note has been played since the last
/// reset; a released note keeps its id while its envelope falls to zero.
#[derive(Clone, Copy, Debug, PartialEq, Eq, Structural)]
pub struct NoteState {
    pub active_note: Option<u8>,
    pub envelope: SmoothedValue,
}

impl NoteState {
    pub open spec fn wf(self) -> bool {
        self.envelope.wf()
    }

    pub open spec fn silent_spec() -> NoteState {
        NoteState { active_note: None, envelope: SmoothedValue::new_spec(Level { bits: 0 }) }
    }

    /// The envelope after a ramp towards `target` of `steps` calls is started.
    pub open spec fn retargeted(self, target: Level, steps: u32) -> NoteState {
        NoteState {
            envelope: SmoothedValue {
                target,
                steps_left: steps,
                current: if steps == 0 { target } else { self.envelope.current },
            },
            ..self
        }
    }

    /// What one event does: a note-on takes over unconditionally (last-note
    /// priority); a note-off or a pressure change acts only on the active note.
    pub open spec fn applied(self, event: NoteEvent, steps: u32) -> NoteState {
        match event {
            NoteEvent::NoteOn { note, velocity, .. } => NoteState {
                active_note: Some(note),
                ..self.retargeted(velocity, steps)
            },
            NoteEvent::NoteOff { note, .. } => if self.active_note == Some(note) {
                self.retargeted(Level { bits: 0 }, steps)
            } else {
                self
            },
            NoteEvent::PolyPressure { note, pressure, .. } => if self.active_note == Some(note) {
                self.retargeted(pressure, steps)
            } else {
                self
            },
        }
    }

    /// The state after the events of `events`, in order.
    pub open spec fn applied_all(self, events: Seq<NoteEvent>, steps: u32) -> NoteState
        decreases events.len(),
    {
        if events.len() == 0 {
            self
        } else {
            self.applied(events[0], steps).applied_all(events.drop_first(), steps)
        }
    }

    /// No note, and an envelope resting at zero.
    pub fn silent() -> (r: NoteState)
        ensures
            r == NoteState::silent_spec(),
            r.wf(),
    {
        NoteState { active_note: None, envelope: SmoothedValue::new(Level::zero()) }
    }

    /// Forgets the note and drops the envelope to zero.
    pub fn reset(&mut self)
        ensures
            *final(self) == NoteState::silent_spec(),
    {
        self.active_note = None;
        self.envelope.reset(Level::zero());
    }

    /// Applies one event; `steps` is the length of the envelope ramp in
    /// samples at the current sample rate.
    pub fn apply(&mut self, event: &NoteEvent, steps: u32)
        requires
            old(self).wf(),
        ensures
            *final(self) == old(self).applied(*event, steps),
            final(self).wf(),
    {
        match event {
            NoteEvent::NoteOn { note, velocity, .. } => {
                self.active_note = Some(*note);
                self.envelope.set_target(*velocity, steps);
            },
            NoteEvent::NoteOff { note, .. } => {
                if self.active_note == Some(*note) {
                    self.envelope.set_target(Level::zero(), steps);
                }
            },
            NoteEvent::PolyPressure { note, pressure, .. } => {
                if self.active_note == Some(*note) {
                    self.envelope.set_target(*pressure, steps);
                }
            },
        }
    }

    /// Applies, in order, the events from `cursor` on that are due at or
    /// before sample `sample`, stopping at the first one that lies later.
    /// Returns the position of that event (or the length), where the next
    /// call resumes.
    pub fn drain_due(&mut self, events: &Vec<NoteEvent>, cursor: usize, sample: u32, steps: u32) -> (r: usize)
        requires
            old(self).wf(),
            cursor <= events.len(),
        ensures
            cursor <= r <= events.len(),
            forall|j: int| cursor <= j < r ==> (#[trigger] events@[j]).timing_spec() <= sample,
            r == events.len() || events@[r as int].timing_spec() > sample,
            *final(self) == old(self).applied_all(events@.subrange(cursor as int, r as int), steps),
            final(self).wf(),
    {
        let mut i: usize = cursor;
        while i < events.len() && events[i].timing() <= sample
            invariant
                cursor <= i <= events.len(),
                forall|j: int| cursor <= j < i ==> (#[trigger] events@[j]).timing_spec() <= sample,
                *self == old(self).applied_all(events@.subrange(cursor as int, i as int), steps),
                self.wf(),
            decreases events.len() - i,
        {
            let e = &events[i];
            proof {
                lemma_applied_all_push(*old(self), events@.subrange(cursor as int, i as int), *e, steps);
                assert(events@.subrange(cursor as int, i as int).push(*e) =~= events@.subrange(cursor as int, i + 1));
            }
            self.apply(e, steps);
            i = i + 1;
        }
        i
    }
}

/// Monophony with last-note priority: a note-on makes its note the active one
/// and aims the envelope at its velocity, whatever sounded before; a note-off
/// or a pressure change for any other note than the active one changes
/// nothing (in particular not the envelope's target).
pub proof fn lemma_only_active_note_responds(s: NoteState, event: NoteEvent, steps: u32)
    ensures
        event matches NoteEvent::NoteOn { note, velocity, .. } ==> s.applied(event, steps).active_note == Some(note)
            && s.applied(event, steps).envelope.target == velocity,
        event matches NoteEvent::NoteOff { note, .. } ==> (s.active_note != Some(note) ==> s.applied(event, steps) == s),
        event matches NoteEvent::NoteOff { note, .. } ==> (s.active_note == Some(note) ==> s.applied(event, steps).envelope.target == Level { bits: 0 }),
        event matches NoteEvent::PolyPressure { note, .. } ==> (s.active_note != Some(note) ==> s.applied(event, steps) == s),
{
}

/// Consumed once, in order: applying a run of events and then the run that
/// follows it is applying the two runs joined, so dispatching a block sample
/// by sample amounts to applying its events in their order.
pub proof fn lemma_applied_all_concat(s: NoteState, first: Seq<NoteEvent>, second: Seq<NoteEvent>, steps: u32)
    ensures
        s.applied_all(first + second, steps) == s.applied_all(first, steps).applied_all(second, steps),
    decreases first.len(),
{
    if first.len() == 0 {
        assert(first + second =~= second);
    } else {
        lemma_applied_all_concat(s.applied(first[0], steps), first.drop_first(), second, steps);
        assert((first + second)[0] == first[0]);
        assert((first + second).drop_first() =~= first.drop_first() + second);
    }
}

/// Applying one more event after a run of events is applying the longer run.
pub proof fn lemma_applied_all_push(s: NoteState, events: Seq<NoteEvent>, e: NoteEvent, steps: u32)
    ensures
        s.applied_all(events.push(e), steps) == s.applied_all(events, steps).applied(e, steps),
    decreases events.len(),
{
    if events.len() > 0 {
        lemma_applied_all_push(s.applied(events[0], steps), events.drop_first(), e, steps);
        assert(events.push(e)[0] == events[0]);
        assert(events.push(e).drop_first() =~= events.drop_first().push(e));
    } else {
        let t = s.applied(e, steps);
        assert(events.push(e)[0] == e);
        assert(events.push(e).drop_first() =~= Seq::<NoteEvent>::empty());
        assert(t.applied_all(Seq::<NoteEvent>::empty(), steps) == t);
    }
}

} // verus!
