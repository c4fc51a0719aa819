use nih_plug_example::{Level, NoteEvent, NoteState};

fn lv(x: f32) -> Level {
    Level::from_bits(x.to_bits())
}

const STEPS: u32 = 221;

#[test]
fn note_on_takes_the_note_and_aims_at_velocity() {
    let mut s = NoteState::silent();
    s.apply(&NoteEvent::NoteOn { timing: 0, note: 69, velocity: lv(1.0) }, STEPS);
    assert_eq!(s.active_note, Some(69));
    assert_eq!(s.envelope.target, lv(1.0));
    assert_eq!(s.envelope.steps_left, STEPS);
    assert_eq!(s.envelope.current, lv(0.0));
}

#[test]
fn non_matching_note_off_changes_nothing() {
    let mut s = NoteState::silent();
    s.apply(&NoteEvent::NoteOn { timing: 0, note: 69, velocity: lv(1.0) }, STEPS);
    let before = s;
    s.apply(&NoteEvent::NoteOff { timing: 0, note: 60 }, STEPS);
    assert_eq!(s, before);
    assert_eq!(s.envelope.target, lv(1.0));
}

#[test]
fn matching_note_off_releases_and_keeps_the_id() {
    let mut s = NoteState::silent();
    s.apply(&NoteEvent::NoteOn { timing: 0, note: 64, velocity: lv(0.7) }, STEPS);
    s.apply(&NoteEvent::NoteOff { timing: 4, note: 64 }, STEPS);
    assert_eq!(s.active_note, Some(64));
    assert_eq!(s.envelope.target, lv(0.0));
}

#[test]
fn note_off_for_note_zero_without_a_note_is_ignored() {
    let mut s = NoteState::silent();
    s.apply(&NoteEvent::NoteOff { timing: 0, note: 0 }, STEPS);
    assert_eq!(s, NoteState::silent());
    assert_eq!(s.active_note, None);
}

#[test]
fn last_note_wins() {
    let mut s = NoteState::silent();
    s.apply(&NoteEvent::NoteOn { timing: 0, note: 60, velocity: lv(0.5) }, STEPS);
    s.apply(&NoteEvent::NoteOn { timing: 0, note: 67, velocity: lv(0.9) }, STEPS);
    assert_eq!(s.active_note, Some(67));
    assert_eq!(s.envelope.target, lv(0.9));
    // releasing the superseded note does nothing
    s.apply(&NoteEvent::NoteOff { timing: 0, note: 60 }, STEPS);
    assert_eq!(s.envelope.target, lv(0.9));
}

#[test]
fn pressure_follows_only_the_active_note() {
    let mut s = NoteState::silent();
    s.apply(&NoteEvent::NoteOn { timing: 0, note: 60, velocity: lv(0.5) }, STEPS);
    s.apply(&NoteEvent::PolyPressure { timing: 0, note: 61, pressure: lv(0.2) }, STEPS);
    assert_eq!(s.envelope.target, lv(0.5));
    s.apply(&NoteEvent::PolyPressure { timing: 0, note: 60, pressure: lv(0.2) }, STEPS);
    assert_eq!(s.envelope.target, lv(0.2));
}

#[test]
fn reset_silences() {
    let mut s = NoteState::silent();
    s.apply(&NoteEvent::NoteOn { timing: 0, note: 60, velocity: lv(0.5) }, STEPS);
    s.envelope.advance(lv(0.01));
    s.reset();
    assert_eq!(s, NoteState::silent());
    assert_eq!(s.envelope.current, lv(0.0));
}

#[test]
fn drain_applies_due_events_in_order() {
    let events = vec![
        NoteEvent::NoteOn { timing: 0, note: 60, velocity: lv(0.5) },
        NoteEvent::NoteOn { timing: 0, note: 62, velocity: lv(0.6) },
        NoteEvent::NoteOff { timing: 3, note: 62 },
        NoteEvent::NoteOn { timing: 5, note: 65, velocity: lv(0.8) },
    ];
    let mut s = NoteState::silent();
    let mut cursor = s.drain_due(&events, 0, 0, STEPS);
    assert_eq!(cursor, 2);
    assert_eq!(s.active_note, Some(62));
    assert_eq!(s.envelope.target, lv(0.6));
    for sample in 1..3 {
        cursor = s.drain_due(&events, cursor, sample, STEPS);
        assert_eq!(cursor, 2);
    }
    cursor = s.drain_due(&events, cursor, 3, STEPS);
    assert_eq!(cursor, 3);
    assert_eq!(s.envelope.target, lv(0.0));
    cursor = s.drain_due(&events, cursor, 4, STEPS);
    assert_eq!(cursor, 3);
    cursor = s.drain_due(&events, cursor, 5, STEPS);
    assert_eq!(cursor, 4);
    assert_eq!(s.active_note, Some(65));
    assert_eq!(s.drain_due(&events, cursor, 6, STEPS), 4);
}

#[test]
fn late_events_are_applied_at_the_next_sample() {
    let events = vec![NoteEvent::NoteOn { timing: 2, note: 60, velocity: lv(0.5) }];
    let mut s = NoteState::silent();
    // a caller that skipped sample 2 still gets the event at sample 4
    assert_eq!(s.drain_due(&events, 0, 1, STEPS), 0);
    assert_eq!(s.drain_due(&events, 0, 4, STEPS), 1);
    assert_eq!(s.active_note, Some(60));
}

#[test]
fn event_timing_is_read_from_every_kind() {
    assert_eq!(NoteEvent::NoteOn { timing: 7, note: 1, velocity: lv(1.0) }.timing(), 7);
    assert_eq!(NoteEvent::NoteOff { timing: 8, note: 1 }.timing(), 8);
    assert_eq!(NoteEvent::PolyPressure { timing: 9, note: 1, pressure: lv(1.0) }.timing(), 9);
}
