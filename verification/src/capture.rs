//! The capture loop's decisions: what an input event does to the recorder,
//! and whether it is written out.
//!
//! For each event, in this order: a key event goes to the idle toggle, which
//! may flip the flag; the correlator takes note of the event; and if recording
//! is then active and the event is discrete, the event gives one persistence
//! job. The recorder only looks at an event: it cannot change or swallow it.

use crate::correlator::{pointer_after, EventCorrelator};
use crate::events::{is_discrete, EventKind, InputEvent, Position};
use crate::keys::KeyEvent;
use crate::record::{name_literal, record_json, RecordError};
use crate::toggle::{completes_chord, toggle_step, IdleToggle, ToggleState};
use vstd::prelude::*;

verus! {

/// What a recorder holds: the idle toggle and the last known pointer position.
pub struct CaptureState {
    pub toggle: ToggleState,
    pub pointer: Option<Position>,
}

/// The key event that an input event carries, if it is one.
pub open spec fn key_event_of(kind: EventKind) -> Option<KeyEvent> {
    match kind {
        EventKind::KeyPress(key) => Some(KeyEvent { key, pressed: true }),
        EventKind::KeyRelease(key) => Some(KeyEvent { key, pressed: false }),
        _ => None,
    }
}

/// The idle toggle after an event of kind `kind`: only a key event changes it.
pub open spec fn toggle_after(toggle: ToggleState, kind: EventKind) -> ToggleState {
    match key_event_of(kind) {
        Some(event) => toggle_step(toggle, event),
        None => toggle,
    }
}

/// The recorder after an event of kind `kind`.
pub open spec fn capture_step(state: CaptureState, kind: EventKind) -> CaptureState {
    CaptureState {
        toggle: toggle_after(state.toggle, kind),
        pointer: pointer_after(state.pointer, kind),
    }
}

/// The recorder after a sequence of events.
pub open spec fn capture_run(state: CaptureState, kinds: Seq<EventKind>) -> CaptureState
    decreases kinds.len(),
{
    if kinds.len() == 0 {
        state
    } else {
        capture_step(capture_run(state, kinds.drop_last()), kinds.last())
    }
}

/// Whether an event of kind `kind` is written out, given the recorder as it
/// is after the event: recording is active and the event is discrete.
pub open spec fn persists(after: CaptureState, kind: EventKind) -> bool {
    after.toggle.active && is_discrete(kind)
}

/// An event of kind `kind` completes the chord, with `state` before it.
pub open spec fn toggles(state: CaptureState, kind: EventKind) -> bool {
    match key_event_of(kind) {
        Some(event) => completes_chord(state.toggle.keys, event),
        None => false,
    }
}

/// An idle recorder stays idle over events of which none completes the chord.
pub proof fn lemma_idle_stays_idle(state: CaptureState, kinds: Seq<EventKind>, upto: int)
    requires
        !state.toggle.active,
        0 <= upto <= kinds.len(),
        forall|i: int|
            0 <= i < kinds.len() ==> !toggles(
                #[trigger] capture_run(state, kinds.take(i)),
                kinds[i],
            ),
    ensures
        !capture_run(state, kinds.take(upto)).toggle.active,
    decreases upto,
{
    if upto > 0 {
        lemma_idle_stays_idle(state, kinds, upto - 1);
        assert(kinds.take(upto).drop_last() =~= kinds.take(upto - 1));
        assert(kinds.take(upto).last() == kinds[upto - 1]);
        assert(!toggles(capture_run(state, kinds.take(upto - 1)), kinds[upto - 1]));
    }
}

/// Once recording is idle, nothing is written out until the chord is formed
/// again: of a sequence of events none of which completes the chord, none
/// persists.
pub proof fn lemma_idle_suppresses_persistence(state: CaptureState, kinds: Seq<EventKind>)
    requires
        !state.toggle.active,
        forall|i: int|
            0 <= i < kinds.len() ==> !toggles(
                #[trigger] capture_run(state, kinds.take(i)),
                kinds[i],
            ),
    ensures
        forall|i: int|
            0 <= i < kinds.len() ==> !persists(
                #[trigger] capture_run(state, kinds.take(i + 1)),
                kinds[i],
            ),
{
    assert forall|i: int| 0 <= i < kinds.len() implies !persists(
        #[trigger] capture_run(state, kinds.take(i + 1)),
        kinds[i],
    ) by {
        lemma_idle_stays_idle(state, kinds, i + 1);
    }
}

/// One piece of work for the persistence pool: the record and the timestamp
/// that names its files.
#[derive(Clone, Debug)]
pub struct PersistenceJob {
    pub json: String,
    pub timestamp: u128,
}

/// The recorder: everything the capture loop keeps between events.
pub struct Recorder {
    toggle: IdleToggle,
    correlator: EventCorrelator,
}

impl View for Recorder {
    type V = CaptureState;

    closed spec fn view(&self) -> CaptureState {
        CaptureState { toggle: self.toggle@, pointer: self.correlator@ }
    }
}

impl Recorder {
    /// A recorder that is idle, with no key held and no pointer position seen.
    pub fn new() -> (recorder: Recorder)
        ensures
            recorder@ == (CaptureState {
                toggle: ToggleState { keys: Set::empty(), active: false },
                pointer: None,
            }),
    {
        Recorder { toggle: IdleToggle::new(), correlator: EventCorrelator::new() }
    }

    /// Whether recording is active.
    pub fn is_active(&self) -> (active: bool)
        ensures
            active == self@.toggle.active,
    {
        self.toggle.is_active()
    }

    /// The last known pointer position.
    pub fn pointer(&self) -> (pointer: Option<Position>)
        ensures
            pointer == self@.pointer,
    {
        self.correlator.pointer()
    }

    fn observe_keys(&mut self, kind: EventKind)
        ensures
            final(self)@ == (CaptureState {
                toggle: toggle_after(old(self)@.toggle, kind),
                pointer: old(self)@.pointer,
            }),
    {
        match kind {
            EventKind::KeyPress(key) => {
                self.toggle.observe_key(key, true);
            },
            EventKind::KeyRelease(key) => {
                self.toggle.observe_key(key, false);
            },
            _ => {},
        }
    }

    /// Takes note of an event of kind `kind` without writing it out: a key
    /// event goes to the idle toggle, a pointer move replaces the last known
    /// position.
    pub fn observe(&mut self, kind: EventKind)
        ensures
            final(self)@ == capture_step(old(self)@, kind),
    {
        self.observe_keys(kind);
        self.correlator.track(kind);
    }

    /// Handles one event of the input stream. The recorder takes note of it
    /// first; then, if recording is active and the event is discrete, the
    /// result is the one job that writes its record. An event that is not
    /// written out gives `Ok(None)`. The result is never an error.
    pub fn handle_event(&mut self, event: &InputEvent) -> (job: Result<
        Option<PersistenceJob>,
        RecordError,
    >)
        ensures
            final(self)@ == capture_step(old(self)@, event.kind),
            !persists(final(self)@, event.kind) ==> job matches Ok(None),
            persists(final(self)@, event.kind) ==> (job matches Ok(Some(work)) && work.timestamp
                == event.timestamp && work.json@ == record_json(
                final(self)@.pointer,
                event.timestamp,
                name_literal(event.name),
                event.kind,
            )),
    {
        self.observe_keys(event.kind);
        if self.toggle.is_active() {
            match self.correlator.correlate(event) {
                Ok(Some(json)) => Ok(Some(PersistenceJob { json, timestamp: event.timestamp })),
                Ok(None) => Ok(None),
                Err(error) => Err(error),
            }
        } else {
            self.correlator.track(event.kind);
            Ok(None)
        }
    }
}

} // verus!
