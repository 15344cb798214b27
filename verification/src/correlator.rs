//! The event correlator: pairs each discrete event with the pointer position
//! that was last seen.
//!
//! Pointer moves are not stored one by one. The correlator keeps the latest
//! position only, so it needs no buffer that could grow.

use crate::events::{discrete, is_discrete, EventKind, InputEvent, Position};
use crate::record::{name_literal, record_json, record_of, RecordError};
use vstd::prelude::*;

verus! {

/// The last known pointer position after an event of kind `kind`.
pub open spec fn pointer_after(pointer: Option<Position>, kind: EventKind) -> Option<Position> {
    match kind {
        EventKind::MouseMove { x, y } => Some(Position { x, y }),
        _ => pointer,
    }
}

/// The event correlator. Its view is the last known pointer position.
pub struct EventCorrelator {
    pointer: Option<Position>,
}

impl View for EventCorrelator {
    type V = Option<Position>;

    closed spec fn view(&self) -> Option<Position> {
        self.pointer
    }
}

impl EventCorrelator {
    /// A correlator that has seen no pointer position.
    pub fn new() -> (correlator: EventCorrelator)
        ensures
            correlator@ == None::<Position>,
    {
        EventCorrelator { pointer: None }
    }

    /// The last known pointer position.
    pub fn pointer(&self) -> (pointer: Option<Position>)
        ensures
            pointer == self@,
    {
        self.pointer
    }

    /// Takes note of an event without making a record of it.
    pub fn track(&mut self, kind: EventKind)
        ensures
            final(self)@ == pointer_after(old(self)@, kind),
    {
        match kind {
            EventKind::MouseMove { x, y } => {
                self.pointer = Some(Position { x, y });
            },
            _ => {},
        }
    }

    /// Takes note of an event and, if it is discrete, makes its record, which
    /// pairs it with the last known pointer position. A pointer move gives
    /// `Ok(None)`. The result is never an error.
    pub fn correlate(&mut self, event: &InputEvent) -> (record: Result<
        Option<String>,
        RecordError,
    >)
        ensures
            final(self)@ == pointer_after(old(self)@, event.kind),
            !is_discrete(event.kind) ==> record matches Ok(None),
            is_discrete(event.kind) ==> (record matches Ok(Some(json)) && json@ == record_json(
                final(self)@,
                event.timestamp,
                name_literal(event.name),
                event.kind,
            )),
    {
        self.track(event.kind);
        if discrete(event.kind) {
            match record_of(self.pointer, event) {
                Ok(json) => Ok(Some(json)),
                Err(error) => Err(error),
            }
        } else {
            Ok(None)
        }
    }
}

} // verus!
