//! Input events as the recorder sees them.

use crate::keys::Key;
use vstd::prelude::*;

verus! {

/// A mouse button.
#[derive(Clone, Copy, Debug, PartialEq, Eq, Structural)]
pub enum Button {
    Left,
    Right,
    Middle,
    /// Any other button, by its number.
    Unknown(u8),
}

/// Where the pointer is, in pixels.
#[derive(Clone, Copy, Debug, PartialEq, Eq, Structural)]
pub struct Position {
    pub x: i64,
    pub y: i64,
}

/// What happened.
#[derive(Clone, Copy, Debug, PartialEq, Eq, Structural)]
pub enum EventKind {
    MouseMove { x: i64, y: i64 },
    ButtonPress(Button),
    ButtonRelease(Button),
    KeyPress(Key),
    KeyRelease(Key),
    Wheel { delta_x: i64, delta_y: i64 },
}

/// One input event: what happened, when (milliseconds since the Unix epoch),
/// and the text it produced, if any.
#[derive(Clone, Debug)]
pub struct InputEvent {
    pub timestamp: u128,
    pub name: Option<String>,
    pub kind: EventKind,
}

/// Every event but a pointer move is discrete: a click, a key or a wheel tick.
pub open spec fn is_discrete(kind: EventKind) -> bool {
    !(kind is MouseMove)
}

/// Whether `kind` is a discrete event.
pub fn discrete(kind: EventKind) -> (yes: bool)
    ensures
        yes == is_discrete(kind),
{
    match kind {
        EventKind::MouseMove { .. } => false,
        _ => true,
    }
}

/// The timestamp of an event whose clock reading is `since_epoch`, the
/// milliseconds since the Unix epoch, or `None` where the clock stood before
/// the epoch: such a reading counts as the epoch itself.
pub fn clamp_timestamp(since_epoch: Option<u128>) -> (timestamp: u128)
    ensures
        timestamp == match since_epoch {
            Some(millis) => millis,
            None => 0,
        },
{
    match since_epoch {
        Some(millis) => millis,
        None => 0,
    }
}

} // verus!
