//! The idle toggle: recording is switched on and off by a chord of keys.
//!
//! The flag flips on the key event that completes the chord, and on no other:
//! further events while the chord stays held leave it alone.

use crate::keys::{apply_key, replay_keys, Key, KeyEvent, KeySet, ALT, CONTROL_LEFT, KEY_P};
use vstd::prelude::*;

verus! {

/// What an idle toggle holds: the held keys and whether recording is active.
pub struct ToggleState {
    pub keys: Set<Key>,
    pub active: bool,
}

/// All keys of the chord are held.
pub open spec fn chord_held(keys: Set<Key>) -> bool {
    keys.contains(CONTROL_LEFT) && keys.contains(ALT) && keys.contains(KEY_P)
}

/// `event` completes the chord: it was not held before the event and is after.
pub open spec fn completes_chord(keys: Set<Key>, event: KeyEvent) -> bool {
    !chord_held(keys) && chord_held(apply_key(keys, event))
}

/// The toggle after one key event.
pub open spec fn toggle_step(state: ToggleState, event: KeyEvent) -> ToggleState {
    ToggleState {
        keys: apply_key(state.keys, event),
        active: if completes_chord(state.keys, event) {
            !state.active
        } else {
            state.active
        },
    }
}

/// The toggle after a sequence of key events.
pub open spec fn toggle_run(state: ToggleState, events: Seq<KeyEvent>) -> ToggleState
    decreases events.len(),
{
    if events.len() == 0 {
        state
    } else {
        toggle_step(toggle_run(state, events.drop_last()), events.last())
    }
}

/// How many events of `events` complete the chord, starting from `keys` held.
pub open spec fn chord_formations(keys: Set<Key>, events: Seq<KeyEvent>) -> nat
    decreases events.len(),
{
    if events.len() == 0 {
        0
    } else {
        let earlier = chord_formations(keys, events.drop_last());
        if completes_chord(replay_keys(keys, events.drop_last()), events.last()) {
            earlier + 1
        } else {
            earlier
        }
    }
}

/// The flag flips once for each formation of the chord: after any sequence of
/// key events it differs from where it started exactly if the chord was formed
/// an odd number of times.
pub proof fn lemma_flips_once_per_formation(state: ToggleState, events: Seq<KeyEvent>)
    ensures
        toggle_run(state, events).keys == replay_keys(state.keys, events),
        toggle_run(state, events).active == (state.active != (chord_formations(
            state.keys,
            events,
        ) % 2 == 1)),
    decreases events.len(),
{
    if events.len() > 0 {
        lemma_flips_once_per_formation(state, events.drop_last());
    }
}

/// While the chord is held, no key event flips the flag.
pub proof fn lemma_held_chord_keeps_flag(state: ToggleState, event: KeyEvent)
    requires
        chord_held(state.keys),
    ensures
        toggle_step(state, event).active == state.active,
{
}

/// The idle toggle. It starts idle, with no key held.
pub struct IdleToggle {
    keys: KeySet,
    active: bool,
}

impl View for IdleToggle {
    type V = ToggleState;

    closed spec fn view(&self) -> ToggleState {
        ToggleState { keys: self.keys@, active: self.active }
    }
}

impl IdleToggle {
    /// An idle toggle with no key held.
    pub fn new() -> (toggle: IdleToggle)
        ensures
            toggle@ == (ToggleState { keys: Set::empty(), active: false }),
    {
        IdleToggle { keys: KeySet::new(), active: false }
    }

    /// Whether recording is active.
    pub fn is_active(&self) -> (active: bool)
        ensures
            active == self@.active,
    {
        self.active
    }

    /// Whether `key` is held.
    pub fn is_held(&self, key: Key) -> (held: bool)
        ensures
            held == self@.keys.contains(key),
    {
        self.keys.contains(key)
    }

    /// Whether all keys of the chord are held.
    pub fn chord_is_held(&self) -> (held: bool)
        ensures
            held == chord_held(self@.keys),
    {
        self.keys.contains(CONTROL_LEFT) && self.keys.contains(ALT) && self.keys.contains(KEY_P)
    }

    /// Records that `key` went down (`pressed`) or came up, and flips the flag
    /// if this event completes the chord.
    pub fn observe_key(&mut self, key: Key, pressed: bool)
        ensures
            final(self)@ == toggle_step(old(self)@, KeyEvent { key, pressed }),
    {
        let held_before = self.chord_is_held();
        self.keys.observe(KeyEvent { key, pressed });
        let held_after = self.chord_is_held();
        if !held_before && held_after {
            self.active = !self.active;
        }
    }
}

} // verus!
