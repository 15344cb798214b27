//! Keys and the set of keys that are currently held down.
//!
//! A key is named by its USB HID keyboard usage id, so that a key is a plain
//! integer that can be stored and compared.

use std::collections::HashSet;
use vstd::prelude::*;
use vstd::std_specs::hash::*;

verus! {

/// A key, by its USB HID keyboard usage id.
pub type Key = u32;

/// The left control key.
pub const CONTROL_LEFT: Key = 224;

/// The (left) alt key.
pub const ALT: Key = 226;

/// The letter P.
pub const KEY_P: Key = 19;

/// Usage ids lie below this number; a key without a usage id is numbered
/// from here on.
pub const FIRST_UNLISTED: Key = 0x1_0000;

/// The number that stands for a key without a usage id, given the raw code
/// that the system reported for it: `FIRST_UNLISTED` further up, and the
/// largest number where that does not fit. It differs from every usage id, so
/// such a key is never taken for a key of the chord.
pub fn unlisted_key(raw: u32) -> (key: Key)
    ensures
        key as int == if raw as int + FIRST_UNLISTED as int <= u32::MAX as int {
            raw as int + FIRST_UNLISTED as int
        } else {
            u32::MAX as int
        },
        key >= FIRST_UNLISTED,
        key != CONTROL_LEFT && key != ALT && key != KEY_P,
{
    raw.saturating_add(FIRST_UNLISTED)
}

/// A key going down or coming up.
#[derive(Clone, Copy, Debug, PartialEq, Eq, Structural)]
pub struct KeyEvent {
    pub key: Key,
    pub pressed: bool,
}

/// The held keys after one more key event.
pub open spec fn apply_key(held: Set<Key>, event: KeyEvent) -> Set<Key> {
    if event.pressed {
        held.insert(event.key)
    } else {
        held.remove(event.key)
    }
}

/// The held keys after a sequence of key events, starting from `held`.
pub open spec fn replay_keys(held: Set<Key>, events: Seq<KeyEvent>) -> Set<Key>
    decreases events.len(),
{
    if events.len() == 0 {
        held
    } else {
        apply_key(replay_keys(held, events.drop_last()), events.last())
    }
}

/// `key` was pressed at some point of `events` and not released afterwards.
pub open spec fn pressed_not_released(events: Seq<KeyEvent>, key: Key) -> bool {
    exists|i: int|
        0 <= i < events.len() && #[trigger] events[i] == (KeyEvent { key, pressed: true })
            && forall|j: int|
            i < j < events.len() ==> #[trigger] events[j] != (KeyEvent { key, pressed: false })
}

/// After any sequence of key events, replayed from no key held, a key is held
/// exactly if it was pressed and has not been released since.
pub proof fn lemma_replay_holds_unreleased(events: Seq<KeyEvent>, key: Key)
    ensures
        replay_keys(Set::empty(), events).contains(key) <==> pressed_not_released(events, key),
    decreases events.len(),
{
    if events.len() > 0 {
        let init = events.drop_last();
        let last = events.last();
        lemma_replay_holds_unreleased(init, key);
        if last == (KeyEvent { key, pressed: true }) {
            assert(events[events.len() - 1] == last);
            assert(pressed_not_released(events, key));
        } else if last == (KeyEvent { key, pressed: false }) {
            assert(events[events.len() - 1] == last);
            assert(!pressed_not_released(events, key));
        } else {
            assert(last.key != key);
            if pressed_not_released(init, key) {
                let i = choose|i: int|
                    0 <= i < init.len() && #[trigger] init[i] == (KeyEvent { key, pressed: true })
                        && forall|j: int|
                        i < j < init.len() ==> #[trigger] init[j] != (KeyEvent {
                            key,
                            pressed: false,
                        });
                assert(events[i] == init[i]);
                assert forall|j: int| i < j < events.len() implies #[trigger] events[j] != (
                KeyEvent { key, pressed: false }) by {
                    if j < init.len() {
                        assert(events[j] == init[j]);
                    }
                }
                assert(pressed_not_released(events, key));
            }
            if pressed_not_released(events, key) {
                let i = choose|i: int|
                    0 <= i < events.len() && #[trigger] events[i] == (KeyEvent {
                        key,
                        pressed: true,
                    }) && forall|j: int|
                        i < j < events.len() ==> #[trigger] events[j] != (KeyEvent {
                            key,
                            pressed: false,
                        });
                assert(i < init.len());
                assert(init[i] == events[i]);
                assert forall|j: int| i < j < init.len() implies #[trigger] init[j] != (KeyEvent {
                    key,
                    pressed: false,
                }) by {
                    assert(events[j] == init[j]);
                }
                assert(pressed_not_released(init, key));
            }
        }
    }
}

/// After any sequence of key events, replayed from no key held, the held keys
/// are the keys that were pressed and have not been released since.
pub proof fn lemma_replay_is_unreleased_set(events: Seq<KeyEvent>)
    ensures
        replay_keys(Set::empty(), events) == Set::new(
            |key: Key| pressed_not_released(events, key),
        ),
{
    assert forall|key: Key|
        replay_keys(Set::empty(), events).contains(key) == pressed_not_released(
            events,
            key,
        ) by {
        lemma_replay_holds_unreleased(events, key);
    }
    assert(replay_keys(Set::empty(), events) =~= Set::new(
        |key: Key| pressed_not_released(events, key),
    ));
}

/// Releasing a key that is not held changes nothing.
pub proof fn lemma_release_of_absent_key(held: Set<Key>, key: Key)
    requires
        !held.contains(key),
    ensures
        apply_key(held, KeyEvent { key, pressed: false }) == held,
{
    assert(held.remove(key) =~= held);
}

/// The set of keys that are held down.
pub struct KeySet {
    held: HashSet<Key>,
}

impl View for KeySet {
    type V = Set<Key>;

    closed spec fn view(&self) -> Set<Key> {
        self.held@
    }
}

impl KeySet {
    /// No key held.
    pub fn new() -> (keys: KeySet)
        ensures
            keys@ == Set::<Key>::empty(),
    {
        KeySet { held: HashSet::new() }
    }

    /// Whether `key` is held.
    pub fn contains(&self, key: Key) -> (held: bool)
        ensures
            held == self@.contains(key),
    {
        broadcast use group_hash_axioms;

        self.held.contains(&key)
    }

    /// Records that `key` went down.
    pub fn press(&mut self, key: Key)
        ensures
            final(self)@ == old(self)@.insert(key),
    {
        broadcast use group_hash_axioms;

        self.held.insert(key);
    }

    /// Records that `key` came up; a key that is not held is left alone.
    pub fn release(&mut self, key: Key)
        ensures
            final(self)@ == old(self)@.remove(key),
    {
        broadcast use group_hash_axioms;

        self.held.remove(&key);
    }

    /// Records one key event.
    pub fn observe(&mut self, event: KeyEvent)
        ensures
            final(self)@ == apply_key(old(self)@, event),
    {
        if event.pressed {
            self.press(event.key);
        } else {
            self.release(event.key);
        }
    }

    /// Records a sequence of key events, in order.
    pub fn observe_all(&mut self, events: &Vec<KeyEvent>)
        ensures
            final(self)@ == replay_keys(old(self)@, events@),
    {
        let mut i: usize = 0;
        while i < events.len()
            invariant
                i <= events.len(),
                self@ == replay_keys(old(self)@, events@.take(i as int)),
            decreases events.len() - i,
        {
            self.observe(events[i]);
            proof {
                assert(events@.take(i + 1).drop_last() =~= events@.take(i as int));
            }
            i += 1;
        }
        proof {
            assert(events@.take(i as int) =~= events@);
        }
    }
}

} // verus!
