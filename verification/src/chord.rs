//! The key chord that asks for a recognition run, and the reducer from a
//! keyboard snapshot to an activation.

use vstd::prelude::*;

verus! {

/// A key of the keyboard, as far as the chord tells keys apart.
#[derive(Clone, Copy, Debug, PartialEq, Eq, Structural)]
pub enum Key {
    LeftShift,
    LeftAlt,
    LetterO,
    /// Any key that is not part of the chord.
    Other,
}

/// The signal that the chord was found fully pressed in a snapshot taken at
/// `at_ms`, in milliseconds of a clock of the caller's choosing.
#[derive(Clone, Copy, Debug, PartialEq, Eq, Structural)]
pub struct ActivationEvent {
    pub at_ms: u64,
}

/// Whether all keys of the chord are among the keys that are down. Order and
/// repetition in the snapshot do not matter.
pub open spec fn chord_down(keys: Seq<Key>) -> bool {
    &&& keys.contains(Key::LeftShift)
    &&& keys.contains(Key::LeftAlt)
    &&& keys.contains(Key::LetterO)
}

/// What a snapshot taken at `now_ms` reduces to.
pub open spec fn sampled(keys: Seq<Key>, now_ms: u64) -> Option<ActivationEvent> {
    if chord_down(keys) {
        Some(ActivationEvent { at_ms: now_ms })
    } else {
        None
    }
}

/// Whether `key` is among `keys`.
pub fn is_down(keys: &[Key], key: Key) -> (b: bool)
    ensures
        b == keys@.contains(key),
{
    let mut i: usize = 0;
    while i < keys.len()
        invariant
            i <= keys@.len(),
            forall|j: int| 0 <= j < i ==> keys@[j] != key,
        decreases keys@.len() - i,
    {
        if keys[i] == key {
            return true;
        }
        i += 1;
    }
    false
}

/// Whether the chord is fully pressed in the snapshot `keys`.
pub fn chord_satisfied(keys: &[Key]) -> (b: bool)
    ensures
        b == chord_down(keys@),
{
    is_down(keys, Key::LeftShift) && is_down(keys, Key::LeftAlt) && is_down(keys, Key::LetterO)
}

/// Reduces one keyboard snapshot to an activation. Nothing is remembered
/// between snapshots: a chord that stays down is reported at every one of
/// them, and the cooldown decides which report is acted upon.
pub fn sample(keys: &[Key], now_ms: u64) -> (event: Option<ActivationEvent>)
    ensures
        event == sampled(keys@, now_ms),
{
    if chord_satisfied(keys) {
        Some(ActivationEvent { at_ms: now_ms })
    } else {
        None
    }
}

} // verus!
