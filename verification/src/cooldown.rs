//! The cooldown that follows an activation: which of the sampled activations
//! are acted upon.

use crate::chord::ActivationEvent;
use vstd::prelude::*;

verus! {

/// How long after an honoured activation, and after the end of the run it
/// started, further activations are ignored.
pub const COOLDOWN_MS: u64 = 1000;

/// The time between two keyboard snapshots.
pub const SAMPLE_INTERVAL_MS: u64 = 50;

/// What the background loop observes, in the order in which it happens.
#[derive(Clone, Copy, Debug, PartialEq, Eq, Structural)]
pub enum LoopEvent {
    /// A keyboard snapshot was taken.
    Sample { at_ms: u64, chord_down: bool },
    /// A pipeline run reached a terminal state.
    RunFinished { at_ms: u64 },
}

/// The cooldown's memory: the latest moment from which a cooldown window
/// runs, if there was one yet.
#[derive(Clone, Copy, Debug, PartialEq, Eq, Structural)]
pub struct Cooldown {
    pub since: Option<u64>,
}

/// Whether an activation at `at_ms` falls outside the cooldown window.
pub open spec fn outside_window(since: Option<u64>, at_ms: u64) -> bool {
    match since {
        None => true,
        Some(t) => at_ms >= t && at_ms - t >= COOLDOWN_MS,
    }
}

/// Whether the event is an activation that is acted upon.
pub open spec fn is_honoured(since: Option<u64>, event: LoopEvent) -> bool {
    match event {
        LoopEvent::Sample { at_ms, chord_down } => chord_down && outside_window(since, at_ms),
        LoopEvent::RunFinished { .. } => false,
    }
}

/// The start of the cooldown window after the event.
pub open spec fn since_after(since: Option<u64>, event: LoopEvent) -> Option<u64> {
    match event {
        LoopEvent::Sample { at_ms, .. } => if is_honoured(since, event) {
            Some(at_ms)
        } else {
            since
        },
        LoopEvent::RunFinished { at_ms } => match since {
            Some(t) if t > at_ms => since,
            _ => Some(at_ms),
        },
    }
}

/// The start of the cooldown window after all of `events`, from a fresh
/// cooldown.
pub open spec fn since_after_all(events: Seq<LoopEvent>) -> Option<u64>
    decreases events.len(),
{
    if events.len() == 0 {
        None
    } else {
        since_after(since_after_all(events.drop_last()), events.last())
    }
}

/// Whether the event at index `i` of a history that began with a fresh
/// cooldown is an activation that is acted upon.
pub open spec fn honoured_at(events: Seq<LoopEvent>, i: int) -> bool {
    is_honoured(since_after_all(events.take(i)), events[i])
}

/// The time at which an event happened.
pub open spec fn time_of(event: LoopEvent) -> u64 {
    match event {
        LoopEvent::Sample { at_ms, .. } => at_ms,
        LoopEvent::RunFinished { at_ms } => at_ms,
    }
}

/// The history in which the chord is found down at each of `times`.
pub open spec fn held_chord(times: Seq<u64>) -> Seq<LoopEvent> {
    Seq::new(times.len(), |k: int| LoopEvent::Sample { at_ms: times[k], chord_down: true })
}

impl Cooldown {
    /// A cooldown with no window running.
    pub fn new() -> (c: Cooldown)
        ensures
            c.since is None,
    {
        Cooldown { since: None }
    }

    /// Takes note of an event and says whether a pipeline run is to start:
    /// exactly for a snapshot with the chord down outside the cooldown window.
    pub fn observe(&mut self, event: LoopEvent) -> (run: bool)
        ensures
            run == is_honoured(old(self).since, event),
            final(self).since == since_after(old(self).since, event),
    {
        match event {
            LoopEvent::Sample { at_ms, chord_down } => {
                let free = match self.since {
                    None => true,
                    Some(t) => at_ms >= t && at_ms - t >= COOLDOWN_MS,
                };
                if chord_down && free {
                    self.since = Some(at_ms);
                    true
                } else {
                    false
                }
            },
            LoopEvent::RunFinished { at_ms } => {
                let keep = match self.since {
                    Some(t) => t > at_ms,
                    None => false,
                };
                if !keep {
                    self.since = Some(at_ms);
                }
                false
            },
        }
    }

    /// Offers what a snapshot reduced to. The activation is honoured exactly
    /// when there is one and it falls outside the cooldown window.
    pub fn offer(&mut self, sampled: Option<ActivationEvent>) -> (run: bool)
        ensures
            run == match sampled {
                Some(activation) => outside_window(old(self).since, activation.at_ms),
                None => false,
            },
            run ==> final(self).since == Some(sampled->Some_0.at_ms),
            !run ==> final(self).since == old(self).since,
    {
        match sampled {
            Some(activation) => self.observe(
                LoopEvent::Sample { at_ms: activation.at_ms, chord_down: true },
            ),
            None => false,
        }
    }

    /// Restarts the cooldown window at the end of a pipeline run.
    pub fn run_finished(&mut self, now_ms: u64)
        ensures
            final(self).since == since_after(
                old(self).since,
                LoopEvent::RunFinished { at_ms: now_ms },
            ),
    {
        self.observe(LoopEvent::RunFinished { at_ms: now_ms });
    }
}

/// Once an activation was honoured, the cooldown window never again starts
/// before it.
proof fn lemma_window_not_before(events: Seq<LoopEvent>, i: int, k: int)
    requires
        0 <= i < k <= events.len(),
        honoured_at(events, i),
    ensures
        since_after_all(events.take(k)) is Some,
        since_after_all(events.take(k))->Some_0 >= time_of(events[i]),
    decreases k,
{
    assert(events.take(k).drop_last() =~= events.take(k - 1));
    assert(events.take(k).last() == events[k - 1]);
    if k > i + 1 {
        lemma_window_not_before(events, i, k - 1);
    }
}

/// Two honoured activations of one history lie at least a cooldown apart,
/// whatever else was sampled in between.
pub proof fn honoured_activations_are_a_cooldown_apart(events: Seq<LoopEvent>, i: int, j: int)
    requires
        0 <= i < j < events.len(),
        honoured_at(events, i),
        honoured_at(events, j),
    ensures
        time_of(events[j]) - time_of(events[i]) >= COOLDOWN_MS,
{
    lemma_window_not_before(events, i, j);
}

/// A chord held down across any number of snapshots that all fall within
/// one cooldown window is acted upon once, at the first of them.
pub proof fn held_chord_fires_once(times: Seq<u64>)
    requires
        times.len() > 0,
        forall|k: int| 0 <= k < times.len() ==> times[0] <= #[trigger] times[k] < times[0] + COOLDOWN_MS,
    ensures
        honoured_at(held_chord(times), 0),
        forall|k: int| 0 < k < times.len() ==> !honoured_at(held_chord(times), k),
{
    let events = held_chord(times);
    assert(events.take(0) =~= Seq::<LoopEvent>::empty());
    assert forall|k: int| 0 < k < times.len() implies !honoured_at(events, k) by {
        if honoured_at(events, k) {
            honoured_activations_are_a_cooldown_apart(events, 0, k);
            assert(time_of(events[k]) == times[k]);
            assert(time_of(events[0]) == times[0]);
        }
    }
}

} // verus!
