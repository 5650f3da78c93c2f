//! Coordinator: the single-flight gate over the whole fault-handling path.
//!
//! Multiple threads can fault concurrently; interleaving their captures and
//! record emissions would corrupt the reported trace structure, since stack
//! capture is a point-in-time global operation. One "fault in progress"
//! flag is the only shared mutable state of the pipeline. A faulting thread
//! acquires it before capturing and releases it after the last record is
//! dispatched; while it is held, other faulting threads retry after a fixed
//! short pause.
//!
//! This module verifies the protocol: the lock's transitions, and the
//! single-flight law that between any two successful acquisitions there is a
//! release, so the records of two faults never interleave. Running the
//! retry loop — the pause, and a process-wide atomic in place of this
//! sequential flag — is the embedding program's concern.

use vstd::prelude::*;

verus! {

/// The single-flight gate. `true` means a fault is being handled.
pub struct Coordinator {
    held: bool,
}

impl Coordinator {
    /// Whether a fault is being handled right now.
    pub closed spec fn is_held(&self) -> bool {
        self.held
    }

    /// A fresh gate: no fault in progress.
    pub fn new() -> (gate: Coordinator)
        ensures
            !gate.is_held(),
    {
        Coordinator { held: false }
    }

    /// One acquisition attempt: succeeds exactly when the lock was free, and
    /// leaves the lock held either way (held by the caller on success, by the
    /// earlier holder on failure). A caller that fails retries after a fixed
    /// pause.
    pub fn try_acquire(&mut self) -> (acquired: bool)
        ensures
            acquired == !old(self).is_held(),
            final(self).is_held(),
    {
        let was_held = self.held;
        self.held = true;
        !was_held
    }

    /// Release the lock after the fault's last record is dispatched.
    pub fn release(&mut self)
        ensures
            !final(self).is_held(),
    {
        self.held = false;
    }
}

/// One observed step of the lock's history: an acquisition attempt that
/// succeeded, one that found the lock held, or a release.
pub enum GateEvent {
    AcquireOk,
    AcquireFail,
    Release,
}

/// Whether the lock is held after this history, starting from a free gate.
pub open spec fn held_after(events: Seq<GateEvent>) -> bool
    decreases events.len(),
{
    if events.len() == 0 {
        false
    } else {
        match events.last() {
            GateEvent::AcquireOk => true,
            GateEvent::AcquireFail => held_after(events.drop_last()),
            GateEvent::Release => false,
        }
    }
}

/// A history the lock can produce: every step's outcome matches the lock
/// state it found, as `try_acquire` and `release` state it. An acquisition
/// succeeds exactly on a free gate, and only a holder releases.
pub open spec fn valid_history(events: Seq<GateEvent>) -> bool {
    forall|i: int|
        0 <= i < events.len() ==> match #[trigger] events[i] {
            GateEvent::AcquireOk => !held_after(events.take(i)),
            GateEvent::AcquireFail => held_after(events.take(i)),
            GateEvent::Release => held_after(events.take(i)),
        }
}

/// Valid histories arise step by step from the lock's contracts: extending
/// one with an outcome that matches the state the step found keeps it valid,
/// and every step but a release leaves the lock held.
pub proof fn lemma_history_step(events: Seq<GateEvent>, event: GateEvent)
    requires
        valid_history(events),
        event is AcquireOk ==> !held_after(events),
        event is AcquireFail ==> held_after(events),
        event is Release ==> held_after(events),
    ensures
        valid_history(events.push(event)),
        held_after(events.push(event)) == !(event is Release),
{
    let pushed = events.push(event);
    assert(pushed.drop_last() =~= events);
    assert(pushed.last() == event);
    assert forall|i: int| 0 <= i < pushed.len() implies (match #[trigger] pushed[i] {
        GateEvent::AcquireOk => !held_after(pushed.take(i)),
        GateEvent::AcquireFail => held_after(pushed.take(i)),
        GateEvent::Release => held_after(pushed.take(i)),
    }) by {
        assert(pushed.take(i) =~= events.take(i));
        if i < events.len() {
            assert(pushed[i] == events[i]);
        } else {
            assert(pushed[i] == event);
            assert(events.take(i) =~= events);
        }
    }
}

/// In a valid history, once the lock is held it stays held until a release:
/// failing acquisition attempts do not free it.
proof fn lemma_stays_held(events: Seq<GateEvent>, i: int, j: int)
    requires
        valid_history(events),
        0 <= i <= j <= events.len(),
        held_after(events.take(i)),
        forall|k: int| i <= k < j ==> events[k] != GateEvent::Release,
    ensures
        held_after(events.take(j)),
    decreases j - i,
{
    if i < j {
        assert(events.take(i + 1).drop_last() =~= events.take(i));
        assert(events.take(i + 1).last() == events[i]);
        match events[i] {
            GateEvent::AcquireOk => {},
            GateEvent::AcquireFail => {},
            GateEvent::Release => {
                assert(false);
            },
        }
        lemma_stays_held(events, i + 1, j);
    }
}

/// Single-flight law: in any history the lock can produce, a release stands
/// between any two successful acquisitions. Since a fault's records are all
/// dispatched between its acquisition and its release, for any two faults
/// all records of one are dispatched before any record of the other.
pub proof fn lemma_single_flight(events: Seq<GateEvent>, i: int, j: int)
    requires
        valid_history(events),
        0 <= i < j < events.len(),
        events[i] == GateEvent::AcquireOk,
        events[j] == GateEvent::AcquireOk,
    ensures
        exists|k: int| i < k < j && events[k] == GateEvent::Release,
{
    if !(exists|k: int| i < k < j && events[k] == GateEvent::Release) {
        assert(forall|k: int| i < k < j ==> events[k] != GateEvent::Release);
        assert(events.take(i + 1).drop_last() =~= events.take(i));
        assert(events.take(i + 1).last() == events[i]);
        assert(held_after(events.take(i + 1)));
        lemma_stays_held(events, i + 1, j);
        assert(!held_after(events.take(j)));
        assert(false);
    }
}

} // verus!
