//! The construction protocol of a watch session as a deterministic state
//! machine.
//!
//! A session is prepared first: its channel exists and its creation flags are
//! settled. The native stream is created next, and only if that succeeds is
//! the host thread spawned; the session is handed over once the thread has
//! published the handle of its loop. This module decides; the owner of the
//! native handles acts, and reports back what happened.
use vstd::prelude::*;

verus! {

/// How far the construction of a session has come.
#[derive(Debug, Clone, Copy, PartialEq, Eq, Structural)]
pub enum SetupPhase {
    /// The channel exists; the native stream is being created.
    Prepared,
    /// The native stream exists; the host thread is being spawned.
    Spawning,
    /// The host thread runs; its loop handle is awaited.
    AwaitingLoop,
    /// The loop handle arrived: the session is complete.
    Connected,
    /// The native stream could not be created. Nothing was spawned.
    Rejected,
    /// The host thread ended without publishing its loop handle; the process
    /// is expected to fail.
    Failed,
}

/// What the owner of the native handles reports.
#[derive(Debug, Clone, Copy, PartialEq, Eq, Structural)]
pub enum SetupEvent {
    /// The native stream was created for the requested paths.
    StreamCreated,
    /// The native service refused to create a stream for the requested paths.
    StreamRejected,
    /// The host thread was spawned.
    ThreadSpawned,
    /// The host thread published the handle of its loop.
    LoopPublished,
    /// The hand-off channel closed without a loop handle.
    LoopLost,
}

/// What the owner of the native handles is to do next.
#[derive(Debug, Clone, Copy, PartialEq, Eq, Structural)]
pub enum SetupAction {
    /// Nothing: the event does not concern the current phase.
    Nothing,
    /// Spawn the host thread, which schedules and starts the stream and runs
    /// the loop.
    SpawnHostThread,
    /// Block until the host thread publishes its loop handle.
    AwaitLoopHandle,
    /// Hand the stream and its handle to the caller.
    HandOver,
    /// Return the native service's error to the caller.
    ReportError,
    /// Fail the process: the host thread is lost.
    Fatal,
}

/// The transition function: the phase that follows `phase` on `event`, and
/// what is to be done next. An event that the phase does not wait for changes
/// nothing and asks for nothing.
pub open spec fn step(phase: SetupPhase, event: SetupEvent) -> (SetupPhase, SetupAction) {
    match (phase, event) {
        (SetupPhase::Prepared, SetupEvent::StreamCreated) => (
            SetupPhase::Spawning,
            SetupAction::SpawnHostThread,
        ),
        (SetupPhase::Prepared, SetupEvent::StreamRejected) => (
            SetupPhase::Rejected,
            SetupAction::ReportError,
        ),
        (SetupPhase::Spawning, SetupEvent::ThreadSpawned) => (
            SetupPhase::AwaitingLoop,
            SetupAction::AwaitLoopHandle,
        ),
        (SetupPhase::AwaitingLoop, SetupEvent::LoopPublished) => (
            SetupPhase::Connected,
            SetupAction::HandOver,
        ),
        (SetupPhase::AwaitingLoop, SetupEvent::LoopLost) => (
            SetupPhase::Failed,
            SetupAction::Fatal,
        ),
        _ => (phase, SetupAction::Nothing),
    }
}

/// Takes one step of the protocol.
pub fn setup_step(phase: SetupPhase, event: SetupEvent) -> (next: (SetupPhase, SetupAction))
    ensures
        next == step(phase, event),
{
    match (phase, event) {
        (SetupPhase::Prepared, SetupEvent::StreamCreated) => (
            SetupPhase::Spawning,
            SetupAction::SpawnHostThread,
        ),
        (SetupPhase::Prepared, SetupEvent::StreamRejected) => (
            SetupPhase::Rejected,
            SetupAction::ReportError,
        ),
        (SetupPhase::Spawning, SetupEvent::ThreadSpawned) => (
            SetupPhase::AwaitingLoop,
            SetupAction::AwaitLoopHandle,
        ),
        (SetupPhase::AwaitingLoop, SetupEvent::LoopPublished) => (
            SetupPhase::Connected,
            SetupAction::HandOver,
        ),
        (SetupPhase::AwaitingLoop, SetupEvent::LoopLost) => (
            SetupPhase::Failed,
            SetupAction::Fatal,
        ),
        _ => (phase, SetupAction::Nothing),
    }
}

/// The phase reached from `start` once all of `events` were reported, in
/// order.
pub open spec fn phase_after(start: SetupPhase, events: Seq<SetupEvent>) -> SetupPhase
    decreases events.len(),
{
    if events.len() == 0 {
        start
    } else {
        step(phase_after(start, events.drop_last()), events.last()).0
    }
}

/// The action asked for in answer to the event at position `k`.
pub open spec fn action_at(start: SetupPhase, events: Seq<SetupEvent>, k: int) -> SetupAction
    recommends
        0 <= k < events.len(),
{
    step(phase_after(start, events.take(k)), events[k]).1
}

/// The phases of a session whose native stream exists.
pub open spec fn has_native_stream(phase: SetupPhase) -> bool {
    phase is Spawning || phase is AwaitingLoop || phase is Connected || phase is Failed
}

/// The place of a phase in the protocol. No step leads to an earlier place.
pub open spec fn progress(phase: SetupPhase) -> nat {
    match phase {
        SetupPhase::Prepared => 0,
        SetupPhase::Spawning => 1,
        SetupPhase::AwaitingLoop => 2,
        SetupPhase::Connected => 3,
        SetupPhase::Rejected => 4,
        SetupPhase::Failed => 5,
    }
}

/// The place in the protocol that an action leads to.
pub open spec fn goal(action: SetupAction) -> nat {
    match action {
        SetupAction::Nothing => 0,
        SetupAction::SpawnHostThread => 1,
        SetupAction::AwaitLoopHandle => 2,
        SetupAction::HandOver => 3,
        SetupAction::ReportError => 4,
        SetupAction::Fatal => 5,
    }
}

/// Every step either changes nothing and asks for nothing, or moves forward to
/// the place that its action leads to.
pub proof fn lemma_step_moves_forward(phase: SetupPhase, event: SetupEvent)
    ensures
        step(phase, event).1 is Nothing ==> step(phase, event).0 == phase,
        !(step(phase, event).1 is Nothing) ==> progress(phase) < goal(step(phase, event).1)
            == progress(step(phase, event).0),
{
}

proof fn lemma_take_step(start: SetupPhase, events: Seq<SetupEvent>, k: int)
    requires
        0 <= k < events.len(),
    ensures
        phase_after(start, events.take(k + 1)) == step(
            phase_after(start, events.take(k)),
            events[k],
        ).0,
{
    assert(events.take(k + 1).drop_last() =~= events.take(k));
}

/// The protocol never goes back: a longer run of events has come at least as
/// far as any run it starts with.
pub proof fn lemma_phases_only_advance(start: SetupPhase, events: Seq<SetupEvent>, i: int, j: int)
    requires
        0 <= i <= j <= events.len(),
    ensures
        progress(phase_after(start, events.take(i))) <= progress(
            phase_after(start, events.take(j)),
        ),
    decreases j - i,
{
    if i < j {
        lemma_phases_only_advance(start, events, i, j - 1);
        lemma_take_step(start, events, j - 1);
        lemma_step_moves_forward(phase_after(start, events.take(j - 1)), events[j - 1]);
    }
}

/// No step of the construction is asked for twice: whatever is reported, one
/// session spawns at most one host thread and is handed over at most once.
pub proof fn lemma_no_step_is_repeated(start: SetupPhase, events: Seq<SetupEvent>, i: int, j: int)
    requires
        0 <= i < j < events.len(),
        !(action_at(start, events, i) is Nothing),
    ensures
        action_at(start, events, j) != action_at(start, events, i),
{
    lemma_take_step(start, events, i);
    lemma_step_moves_forward(phase_after(start, events.take(i)), events[i]);
    lemma_phases_only_advance(start, events, i + 1, j);
    lemma_step_moves_forward(phase_after(start, events.take(j)), events[j]);
}

/// Once the native stream exists, the session stays among the phases in which
/// it exists.
proof fn lemma_native_stream_stays(start: SetupPhase, events: Seq<SetupEvent>, i: int, j: int)
    requires
        0 <= i <= j <= events.len(),
        has_native_stream(phase_after(start, events.take(i))),
    ensures
        has_native_stream(phase_after(start, events.take(j))),
    decreases j - i,
{
    if i < j {
        lemma_native_stream_stays(start, events, i, j - 1);
        lemma_take_step(start, events, j - 1);
    }
}

/// A rejected session stays rejected.
proof fn lemma_rejected_stays(start: SetupPhase, events: Seq<SetupEvent>, i: int, j: int)
    requires
        0 <= i <= j <= events.len(),
        phase_after(start, events.take(i)) is Rejected,
    ensures
        phase_after(start, events.take(j)) is Rejected,
    decreases j - i,
{
    if i < j {
        lemma_rejected_stays(start, events, i, j - 1);
        lemma_take_step(start, events, j - 1);
    }
}

/// A failed construction spawns no host thread. In every run of events in
/// which the native stream is rejected, the rejection is answered by
/// reporting the error, and at no point of the run, before or after, is a
/// thread spawned, a loop handle awaited or a session handed over.
pub proof fn lemma_rejected_stream_spawns_no_thread(events: Seq<SetupEvent>, i: int, k: int)
    requires
        0 <= i <= events.len(),
        0 <= k < events.len(),
        phase_after(SetupPhase::Prepared, events.take(i)) is Rejected,
    ensures
        action_at(SetupPhase::Prepared, events, k) is Nothing || action_at(
            SetupPhase::Prepared,
            events,
            k,
        ) is ReportError,
        action_at(SetupPhase::Prepared, events, k) is ReportError ==> events[k]
            is StreamRejected && k < i,
{
    let start = SetupPhase::Prepared;
    if k >= i {
        lemma_rejected_stays(start, events, i, k);
    } else {
        let action = action_at(start, events, k);
        lemma_take_step(start, events, k);
        if !(action is Nothing) && !(action is ReportError) {
            // Any other action comes with a native stream, which would still
            // exist after `i` events.
            assert(has_native_stream(phase_after(start, events.take(k + 1))));
            lemma_native_stream_stays(start, events, k + 1, i);
        }
    }
}

/// A run of events that has reached a phase other than the one it started in
/// entered that phase with one of its events.
proof fn lemma_entered(start: SetupPhase, events: Seq<SetupEvent>) -> (j: int)
    requires
        phase_after(start, events) != start,
    ensures
        0 <= j < events.len(),
        phase_after(start, events.take(j)) != phase_after(start, events),
        phase_after(start, events.take(j + 1)) == phase_after(start, events),
    decreases events.len(),
{
    let init = events.drop_last();
    if phase_after(start, init) == phase_after(start, events) {
        let j = lemma_entered(start, init);
        assert(init.take(j) =~= events.take(j));
        assert(init.take(j + 1) =~= events.take(j + 1));
        j
    } else {
        let j = events.len() - 1;
        assert(events.take(j + 1) =~= events);
        j
    }
}

/// The order of the construction. In every run of events that starts with a
/// prepared session:
/// the host thread is spawned only in answer to the creation of the native
/// stream;
/// its loop handle is awaited only after the thread was asked for;
/// and the session is handed over only after the loop handle was awaited and
/// in answer to its arrival.
pub proof fn lemma_construction_order(events: Seq<SetupEvent>, k: int)
    requires
        0 <= k < events.len(),
    ensures
        action_at(SetupPhase::Prepared, events, k) is SpawnHostThread ==> events[k]
            is StreamCreated,
        action_at(SetupPhase::Prepared, events, k) is AwaitLoopHandle ==> exists|j: int|
            0 <= j < k && #[trigger] action_at(SetupPhase::Prepared, events, j)
                is SpawnHostThread,
        action_at(SetupPhase::Prepared, events, k) is HandOver ==> events[k] is LoopPublished
            && exists|j: int|
            0 <= j < k && #[trigger] action_at(SetupPhase::Prepared, events, j)
                is AwaitLoopHandle,
{
    let start = SetupPhase::Prepared;
    let before = events.take(k);
    let action = action_at(start, events, k);
    if action is AwaitLoopHandle || action is HandOver {
        let j = lemma_entered(start, before);
        assert(before.take(j) =~= events.take(j));
        assert(before.take(j + 1) =~= events.take(j + 1));
        lemma_take_step(start, events, j);
        // The event at `j` led into the phase that the action at `k` starts
        // from.
        if action is AwaitLoopHandle {
            assert(action_at(start, events, j) is SpawnHostThread);
        } else {
            assert(action_at(start, events, j) is AwaitLoopHandle);
        }
    }
}

} // verus!
