//! The teardown protocol of a watch session as a deterministic state machine.
//!
//! Stopping the native loop takes several steps that only the owner of the
//! native handles can perform, and their order matters: the loop is stopped
//! only once it is known to be idle, its thread is joined only once the stop
//! was issued, and the stream is aborted only once the thread is gone. This
//! module decides; the owner of the handles acts, and reports back what
//! happened.
use vstd::prelude::*;

verus! {

/// How far the teardown of a session has come.
#[derive(Debug, Clone, Copy, PartialEq, Eq, Structural)]
pub enum ShutdownPhase {
    /// The loop runs and nobody asked for it to stop.
    Running,
    /// The idle observer is being registered on the loop.
    Registering,
    /// The loop is being asked whether it is idle already.
    Probing,
    /// The caller is blocked until the observer reports the loop idle.
    AwaitingIdle,
    /// The loop is known to be idle; the observer is being removed.
    Quiescent,
    /// The loop was told to stop.
    Stopping,
    /// The host thread is being joined.
    Joining,
    /// The loop is stopped, its thread is gone and the stream is aborted.
    Stopped,
    /// The protocol was violated; the process is expected to fail.
    Failed,
}

/// What the owner of the native handles reports.
#[derive(Debug, Clone, Copy, PartialEq, Eq, Structural)]
pub enum ShutdownEvent {
    /// The owner of the session asked for it to end.
    AbortRequested,
    /// The idle observer is registered on the loop.
    ObserverRegistered,
    /// The loop reported that it is waiting for work.
    LoopIdle,
    /// The loop reported that it is in the middle of its work.
    LoopBusy,
    /// The observer fired: the loop is about to wait.
    IdleSignalled,
    /// The observer's channel closed without a signal.
    IdleSignalLost,
    /// The idle observer is removed from the loop.
    ObserverRemoved,
    /// The stop call was issued.
    LoopStopped,
    /// The host thread ended.
    ThreadJoined,
    /// The host thread could not be joined because it panicked.
    ThreadPanicked,
}

/// An invariant of the protocol that the native side broke.
#[derive(Debug, Clone, Copy, PartialEq, Eq, Structural)]
pub enum Violation {
    /// The loop never reported that it became idle.
    IdleSignalLost,
    /// The host thread did not shut down in an orderly way.
    JoinFailed,
}

/// What the owner of the native handles is to do next.
#[derive(Debug, Clone, Copy, PartialEq, Eq, Structural)]
pub enum ShutdownAction {
    /// Nothing: the event does not concern the current phase.
    Nothing,
    /// Register a one-shot observer for the loop's "about to wait" phase.
    RegisterObserver,
    /// Ask the loop whether it is waiting already.
    ProbeIdle,
    /// Block until the observer fires.
    AwaitIdleSignal,
    /// Remove the observer from the loop.
    RemoveObserver,
    /// Tell the loop to stop.
    StopLoop,
    /// Wait for the host thread to end.
    JoinThread,
    /// Nothing is left to do: the teardown is complete.
    Finished,
    /// Fail the process: the protocol cannot go on.
    Fatal(Violation),
}

/// The transition function: the phase that follows `phase` on `event`, and
/// what is to be done next. An event that the phase does not wait for changes
/// nothing and asks for nothing.
pub open spec fn step(phase: ShutdownPhase, event: ShutdownEvent) -> (
    ShutdownPhase,
    ShutdownAction,
) {
    match (phase, event) {
        (ShutdownPhase::Running, ShutdownEvent::AbortRequested) => (
            ShutdownPhase::Registering,
            ShutdownAction::RegisterObserver,
        ),
        (ShutdownPhase::Registering, ShutdownEvent::ObserverRegistered) => (
            ShutdownPhase::Probing,
            ShutdownAction::ProbeIdle,
        ),
        (ShutdownPhase::Probing, ShutdownEvent::LoopIdle) => (
            ShutdownPhase::Quiescent,
            ShutdownAction::RemoveObserver,
        ),
        (ShutdownPhase::Probing, ShutdownEvent::LoopBusy) => (
            ShutdownPhase::AwaitingIdle,
            ShutdownAction::AwaitIdleSignal,
        ),
        (ShutdownPhase::AwaitingIdle, ShutdownEvent::IdleSignalled) => (
            ShutdownPhase::Quiescent,
            ShutdownAction::RemoveObserver,
        ),
        (ShutdownPhase::AwaitingIdle, ShutdownEvent::IdleSignalLost) => (
            ShutdownPhase::Failed,
            ShutdownAction::Fatal(Violation::IdleSignalLost),
        ),
        (ShutdownPhase::Quiescent, ShutdownEvent::ObserverRemoved) => (
            ShutdownPhase::Stopping,
            ShutdownAction::StopLoop,
        ),
        (ShutdownPhase::Stopping, ShutdownEvent::LoopStopped) => (
            ShutdownPhase::Joining,
            ShutdownAction::JoinThread,
        ),
        (ShutdownPhase::Joining, ShutdownEvent::ThreadJoined) => (
            ShutdownPhase::Stopped,
            ShutdownAction::Finished,
        ),
        (ShutdownPhase::Joining, ShutdownEvent::ThreadPanicked) => (
            ShutdownPhase::Failed,
            ShutdownAction::Fatal(Violation::JoinFailed),
        ),
        _ => (phase, ShutdownAction::Nothing),
    }
}

/// Takes one step of the protocol.
pub fn shutdown_step(phase: ShutdownPhase, event: ShutdownEvent) -> (next: (
    ShutdownPhase,
    ShutdownAction,
))
    ensures
        next == step(phase, event),
{
    match (phase, event) {
        (ShutdownPhase::Running, ShutdownEvent::AbortRequested) => (
            ShutdownPhase::Registering,
            ShutdownAction::RegisterObserver,
        ),
        (ShutdownPhase::Registering, ShutdownEvent::ObserverRegistered) => (
            ShutdownPhase::Probing,
            ShutdownAction::ProbeIdle,
        ),
        (ShutdownPhase::Probing, ShutdownEvent::LoopIdle) => (
            ShutdownPhase::Quiescent,
            ShutdownAction::RemoveObserver,
        ),
        (ShutdownPhase::Probing, ShutdownEvent::LoopBusy) => (
            ShutdownPhase::AwaitingIdle,
            ShutdownAction::AwaitIdleSignal,
        ),
        (ShutdownPhase::AwaitingIdle, ShutdownEvent::IdleSignalled) => (
            ShutdownPhase::Quiescent,
            ShutdownAction::RemoveObserver,
        ),
        (ShutdownPhase::AwaitingIdle, ShutdownEvent::IdleSignalLost) => (
            ShutdownPhase::Failed,
            ShutdownAction::Fatal(Violation::IdleSignalLost),
        ),
        (ShutdownPhase::Quiescent, ShutdownEvent::ObserverRemoved) => (
            ShutdownPhase::Stopping,
            ShutdownAction::StopLoop,
        ),
        (ShutdownPhase::Stopping, ShutdownEvent::LoopStopped) => (
            ShutdownPhase::Joining,
            ShutdownAction::JoinThread,
        ),
        (ShutdownPhase::Joining, ShutdownEvent::ThreadJoined) => (
            ShutdownPhase::Stopped,
            ShutdownAction::Finished,
        ),
        (ShutdownPhase::Joining, ShutdownEvent::ThreadPanicked) => (
            ShutdownPhase::Failed,
            ShutdownAction::Fatal(Violation::JoinFailed),
        ),
        _ => (phase, ShutdownAction::Nothing),
    }
}

/// The phase reached from `start` once all of `events` were reported, in
/// order.
pub open spec fn phase_after(start: ShutdownPhase, events: Seq<ShutdownEvent>) -> ShutdownPhase
    decreases events.len(),
{
    if events.len() == 0 {
        start
    } else {
        step(phase_after(start, events.drop_last()), events.last()).0
    }
}

/// The action asked for in answer to the event at position `k`.
pub open spec fn action_at(start: ShutdownPhase, events: Seq<ShutdownEvent>, k: int) -> ShutdownAction
    recommends
        0 <= k < events.len(),
{
    step(phase_after(start, events.take(k)), events[k]).1
}

/// The place of a phase in the protocol. No step leads to an earlier place.
pub open spec fn progress(phase: ShutdownPhase) -> nat {
    match phase {
        ShutdownPhase::Running => 0,
        ShutdownPhase::Registering => 1,
        ShutdownPhase::Probing => 2,
        ShutdownPhase::AwaitingIdle => 3,
        ShutdownPhase::Quiescent => 4,
        ShutdownPhase::Stopping => 5,
        ShutdownPhase::Joining => 6,
        ShutdownPhase::Stopped => 7,
        ShutdownPhase::Failed => 8,
    }
}

/// The place in the protocol that an action leads to.
pub open spec fn goal(action: ShutdownAction) -> nat {
    match action {
        ShutdownAction::Nothing => 0,
        ShutdownAction::RegisterObserver => 1,
        ShutdownAction::ProbeIdle => 2,
        ShutdownAction::AwaitIdleSignal => 3,
        ShutdownAction::RemoveObserver => 4,
        ShutdownAction::StopLoop => 5,
        ShutdownAction::JoinThread => 6,
        ShutdownAction::Finished => 7,
        ShutdownAction::Fatal(_) => 8,
    }
}

/// An event that shows the loop to be idle.
pub open spec fn shows_idle(event: ShutdownEvent) -> bool {
    event is LoopIdle || event is IdleSignalled
}

/// Every step either changes nothing and asks for nothing, or moves forward to
/// the place that its action leads to.
pub proof fn lemma_step_moves_forward(phase: ShutdownPhase, event: ShutdownEvent)
    ensures
        step(phase, event).1 is Nothing ==> step(phase, event).0 == phase,
        !(step(phase, event).1 is Nothing) ==> progress(phase) < goal(step(phase, event).1)
            == progress(step(phase, event).0),
{
}

/// A second request to abort asks for nothing and changes nothing, whatever
/// the phase in which the first one came.
pub proof fn lemma_abort_is_idempotent(phase: ShutdownPhase)
    ensures
        step(step(phase, ShutdownEvent::AbortRequested).0, ShutdownEvent::AbortRequested) == (
            step(phase, ShutdownEvent::AbortRequested).0,
            ShutdownAction::Nothing,
        ),
{
}

/// Once the teardown is complete or has failed, no event asks for anything.
pub proof fn lemma_end_is_final(phase: ShutdownPhase, event: ShutdownEvent)
    requires
        phase is Stopped || phase is Failed,
    ensures
        step(phase, event) == (phase, ShutdownAction::Nothing),
{
}

proof fn lemma_take_step(start: ShutdownPhase, events: Seq<ShutdownEvent>, k: int)
    requires
        0 <= k < events.len(),
    ensures
        phase_after(start, events.take(k + 1)) == step(
            phase_after(start, events.take(k)),
            events[k],
        ).0,
{
    assert(events.take(k + 1).drop_last() =~= events.take(k));
}

/// The protocol never goes back: a longer run of events has come at least as
/// far as any run it starts with.
pub proof fn lemma_phases_only_advance(
    start: ShutdownPhase,
    events: Seq<ShutdownEvent>,
    i: int,
    j: int,
)
    requires
        0 <= i <= j <= events.len(),
    ensures
        progress(phase_after(start, events.take(i))) <= progress(
            phase_after(start, events.take(j)),
        ),
    decreases j - i,
{
    if i < j {
        lemma_phases_only_advance(start, events, i, j - 1);
        lemma_take_step(start, events, j - 1);
        lemma_step_moves_forward(phase_after(start, events.take(j - 1)), events[j - 1]);
    }
}

/// No step of the teardown is asked for twice: whatever is reported, and
/// however often an abort is requested, the loop is stopped at most once, the
/// thread joined at most once and the stream aborted at most once.
pub proof fn lemma_no_step_is_repeated(
    start: ShutdownPhase,
    events: Seq<ShutdownEvent>,
    i: int,
    j: int,
)
    requires
        0 <= i < j < events.len(),
        !(action_at(start, events, i) is Nothing),
    ensures
        action_at(start, events, j) != action_at(start, events, i),
{
    lemma_take_step(start, events, i);
    lemma_step_moves_forward(phase_after(start, events.take(i)), events[i]);
    lemma_phases_only_advance(start, events, i + 1, j);
    lemma_step_moves_forward(phase_after(start, events.take(j)), events[j]);
}

/// A session that is never asked to abort is never torn down: as long as no
/// abort is requested, the phase stays `Running` and nothing is asked for, so
/// the loop and its thread keep running.
pub proof fn lemma_running_until_abort_requested(events: Seq<ShutdownEvent>)
    requires
        forall|i: int| 0 <= i < events.len() ==> !(#[trigger] events[i] is AbortRequested),
    ensures
        phase_after(ShutdownPhase::Running, events) is Running,
        forall|k: int|
            0 <= k < events.len() ==> #[trigger] action_at(ShutdownPhase::Running, events, k)
                is Nothing,
    decreases events.len(),
{
    if events.len() > 0 {
        let init = events.drop_last();
        assert forall|i: int| 0 <= i < init.len() implies !(#[trigger] init[i]
            is AbortRequested) by {}
        lemma_running_until_abort_requested(init);
        assert forall|k: int| 0 <= k < events.len() implies #[trigger] action_at(
            ShutdownPhase::Running,
            events,
            k,
        ) is Nothing by {
            if k < init.len() {
                assert(init.take(k) =~= events.take(k));
                assert(action_at(ShutdownPhase::Running, init, k) is Nothing);
            }
        }
    }
}

/// A run of events that has reached a phase other than the one it started in
/// entered that phase with one of its events.
proof fn lemma_entered(start: ShutdownPhase, events: Seq<ShutdownEvent>) -> (j: int)
    requires
        phase_after(start, events) != start,
    ensures
        0 <= j < events.len(),
        phase_after(start, events.take(j)) != phase_after(start, events),
        phase_after(start, events.take(j + 1)) == phase_after(start, events),
    decreases events.len(),
{
    let init = events.drop_last();
    if phase_after(start, init) == phase_after(start, events) {
        let j = lemma_entered(start, init);
        assert(init.take(j) =~= events.take(j));
        assert(init.take(j + 1) =~= events.take(j + 1));
        j
    } else {
        let j = events.len() - 1;
        assert(events.take(j + 1) =~= events);
        j
    }
}

/// The order of the teardown. In every run of events that starts with a
/// running session:
/// the loop is told to stop only after an event showed it to be idle and the
/// observer's removal was asked for;
/// the thread is joined only after the loop was told to stop;
/// and the teardown finishes, aborting the stream, only after the join was
/// asked for.
pub proof fn lemma_teardown_order(events: Seq<ShutdownEvent>, k: int)
    requires
        0 <= k < events.len(),
    ensures
        action_at(ShutdownPhase::Running, events, k) is StopLoop ==> exists|j: int|
            0 <= j < k && shows_idle(events[j]) && #[trigger] action_at(
                ShutdownPhase::Running,
                events,
                j,
            ) is RemoveObserver,
        action_at(ShutdownPhase::Running, events, k) is JoinThread ==> exists|j: int|
            0 <= j < k && #[trigger] action_at(ShutdownPhase::Running, events, j) is StopLoop,
        action_at(ShutdownPhase::Running, events, k) is Finished ==> exists|j: int|
            0 <= j < k && #[trigger] action_at(ShutdownPhase::Running, events, j) is JoinThread,
{
    let start = ShutdownPhase::Running;
    let before = events.take(k);
    let action = action_at(start, events, k);
    if action is StopLoop || action is JoinThread || action is Finished {
        let j = lemma_entered(start, before);
        assert(before.take(j) =~= events.take(j));
        assert(before.take(j + 1) =~= events.take(j + 1));
        lemma_take_step(start, events, j);
        // The event at `j` led into the phase that the action at `k` starts
        // from.
        if action is StopLoop {
            assert(shows_idle(events[j]) && action_at(start, events, j) is RemoveObserver);
        } else if action is JoinThread {
            assert(action_at(start, events, j) is StopLoop);
        } else {
            assert(action_at(start, events, j) is JoinThread);
        }
    }
}

} // verus!
