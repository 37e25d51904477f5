//! The two halves of a watch session, the consumer's stream and the owner's
//! handle, and the construction that connects them.
use vstd::prelude::*;
use crate::bridge::StreamContextInfo;
use crate::channel::{abort, abortable, bounded, poll_next_unpin, receiver_stream, EventReceiver};
use crate::event::RawEvent;
use crate::flags::{required_create_flags, with_required_flags};
use crate::setup::{setup_step, SetupAction, SetupEvent, SetupPhase};
use crate::shutdown::{shutdown_step, ShutdownAction, ShutdownEvent, ShutdownPhase};
use futures::stream::AbortHandle;
use std::task::{Context, Poll};

verus! {

/// The number of events that the channel between the callback and the
/// consumer buffers. Events that arrive while it is full are dropped.
pub const EVENT_CHANNEL_CAPACITY: usize = 1024;

/// The consumer's half of a session: the events that the channel took, in the
/// order in which it took them, until the channel closes or the session's
/// handle completes an abort.
pub struct RawEventStream {
    stream: EventReceiver,
}

impl RawEventStream {
    /// Polls for the next event. This passes the poll on to the abortable
    /// receiver and hands back its answer as it is: ready with an event,
    /// ready with `None` once the stream has ended or was aborted, pending
    /// otherwise.
    ///
    /// Which of these comes back is decided by what the channel holds at the
    /// moment and by whether the session's handle has completed an abort.
    /// Both change behind this value, from other threads, so no clause
    /// states the answer.
    pub fn poll_next(&mut self, cx: &mut Context<'_>) -> Poll<Option<RawEvent>> {
        poll_next_unpin(&mut self.stream, cx)
    }
}

/// The owner's half of a session: the permission to stop the native loop, to
/// reclaim its thread and to end the stream, once.
///
/// The handle decides each step of the teardown and aborts the stream itself;
/// the steps on the native loop and its thread are taken by whoever holds
/// them. A handle that is dropped without an abort stops nothing.
pub struct RawEventStreamHandler {
    phase: ShutdownPhase,
    abort_handle: AbortHandle,
}

impl RawEventStreamHandler {
    /// How far the teardown has come.
    pub closed spec fn phase(&self) -> ShutdownPhase {
        self.phase
    }

    /// How far the teardown has come.
    pub fn current_phase(&self) -> (phase: ShutdownPhase)
        ensures
            phase == self.phase(),
    {
        self.phase
    }

    /// Requests the end of the session. On a running session this starts the
    /// teardown and names its first step; on any other it changes nothing and
    /// asks for nothing.
    pub fn abort(&mut self) -> (action: ShutdownAction)
        ensures
            (final(self).phase(), action) == crate::shutdown::step(
                old(self).phase(),
                ShutdownEvent::AbortRequested,
            ),
    {
        self.advance(ShutdownEvent::AbortRequested)
    }

    /// Reports what happened on the native side and learns what to do next.
    /// The step that completes the teardown, and no other, aborts the stream.
    pub fn advance(&mut self, event: ShutdownEvent) -> (action: ShutdownAction)
        ensures
            (final(self).phase(), action) == crate::shutdown::step(old(self).phase(), event),
    {
        let (next, action) = shutdown_step(self.phase, event);
        if let ShutdownAction::Finished = action {
            abort(&self.abort_handle);
        }
        self.phase = next;
        action
    }
}

/// A session under construction: its channel exists, its native side does not
/// yet.
pub struct PendingStream {
    phase: SetupPhase,
    create_flags: u32,
    stream: RawEventStream,
    abort_handle: AbortHandle,
}

impl PendingStream {
    /// How far the construction has come.
    pub closed spec fn phase(&self) -> SetupPhase {
        self.phase
    }

    /// The creation flags that the native stream is to be made with.
    pub closed spec fn flags(&self) -> u32 {
        self.create_flags
    }

    /// How far the construction has come.
    pub fn current_phase(&self) -> (phase: SetupPhase)
        ensures
            phase == self.phase(),
    {
        self.phase
    }

    /// The creation flags that the native stream is to be made with.
    pub fn create_flags(&self) -> (flags: u32)
        ensures
            flags == self.flags(),
    {
        self.create_flags
    }

    /// Reports what happened on the native side and learns what to do next.
    pub fn advance(&mut self, event: SetupEvent) -> (action: SetupAction)
        ensures
            (final(self).phase(), action) == crate::setup::step(old(self).phase(), event),
            final(self).flags() == old(self).flags(),
    {
        let (next, action) = setup_step(self.phase, event);
        self.phase = next;
        action
    }

    /// Hands out the two halves of the session, with a handle that is
    /// running, if and only if the construction is complete.
    pub fn connect(self) -> (pair: Option<(RawEventStream, RawEventStreamHandler)>)
        ensures
            pair is Some <==> self.phase() is Connected,
            match pair {
                Some((_, handler)) => handler.phase() is Running,
                None => true,
            },
    {
        match self.phase {
            SetupPhase::Connected => Some(
                (
                    self.stream,
                    RawEventStreamHandler {
                        phase: ShutdownPhase::Running,
                        abort_handle: self.abort_handle,
                    },
                ),
            ),
            _ => None,
        }
    }
}

/// Prepares a session: creates the event channel with its fixed capacity,
/// wraps its receiving half as an abortable stream, and settles the creation
/// flags, which always include the two that the callback's decoding relies
/// on.
///
/// The context goes to the native stream as the callback's user data. The
/// pending stream is driven through the rest of the construction by the owner
/// of the native handles.
pub fn raw_event_stream(flags: u32) -> (parts: (StreamContextInfo, PendingStream))
    ensures
        parts.0.bound() == EVENT_CHANNEL_CAPACITY,
        parts.1.phase() is Prepared,
        parts.1.flags() == with_required_flags(flags),
{
    let (event_tx, event_rx) = bounded(EVENT_CHANNEL_CAPACITY);
    let context = StreamContextInfo::new(event_tx);
    let (stream, abort_handle) = abortable(receiver_stream(event_rx));
    let pending = PendingStream {
        phase: SetupPhase::Prepared,
        create_flags: required_create_flags(flags),
        stream: RawEventStream { stream },
        abort_handle,
    };
    (context, pending)
}

} // verus!
