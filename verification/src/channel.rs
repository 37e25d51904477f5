//! The bounded hand-off between the callback and the consumer: a `tokio`
//! channel whose receiving half is an abortable `futures` stream.
//!
//! Nothing in this module is proved. Each item states what the named outside
//! function is relied on to do.
use vstd::prelude::*;
use crate::event::RawEvent;
use futures::stream::{AbortHandle, Abortable, Aborted};
use futures::StreamExt;
use std::task::{Context, Poll};
use tokio::sync::mpsc::error::TrySendError;
use tokio::sync::mpsc::{Receiver, Sender};
use tokio_stream::wrappers::ReceiverStream;

verus! {

/// `tokio::sync::mpsc::Sender`: the sending half of a bounded channel.
#[verifier::external_type_specification]
#[verifier::external_body]
#[verifier::reject_recursive_types(T)]
pub struct ExSender<T>(Sender<T>);

/// `tokio::sync::mpsc::Receiver`: the receiving half of a bounded channel.
#[verifier::external_type_specification]
#[verifier::external_body]
#[verifier::reject_recursive_types(T)]
pub struct ExReceiver<T>(Receiver<T>);

/// `tokio_stream::wrappers::ReceiverStream`: a receiver as a stream.
#[verifier::external_type_specification]
#[verifier::external_body]
#[verifier::reject_recursive_types(T)]
pub struct ExReceiverStream<T>(ReceiverStream<T>);

/// `futures::stream::Abortable`: a stream that ends once its handle aborts it.
#[verifier::external_type_specification]
#[verifier::external_body]
#[verifier::reject_recursive_types(T)]
pub struct ExAbortable<T>(Abortable<T>);

/// `futures::stream::Aborted`: what an aborted future resolves to. Streams do
/// not use it; it is declared because `Abortable` is also a future.
#[verifier::external_type_specification]
#[verifier::external_body]
pub struct ExAborted(Aborted);

/// `futures::stream::AbortHandle`: the handle that aborts an `Abortable`.
#[verifier::external_type_specification]
#[verifier::external_body]
pub struct ExAbortHandle(AbortHandle);

/// `std::task::Context`: the context a task is polled with.
#[verifier::external_type_specification]
#[verifier::external_body]
pub struct ExContext<'a>(Context<'a>);

/// `std::task::Poll`: ready with a value, or pending.
#[verifier::external_type_specification]
#[verifier::external_body]
#[verifier::reject_recursive_types(T)]
pub struct ExPoll<T>(Poll<T>);

/// The consumer's half of the hand-off.
pub type EventReceiver = Abortable<ReceiverStream<RawEvent>>;

/// The number of events that the channel behind a sender buffers at most: the
/// bound it was created with.
pub uninterp spec fn channel_bound(sender: Sender<RawEvent>) -> usize;

/// Why the channel did not take an event.
#[derive(Debug, Clone, Copy, PartialEq, Eq, Structural)]
pub enum SendError {
    /// The buffer holds as many events as the channel's bound allows.
    Full,
    /// The receiving half was closed or dropped.
    Closed,
}

/// `tokio::sync::mpsc::channel`: a new channel that buffers up to `bound`
/// messages. The outside function panics on a bound of zero or above its
/// maximum number of permits, which is `usize::MAX >> 3`.
#[verifier::external_body]
pub(crate) fn bounded(bound: usize) -> (halves: (Sender<RawEvent>, Receiver<RawEvent>))
    requires
        0 < bound <= usize::MAX / 8,
    ensures
        channel_bound(halves.0) == bound,
{
    tokio::sync::mpsc::channel(bound)
}

/// `tokio::sync::mpsc::Sender::max_capacity`: the bound the channel was
/// created with, which never changes.
#[verifier::external_body]
pub(crate) fn max_capacity(sender: &Sender<RawEvent>) -> (bound: usize)
    ensures
        bound == channel_bound(*sender),
{
    sender.max_capacity()
}

/// `tokio::sync::mpsc::Sender::try_send`: hands the event to the channel
/// without waiting. The outcome depends on what the channel holds and on
/// whether its receiver still lives, so nothing is claimed of it.
#[verifier::external_body]
pub(crate) fn try_send(sender: &Sender<RawEvent>, event: RawEvent) -> (sent: Result<(), SendError>)
{
    match sender.try_send(event) {
        Ok(()) => Ok(()),
        Err(TrySendError::Full(_)) => Err(SendError::Full),
        Err(TrySendError::Closed(_)) => Err(SendError::Closed),
    }
}

/// `tokio_stream::wrappers::ReceiverStream::new`: the receiver as a stream.
#[verifier::external_body]
pub(crate) fn receiver_stream(receiver: Receiver<RawEvent>) -> (stream: ReceiverStream<RawEvent>)
{
    ReceiverStream::new(receiver)
}

/// `futures::stream::abortable`: the stream made abortable, with the handle
/// that aborts it.
#[verifier::external_body]
pub(crate) fn abortable(stream: ReceiverStream<RawEvent>) -> (pair: (EventReceiver, AbortHandle))
{
    futures::stream::abortable(stream)
}

/// `futures::stream::AbortHandle::abort`: marks the paired stream as aborted
/// and wakes its poller. The effect is on state shared with the stream, so no
/// clause states it.
#[verifier::external_body]
pub(crate) fn abort(handle: &AbortHandle)
{
    handle.abort()
}

/// `futures::StreamExt::poll_next_unpin`: polls the stream once.
#[verifier::external_body]
pub(crate) fn poll_next_unpin(stream: &mut EventReceiver, cx: &mut Context<'_>) -> (polled: Poll<
    Option<RawEvent>,
>)
{
    stream.poll_next_unpin(cx)
}

} // verus!
