use fsevent_stream::bridge::{callback_impl, delivery_of, Delivery, StreamContextInfo};
use fsevent_stream::channel::SendError;
use fsevent_stream::event::{CallbackError, RawEntry, RawEvent};
use fsevent_stream::flags::{IS_FILE, ITEM_CREATED, ITEM_MODIFIED, ITEM_REMOVED};
use fsevent_stream::setup::{SetupAction, SetupEvent};
use fsevent_stream::stream::{raw_event_stream, RawEventStream, EVENT_CHANNEL_CAPACITY};
use futures::task::noop_waker;
use std::task::{Context, Poll};

fn check_send<T: Send + Sync>() {}

fn entry(path: &str, file_id: Option<i64>, raw_flags: u32, id: u64) -> RawEntry {
    RawEntry { path: path.to_string(), file_id, raw_flags, id }
}

fn numbered(id: u64) -> RawEntry {
    entry(&format!("/watched/{}", id), Some(id as i64 + 1000), ITEM_MODIFIED | IS_FILE, id)
}

/// A connected stream with the context that feeds it.
fn session() -> (StreamContextInfo, RawEventStream) {
    let (context, mut pending) = raw_event_stream(0);
    assert_eq!(pending.advance(SetupEvent::StreamCreated), SetupAction::SpawnHostThread);
    assert_eq!(pending.advance(SetupEvent::ThreadSpawned), SetupAction::AwaitLoopHandle);
    assert_eq!(pending.advance(SetupEvent::LoopPublished), SetupAction::HandOver);
    let (stream, _handler) = pending.connect().expect("connected");
    (context, stream)
}

fn poll(stream: &mut RawEventStream) -> Poll<Option<RawEvent>> {
    let waker = noop_waker();
    let mut cx = Context::from_waker(&waker);
    stream.poll_next(&mut cx)
}

/// Everything that is ready now, in the order it comes out.
fn drain(stream: &mut RawEventStream) -> Vec<RawEvent> {
    let mut events = Vec::new();
    while let Poll::Ready(Some(event)) = poll(stream) {
        events.push(event);
    }
    events
}

#[test]
fn test_steam_context_info_send_and_sync() {
    check_send::<StreamContextInfo>();
}

#[test]
fn the_channel_buffers_1024_events() {
    let (context, _stream) = session();
    assert_eq!(EVENT_CHANNEL_CAPACITY, 1024);
    assert_eq!(context.capacity(), 1024);
}

#[test]
fn delivery_of_records_the_channel_answer() {
    assert_eq!(delivery_of(Ok(())), Delivery::Sent);
    assert_eq!(delivery_of(Err(SendError::Full)), Delivery::Dropped(SendError::Full));
    assert_eq!(delivery_of(Err(SendError::Closed)), Delivery::Dropped(SendError::Closed));
}

#[test]
fn an_empty_batch_delivers_nothing() {
    let (context, mut stream) = session();
    assert!(callback_impl(&context, &Vec::new()).is_empty());
    assert!(matches!(poll(&mut stream), Poll::Pending));
}

#[test]
fn a_batch_reaches_the_consumer_in_order() {
    let (context, mut stream) = session();
    let batch = vec![
        entry("/watched/a", Some(11), ITEM_CREATED | IS_FILE, 100),
        entry("/watched/b", Some(12), ITEM_MODIFIED | IS_FILE, 101),
        entry("/watched/a", Some(11), ITEM_REMOVED | IS_FILE, 105),
    ];
    let report = callback_impl(&context, &batch);
    assert_eq!(report, vec![Delivery::Sent, Delivery::Sent, Delivery::Sent]);

    let events = drain(&mut stream);
    assert_eq!(events.len(), 3);
    assert_eq!(events[0].path, "/watched/a");
    assert_eq!(events[0].inode, 11);
    assert_eq!(events[0].flags.bits(), ITEM_CREATED | IS_FILE);
    assert_eq!(events[0].raw_flags, ITEM_CREATED | IS_FILE);
    assert_eq!(events[0].id, 100);
    assert_eq!(events[1].path, "/watched/b");
    assert_eq!(events[1].inode, 12);
    assert_eq!(events[1].id, 101);
    assert_eq!(events[2].path, "/watched/a");
    assert_eq!(events[2].raw_flags, ITEM_REMOVED | IS_FILE);
    assert_eq!(events[2].id, 105);
    assert!(matches!(poll(&mut stream), Poll::Pending));
}

#[test]
fn batches_reach_the_consumer_one_after_the_other() {
    let (context, mut stream) = session();
    let first: Vec<RawEntry> = (1..=3).map(numbered).collect();
    let second: Vec<RawEntry> = (4..=4).map(numbered).collect();
    let third: Vec<RawEntry> = (5..=9).map(numbered).collect();
    assert_eq!(callback_impl(&context, &first), vec![Delivery::Sent; 3]);
    assert_eq!(callback_impl(&context, &second), vec![Delivery::Sent; 1]);
    assert_eq!(callback_impl(&context, &third), vec![Delivery::Sent; 5]);

    let ids: Vec<u64> = drain(&mut stream).iter().map(|event| event.id).collect();
    assert_eq!(ids, vec![1, 2, 3, 4, 5, 6, 7, 8, 9]);
    let mut sorted = ids.clone();
    sorted.sort();
    assert_eq!(ids, sorted);
}

#[test]
fn identifiers_come_out_as_they_went_in() {
    // The bridge reorders nothing, also where the native identifiers go
    // backwards.
    let (context, mut stream) = session();
    let batch = vec![numbered(5), numbered(3), numbered(3), numbered(8)];
    assert_eq!(callback_impl(&context, &batch), vec![Delivery::Sent; 4]);
    let ids: Vec<u64> = drain(&mut stream).iter().map(|event| event.id).collect();
    assert_eq!(ids, vec![5, 3, 3, 8]);
}

#[test]
fn malformed_entries_cost_only_themselves() {
    let (context, mut stream) = session();
    let batch = vec![
        numbered(1),
        entry("/watched/no-id", None, ITEM_CREATED, 2),
        numbered(3),
        entry("/watched/odd-flags", Some(7), 0x8000_0000, 4),
        entry("/watched/both", None, 0x8000_0000, 5),
        numbered(6),
    ];
    let report = callback_impl(&context, &batch);
    assert_eq!(
        report,
        vec![
            Delivery::Sent,
            Delivery::Skipped(CallbackError::ToI64),
            Delivery::Sent,
            Delivery::Skipped(CallbackError::ParseFlags),
            Delivery::Skipped(CallbackError::ToI64),
            Delivery::Sent,
        ]
    );
    // A later batch is not affected either.
    assert_eq!(callback_impl(&context, &vec![numbered(7)]), vec![Delivery::Sent]);

    let events = drain(&mut stream);
    let ids: Vec<u64> = events.iter().map(|event| event.id).collect();
    assert_eq!(ids, vec![1, 3, 6, 7]);
    assert_eq!(events[1].path, "/watched/3");
    assert_eq!(events[1].inode, 1003);
}

#[test]
fn a_batch_of_malformed_entries_delivers_nothing() {
    let (context, mut stream) = session();
    let batch = vec![entry("/a", None, 0, 1), entry("/b", Some(1), 0x0080_0000, 2)];
    assert_eq!(
        callback_impl(&context, &batch),
        vec![Delivery::Skipped(CallbackError::ToI64), Delivery::Skipped(CallbackError::ParseFlags)]
    );
    assert!(matches!(poll(&mut stream), Poll::Pending));
}

#[test]
fn a_full_channel_drops_the_excess_and_keeps_a_prefix() {
    let (context, mut stream) = session();
    let batch: Vec<RawEntry> = (0..1030).map(numbered).collect();
    let report = callback_impl(&context, &batch);
    assert_eq!(report.len(), 1030);
    for (position, delivery) in report.iter().enumerate() {
        if position < 1024 {
            assert_eq!(*delivery, Delivery::Sent);
        } else {
            assert_eq!(*delivery, Delivery::Dropped(SendError::Full));
        }
    }
    // A malformed entry is still reported as such while the channel is full.
    assert_eq!(
        callback_impl(&context, &vec![entry("/x", None, 0, 2000), numbered(2001)]),
        vec![Delivery::Skipped(CallbackError::ToI64), Delivery::Dropped(SendError::Full)]
    );

    let ids: Vec<u64> = drain(&mut stream).iter().map(|event| event.id).collect();
    assert_eq!(ids.len(), 1024);
    assert_eq!(ids, (0..1024).collect::<Vec<u64>>());

    // Nothing was queued beyond the capacity, and the drained channel takes
    // events again.
    assert!(matches!(poll(&mut stream), Poll::Pending));
    assert_eq!(callback_impl(&context, &vec![numbered(3000)]), vec![Delivery::Sent]);
    let ids: Vec<u64> = drain(&mut stream).iter().map(|event| event.id).collect();
    assert_eq!(ids, vec![3000]);
}

#[test]
fn a_dropped_stream_refuses_events() {
    let (context, stream) = session();
    drop(stream);
    let report = callback_impl(&context, &vec![numbered(1), entry("/x", None, 0, 2), numbered(3)]);
    assert_eq!(
        report,
        vec![
            Delivery::Dropped(SendError::Closed),
            Delivery::Skipped(CallbackError::ToI64),
            Delivery::Dropped(SendError::Closed),
        ]
    );
}

#[test]
fn the_stream_ends_when_the_context_is_released() {
    let (context, mut stream) = session();
    assert_eq!(callback_impl(&context, &vec![numbered(1)]), vec![Delivery::Sent]);
    drop(context);
    assert!(matches!(poll(&mut stream), Poll::Ready(Some(_))));
    assert!(matches!(poll(&mut stream), Poll::Ready(None)));
}
