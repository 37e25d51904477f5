//! What the native callback does with one batch of notifications: decode each
//! entry, offer each event to the channel without waiting, and account for
//! every entry.
use vstd::prelude::*;
use crate::channel::{channel_bound, max_capacity, try_send, SendError};
use crate::event::{
    decode, decode_entry, decoded, well_formed, CallbackError, RawEntry, RawEntryView, RawEvent,
    RawEventView,
};
use tokio::sync::mpsc::Sender;

verus! {

/// The state handed to the native service as the callback's user data. It
/// owns the one sending endpoint of the event channel.
pub struct StreamContextInfo {
    event_handler: Sender<RawEvent>,
}

impl StreamContextInfo {
    /// The number of events that the channel buffers at most.
    pub closed spec fn bound(&self) -> usize {
        channel_bound(self.event_handler)
    }

    /// Wraps the sending endpoint of a new channel.
    pub(crate) fn new(event_handler: Sender<RawEvent>) -> (info: StreamContextInfo)
        ensures
            info.bound() == channel_bound(event_handler),
    {
        StreamContextInfo { event_handler }
    }

    /// The number of events that the channel buffers at most.
    pub fn capacity(&self) -> (bound: usize)
        ensures
            bound == self.bound(),
    {
        max_capacity(&self.event_handler)
    }
}

/// What became of one entry of a batch.
#[derive(Debug, Clone, Copy, PartialEq, Eq, Structural)]
pub enum Delivery {
    /// The entry was decoded and the channel took the event.
    Sent,
    /// The entry was decoded, the channel refused the event, and the event is
    /// lost.
    Dropped(SendError),
    /// The entry could not be decoded and was passed over.
    Skipped(CallbackError),
}

/// The delivery recorded for an entry that was decoded and offered to the
/// channel.
pub open spec fn delivery_after(sent: Result<(), SendError>) -> Delivery {
    match sent {
        Ok(_) => Delivery::Sent,
        Err(reason) => Delivery::Dropped(reason),
    }
}

/// Records what the channel answered to one offer.
pub fn delivery_of(sent: Result<(), SendError>) -> (delivery: Delivery)
    ensures
        delivery == delivery_after(sent),
{
    match sent {
        Ok(_) => Delivery::Sent,
        Err(reason) => Delivery::Dropped(reason),
    }
}

/// A delivery accounts for an entry when it names the entry's decoding error,
/// or, for a well-formed entry, says what the channel did with its event.
pub open spec fn accounts_for(entry: RawEntryView, delivery: Delivery) -> bool {
    match decode(entry) {
        Ok(_) => delivery is Sent || delivery is Dropped,
        Err(error) => delivery == Delivery::Skipped(error),
    }
}

/// A report accounts for a batch when it holds one delivery per entry, in the
/// order of the entries, each accounting for its entry alone.
pub open spec fn accounts_for_batch(entries: Seq<RawEntryView>, report: Seq<Delivery>) -> bool {
    &&& report.len() == entries.len()
    &&& forall|i: int| 0 <= i < entries.len() ==> accounts_for(entries[i], #[trigger] report[i])
}

/// The values of a batch of entries.
pub open spec fn views(entries: Seq<RawEntry>) -> Seq<RawEntryView> {
    entries.map_values(|entry: RawEntry| entry@)
}

/// Handles one batch: every entry is decoded on its own, every decoded event
/// is offered to the channel once and without waiting, and nothing is kept
/// back for later. A malformed entry or a refused event costs that entry
/// only.
///
/// Which of the well-formed entries the channel takes depends on the consumer;
/// the report says it for each.
pub fn callback_impl(info: &StreamContextInfo, entries: &Vec<RawEntry>) -> (report: Vec<Delivery>)
    ensures
        accounts_for_batch(views(entries@), report@),
{
    let mut report: Vec<Delivery> = Vec::new();
    let mut idx: usize = 0;
    while idx < entries.len()
        invariant
            idx <= entries.len(),
            report@.len() == idx,
            forall|i: int| 0 <= i < idx ==> accounts_for(entries@[i]@, #[trigger] report@[i]),
        decreases entries.len() - idx,
    {
        let delivery = match decode_entry(&entries[idx]) {
            Ok(event) => delivery_of(try_send(&info.event_handler, event)),
            Err(error) => Delivery::Skipped(error),
        };
        report.push(delivery);
        idx += 1;
    }
    report
}

/// The events that the channel took, in the order in which they were offered:
/// one for each well-formed entry whose delivery is `Sent`.
pub open spec fn accepted(entries: Seq<RawEntryView>, report: Seq<Delivery>) -> Seq<RawEventView>
    recommends
        report.len() == entries.len(),
    decreases entries.len(),
{
    if entries.len() == 0 {
        Seq::empty()
    } else {
        let earlier = accepted(entries.drop_last(), report.drop_last());
        match decode(entries.last()) {
            Ok(event) => if report.last() is Sent {
                earlier.push(event)
            } else {
                earlier
            },
            Err(_) => earlier,
        }
    }
}

/// `at` places each event at the entry it was decoded from, and later events
/// at later entries.
pub open spec fn traces_back(
    events: Seq<RawEventView>,
    entries: Seq<RawEntryView>,
    at: Seq<int>,
) -> bool {
    &&& at.len() == events.len()
    &&& forall|k: int|
        0 <= k < at.len() ==> 0 <= #[trigger] at[k] < entries.len() && decode(entries[at[k]])
            == Ok::<RawEventView, CallbackError>(events[k])
    &&& forall|j: int, k: int| 0 <= j < k < at.len() ==> at[j] < at[k]
}

/// No event is taken by the channel after one was refused: what a channel
/// does whose consumer takes nothing out while the producer runs.
pub open spec fn saturating(report: Seq<Delivery>) -> bool {
    forall|i: int, j: int|
        #![trigger report[i], report[j]]
        0 <= i < j < report.len() && report[i] is Dropped ==> !(report[j] is Sent)
}

/// The events that reach the channel keep the order of the native entries:
/// each is the decoding of an entry that was reported as sent, later events
/// come from later entries, and every entry reported as sent is among them.
/// The result is the position of each event's entry.
pub proof fn lemma_accepted_in_order(entries: Seq<RawEntryView>, report: Seq<Delivery>) -> (at: Seq<
    int,
>)
    requires
        report.len() == entries.len(),
    ensures
        traces_back(accepted(entries, report), entries, at),
        forall|k: int| 0 <= k < at.len() ==> report[#[trigger] at[k]] is Sent,
        forall|i: int|
            0 <= i < entries.len() && well_formed(entries[i]) && report[i] is Sent
                ==> #[trigger] at.contains(i),
    decreases entries.len(),
{
    if entries.len() == 0 {
        Seq::empty()
    } else {
        let last = entries.len() - 1;
        let init = entries.drop_last();
        let earlier = lemma_accepted_in_order(init, report.drop_last());
        let at = if well_formed(entries.last()) && report.last() is Sent {
            earlier.push(last)
        } else {
            earlier
        };
        assert forall|k: int| 0 <= k < at.len() implies 0 <= #[trigger] at[k] < entries.len()
            && decode(entries[at[k]]) == Ok::<RawEventView, CallbackError>(
            accepted(entries, report)[k],
        ) && report[at[k]] is Sent by {}
        assert forall|j: int, k: int| 0 <= j < k < at.len() implies at[j] < at[k] by {}
        assert forall|i: int|
            0 <= i < entries.len() && well_formed(entries[i]) && report[i]
                is Sent implies #[trigger] at.contains(i) by {
            if i < last {
                assert(earlier.contains(i));
                let k = choose|k: int| 0 <= k < earlier.len() && earlier[k] == i;
                assert(at[k] == i);
            } else {
                assert(at[at.len() - 1] == i);
            }
        }
        at
    }
}

/// Where the native identifiers do not decrease from entry to entry, they do
/// not decrease from event to event in what the channel took.
pub proof fn lemma_accepted_ids_do_not_decrease(entries: Seq<RawEntryView>, report: Seq<Delivery>)
    requires
        report.len() == entries.len(),
        forall|i: int, j: int| 0 <= i <= j < entries.len() ==> entries[i].id <= entries[j].id,
    ensures
        forall|j: int, k: int|
            0 <= j <= k < accepted(entries, report).len() ==> accepted(entries, report)[j].id
                <= accepted(entries, report)[k].id,
{
    let at = lemma_accepted_in_order(entries, report);
    let events = accepted(entries, report);
    assert forall|j: int, k: int| 0 <= j <= k < events.len() implies events[j].id
        <= events[k].id by {
        assert(at[j] <= at[k]);
    }
}

/// What the channel took of two batches handled one after the other is what
/// it took of the first followed by what it took of the second.
pub proof fn lemma_accepted_concat(
    first: Seq<RawEntryView>,
    first_report: Seq<Delivery>,
    second: Seq<RawEntryView>,
    second_report: Seq<Delivery>,
)
    requires
        first_report.len() == first.len(),
        second_report.len() == second.len(),
    ensures
        accepted(first + second, first_report + second_report) == accepted(first, first_report)
            + accepted(second, second_report),
    decreases second.len(),
{
    if second.len() > 0 {
        assert((first + second).drop_last() =~= first + second.drop_last());
        assert((first_report + second_report).drop_last() =~= first_report
            + second_report.drop_last());
        lemma_accepted_concat(first, first_report, second.drop_last(), second_report.drop_last());
    }
}

/// Where the channel refused nothing, every well-formed entry reached it.
pub proof fn lemma_nothing_dropped_all_accepted(entries: Seq<RawEntryView>, report: Seq<Delivery>)
    requires
        accounts_for_batch(entries, report),
        forall|i: int| 0 <= i < report.len() ==> !(#[trigger] report[i] is Dropped),
    ensures
        accepted(entries, report) == decoded(entries),
    decreases entries.len(),
{
    if entries.len() > 0 {
        let init = entries.drop_last();
        let init_report = report.drop_last();
        assert forall|i: int| 0 <= i < init.len() implies accounts_for(
            init[i],
            #[trigger] init_report[i],
        ) by {}
        assert forall|i: int| 0 <= i < init_report.len() implies !(#[trigger] init_report[i]
            is Dropped) by {}
        lemma_nothing_dropped_all_accepted(init, init_report);
    }
}

/// Under a saturating channel the consumer is left with a prefix of the
/// decoded events: the events up to the first refusal, in order, and nothing
/// after it.
pub proof fn lemma_saturated_channel_keeps_prefix(
    entries: Seq<RawEntryView>,
    report: Seq<Delivery>,
)
    requires
        accounts_for_batch(entries, report),
        saturating(report),
    ensures
        accepted(entries, report).len() <= decoded(entries).len(),
        accepted(entries, report) == decoded(entries).take(accepted(entries, report).len() as int),
    decreases entries.len(),
{
    if entries.len() > 0 {
        let init = entries.drop_last();
        let init_report = report.drop_last();
        assert forall|i: int| 0 <= i < init.len() implies accounts_for(
            init[i],
            #[trigger] init_report[i],
        ) by {}
        assert forall|i: int, j: int|
            #![trigger init_report[i], init_report[j]]
            0 <= i < j < init_report.len() && init_report[i] is Dropped implies !(init_report[j]
            is Sent) by {}
        lemma_saturated_channel_keeps_prefix(init, init_report);
        if well_formed(entries.last()) && report.last() is Sent {
            // A last entry that was sent shows that nothing before it was
            // refused.
            assert forall|i: int| 0 <= i < init_report.len() implies !(#[trigger] init_report[i]
                is Dropped) by {}
            lemma_nothing_dropped_all_accepted(init, init_report);
        }
    }
}

} // verus!
