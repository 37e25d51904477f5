//! The event record and the decoding of one native entry into it.
use vstd::prelude::*;
use crate::flags::{is_event_flags, StreamFlags};

verus! {

/// Why one native entry could not be turned into an event.
#[derive(Debug, Clone, Copy, PartialEq, Eq, Structural)]
pub enum CallbackError {
    /// The file identifier is missing or does not fit a signed 64-bit integer.
    ToI64,
    /// The flags hold a bit without a meaning.
    ParseFlags,
}

/// One entry of a native notification batch, as plain values: what the
/// extended metadata of the event holds, and the entry's flags and identifier.
#[derive(Debug, Clone)]
pub struct RawEntry {
    /// The path the notification concerns.
    pub path: String,
    /// The file identifier, or `None` where the native number is absent or
    /// cannot be read as a signed 64-bit integer.
    pub file_id: Option<i64>,
    /// The native flags, undecoded.
    pub raw_flags: u32,
    /// The native event identifier.
    pub id: u64,
}

/// The mathematical value of a [`RawEntry`].
pub struct RawEntryView {
    pub path: Seq<char>,
    pub file_id: Option<i64>,
    pub raw_flags: u32,
    pub id: u64,
}

impl View for RawEntry {
    type V = RawEntryView;

    open spec fn view(&self) -> RawEntryView {
        RawEntryView {
            path: self.path@,
            file_id: self.file_id,
            raw_flags: self.raw_flags,
            id: self.id,
        }
    }
}

/// One change notification, decoded.
#[derive(Debug, Clone)]
pub struct RawEvent {
    /// The path the notification concerns.
    pub path: String,
    /// The file identifier of the item.
    pub inode: i64,
    /// What changed, decoded.
    pub flags: StreamFlags,
    /// What changed, as the native service reported it.
    pub raw_flags: u32,
    /// The native event identifier, usable as a resume cursor.
    pub id: u64,
}

/// The mathematical value of a [`RawEvent`].
pub struct RawEventView {
    pub path: Seq<char>,
    pub inode: i64,
    pub flags: u32,
    pub raw_flags: u32,
    pub id: u64,
}

impl View for RawEvent {
    type V = RawEventView;

    open spec fn view(&self) -> RawEventView {
        RawEventView {
            path: self.path@,
            inode: self.inode,
            flags: self.flags@,
            raw_flags: self.raw_flags,
            id: self.id,
        }
    }
}

impl RawEventView {
    /// The decoded flags are the raw ones, and the raw ones hold no unknown
    /// bit.
    pub open spec fn wf(self) -> bool {
        self.flags == self.raw_flags && is_event_flags(self.raw_flags)
    }
}

/// What decoding makes of one entry. The file identifier is looked at first,
/// so an entry that lacks both a readable identifier and valid flags is
/// reported as `ToI64`.
pub open spec fn decode(entry: RawEntryView) -> Result<RawEventView, CallbackError> {
    match entry.file_id {
        None => Err(CallbackError::ToI64),
        Some(inode) => if is_event_flags(entry.raw_flags) {
            Ok(
                RawEventView {
                    path: entry.path,
                    inode,
                    flags: entry.raw_flags,
                    raw_flags: entry.raw_flags,
                    id: entry.id,
                },
            )
        } else {
            Err(CallbackError::ParseFlags)
        },
    }
}

/// An entry is well formed when decoding it yields an event.
pub open spec fn well_formed(entry: RawEntryView) -> bool {
    decode(entry) is Ok
}

/// Decodes one native entry into an event record, or says why it cannot be.
pub fn decode_entry(entry: &RawEntry) -> (decoded: Result<RawEvent, CallbackError>)
    ensures
        match decoded {
            Ok(event) => decode(entry@) == Ok::<RawEventView, CallbackError>(event@) && event@.wf(),
            Err(error) => decode(entry@) == Err::<RawEventView, CallbackError>(error),
        },
{
    let inode: i64 = match entry.file_id {
        Some(inode) => inode,
        None => { return Err(CallbackError::ToI64); },
    };
    match StreamFlags::from_bits(entry.raw_flags) {
        Some(flags) => Ok(
            RawEvent {
                path: entry.path.clone(),
                inode,
                flags,
                raw_flags: entry.raw_flags,
                id: entry.id,
            },
        ),
        None => Err(CallbackError::ParseFlags),
    }
}

/// The events that a sequence of entries decodes to: one for each well-formed
/// entry, in the order of the entries.
pub open spec fn decoded(entries: Seq<RawEntryView>) -> Seq<RawEventView>
    decreases entries.len(),
{
    if entries.len() == 0 {
        Seq::empty()
    } else {
        match decode(entries.last()) {
            Ok(event) => decoded(entries.drop_last()).push(event),
            Err(_) => decoded(entries.drop_last()),
        }
    }
}

/// Decoding goes entry by entry: the events of two runs of entries, one after
/// the other, are the events of the first followed by those of the second.
/// This holds of the entries of one batch and of batch after batch.
pub proof fn lemma_decoded_concat(first: Seq<RawEntryView>, second: Seq<RawEntryView>)
    ensures
        decoded(first + second) == decoded(first) + decoded(second),
    decreases second.len(),
{
    if second.len() > 0 {
        assert((first + second).drop_last() =~= first + second.drop_last());
        lemma_decoded_concat(first, second.drop_last());
    }
}

/// A malformed entry costs nothing but itself: the entries before and after
/// it decode to the events they would decode to without it.
pub proof fn lemma_malformed_entry_is_passed_over(
    before: Seq<RawEntryView>,
    malformed: RawEntryView,
    after: Seq<RawEntryView>,
)
    requires
        !well_formed(malformed),
    ensures
        decoded(before.push(malformed) + after) == decoded(before) + decoded(after),
{
    lemma_decoded_concat(before.push(malformed), after);
    assert(before.push(malformed).drop_last() =~= before);
}

/// Where every entry is well formed, every entry yields its event, in place.
pub proof fn lemma_well_formed_entries_all_decode(entries: Seq<RawEntryView>)
    requires
        forall|i: int| 0 <= i < entries.len() ==> well_formed(#[trigger] entries[i]),
    ensures
        decoded(entries).len() == entries.len(),
        forall|i: int|
            0 <= i < entries.len() ==> decode(#[trigger] entries[i]) == Ok::<
                RawEventView,
                CallbackError,
            >(decoded(entries)[i]),
    decreases entries.len(),
{
    if entries.len() > 0 {
        let init = entries.drop_last();
        assert forall|i: int| 0 <= i < init.len() implies well_formed(#[trigger] init[i]) by {}
        lemma_well_formed_entries_all_decode(init);
        assert forall|i: int| 0 <= i < entries.len() implies decode(#[trigger] entries[i]) == Ok::<
            RawEventView,
            CallbackError,
        >(decoded(entries)[i]) by {
            if i < init.len() {
                assert(init[i] == entries[i]);
            }
        }
    }
}

} // verus!
