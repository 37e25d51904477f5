//! Bit sets exchanged with the native service: the per-event flags it reports
//! and the creation flags it is configured with.
use vstd::prelude::*;

verus! {

/// Subdirectories of the reported path must be rescanned.
pub const MUST_SCAN_SUBDIRS: u32 = 0x0000_0001;

/// Events were dropped in user space.
pub const USER_DROPPED: u32 = 0x0000_0002;

/// Events were dropped in the kernel.
pub const KERNEL_DROPPED: u32 = 0x0000_0004;

/// The event identifier counter wrapped around.
pub const IDS_WRAPPED: u32 = 0x0000_0008;

/// Marks the end of the replayed history.
pub const HISTORY_DONE: u32 = 0x0000_0010;

/// A watched root or one of its ancestors changed.
pub const ROOT_CHANGED: u32 = 0x0000_0020;

/// A volume was mounted below a watched path.
pub const MOUNT: u32 = 0x0000_0040;

/// A volume was unmounted below a watched path.
pub const UNMOUNT: u32 = 0x0000_0080;

/// The item was created.
pub const ITEM_CREATED: u32 = 0x0000_0100;

/// The item was removed.
pub const ITEM_REMOVED: u32 = 0x0000_0200;

/// The item's inode metadata was modified.
pub const INODE_META_MOD: u32 = 0x0000_0400;

/// The item was renamed.
pub const ITEM_RENAMED: u32 = 0x0000_0800;

/// The item's content was modified.
pub const ITEM_MODIFIED: u32 = 0x0000_1000;

/// The item's Finder information was modified.
pub const FINDER_INFO_MOD: u32 = 0x0000_2000;

/// The item's owner changed.
pub const ITEM_CHANGE_OWNER: u32 = 0x0000_4000;

/// The item's extended attributes were modified.
pub const ITEM_XATTR_MOD: u32 = 0x0000_8000;

/// The item is a regular file.
pub const IS_FILE: u32 = 0x0001_0000;

/// The item is a directory.
pub const IS_DIR: u32 = 0x0002_0000;

/// The item is a symbolic link.
pub const IS_SYMLINK: u32 = 0x0004_0000;

/// The event was caused by the watching process itself.
pub const OWN_EVENT: u32 = 0x0008_0000;

/// The item is a hard link.
pub const IS_HARDLINK: u32 = 0x0010_0000;

/// The item was the last hard link to its file.
pub const IS_LAST_HARDLINK: u32 = 0x0020_0000;

/// The item was cloned.
pub const ITEM_CLONED: u32 = 0x0040_0000;

/// Every bit that has a meaning as an event flag.
pub const ALL_EVENT_FLAGS: u32 = MUST_SCAN_SUBDIRS | USER_DROPPED | KERNEL_DROPPED | IDS_WRAPPED
    | HISTORY_DONE | ROOT_CHANGED | MOUNT | UNMOUNT | ITEM_CREATED | ITEM_REMOVED | INODE_META_MOD
    | ITEM_RENAMED | ITEM_MODIFIED | FINDER_INFO_MOD | ITEM_CHANGE_OWNER | ITEM_XATTR_MOD | IS_FILE
    | IS_DIR | IS_SYMLINK | OWN_EVENT | IS_HARDLINK | IS_LAST_HARDLINK | ITEM_CLONED;

/// Creation flag: the callback receives reference-counted native objects
/// rather than raw C strings.
pub const CREATE_FLAG_USE_CF_TYPES: u32 = 0x0000_0001;

/// Creation flag: each event carries a dictionary with its path and file
/// identifier.
pub const CREATE_FLAG_USE_EXTENDED_DATA: u32 = 0x0000_0040;

/// A raw bit pattern is a set of event flags when it sets no bit without a
/// meaning.
pub open spec fn is_event_flags(raw: u32) -> bool {
    raw & !ALL_EVENT_FLAGS == 0
}

/// The bits with a meaning are the low twenty-three, so the sets of event
/// flags are the patterns up to `ALL_EVENT_FLAGS`.
pub proof fn lemma_event_flags_are_the_low_bits(raw: u32)
    ensures
        is_event_flags(raw) <==> raw <= ALL_EVENT_FLAGS,
        ALL_EVENT_FLAGS == 0x007f_ffff,
{
    assert(ALL_EVENT_FLAGS == 0x007f_ffff) by (bit_vector);
    assert(raw & !0x007f_ffffu32 == 0 <==> raw <= 0x007f_ffffu32) by (bit_vector);
}

/// A decoded set of event flags. Its view is the bit pattern, which never
/// holds a bit without a meaning.
#[derive(Debug, Clone, Copy, PartialEq, Eq, Structural)]
pub struct StreamFlags {
    bits: u32,
}

impl View for StreamFlags {
    type V = u32;

    closed spec fn view(&self) -> u32 {
        self.bits
    }
}

impl StreamFlags {
    #[verifier::type_invariant]
    spec fn holds_known_bits_only(self) -> bool {
        is_event_flags(self.bits)
    }

    /// Decodes a raw bit pattern; `None` when it holds a bit without a
    /// meaning.
    pub fn from_bits(raw: u32) -> (decoded: Option<StreamFlags>)
        ensures
            match decoded {
                Some(flags) => is_event_flags(raw) && flags@ == raw,
                None => !is_event_flags(raw),
            },
    {
        if raw & !ALL_EVENT_FLAGS == 0 {
            Some(StreamFlags { bits: raw })
        } else {
            None
        }
    }

    /// The bit pattern.
    pub fn bits(&self) -> (raw: u32)
        ensures
            raw == self@,
            is_event_flags(raw),
    {
        proof {
            use_type_invariant(self);
        }
        self.bits
    }

    /// Whether every flag of `other` is set in `self`.
    pub fn contains(&self, other: StreamFlags) -> (held: bool)
        ensures
            held <==> self@ & other@ == other@,
    {
        self.bits & other.bits == other.bits
    }
}

/// The creation flags that a stream is made with: the requested ones and the
/// two that the decoding of events depends on.
pub open spec fn with_required_flags(flags: u32) -> u32 {
    flags | CREATE_FLAG_USE_CF_TYPES | CREATE_FLAG_USE_EXTENDED_DATA
}

/// Adds to the requested creation flags the two that the callback relies on,
/// whatever the caller asked for.
pub fn required_create_flags(flags: u32) -> (forced: u32)
    ensures
        forced == with_required_flags(flags),
        forced & flags == flags,
        forced & CREATE_FLAG_USE_CF_TYPES == CREATE_FLAG_USE_CF_TYPES,
        forced & CREATE_FLAG_USE_EXTENDED_DATA == CREATE_FLAG_USE_EXTENDED_DATA,
        forced & !(flags | CREATE_FLAG_USE_CF_TYPES | CREATE_FLAG_USE_EXTENDED_DATA) == 0,
{
    let forced: u32 = flags | CREATE_FLAG_USE_CF_TYPES | CREATE_FLAG_USE_EXTENDED_DATA;
    assert(forced & flags == flags && forced & 0x0000_0001u32 == 0x0000_0001u32 && forced
        & 0x0000_0040u32 == 0x0000_0040u32 && forced & !(flags | 0x0000_0001u32 | 0x0000_0040u32)
        == 0) by (bit_vector)
        requires
            forced == flags | 0x0000_0001u32 | 0x0000_0040u32,
    ;
    forced
}

} // verus!
