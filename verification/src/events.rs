//! The change-event data model and the classification of raw callbacks.
//!
//! The native credential store reports changes through a callback that
//! carries an event-kind word, an optional item handle and the process id
//! of the changer. The monitor thread looks the item up (trying each
//! supported item category in a fixed priority order) and hands the plain
//! results to [`classify_callback`], which decides what event, if any, to
//! emit on the monitor's channel. Timestamps are whole seconds of the
//! platform's absolute clock.

use vstd::prelude::*;

verus! {

/// Event-kind word of an addition. A kind is matched when all of its bits
/// are set in the callback's event word.
pub const ADD_EVENT_BITS: u32 = 3;

/// Event-kind word of a deletion.
pub const DELETE_EVENT_BITS: u32 = 4;

/// Event-kind word of an in-place update. Kept for completeness: current
/// versions of the platform no longer post it, and report edits as a
/// deletion followed at once by an addition.
pub const UPDATE_EVENT_BITS: u32 = 5;

/// Whether the callback's event word carries every bit of `bits`.
pub open spec fn has_event_bits(event: u32, bits: u32) -> bool {
    event & bits == bits
}

/// Whether a matched item was added or updated in place.
#[derive(Clone, Copy, Debug, PartialEq, Eq, Structural)]
pub enum AddedOrUpdated {
    Added,
    Updated,
}

/// What is known of the item one callback touched.
#[derive(Clone, Debug)]
pub struct InnerDetails {
    pub item_name: String,
    pub modified_at: i64,
    pub modified_by: i32,
}

/// Item details together with how the item changed.
#[derive(Clone, Debug)]
pub struct EventDetails {
    pub details: InnerDetails,
    pub kind: AddedOrUpdated,
}

/// A raw event as the monitor emits it. A removal sighting may yet prove
/// to be the first half of an edit, so it is provisional until the
/// correlation window has closed.
#[derive(Clone, Debug)]
pub enum EventData {
    AddOrUpdate(EventDetails),
    RemovedOrUpdate { seen_at: i64, modified_by: i32 },
}

/// An event once correlation has resolved what it means.
#[derive(Clone, Debug)]
pub enum FilteredEventData {
    Added(InnerDetails),
    Updated(InnerDetails),
    Removed { seen_at: i64, modified_by: i32 },
}

impl FilteredEventData {
    /// The process id that made the change.
    pub open spec fn spec_changer_pid(&self) -> i32 {
        match self {
            FilteredEventData::Added(details) => details.modified_by,
            FilteredEventData::Updated(details) => details.modified_by,
            FilteredEventData::Removed { modified_by, .. } => *modified_by,
        }
    }

    pub fn changer_pid(&self) -> (r: i32)
        ensures
            r == self.spec_changer_pid(),
    {
        match self {
            FilteredEventData::Added(InnerDetails { modified_by, .. }) => *modified_by,
            FilteredEventData::Updated(InnerDetails { modified_by, .. }) => *modified_by,
            FilteredEventData::Removed { modified_by, .. } => *modified_by,
        }
    }

    /// The changed item's name, where one is known: a removal carries
    /// none.
    pub open spec fn spec_item_title(&self) -> Option<Seq<char>> {
        match self {
            FilteredEventData::Added(details) => Some(details.item_name@),
            FilteredEventData::Updated(details) => Some(details.item_name@),
            FilteredEventData::Removed { .. } => None,
        }
    }

    pub fn item_title(&self) -> (r: Option<&str>)
        ensures
            (r is Some) <==> (self.spec_item_title() is Some),
            r is Some ==> (r->0)@ == self.spec_item_title()->0,
    {
        match self {
            FilteredEventData::Added(InnerDetails { item_name, .. }) => Some(item_name.as_str()),
            FilteredEventData::Updated(InnerDetails { item_name, .. }) => Some(item_name.as_str()),
            FilteredEventData::Removed { .. } => None,
        }
    }
}

impl EventData {
    /// The process id that made the change.
    pub open spec fn spec_changer_pid(&self) -> i32 {
        match self {
            EventData::AddOrUpdate(ev) => ev.details.modified_by,
            EventData::RemovedOrUpdate { modified_by, .. } => *modified_by,
        }
    }

    pub fn changer_pid(&self) -> (r: i32)
        ensures
            r == self.spec_changer_pid(),
    {
        match self {
            EventData::AddOrUpdate(EventDetails { details, .. }) => details.modified_by,
            EventData::RemovedOrUpdate { modified_by, .. } => *modified_by,
        }
    }

    /// When the change happened: an item's modification time, or the time
    /// a removal was sighted.
    pub open spec fn spec_changed_at(&self) -> i64 {
        match self {
            EventData::AddOrUpdate(ev) => ev.details.modified_at,
            EventData::RemovedOrUpdate { seen_at, .. } => *seen_at,
        }
    }

    pub fn changed_at(&self) -> (r: i64)
        ensures
            r == self.spec_changed_at(),
    {
        match self {
            EventData::AddOrUpdate(EventDetails { details, .. }) => details.modified_at,
            EventData::RemovedOrUpdate { seen_at, .. } => *seen_at,
        }
    }

    /// The resolved form of this event when the correlation window closes
    /// without reinterpreting it.
    pub open spec fn spec_filtered(self) -> FilteredEventData {
        match self {
            EventData::AddOrUpdate(ev) => match ev.kind {
                AddedOrUpdated::Added => FilteredEventData::Added(ev.details),
                AddedOrUpdated::Updated => FilteredEventData::Updated(ev.details),
            },
            EventData::RemovedOrUpdate { seen_at, modified_by } => FilteredEventData::Removed {
                seen_at,
                modified_by,
            },
        }
    }

    pub fn assume_filtered(self) -> (r: FilteredEventData)
        ensures
            r == self.spec_filtered(),
    {
        match self {
            EventData::AddOrUpdate(ev) => match ev.kind {
                AddedOrUpdated::Added => FilteredEventData::Added(ev.details),
                AddedOrUpdated::Updated => FilteredEventData::Updated(ev.details),
            },
            EventData::RemovedOrUpdate { seen_at, modified_by } => FilteredEventData::Removed {
                seen_at,
                modified_by,
            },
        }
    }
}

/// What the classification reads of a native change callback: whether the
/// callback carried an identifiable item, and the changer's process id.
#[derive(Clone, Copy, Debug)]
pub struct SecKeychainCallbackInfo {
    pub has_item: bool,
    pub pid: i32,
}

/// Attributes read back for an item that matched one of the supported
/// item categories.
#[derive(Clone, Debug)]
pub struct ItemAttributes {
    pub label: String,
    pub modified_at: i64,
}

/// The event one callback stands for.
///
/// - No identifiable item: nothing is emitted.
/// - No category matched the item: the item was removed or is unrelated;
///   a provisional removal sighted now is emitted, and correlation will
///   decide whether it was half of an edit.
/// - A category matched: the add bit wins first, then the delete bit,
///   then the update bit.
pub open spec fn classify_spec(
    event: u32,
    info: SecKeychainCallbackInfo,
    lookup: Option<ItemAttributes>,
    now: i64,
) -> Option<EventData> {
    if !info.has_item {
        None
    } else {
        match lookup {
            None => Some(EventData::RemovedOrUpdate { seen_at: now, modified_by: info.pid }),
            Some(attrs) => if has_event_bits(event, ADD_EVENT_BITS) {
                Some(
                    EventData::AddOrUpdate(
                        EventDetails {
                            details: InnerDetails {
                                item_name: attrs.label,
                                modified_at: attrs.modified_at,
                                modified_by: info.pid,
                            },
                            kind: AddedOrUpdated::Added,
                        },
                    ),
                )
            } else if has_event_bits(event, DELETE_EVENT_BITS) {
                Some(
                    EventData::RemovedOrUpdate {
                        seen_at: attrs.modified_at,
                        modified_by: info.pid,
                    },
                )
            } else {
                Some(
                    EventData::AddOrUpdate(
                        EventDetails {
                            details: InnerDetails {
                                item_name: attrs.label,
                                modified_at: attrs.modified_at,
                                modified_by: info.pid,
                            },
                            kind: AddedOrUpdated::Updated,
                        },
                    ),
                )
            },
        }
    }
}

/// Classifies one callback from the values the native lookups produced:
/// `lookup` holds the item's attributes where some supported category
/// matched it, and `now` is the clock reading taken when no category did.
/// An event word carrying none of the three registered kinds for a
/// matched item would be an invariant violation, so it is excluded here.
pub fn classify_callback(
    event: u32,
    info: &SecKeychainCallbackInfo,
    lookup: Option<ItemAttributes>,
    now: i64,
) -> (r: Option<EventData>)
    requires
        info.has_item && lookup is Some ==> has_event_bits(event, ADD_EVENT_BITS)
            || has_event_bits(event, DELETE_EVENT_BITS) || has_event_bits(
            event,
            UPDATE_EVENT_BITS,
        ),
    ensures
        r == classify_spec(event, *info, lookup, now),
{
    if !info.has_item {
        return None;
    }
    match lookup {
        None => Some(EventData::RemovedOrUpdate { seen_at: now, modified_by: info.pid }),
        Some(attrs) => {
            if event & ADD_EVENT_BITS == ADD_EVENT_BITS {
                Some(
                    EventData::AddOrUpdate(
                        EventDetails {
                            details: InnerDetails {
                                item_name: attrs.label,
                                modified_at: attrs.modified_at,
                                modified_by: info.pid,
                            },
                            kind: AddedOrUpdated::Added,
                        },
                    ),
                )
            } else if event & DELETE_EVENT_BITS == DELETE_EVENT_BITS {
                Some(
                    EventData::RemovedOrUpdate {
                        seen_at: attrs.modified_at,
                        modified_by: info.pid,
                    },
                )
            } else {
                Some(
                    EventData::AddOrUpdate(
                        EventDetails {
                            details: InnerDetails {
                                item_name: attrs.label,
                                modified_at: attrs.modified_at,
                                modified_by: info.pid,
                            },
                            kind: AddedOrUpdated::Updated,
                        },
                    ),
                )
            }
        },
    }
}

} // verus!
