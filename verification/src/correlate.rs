//! Squashing of delete-then-add bursts, and what a notification shows.
//!
//! The platform implements an item edit as a deletion followed at once by
//! an addition, so the main loop waits a short correlation window after
//! each event for a follow-up. A removal with a follow-up addition or
//! update inside the window is absorbed into a single "updated"
//! notification; in every other case the original event is forwarded
//! unchanged. The follow-up itself is consumed by the cycle either way and
//! is never forwarded on its own. Note that relatedness is decided by
//! arrival time alone: any follow-up inside the window counts as related,
//! whatever its timestamp or changer pid, so a burst of unrelated events
//! from different processes inside one window is still squashed.
//!
//! Forwarded events then pass a title-based suppression filter: an event
//! whose displayed title is on the ignore list produces no notification.

use vstd::prelude::*;

use crate::events::{AddedOrUpdated, EventData, EventDetails, FilteredEventData};

verus! {

/// The single event one correlation cycle forwards, given the event that
/// opened the cycle and the follow-up, if any, that arrived inside the
/// window.
pub open spec fn correlate_spec(original: EventData, next: Option<EventData>) -> FilteredEventData {
    match next {
        None => original.spec_filtered(),
        Some(follow_up) => match original {
            EventData::RemovedOrUpdate { .. } => match follow_up {
                EventData::AddOrUpdate(details) => FilteredEventData::Updated(details.details),
                EventData::RemovedOrUpdate { .. } => original.spec_filtered(),
            },
            EventData::AddOrUpdate(_) => original.spec_filtered(),
        },
    }
}

/// Resolves one correlation cycle. Exactly one event is forwarded per
/// cycle; a follow-up is either absorbed into the forwarded "updated"
/// notification or dropped.
pub fn correlate(original: EventData, next: Option<EventData>) -> (r: FilteredEventData)
    ensures
        r == correlate_spec(original, next),
{
    match next {
        None => original.assume_filtered(),
        Some(follow_up) => match original {
            EventData::RemovedOrUpdate { seen_at, modified_by } => match follow_up {
                EventData::AddOrUpdate(details) => FilteredEventData::Updated(details.details),
                EventData::RemovedOrUpdate { .. } => FilteredEventData::Removed {
                    seen_at,
                    modified_by,
                },
            },
            EventData::AddOrUpdate(details) => match details.kind {
                AddedOrUpdated::Added => FilteredEventData::Added(details.details),
                AddedOrUpdated::Updated => FilteredEventData::Updated(details.details),
            },
        },
    }
}

/// A removal followed inside the window by an addition or update is an
/// edit: the cycle forwards a single "updated" notification carrying the
/// follow-up's item details, and the removal is fully absorbed.
pub proof fn lemma_edit_burst_squashed(original: EventData, details: EventDetails)
    requires
        original is RemovedOrUpdate,
    ensures
        correlate_spec(original, Some(EventData::AddOrUpdate(details))) == (
        FilteredEventData::Updated(details.details)),
{
}

/// A removal with no follow-up inside the window is forwarded as a plain
/// removal carrying its own sighting time and changer.
pub proof fn lemma_lone_removal_forwarded(seen_at: i64, modified_by: i32)
    ensures
        correlate_spec(EventData::RemovedOrUpdate { seen_at, modified_by }, None) == (
        FilteredEventData::Removed { seen_at, modified_by }),
{
}

/// Of two consecutive removals inside one window, only the original is
/// forwarded, as a plain removal; the follow-up is not also forwarded in
/// that cycle.
pub proof fn lemma_second_removal_not_forwarded(original: EventData, follow_up: EventData)
    requires
        original is RemovedOrUpdate,
        follow_up is RemovedOrUpdate,
    ensures
        correlate_spec(original, Some(follow_up)) == (FilteredEventData::Removed {
            seen_at: original.spec_changed_at(),
            modified_by: original.spec_changer_pid(),
        }),
{
}

/// Character-for-character string equality.
fn str_eq(a: &str, b: &str) -> (r: bool)
    ensures
        r == (a@ == b@),
{
    let a_len = a.unicode_len();
    let b_len = b.unicode_len();
    if a_len != b_len {
        return false;
    }
    let mut i: usize = 0;
    while i < a_len
        invariant
            0 <= i <= a_len,
            a_len == a@.len(),
            a_len == b@.len(),
            forall|j: int| 0 <= j < i ==> a@[j] == b@[j],
        decreases a_len - i,
    {
        if a.get_char(i) != b.get_char(i) {
            return false;
        }
        i += 1;
    }
    proof {
        assert(a@ =~= b@);
    }
    true
}

/// Whether a displayed title is on the ignore list.
pub open spec fn is_ignored_spec(title: Seq<char>, ignored: Seq<String>) -> bool {
    exists|i: int| 0 <= i < ignored.len() && #[trigger] ignored[i]@ == title
}

/// Whether the ignore list holds the given title.
pub fn is_ignored(title: &str, ignored: &Vec<String>) -> (r: bool)
    ensures
        r == is_ignored_spec(title@, ignored@),
{
    let mut i: usize = 0;
    while i < ignored.len()
        invariant
            0 <= i <= ignored@.len(),
            forall|j: int| 0 <= j < i ==> #[trigger] ignored@[j]@ != title@,
        decreases ignored@.len() - i,
    {
        if str_eq(ignored[i].as_str(), title) {
            return true;
        }
        i += 1;
    }
    false
}

/// What kind of change a notification announces.
#[derive(Clone, Copy, Debug, PartialEq, Eq, Structural)]
pub enum NotificationKind {
    Added,
    Updated,
    Removed,
}

/// The notification kind a resolved event is announced as.
pub open spec fn kind_spec(ev: FilteredEventData) -> NotificationKind {
    match ev {
        FilteredEventData::Added(_) => NotificationKind::Added,
        FilteredEventData::Updated(_) => NotificationKind::Updated,
        FilteredEventData::Removed { .. } => NotificationKind::Removed,
    }
}

pub fn notification_kind(ev: &FilteredEventData) -> (r: NotificationKind)
    ensures
        r == kind_spec(*ev),
{
    match ev {
        FilteredEventData::Added(_) => NotificationKind::Added,
        FilteredEventData::Updated(_) => NotificationKind::Updated,
        FilteredEventData::Removed { .. } => NotificationKind::Removed,
    }
}

/// The title a resolved event displays: the item's name where one is
/// known, and a fixed placeholder for a removal.
pub open spec fn display_title_spec(ev: FilteredEventData) -> Seq<char> {
    match ev.spec_item_title() {
        Some(title) => title,
        None => "Unknown"@,
    }
}

/// Decides what, if anything, is presented for a resolved event: nothing
/// when the displayed title is on the ignore list, and otherwise the
/// notification kind together with the displayed title.
pub fn presentation(ev: &FilteredEventData, ignored: &Vec<String>) -> (r: Option<
    (NotificationKind, String),
>)
    ensures
        (r is Some) <==> !is_ignored_spec(display_title_spec(*ev), ignored@),
        r is Some ==> (r->0).0 == kind_spec(*ev),
        r is Some ==> ((r->0).1)@ == display_title_spec(*ev),
{
    let title: &str = match ev.item_title() {
        Some(name) => name,
        None => "Unknown",
    };
    if is_ignored(title, ignored) {
        None
    } else {
        Some((notification_kind(ev), title.to_owned()))
    }
}

/// How the notification names the process that made the change: the
/// resolved application name where the platform knows one, the
/// executable's file name as a fallback, a fixed placeholder when neither
/// is known, and a synthesized label naming the bare pid when no running
/// application matches it at all.
#[derive(Clone, Debug)]
pub enum ChangerDisplay {
    Named(String),
    UnknownApplication,
    PrivateApplication(i32),
}

/// The display choice for a changer pid, from what the platform's
/// process-name resolver produced.
pub open spec fn changer_display_spec(
    app_found: bool,
    app_name: Option<String>,
    exe_name: Option<String>,
    pid: i32,
) -> ChangerDisplay {
    if !app_found {
        ChangerDisplay::PrivateApplication(pid)
    } else {
        match app_name {
            Some(name) => ChangerDisplay::Named(name),
            None => match exe_name {
                Some(name) => ChangerDisplay::Named(name),
                None => ChangerDisplay::UnknownApplication,
            },
        }
    }
}

/// Picks how to name the changer: the application's localized name wins,
/// then its executable's file name, then the fixed placeholder; a pid
/// with no running application is shown as a private application.
pub fn changer_display(
    app_found: bool,
    app_name: Option<String>,
    exe_name: Option<String>,
    pid: i32,
) -> (r: ChangerDisplay)
    ensures
        r == changer_display_spec(app_found, app_name, exe_name, pid),
{
    if !app_found {
        ChangerDisplay::PrivateApplication(pid)
    } else {
        match app_name {
            Some(name) => ChangerDisplay::Named(name),
            None => match exe_name {
                Some(name) => ChangerDisplay::Named(name),
                None => ChangerDisplay::UnknownApplication,
            },
        }
    }
}

} // verus!
