use keeper_of_keys::correlate::{
    changer_display, correlate, is_ignored, notification_kind, presentation, ChangerDisplay,
    NotificationKind,
};
use keeper_of_keys::events::{
    AddedOrUpdated, EventData, EventDetails, FilteredEventData, InnerDetails,
};

fn added_event(name: &str, modified_at: i64, pid: i32) -> EventData {
    EventData::AddOrUpdate(EventDetails {
        details: InnerDetails {
            item_name: String::from(name),
            modified_at,
            modified_by: pid,
        },
        kind: AddedOrUpdated::Added,
    })
}

fn removal_event(seen_at: i64, pid: i32) -> EventData {
    EventData::RemovedOrUpdate {
        seen_at,
        modified_by: pid,
    }
}

#[test]
fn removal_then_addition_squashes_to_update() {
    // A removal followed inside the window by an addition is an edit:
    // one "updated" notification carrying the follow-up's details.
    let original = removal_event(1000, 55);
    let next = added_event("X", 1001, 56);
    match correlate(original, Some(next)) {
        FilteredEventData::Updated(details) => {
            assert_eq!(details.item_name, "X");
            assert_eq!(details.modified_at, 1001);
            assert_eq!(details.modified_by, 56);
        }
        _ => panic!("expected the burst to squash into an update"),
    }
}

#[test]
fn lone_removal_is_forwarded_as_removal() {
    let original = removal_event(1000, 55);
    match correlate(original, None) {
        FilteredEventData::Removed {
            seen_at,
            modified_by,
        } => {
            assert_eq!(seen_at, 1000);
            assert_eq!(modified_by, 55);
        }
        _ => panic!("expected a plain removal"),
    }
}

#[test]
fn second_removal_is_not_forwarded() {
    // Two consecutive removals inside one window: only the original is
    // forwarded; the follow-up is consumed by the cycle.
    let original = removal_event(1000, 55);
    let next = removal_event(1002, 77);
    match correlate(original, Some(next)) {
        FilteredEventData::Removed {
            seen_at,
            modified_by,
        } => {
            assert_eq!(seen_at, 1000);
            assert_eq!(modified_by, 55);
        }
        _ => panic!("expected the original removal alone"),
    }
}

#[test]
fn follow_up_after_addition_is_dropped() {
    // Known gap: when the original event is an addition, a follow-up
    // inside the window is neither forwarded nor reinserted into the
    // stream; only the original survives the cycle, and the follow-up's
    // notification is lost.
    let original = added_event("A", 10, 1);
    let next = added_event("B", 11, 2);
    match correlate(original, Some(next)) {
        FilteredEventData::Added(details) => assert_eq!(details.item_name, "A"),
        _ => panic!("expected the original addition unchanged"),
    }
}

#[test]
fn ignore_list_membership() {
    let ignored = vec![
        String::from("handoff-own-encryption-key"),
        String::from("other"),
    ];
    assert!(is_ignored("handoff-own-encryption-key", &ignored));
    assert!(is_ignored("other", &ignored));
    assert!(!is_ignored("bank-login", &ignored));
    assert!(!is_ignored("", &ignored));
    assert!(!is_ignored("x", &vec![]));
}

#[test]
fn ignored_item_produces_no_notification() {
    // End to end through the presentation filter: an addition for an
    // ignored item title is suppressed.
    let ignored = vec![String::from("handoff-own-encryption-key")];
    let ev = FilteredEventData::Added(InnerDetails {
        item_name: String::from("handoff-own-encryption-key"),
        modified_at: 1,
        modified_by: 2,
    });
    assert!(presentation(&ev, &ignored).is_none());
}

#[test]
fn unignored_item_produces_one_addition_notice() {
    let ignored = vec![String::from("handoff-own-encryption-key")];
    let ev = FilteredEventData::Added(InnerDetails {
        item_name: String::from("bank-login"),
        modified_at: 1,
        modified_by: 2,
    });
    let (kind, title) = presentation(&ev, &ignored).expect("expected a notification");
    assert_eq!(kind, NotificationKind::Added);
    assert_eq!(title, "bank-login");
}

#[test]
fn removal_displays_placeholder_title() {
    let ev = FilteredEventData::Removed {
        seen_at: 1,
        modified_by: 2,
    };
    let (kind, title) = presentation(&ev, &vec![]).expect("expected a notification");
    assert_eq!(kind, NotificationKind::Removed);
    assert_eq!(title, "Unknown");

    // The placeholder itself can be suppressed like any title.
    assert!(presentation(&ev, &vec![String::from("Unknown")]).is_none());
}

#[test]
fn notification_kinds_follow_the_event() {
    let upd = FilteredEventData::Updated(InnerDetails {
        item_name: String::from("x"),
        modified_at: 1,
        modified_by: 2,
    });
    assert_eq!(notification_kind(&upd), NotificationKind::Updated);
}

#[test]
fn changer_name_resolution_order() {
    let named = changer_display(
        true,
        Some(String::from("Keychain Access")),
        Some(String::from("security")),
        9,
    );
    assert!(matches!(named, ChangerDisplay::Named(name) if name == "Keychain Access"));

    let by_exe = changer_display(true, None, Some(String::from("security")), 9);
    assert!(matches!(by_exe, ChangerDisplay::Named(name) if name == "security"));

    let unknown = changer_display(true, None, None, 9);
    assert!(matches!(unknown, ChangerDisplay::UnknownApplication));

    let private = changer_display(false, None, None, 9);
    assert!(matches!(private, ChangerDisplay::PrivateApplication(9)));
}
