use keeper_of_keys::events::{
    classify_callback, AddedOrUpdated, EventData, EventDetails, FilteredEventData, InnerDetails,
    ItemAttributes, SecKeychainCallbackInfo, ADD_EVENT_BITS, DELETE_EVENT_BITS, UPDATE_EVENT_BITS,
};

fn attrs(label: &str, modified_at: i64) -> ItemAttributes {
    ItemAttributes {
        label: String::from(label),
        modified_at,
    }
}

#[test]
fn callback_without_item_is_discarded() {
    let info = SecKeychainCallbackInfo {
        has_item: false,
        pid: 42,
    };
    let r = classify_callback(ADD_EVENT_BITS, &info, Some(attrs("x", 5)), 99);
    assert!(r.is_none());
}

#[test]
fn unmatched_item_becomes_provisional_removal() {
    let info = SecKeychainCallbackInfo {
        has_item: true,
        pid: 42,
    };
    let r = classify_callback(DELETE_EVENT_BITS, &info, None, 99);
    match r {
        Some(EventData::RemovedOrUpdate {
            seen_at,
            modified_by,
        }) => {
            assert_eq!(seen_at, 99);
            assert_eq!(modified_by, 42);
        }
        _ => panic!("expected a provisional removal"),
    }
}

#[test]
fn add_bit_wins_first() {
    let info = SecKeychainCallbackInfo {
        has_item: true,
        pid: 7,
    };
    let r = classify_callback(ADD_EVENT_BITS, &info, Some(attrs("login", 1234)), 0);
    match r {
        Some(EventData::AddOrUpdate(EventDetails { details, kind })) => {
            assert_eq!(kind, AddedOrUpdated::Added);
            assert_eq!(details.item_name, "login");
            assert_eq!(details.modified_at, 1234);
            assert_eq!(details.modified_by, 7);
        }
        _ => panic!("expected an addition"),
    }
}

#[test]
fn delete_bit_yields_removal_at_modification_time() {
    let info = SecKeychainCallbackInfo {
        has_item: true,
        pid: 7,
    };
    let r = classify_callback(DELETE_EVENT_BITS, &info, Some(attrs("login", 1234)), 0);
    match r {
        Some(EventData::RemovedOrUpdate {
            seen_at,
            modified_by,
        }) => {
            assert_eq!(seen_at, 1234);
            assert_eq!(modified_by, 7);
        }
        _ => panic!("expected a removal"),
    }
}

#[test]
fn update_word_contains_the_delete_bit() {
    let info = SecKeychainCallbackInfo {
        has_item: true,
        pid: 7,
    };
    // The update word (5) carries all bits of the delete word (4), and
    // the delete bit is checked before the update bits, so even a raw
    // update word classifies as a removal. The in-place update arm is
    // unreachable on the raw words the platform defines, which matches
    // the platform no longer posting that event at all.
    let r = classify_callback(UPDATE_EVENT_BITS, &info, Some(attrs("login", 1234)), 0);
    assert!(matches!(
        r,
        Some(EventData::RemovedOrUpdate {
            seen_at: 1234,
            modified_by: 7
        })
    ));
}

#[test]
fn event_accessors_read_both_shapes() {
    let add = EventData::AddOrUpdate(EventDetails {
        details: InnerDetails {
            item_name: String::from("login"),
            modified_at: 11,
            modified_by: 22,
        },
        kind: AddedOrUpdated::Added,
    });
    assert_eq!(add.changer_pid(), 22);
    assert_eq!(add.changed_at(), 11);

    let removed = EventData::RemovedOrUpdate {
        seen_at: 33,
        modified_by: 44,
    };
    assert_eq!(removed.changer_pid(), 44);
    assert_eq!(removed.changed_at(), 33);
}

#[test]
fn assume_filtered_keeps_the_event_shape() {
    let add = EventData::AddOrUpdate(EventDetails {
        details: InnerDetails {
            item_name: String::from("login"),
            modified_at: 11,
            modified_by: 22,
        },
        kind: AddedOrUpdated::Added,
    });
    match add.assume_filtered() {
        FilteredEventData::Added(details) => assert_eq!(details.item_name, "login"),
        _ => panic!("expected an addition"),
    }

    let upd = EventData::AddOrUpdate(EventDetails {
        details: InnerDetails {
            item_name: String::from("login"),
            modified_at: 11,
            modified_by: 22,
        },
        kind: AddedOrUpdated::Updated,
    });
    assert!(matches!(
        upd.assume_filtered(),
        FilteredEventData::Updated(_)
    ));

    let removed = EventData::RemovedOrUpdate {
        seen_at: 33,
        modified_by: 44,
    };
    match removed.assume_filtered() {
        FilteredEventData::Removed {
            seen_at,
            modified_by,
        } => {
            assert_eq!(seen_at, 33);
            assert_eq!(modified_by, 44);
        }
        _ => panic!("expected a removal"),
    }
}

#[test]
fn filtered_titles_and_pids() {
    let added = FilteredEventData::Added(InnerDetails {
        item_name: String::from("login"),
        modified_at: 1,
        modified_by: 2,
    });
    assert_eq!(added.item_title(), Some("login"));
    assert_eq!(added.changer_pid(), 2);

    let removed = FilteredEventData::Removed {
        seen_at: 3,
        modified_by: 4,
    };
    assert_eq!(removed.item_title(), None);
    assert_eq!(removed.changer_pid(), 4);
}
