use notifications::list_sync::{plan_list_update, search_in_list_store, ListUpdate, ServiceSignal};

#[test]
fn search_finds_first_match() {
    let store = vec![4u32, 9, 9, 2];
    assert_eq!(search_in_list_store(&store, |x: &u32| *x == 9), Some(1));
    assert_eq!(search_in_list_store(&store, |x: &u32| *x == 2), Some(3));
    assert_eq!(search_in_list_store(&store, |x: &u32| *x > 100), None);
    let empty: Vec<u32> = Vec::new();
    assert_eq!(search_in_list_store(&empty, |_x: &u32| true), None);
}

#[test]
fn closed_signal_removes_shown_notification() {
    let ids = vec![1u32, 2, 3];
    assert_eq!(plan_list_update(&ids, ServiceSignal::Closed { id: 2 }), ListUpdate::Remove { position: 1 });
    assert_eq!(plan_list_update(&ids, ServiceSignal::Closed { id: 8 }), ListUpdate::Ignore);
}

#[test]
fn notified_signal_appends_or_replaces() {
    let ids = vec![1u32, 2, 3];
    assert_eq!(
        plan_list_update(&ids, ServiceSignal::Notified { id: 4, replace: false }),
        ListUpdate::Append
    );
    assert_eq!(
        plan_list_update(&ids, ServiceSignal::Notified { id: 3, replace: true }),
        ListUpdate::Replace { position: 2 }
    );
    assert_eq!(
        plan_list_update(&ids, ServiceSignal::Notified { id: 9, replace: true }),
        ListUpdate::Append
    );
    assert_eq!(
        plan_list_update(&ids, ServiceSignal::Notified { id: 2, replace: false }),
        ListUpdate::Append
    );
}

#[test]
fn closed_after_notified_leaves_list_without_it() {
    let mut ids: Vec<u32> = vec![5, 6];
    match plan_list_update(&ids, ServiceSignal::Notified { id: 7, replace: false }) {
        ListUpdate::Append => ids.push(7),
        other => panic!("unexpected {:?}", other),
    }
    match plan_list_update(&ids, ServiceSignal::Closed { id: 7 }) {
        ListUpdate::Remove { position } => {
            ids.remove(position as usize);
        }
        other => panic!("unexpected {:?}", other),
    }
    assert_eq!(ids, vec![5, 6]);
}
