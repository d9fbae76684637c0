use notifications::close_reason::CloseReason;
use notifications::data::ServiceData;
use notifications::error::Error;
use notifications::notification::Notification;
use notifications::request::NotifyRequest;
use notifications::urgency::Urgency;
use std::sync::Arc;

fn request(summary: &str, replaces_id: u32) -> NotifyRequest {
    NotifyRequest {
        app_name: String::from("app"),
        replaces_id,
        icon: Some(String::from("cat-sleeping-symbolic")),
        summary: String::from(summary),
        body: String::from("body text"),
        actions: Vec::new(),
        urgency: None,
        timeout: -1,
    }
}

fn plain(id: u32, summary: &str) -> Arc<Notification> {
    Arc::new(Notification {
        id,
        app_name: String::new(),
        icon: None,
        summary: String::from(summary),
        body: String::new(),
        actions: Vec::new(),
        urgency: Urgency::Normal,
        timeout: 0,
    })
}

#[test]
fn test_single_notification() {
    let mut data = ServiceData::new_in_memory();
    let req = NotifyRequest {
        app_name: String::from("Mail"),
        replaces_id: 0,
        icon: Some(String::from("cat-sleeping-symbolic")),
        summary: String::from("New message"),
        body: String::from("You have mail"),
        actions: Vec::new(),
        urgency: Some(2),
        timeout: 5000,
    };
    let (id, _, replace) = data.notify(req);
    assert_eq!(id, 1);
    assert!(!replace);
    let n = data.get_notification_by_id(id).unwrap();
    assert_eq!(n.app_name, "Mail");
    assert_eq!(n.icon.as_deref(), Some("cat-sleeping-symbolic"));
    assert_eq!(n.summary, "New message");
    assert_eq!(n.body, "You have mail");
    assert_eq!(n.urgency, Urgency::Critical);
    assert_eq!(n.timeout, 5000);
}

#[test]
fn test_multiple_notifications() {
    let mut data = ServiceData::new_in_memory();
    for i in 0..50 {
        data.notify(request(&format!("n{}", i), 0));
    }
    let list = data.get_notifications_in_order();
    assert!(list.is_sorted_by_key(|x| x.id));
    assert_eq!(list.len(), 50);
    assert_eq!(data.get_notifications().len(), 50);
}

#[test]
fn test_invoke_action() {
    let mut data = ServiceData::new_in_memory();
    let mut req = request("i am waiting", 0);
    req.actions = vec![
        String::from("default"),
        String::from("default"),
        String::from("asked"),
        String::from("no one asked"),
    ];
    let (id, _, _) = data.notify(req);
    let n = data.get_notification_by_id(id).unwrap();
    assert_eq!(n.actions.len(), 2);
    let asked: Vec<_> = n.actions.iter().filter(|a| a.action_key == "asked").collect();
    assert_eq!(asked.len(), 1);
    assert_eq!(asked[0].label, "no one asked");
    assert_eq!(asked[0].notification_id, id);
}

#[test]
fn test_clear_notifications() {
    let mut data = ServiceData::new_in_memory();
    for i in 0..10 {
        data.notify(request(&format!("n{}", i), 0));
    }
    assert_eq!(data.get_notifications().len(), 10);
    data.clear();
    assert_eq!(data.get_notifications().len(), 0);
    assert_eq!(data.counter(), 0);
}

#[test]
fn test_dismiss_notification() {
    let mut data = ServiceData::new_in_memory();
    let (id, _, _) = data.notify(request("dismiss me", 0));
    assert!(data.remove_notification(id).is_ok());
    assert!(data.get_notification_by_id(id).is_none());
    assert_eq!(u32::from(CloseReason::Dismissed), 2);
}

#[test]
fn remove_missing_notification_fails() {
    let mut data = ServiceData::new_in_memory();
    data.add_notification(3, plain(3, "three"), false);
    match data.remove_notification(4) {
        Err(Error::NotificationNotFound(id)) => assert_eq!(id, 4),
        _ => panic!("expected NotificationNotFound"),
    }
    assert_eq!(data.get_notifications().len(), 1);
    assert!(data.remove_notification(3).is_ok());
    assert!(matches!(data.remove_notification(3), Err(Error::NotificationNotFound(3))));
}

#[test]
fn replacement_only_overwrites_stored_entries() {
    let mut data = ServiceData::new_in_memory();
    data.add_notification(5, plain(5, "old"), true);
    assert!(data.get_notification_by_id(5).is_none());
    data.add_notification(5, plain(5, "old"), false);
    data.add_notification(5, plain(5, "new"), true);
    assert_eq!(data.get_notification_by_id(5).unwrap().summary, "new");
    assert_eq!(data.get_notifications().len(), 1);
}

#[test]
fn notify_replacing_keeps_counter() {
    let mut data = ServiceData::new_in_memory();
    let (first, _, _) = data.notify(request("first", 0));
    let (second, _, replace) = data.notify(request("again", first));
    assert_eq!(second, first);
    assert!(replace);
    assert_eq!(data.counter(), 1);
    assert_eq!(data.get_notification_by_id(first).unwrap().summary, "again");
    let (third, _, _) = data.notify(request("third", 0));
    assert_eq!(third, 2);
    assert_eq!(data.next_id(0), 3);
    assert_eq!(data.next_id(9), 9);
}

#[test]
fn notify_replacing_unknown_id_stores_nothing() {
    let mut data = ServiceData::new_in_memory();
    let (id, n, replace) = data.notify(request("ghost", 42));
    assert_eq!(id, 42);
    assert!(replace);
    assert_eq!(n.id, 42);
    assert!(data.get_notification_by_id(42).is_none());
    assert_eq!(data.counter(), 0);
}

#[test]
fn increment_counter_counts_up() {
    let mut data = ServiceData::new_in_memory();
    assert_eq!(data.increment_counter(), 1);
    assert_eq!(data.increment_counter(), 2);
    assert_eq!(data.counter(), 2);
    let (id, _, _) = data.notify(request("x", 0));
    assert_eq!(id, 3);
}

#[test]
fn urgency_hint_decoding() {
    let mut data = ServiceData::new_in_memory();
    let mut req = request("u", 0);
    req.urgency = Some(1);
    let (_, n, _) = data.notify(req);
    assert_eq!(n.urgency, Urgency::Normal);
    let mut req = request("u", 0);
    req.urgency = Some(9);
    let (_, n, _) = data.notify(req);
    assert_eq!(n.urgency, Urgency::Low);
    let (_, n, _) = data.notify(request("u", 0));
    assert_eq!(n.urgency, Urgency::Low);
}

#[test]
fn in_order_listing_follows_keys() {
    let mut data = ServiceData::new_in_memory();
    data.add_notification(30, plain(30, "c"), false);
    data.add_notification(10, plain(10, "a"), false);
    data.add_notification(20, plain(20, "b"), false);
    let list = data.get_notifications_in_order();
    let summaries: Vec<&str> = list.iter().map(|n| n.summary.as_str()).collect();
    assert_eq!(summaries, vec!["a", "b", "c"]);
}

#[test]
fn ids_restart_after_clear() {
    let mut data = ServiceData::new_in_memory();
    data.notify(request("a", 0));
    data.notify(request("b", 0));
    data.clear();
    let (id, _, _) = data.notify(request("c", 0));
    assert_eq!(id, 1);
}

#[test]
fn listed_ids_are_nonzero_distinct_and_found_again() {
    let mut data = ServiceData::new_in_memory();
    for i in 0..5 {
        data.notify(request(&format!("n{}", i), 0));
    }
    data.notify(request("replacement", 3));
    let list = data.get_notifications_in_order();
    assert_eq!(list.len(), 5);
    for (i, n) in list.iter().enumerate() {
        assert_ne!(n.id, 0);
        for m in &list[i + 1..] {
            assert_ne!(n.id, m.id);
        }
        let again = data.get_notification_by_id(n.id).unwrap();
        assert_eq!(again.id, n.id);
        assert_eq!(again.summary, n.summary);
    }
    assert_eq!(data.get_notification_by_id(3).unwrap().summary, "replacement");
}
