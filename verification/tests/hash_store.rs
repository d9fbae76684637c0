use notifications::notification::Notification;
use notifications::notification_service::ServiceData;
use notifications::urgency::Urgency;

fn note(id: u32, summary: &str) -> Notification {
    Notification {
        id,
        app_name: String::from("app"),
        icon: None,
        summary: String::from(summary),
        body: String::new(),
        actions: Vec::new(),
        urgency: Urgency::Low,
        timeout: -1,
    }
}

#[test]
fn empty_store() {
    let data = ServiceData::new_empty();
    assert_eq!(data.counter, 0);
    assert!(data.notifications.is_empty());
}

#[test]
fn add_and_replace() {
    let mut data = ServiceData::new_empty();
    data.add_notification(1, note(1, "one"), false);
    data.add_notification(2, note(2, "two"), true);
    assert_eq!(data.notifications.len(), 1);
    assert!(!data.notifications.contains_key(&2));
    data.add_notification(1, note(1, "uno"), true);
    assert_eq!(data.notifications[&1].summary, "uno");
}

#[test]
fn remove_is_quiet_about_missing_ids() {
    let mut data = ServiceData::new_empty();
    data.add_notification(1, note(1, "one"), false);
    data.remove_notification(&5);
    assert_eq!(data.notifications.len(), 1);
    data.remove_notification(&1);
    assert!(data.notifications.is_empty());
}
