use notifications::close_reason::CloseReason;
use notifications::data::ServiceData;
use notifications::expiry::{expiry_delay, DEFAULT_EXPIRE_TIMEOUT};
use notifications::request::NotifyRequest;
use std::sync::Arc;

fn request(timeout: i32, replaces_id: u32) -> NotifyRequest {
    NotifyRequest {
        app_name: String::from("app"),
        replaces_id,
        icon: None,
        summary: String::from("s"),
        body: String::new(),
        actions: Vec::new(),
        urgency: None,
        timeout,
    }
}

fn check_timeout(ms: i32) {
    let mut data = ServiceData::new_in_memory();
    let (id, shown, _) = data.notify(request(ms, 0));
    assert!(expiry_delay(ms).is_some());
    let reason = data.expire_notification(id, &shown);
    assert_eq!(reason, Some(CloseReason::Expired));
    assert!(data.get_notification_by_id(id).is_none());
}

#[test]
fn test_default_timeout() {
    check_timeout(-1);
    assert_eq!(expiry_delay(-1), Some(DEFAULT_EXPIRE_TIMEOUT));
}

#[test]
fn test_requested_timeout() {
    check_timeout(1000);
    assert_eq!(expiry_delay(1000), Some(1000));
}

#[test]
fn zero_timeout_never_expires() {
    assert_eq!(expiry_delay(0), None);
}

#[test]
fn expiry_after_close_or_replacement_does_nothing() {
    let mut data = ServiceData::new_in_memory();
    let (id, shown, _) = data.notify(request(1000, 0));
    assert!(data.remove_notification(id).is_ok());
    assert_eq!(data.expire_notification(id, &shown), None);

    let (id, first, _) = data.notify(request(1000, 0));
    let (same, second, replace) = data.notify(request(1000, id));
    assert_eq!(same, id);
    assert!(replace);
    assert_eq!(data.expire_notification(id, &first), None);
    assert!(data.get_notification_by_id(id).is_some());
    assert_eq!(data.expire_notification(id, &second), Some(CloseReason::Expired));
    assert!(data.get_notification_by_id(id).is_none());
    assert_eq!(u32::from(CloseReason::Expired), 1);
    let _unused: Arc<_> = first;
}

#[test]
fn remove_if_current_decides_on_the_flag() {
    let mut data = ServiceData::new_in_memory();
    let (id, _, _) = data.notify(request(-1, 0));
    assert_eq!(data.remove_if_current(id, false), None);
    assert!(data.get_notification_by_id(id).is_some());
    assert_eq!(data.remove_if_current(id, true), Some(CloseReason::Expired));
    assert!(data.get_notification_by_id(id).is_none());
    assert_eq!(data.remove_if_current(id, true), None);
    assert_eq!(data.counter(), 1);
}
