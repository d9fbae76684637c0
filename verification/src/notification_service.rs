use crate::notification::Notification;
use std::collections::HashMap;
use vstd::prelude::*;
use zbus::Error as BusError;

verus! {

/// A notification history kept in a hash map, with the counter from which
/// identifiers of new notifications are drawn.
pub struct ServiceData {
    /// The identifier most recently handed out.
    pub counter: u32,
    /// The stored notifications, by identifier.
    pub notifications: HashMap<u32, Notification>,
}

/// The map after `add_notification(id, notification, replace)`: a new entry is always
/// stored; a replacement only overwrites an entry that exists.
pub open spec fn map_after_add(
    history: Map<u32, Notification>,
    id: u32,
    notification: Notification,
    replace: bool,
) -> Map<u32, Notification> {
    if !replace || history.contains_key(id) {
        history.insert(id, notification)
    } else {
        history
    }
}

impl ServiceData {
    /// An empty history whose counter is zero.
    pub fn new_empty() -> (r: Self)
        ensures
            r.counter == 0,
            r.notifications@ == Map::<u32, Notification>::empty(),
    {
        ServiceData { counter: 0, notifications: HashMap::new() }
    }

    /// Stores `new_notification` under `id`: inserted when `replace` is false,
    /// otherwise only written over an existing entry.
    pub fn add_notification(&mut self, id: u32, new_notification: Notification, replace: bool)
        ensures
            final(self).notifications@ == map_after_add(
                old(self).notifications@,
                id,
                new_notification,
                replace,
            ),
            final(self).counter == old(self).counter,
    {
        if !replace {
            self.notifications.insert(id, new_notification);
        } else if self.notifications.contains_key(&id) {
            self.notifications.insert(id, new_notification);
        }
    }

    /// Forgets the notification `id`, if there is one.
    pub fn remove_notification(&mut self, id: &u32)
        ensures
            final(self).notifications@ == old(self).notifications@.remove(*id),
            final(self).counter == old(self).counter,
    {
        self.notifications.remove(id);
    }
}

/// Errors of the hash-map based notification service.
#[derive(Debug)]
pub enum NotificationServiceError {
    /// A D-Bus operation failed.
    DBusError(BusError),
    /// An operation that needs the bus was attempted before the service was started.
    NoConnection,
}

/// Adding a notification never touches the entries under other identifiers; a new
/// notification is always stored under its identifier; a replacement is stored only when the
/// identifier is already present and otherwise changes nothing.
pub proof fn lemma_add_keeps_others(
    history: Map<u32, Notification>,
    id: u32,
    notification: Notification,
    replace: bool,
)
    ensures
        forall|k: u32|
            k != id ==> (#[trigger] map_after_add(history, id, notification, replace).contains_key(k)
                <==> history.contains_key(k)),
        forall|k: u32|
            k != id && history.contains_key(k) ==> #[trigger] map_after_add(
                history,
                id,
                notification,
                replace,
            )[k] == history[k],
        !replace ==> map_after_add(history, id, notification, replace).contains_key(id)
            && map_after_add(history, id, notification, replace)[id] == notification,
        replace && history.contains_key(id) ==> map_after_add(history, id, notification, replace)[id]
            == notification,
        replace && !history.contains_key(id) ==> map_after_add(history, id, notification, replace)
            == history,
{
}

/// Removing leaves every other entry in place and the removed identifier absent.
pub proof fn lemma_remove_keeps_others(history: Map<u32, Notification>, id: u32)
    ensures
        !history.remove(id).contains_key(id),
        forall|k: u32|
            k != id ==> (#[trigger] history.remove(id).contains_key(k) <==> history.contains_key(k)),
        forall|k: u32|
            k != id && history.contains_key(k) ==> #[trigger] history.remove(id)[k] == history[k],
{
}

} // verus!
