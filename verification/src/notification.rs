use crate::urgency::Urgency;
use std::sync::Arc;
use vstd::prelude::*;

verus! {

/// An action offered by a notification, typically shown as a button.
#[derive(Debug)]
pub struct Action {
    /// Identifier of the notification that offers the action.
    pub notification_id: u32,
    /// Localized text shown to the user.
    pub label: String,
    /// Identifier of the action; `"default"` is the default action.
    pub action_key: String,
}

/// A notification as it is kept in the history.
#[derive(Debug)]
pub struct Notification {
    /// The unique non-zero identifier of the notification.
    pub id: u32,
    /// Name of the application that sent the notification; may be blank.
    pub app_name: String,
    /// File path or icon name, if any.
    pub icon: Option<String>,
    /// Summary text briefly describing the notification.
    pub summary: String,
    /// Detailed body text; may be empty.
    pub body: String,
    /// The actions the notification offers.
    pub actions: Vec<Arc<Action>>,
    /// The urgency level.
    pub urgency: Urgency,
    /// The expiration timeout requested by the sender.
    pub timeout: i32,
}

/// Another handle to the same shared value (`Arc::clone`).
#[verifier::external_body]
pub(crate) fn share<T>(value: &Arc<T>) -> (r: Arc<T>)
    ensures
        r == *value,
{
    Arc::clone(value)
}

/// Whether two handles share one allocation (`Arc::ptr_eq`); if they do, they hold the same
/// value. Nothing is stated when they do not: separate allocations may hold equal values.
#[verifier::external_body]
pub(crate) fn same_allocation<T>(a: &Arc<T>, b: &Arc<T>) -> (r: bool)
    ensures
        r ==> *a == *b,
{
    Arc::ptr_eq(a, b)
}

} // verus!
