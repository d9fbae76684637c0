use crate::notification::{Action, Notification};
use crate::urgency::{urgency_of_byte, Urgency};
use std::sync::Arc;
use vstd::prelude::*;

verus! {

/// The values of a `Notify` call on the bus that decide what is stored.
pub struct NotifyRequest {
    /// Name of the sending application.
    pub app_name: String,
    /// Identifier of the notification to replace, or zero for a new one.
    pub replaces_id: u32,
    /// The icon chosen for the notification (see [`choose_icon_source`]).
    pub icon: Option<String>,
    /// Summary text.
    pub summary: String,
    /// Body text.
    pub body: String,
    /// Flat list of actions: each action key is followed by its label.
    pub actions: Vec<String>,
    /// The `urgency` hint, when it is present and holds a byte.
    pub urgency: Option<u8>,
    /// Requested expiration timeout.
    pub timeout: i32,
}

/// Which hints about the notification's image a request carries.
pub struct IconHints {
    /// Whether the `image-data` hint is present.
    pub image_data: bool,
    /// The `image-path` hint: `None` when absent, `Some(None)` when present but not a string.
    pub image_path: Option<Option<String>>,
    /// Whether the (deprecated) `icon_data` hint is present.
    pub icon_data: bool,
}

/// Where the icon of a new notification comes from.
pub enum IconSource {
    /// Save the raw image of the `image-data` hint and use the saved file.
    ImageData,
    /// Use this path, taken from the `image-path` hint.
    ImagePath(Option<String>),
    /// Save the raw image of the `icon_data` hint and use the saved file.
    IconData,
    /// Use the application icon given with the request.
    AppIcon(String),
}

/// Selects where the icon of a new notification comes from.
pub fn choose_icon_source(hints: &IconHints, app_icon: &str) -> (r: IconSource)
    ensures
        hints.image_data ==> r is ImageData,
        !hints.image_data && hints.image_path is Some ==> r == IconSource::ImagePath(
            hints.image_path->0,
        ),
        !hints.image_data && hints.image_path is None && hints.icon_data ==> r is IconData,
        !hints.image_data && hints.image_path is None && !hints.icon_data ==> (r matches IconSource::AppIcon(s) && s@ == app_icon@),
{
    if hints.image_data {
        return IconSource::ImageData;
    }
    match &hints.image_path {
        Some(path) => {
            let p: Option<String> = match path {
                Some(s) => Some(s.clone()),
                None => None,
            };
            return IconSource::ImagePath(p);
        },
        None => {},
    }
    if hints.icon_data {
        return IconSource::IconData;
    }
    IconSource::AppIcon(app_icon.to_string())
}

/// `pairs` are the actions of notification `id` read from the flat list `flat`:
/// the key at position `2 i` with the label at `2 i + 1`; a key without a label is dropped.
pub open spec fn actions_paired(pairs: Seq<Arc<Action>>, id: u32, flat: Seq<String>) -> bool {
    &&& pairs.len() == flat.len() / 2
    &&& forall|i: int|
        #![trigger pairs[i]]
        0 <= i < pairs.len() ==> {
            &&& pairs[i].notification_id == id
            &&& pairs[i].action_key == flat[2 * i]
            &&& pairs[i].label == flat[2 * i + 1]
        }
}

/// Reads the flat action list of a request as actions of notification `id`.
pub fn pair_actions(id: u32, actions: &Vec<String>) -> (r: Vec<Arc<Action>>)
    ensures
        actions_paired(r@, id, actions@),
{
    let mut r: Vec<Arc<Action>> = Vec::new();
    let mut i: usize = 0;
    while i + 1 < actions.len()
        invariant
            i % 2 == 0,
            i <= actions.len(),
            r.len() == i / 2,
            forall|j: int|
                #![trigger r@[j]]
                0 <= j < r.len() ==> {
                    &&& r@[j].notification_id == id
                    &&& r@[j].action_key == actions@[2 * j]
                    &&& r@[j].label == actions@[2 * j + 1]
                },
        decreases actions.len() - i,
    {
        let action = Action {
            notification_id: id,
            action_key: actions[i].clone(),
            label: actions[i + 1].clone(),
        };
        r.push(Arc::new(action));
        i = i + 2;
    }
    r
}

/// The urgency that a request's `urgency` hint stands for; a missing hint means low urgency.
pub open spec fn urgency_of_hint(hint: Option<u8>) -> Urgency {
    match hint {
        Some(b) => urgency_of_byte(b),
        None => Urgency::Low,
    }
}

/// `n` is the notification that `request` describes, stored under identifier `id`.
pub open spec fn describes_request(n: Notification, id: u32, request: NotifyRequest) -> bool {
    &&& n.id == id
    &&& n.app_name == request.app_name
    &&& n.icon == request.icon
    &&& n.summary == request.summary
    &&& n.body == request.body
    &&& actions_paired(n.actions@, id, request.actions@)
    &&& n.urgency == urgency_of_hint(request.urgency)
    &&& n.timeout == request.timeout
}

/// Builds the notification that `request` describes, under identifier `id`.
pub fn build_notification(id: u32, request: NotifyRequest) -> (r: Notification)
    ensures
        describes_request(r, id, request),
{
    let actions = pair_actions(id, &request.actions);
    let urgency: Urgency = match request.urgency {
        Some(b) => Urgency::from(b),
        None => Urgency::Low,
    };
    Notification {
        id,
        app_name: request.app_name,
        icon: request.icon,
        summary: request.summary,
        body: request.body,
        actions,
        urgency,
        timeout: request.timeout,
    }
}

} // verus!
