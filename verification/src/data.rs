use crate::close_reason::CloseReason;
use crate::error::Error;
use crate::notification::{same_allocation, share, Notification};
use crate::request::{build_notification, describes_request, urgency_of_hint, NotifyRequest};
use std::collections::BTreeMap;
use std::sync::Arc;
use vstd::prelude::*;
use vstd::std_specs::cmp::OrdSpec;
use vstd::std_specs::iter::IteratorSpec;

verus! {

/// The notification history after `add_notification(id, notification, replace)`:
/// a new entry is always stored; a replacement only overwrites an entry that exists.
pub open spec fn stored_after_add(
    history: Map<u32, Arc<Notification>>,
    id: u32,
    notification: Arc<Notification>,
    replace: bool,
) -> Map<u32, Arc<Notification>> {
    if !replace || history.contains_key(id) {
        history.insert(id, notification)
    } else {
        history
    }
}

/// The identifier a `Notify` call with `replaces_id` receives when the counter is `counter`:
/// the replaced identifier, or the counter's successor for a new notification.
pub open spec fn id_for_request(counter: u32, replaces_id: u32) -> int {
    if replaces_id != 0 {
        replaces_id as int
    } else {
        counter + 1
    }
}

/// The counter after a `Notify` call with `replaces_id`: only new notifications advance it.
pub open spec fn counter_after_request(counter: u32, replaces_id: u32) -> int {
    if replaces_id != 0 {
        counter as int
    } else {
        counter + 1
    }
}

/// Every stored notification is kept under its own identifier, and no identifier is zero.
pub open spec fn ids_consistent(history: Map<u32, Arc<Notification>>) -> bool {
    forall|k: u32| #[trigger] history.contains_key(k) ==> k != 0 && history[k].id == k
}

/// `keys` lists the identifiers of `history` in strictly increasing order.
pub open spec fn ordered_ids_of(keys: Seq<u32>, history: Map<u32, Arc<Notification>>) -> bool {
    &&& keys.to_set() == history.dom()
    &&& forall|i: int, j: int| 0 <= i < j < keys.len() ==> keys[i] < keys[j]
}

/// The notification history of the service together with the counter from which
/// identifiers of new notifications are drawn.
pub struct ServiceData {
    counter: u32,
    notifications: BTreeMap<u32, Arc<Notification>>,
}

impl View for ServiceData {
    type V = Map<u32, Arc<Notification>>;

    /// The stored notifications, by identifier.
    closed spec fn view(&self) -> Map<u32, Arc<Notification>> {
        self.notifications@
    }
}

impl ServiceData {
    /// The identifier counter: the identifier most recently handed out to a new notification.
    pub closed spec fn counter_value(&self) -> u32 {
        self.counter
    }

    /// An empty history whose counter is zero.
    pub fn new_in_memory() -> (r: Self)
        ensures
            r@ == Map::<u32, Arc<Notification>>::empty(),
            r.counter_value() == 0,
            ids_consistent(r@),
    {
        ServiceData { counter: 0, notifications: BTreeMap::new() }
    }

    /// A history holding `notifications` with the counter at `counter`, as read back
    /// from a saved history.
    pub fn from_parts(counter: u32, notifications: BTreeMap<u32, Arc<Notification>>) -> (r: Self)
        ensures
            r@ == notifications@,
            r.counter_value() == counter,
    {
        ServiceData { counter, notifications }
    }

    /// The current value of the identifier counter.
    pub fn counter(&self) -> (r: u32)
        ensures
            r == self.counter_value(),
    {
        self.counter
    }

    /// Stores `new_notification` under `id`. Without `replace` the entry is inserted
    /// (overwriting any entry with that identifier); with `replace` an existing entry
    /// is overwritten and nothing happens when there is none.
    pub fn add_notification(&mut self, id: u32, new_notification: Arc<Notification>, replace: bool)
        ensures
            final(self)@ == stored_after_add(old(self)@, id, new_notification, replace),
            final(self).counter_value() == old(self).counter_value(),
            ids_consistent(old(self)@) && id != 0 && new_notification.id == id ==> ids_consistent(
                final(self)@,
            ),
    {
        if !replace {
            self.notifications.insert(id, new_notification);
        } else if self.notifications.contains_key(&id) {
            self.notifications.insert(id, new_notification);
        }
    }

    /// Removes the notification `id`; fails with `NotificationNotFound(id)`, leaving the
    /// history as it was, when there is none.
    pub fn remove_notification(&mut self, id: u32) -> (r: Result<(), Error>)
        ensures
            r is Ok <==> old(self)@.contains_key(id),
            r is Ok ==> final(self)@ == old(self)@.remove(id),
            r is Err ==> final(self)@ == old(self)@,
            r is Err ==> (r matches Err(Error::NotificationNotFound(missing)) && missing == id),
            final(self).counter_value() == old(self).counter_value(),
            ids_consistent(old(self)@) ==> ids_consistent(final(self)@),
    {
        match self.notifications.remove(&id) {
            Some(_) => Ok(()),
            None => Err(Error::NotificationNotFound(id)),
        }
    }

    /// Forgets every notification and resets the identifier counter to zero.
    pub fn clear(&mut self)
        ensures
            final(self)@ == Map::<u32, Arc<Notification>>::empty(),
            final(self).counter_value() == 0,
            ids_consistent(final(self)@),
    {
        self.notifications.clear();
        self.counter = 0;
    }

    /// A copy of the stored notifications, by identifier.
    pub fn get_notifications(&self) -> (r: BTreeMap<u32, Arc<Notification>>)
        ensures
            r@ == self@,
    {
        self.notifications.clone()
    }

    /// Advances the identifier counter by one and returns its new value.
    pub fn increment_counter(&mut self) -> (r: u32)
        requires
            old(self).counter_value() < u32::MAX,
        ensures
            r == old(self).counter_value() + 1,
            final(self).counter_value() == r,
            final(self)@ == old(self)@,
    {
        self.counter = self.counter + 1;
        self.counter
    }

    /// The identifier that a `Notify` call with `replaces_id` receives in the current state.
    pub fn next_id(&self, replaces_id: u32) -> (r: u32)
        requires
            replaces_id != 0 || self.counter_value() < u32::MAX,
        ensures
            r == id_for_request(self.counter_value(), replaces_id),
    {
        if replaces_id != 0 {
            replaces_id
        } else {
            self.counter + 1
        }
    }

    /// Records a `Notify` call: a request with a non-zero `replaces_id` replaces that
    /// notification (only if it is stored), any other request becomes a new notification
    /// under the next counter value. Returns the identifier, the notification built
    /// from the request and whether it was a replacement.
    pub fn notify(&mut self, request: NotifyRequest) -> (r: (u32, Arc<Notification>, bool))
        requires
            request.replaces_id != 0 || old(self).counter_value() < u32::MAX,
        ensures
            r.2 == (request.replaces_id != 0),
            r.0 == id_for_request(old(self).counter_value(), request.replaces_id),
            describes_request(*r.1, r.0, request),
            final(self).counter_value() == counter_after_request(
                old(self).counter_value(),
                request.replaces_id,
            ),
            final(self)@ == stored_after_add(old(self)@, r.0, r.1, r.2),
            r.0 != 0,
            !r.2 || old(self)@.contains_key(r.0) ==> final(self)@.contains_key(r.0),
            !r.2 || old(self)@.contains_key(r.0) ==> final(self)@[r.0] == r.1,
            ids_consistent(old(self)@) ==> ids_consistent(final(self)@),
    {
        let replace = request.replaces_id != 0;
        let id = self.next_id(request.replaces_id);
        let notification = Arc::new(build_notification(id, request));
        if !replace {
            self.counter = self.counter + 1;
        }
        self.add_notification(id, share(&notification), replace);
        (id, notification, replace)
    }

    /// Closes the notification `id` because it expired (the decision is [`Self::remove_if_current`]
    /// on whether `shown` is the very allocation stored): when the notification `shown` is still
    /// stored under `id` it is removed and `Expired` is returned; otherwise (it was closed
    /// or replaced meanwhile) nothing changes.
    pub fn expire_notification(&mut self, id: u32, shown: &Arc<Notification>) -> (r: Option<
        CloseReason,
    >)
        ensures
            r is Some ==> {
                &&& r == Some(CloseReason::Expired)
                &&& old(self)@.contains_key(id)
                &&& old(self)@[id] == *shown
                &&& final(self)@ == old(self)@.remove(id)
            },
            r is None ==> final(self)@ == old(self)@,
            !old(self)@.contains_key(id) ==> r is None,
            final(self).counter_value() == old(self).counter_value(),
            ids_consistent(old(self)@) ==> ids_consistent(final(self)@),
    {
        let current = match self.notifications.get(&id) {
            Some(stored) => same_allocation(stored, shown),
            None => false,
        };
        self.remove_if_current(id, current)
    }

    /// The expiry step once it is known whether the notification that was shown is still the
    /// one stored under `id` (`current`): if so, it is removed and `Expired` is returned;
    /// otherwise nothing changes.
    pub fn remove_if_current(&mut self, id: u32, current: bool) -> (r: Option<CloseReason>)
        ensures
            current && old(self)@.contains_key(id) ==> r == Some(CloseReason::Expired)
                && final(self)@ == old(self)@.remove(id),
            !current || !old(self)@.contains_key(id) ==> r is None && final(self)@ == old(self)@,
            final(self).counter_value() == old(self).counter_value(),
            ids_consistent(old(self)@) ==> ids_consistent(final(self)@),
    {
        if current {
            match self.notifications.remove(&id) {
                Some(_) => Some(CloseReason::Expired),
                None => None,
            }
        } else {
            None
        }
    }

    /// The notification stored under `id`, if any.
    pub fn get_notification_by_id(&self, id: u32) -> (r: Option<Arc<Notification>>)
        ensures
            r is Some <==> self@.contains_key(id),
            r matches Some(n) ==> n == self@[id],
    {
        match self.notifications.get(&id) {
            Some(n) => Some(share(n)),
            None => None,
        }
    }

    /// The stored notifications in increasing order of their identifiers.
    pub fn get_notifications_in_order(&self) -> (r: Vec<Arc<Notification>>)
        ensures
            r.len() == self@.len(),
            exists|keys: Seq<u32>|
                {
                    &&& ordered_ids_of(keys, self@)
                    &&& keys.len() == r.len()
                    &&& forall|i: int| 0 <= i < keys.len() ==> r@[i] == self@[keys[i]]
                },
            ids_consistent(self@) ==> {
                &&& forall|i: int|
                    0 <= i < r.len() ==> {
                        &&& r@[i].id != 0
                        &&& self@.contains_key(r@[i].id)
                        &&& self@[r@[i].id] == r@[i]
                    }
                &&& forall|i: int, j: int| 0 <= i < j < r.len() ==> r@[i].id < r@[j].id
            },
    {
        let mut r: Vec<Arc<Notification>> = Vec::new();
        let entries = self.notifications.iter();
        let ghost s = entries.remaining();
        for entry in it: entries
            invariant
                it.seq() == s,
                r.len() == it.index(),
                forall|i: int| 0 <= i < it.index() ==> r@[i] == *s[i].1,
        {
            let (_, n) = entry;
            r.push(share(n));
        }
        proof {
            let m = self.notifications@;
            let keys = s.map_values(|kv: (&u32, &Arc<Notification>)| *kv.0);
            assert(vstd::std_specs::btree::increasing_seq(keys));
            assert forall|i: int, j: int| 0 <= i < j < keys.len() implies keys[i] < keys[j] by {
                assert(keys[i].cmp_spec(&keys[j]) is Less);
            }
            assert forall|i: int| 0 <= i < keys.len() implies r@[i] == m[keys[i]] by {
                assert(m.contains_key(*s[i].0));
            }
            assert forall|k: u32| keys.to_set().contains(k) implies m.dom().contains(k) by {
                let i = choose|i: int| 0 <= i < keys.len() && keys[i] == k;
                assert(m.contains_key(*s[i].0));
            }
            assert forall|k: u32| m.dom().contains(k) implies keys.to_set().contains(k) by {
                assert(s.contains((&k, &m[k])));
                let i = choose|i: int| 0 <= i < s.len() && s[i] == (&k, &m[k]);
                assert(keys[i] == k);
            }
            assert(keys.to_set() =~= m.dom());
            assert(ordered_ids_of(keys, self@));
            if ids_consistent(self@) {
                assert forall|i: int| 0 <= i < r.len() implies r@[i].id == keys[i] by {
                    assert(m.contains_key(*s[i].0));
                }
            }
        }
        r
    }
}

/// Reading after writing: an entry that is added (or replaces an existing one) is found under
/// its identifier; a replacement of an identifier that is not stored changes nothing; entries
/// under other identifiers are untouched.
pub proof fn lemma_lookup_after_add(
    history: Map<u32, Arc<Notification>>,
    id: u32,
    notification: Arc<Notification>,
    replace: bool,
)
    ensures
        (!replace || history.contains_key(id)) ==> {
            &&& stored_after_add(history, id, notification, replace).contains_key(id)
            &&& stored_after_add(history, id, notification, replace)[id] == notification
        },
        (replace && !history.contains_key(id)) ==> stored_after_add(
            history,
            id,
            notification,
            replace,
        ) == history,
        forall|k: u32|
            k != id ==> (#[trigger] stored_after_add(history, id, notification, replace).contains_key(k)
                <==> history.contains_key(k)),
        forall|k: u32|
            k != id && history.contains_key(k) ==> #[trigger] stored_after_add(
                history,
                id,
                notification,
                replace,
            )[k] == history[k],
{
}

/// Removing a notification that was just added leaves the history as it was without that
/// identifier, so a second removal of the same identifier finds nothing.
pub proof fn lemma_remove_after_add(
    history: Map<u32, Arc<Notification>>,
    id: u32,
    notification: Arc<Notification>,
)
    ensures
        stored_after_add(history, id, notification, false).contains_key(id),
        stored_after_add(history, id, notification, false).remove(id) == history.remove(id),
        !stored_after_add(history, id, notification, false).remove(id).contains_key(id),
{
    assert(stored_after_add(history, id, notification, false).remove(id) =~= history.remove(id));
}

/// Every identifier handed out for a `Notify` call is non-zero.
pub proof fn lemma_request_ids_nonzero(counter: u32, replaces_id: u32)
    ensures
        id_for_request(counter, replaces_id) != 0,
{
}

/// New notifications receive strictly increasing identifiers: after one new notification
/// the next new one gets the identifier one above, and a replacement in between does not
/// change that.
pub proof fn lemma_new_ids_increase(counter: u32, replaces_id: u32)
    requires
        counter + 1 < u32::MAX,
    ensures
        id_for_request(counter_after_request(counter, 0) as u32, 0) == id_for_request(counter, 0)
            + 1,
        replaces_id != 0 ==> id_for_request(
            counter_after_request(counter, replaces_id) as u32,
            0,
        ) == id_for_request(counter, 0),
{
}

/// Looking up a new notification right after the `Notify` call that created it gives the
/// notification with the fields of the request, under a non-zero identifier.
pub proof fn lemma_lookup_after_notify(
    history: Map<u32, Arc<Notification>>,
    counter: u32,
    request: NotifyRequest,
    n: Arc<Notification>,
)
    requires
        counter < u32::MAX,
        request.replaces_id == 0,
        describes_request(*n, (counter + 1) as u32, request),
    ensures
        ({
            let id = id_for_request(counter, request.replaces_id) as u32;
            let after = stored_after_add(history, id, n, false);
            &&& id != 0
            &&& after.contains_key(id)
            &&& after[id].id == id
            &&& after[id].app_name == request.app_name
            &&& after[id].icon == request.icon
            &&& after[id].summary == request.summary
            &&& after[id].body == request.body
            &&& after[id].urgency == urgency_of_hint(request.urgency)
            &&& after[id].timeout == request.timeout
        }),
{
}

/// A history whose notifications are kept under their own non-zero identifiers lists them with
/// pairwise distinct, non-zero identifiers, each found again by looking up its identifier.
pub proof fn lemma_listed_ids(history: Map<u32, Arc<Notification>>, keys: Seq<u32>, listed: Seq<Arc<Notification>>)
    requires
        ids_consistent(history),
        ordered_ids_of(keys, history),
        keys.len() == listed.len(),
        forall|i: int| 0 <= i < keys.len() ==> listed[i] == history[keys[i]],
    ensures
        forall|i: int|
            0 <= i < listed.len() ==> {
                &&& listed[i].id != 0
                &&& history.contains_key(listed[i].id)
                &&& history[listed[i].id] == listed[i]
            },
        forall|i: int, j: int| 0 <= i < j < listed.len() ==> listed[i].id != listed[j].id,
{
    assert forall|i: int| 0 <= i < keys.len() implies history.contains_key(keys[i]) by {
        assert(keys.to_set().contains(keys[i]));
    }
}

/// A request with a non-zero `replaces_id` always receives that identifier and leaves the
/// counter alone; only a request with `replaces_id` zero draws the next identifier, one above
/// the counter, and advances the counter to it.
pub proof fn lemma_request_identifier(counter: u32, replaces_id: u32)
    ensures
        replaces_id != 0 ==> id_for_request(counter, replaces_id) == replaces_id,
        replaces_id != 0 ==> counter_after_request(counter, replaces_id) == counter,
        replaces_id == 0 ==> id_for_request(counter, replaces_id) == counter + 1,
        replaces_id == 0 ==> counter_after_request(counter, replaces_id) == counter + 1,
        replaces_id == 0 ==> id_for_request(counter, replaces_id) > counter,
{
}

/// A replacing request for a stored identifier overwrites exactly that entry with the new
/// notification and keeps every other entry; one for an identifier that is not stored leaves
/// the history as it was.
pub proof fn lemma_replacement_overwrites(
    history: Map<u32, Arc<Notification>>,
    counter: u32,
    replaces_id: u32,
    n: Arc<Notification>,
)
    requires
        replaces_id != 0,
    ensures
        ({
            let id = id_for_request(counter, replaces_id) as u32;
            let after = stored_after_add(history, id, n, true);
            &&& id == replaces_id
            &&& history.contains_key(replaces_id) ==> after.contains_key(replaces_id)
                && after[replaces_id] == n && after.dom() == history.dom()
            &&& !history.contains_key(replaces_id) ==> after == history
            &&& forall|k: u32| k != replaces_id && #[trigger] history.contains_key(k) ==> after.contains_key(k)
                && after[k] == history[k]
        }),
{
    let id = id_for_request(counter, replaces_id) as u32;
    let after = stored_after_add(history, id, n, true);
    if history.contains_key(replaces_id) {
        assert(after.dom() =~= history.dom());
    }
}

} // verus!
