use vstd::prelude::*;

verus! {

/// Returns the position of the first item of `store` for which `predicate` holds.
pub fn search_in_list_store<T, F: Fn(&T) -> bool>(store: &Vec<T>, predicate: F) -> (r: Option<u32>)
    requires
        store.len() <= u32::MAX,
        forall|i: int| 0 <= i < store.len() ==> #[trigger] predicate.requires((&store@[i],)),
    ensures
        r matches Some(p) ==> {
            &&& p < store.len()
            &&& predicate.ensures((&store@[p as int],), true)
            &&& forall|j: int| 0 <= j < p ==> #[trigger] predicate.ensures((&store@[j],), false)
        },
        r is None ==> forall|j: int|
            0 <= j < store.len() ==> #[trigger] predicate.ensures((&store@[j],), false),
{
    let mut i: usize = 0;
    while i < store.len()
        invariant
            i <= store.len(),
            store.len() <= u32::MAX,
            forall|k: int| 0 <= k < store.len() ==> #[trigger] predicate.requires((&store@[k],)),
            forall|j: int| 0 <= j < i ==> #[trigger] predicate.ensures((&store@[j],), false),
        decreases store.len() - i,
    {
        if predicate(&store[i]) {
            return Some(i as u32);
        }
        i = i + 1;
    }
    None
}

/// What a list of notifications shown to the user learns from a service signal.
#[derive(Copy, Clone, Debug, PartialEq, Eq, Structural)]
pub enum ServiceSignal {
    /// The notification `id` was closed.
    Closed { id: u32 },
    /// The notification `id` arrived; `replace` tells whether it replaces an older one.
    Notified { id: u32, replace: bool },
}

/// The change to make to the list of shown notifications, given as their identifiers.
#[derive(Copy, Clone, Debug, PartialEq, Eq, Structural)]
pub enum ListUpdate {
    /// Remove the entry at `position` and announce that it was closed.
    Remove { position: u32 },
    /// Append the new notification and announce it.
    Append,
    /// Put the new notification in place of the entry at `position` and announce it.
    Replace { position: u32 },
    /// Leave the list as it is and announce nothing.
    Ignore,
}

/// The update that `signal` calls for on the list `ids`: a closed notification is removed
/// where it first occurs (nothing happens if it is not shown); a new notification is
/// appended; a replacing notification takes the place of the first entry with its
/// identifier, or is appended when there is none.
pub open spec fn planned_update(ids: Seq<u32>, signal: ServiceSignal) -> ListUpdate {
    match signal {
        ServiceSignal::Closed { id } => match ids.index_of_first(id) {
            Some(p) => ListUpdate::Remove { position: p as u32 },
            None => ListUpdate::Ignore,
        },
        ServiceSignal::Notified { id, replace } => {
            if !replace {
                ListUpdate::Append
            } else {
                match ids.index_of_first(id) {
                    Some(p) => ListUpdate::Replace { position: p as u32 },
                    None => ListUpdate::Append,
                }
            }
        },
    }
}

/// The identifiers shown after `update` is made for the notification `id`.
pub open spec fn apply_update(ids: Seq<u32>, id: u32, update: ListUpdate) -> Seq<u32> {
    match update {
        ListUpdate::Remove { position } => ids.remove(position as int),
        ListUpdate::Append => ids.push(id),
        ListUpdate::Replace { position } => ids.update(position as int, id),
        ListUpdate::Ignore => ids,
    }
}

/// A position where `id` occurs with no earlier occurrence is the one `index_of_first` finds.
proof fn lemma_first_position(s: Seq<u32>, id: u32, p: int)
    requires
        0 <= p < s.len(),
        s[p] == id,
        forall|j: int| 0 <= j < p ==> s[j] != id,
    ensures
        s.index_of_first(id) == Some(p),
{
    s.index_of_first_ensures(id);
    assert(s.contains(id));
}

/// The search result for `id` on `ids` with an equality predicate, read as `index_of_first`.
proof fn lemma_search_result(ids: Seq<u32>, id: u32, found: Option<u32>)
    requires
        found matches Some(p) ==> {
            &&& p < ids.len()
            &&& ids[p as int] == id
            &&& forall|j: int| 0 <= j < p ==> ids[j] != id
        },
        found is None ==> forall|j: int| 0 <= j < ids.len() ==> ids[j] != id,
    ensures
        found matches Some(p) ==> ids.index_of_first(id) == Some(p as int),
        found is None ==> ids.index_of_first(id) is None,
{
    ids.index_of_first_ensures(id);
    match found {
        Some(p) => lemma_first_position(ids, id, p as int),
        None => {},
    }
}

/// The first position of `id` in `ids`, found with [`search_in_list_store`].
fn find_id(ids: &Vec<u32>, id: u32) -> (r: Option<u32>)
    requires
        ids.len() <= u32::MAX,
    ensures
        r matches Some(p) ==> ids@.index_of_first(id) == Some(p as int),
        r is None ==> ids@.index_of_first(id) is None,
{
    let is_id = |n: &u32| -> (b: bool)
        ensures
            b == (*n == id),
        { *n == id };
    let found = search_in_list_store(ids, is_id);
    proof {
        if let Some(p) = found {
            assert(is_id.ensures((&ids@[p as int],), true));
            assert forall|j: int| 0 <= j < p implies ids@[j] != id by {
                assert(is_id.ensures((&ids@[j],), false));
            }
        } else {
            assert forall|j: int| 0 <= j < ids.len() implies ids@[j] != id by {
                assert(is_id.ensures((&ids@[j],), false));
            }
        }
        lemma_search_result(ids@, id, found);
    }
    found
}

/// Decides how the list of shown notifications, given by their identifiers, follows a signal.
pub fn plan_list_update(ids: &Vec<u32>, signal: ServiceSignal) -> (r: ListUpdate)
    requires
        ids.len() <= u32::MAX,
    ensures
        r == planned_update(ids@, signal),
{
    match signal {
        ServiceSignal::Closed { id } => {
            let found = find_id(ids, id);
            match found {
                Some(position) => ListUpdate::Remove { position },
                None => ListUpdate::Ignore,
            }
        },
        ServiceSignal::Notified { id, replace } => {
            if !replace {
                ListUpdate::Append
            } else {
                let found = find_id(ids, id);
                match found {
                    Some(position) => ListUpdate::Replace { position },
                    None => ListUpdate::Append,
                }
            }
        },
    }
}

/// After a closed signal, a list without repeated identifiers no longer shows the closed
/// notification, still has no repeats, and shows every other notification it showed before.
pub proof fn lemma_closed_signal_hides(ids: Seq<u32>, id: u32)
    requires
        ids.len() <= u32::MAX,
        ids.no_duplicates(),
    ensures
        ({
            let after = apply_update(ids, id, planned_update(ids, ServiceSignal::Closed { id }));
            &&& !after.contains(id)
            &&& after.no_duplicates()
            &&& forall|x: u32| x != id ==> (after.contains(x) <==> ids.contains(x))
        }),
{
    ids.index_of_first_ensures(id);
    let after = apply_update(ids, id, planned_update(ids, ServiceSignal::Closed { id }));
    match ids.index_of_first(id) {
        Some(p) => {
            assert(after =~= ids.remove(p));
            assert forall|k: int| 0 <= k < after.len() implies after[k] != id by {
                if k < p {
                } else {
                    assert(after[k] == ids[k + 1]);
                }
            }
            assert forall|x: u32| x != id && ids.contains(x) implies after.contains(x) by {
                let k = choose|k: int| 0 <= k < ids.len() && ids[k] == x;
                if k < p {
                    assert(after[k] == x);
                } else {
                    assert(k != p);
                    assert(after[k - 1] == x);
                }
            }
        },
        None => {},
    }
}

/// After a signal about a new or replacing notification, the list shows that notification;
/// a replacement of a notification that is shown keeps the length of the list and, on a
/// list without repeated identifiers, introduces none.
pub proof fn lemma_notified_signal_shows(ids: Seq<u32>, id: u32, replace: bool)
    requires
        ids.len() <= u32::MAX,
    ensures
        ({
            let after = apply_update(
                ids,
                id,
                planned_update(ids, ServiceSignal::Notified { id, replace }),
            );
            &&& after.contains(id)
            &&& (replace && ids.contains(id)) ==> after.len() == ids.len()
            &&& (replace && ids.no_duplicates()) ==> after.no_duplicates()
        }),
{
    ids.index_of_first_ensures(id);
    let after = apply_update(ids, id, planned_update(ids, ServiceSignal::Notified { id, replace }));
    if replace {
        match ids.index_of_first(id) {
            Some(p) => {
                assert(after[p] == id);
                assert(after =~= ids.update(p, id));
            },
            None => {
                assert(after[ids.len() as int] == id);
            },
        }
    } else {
        assert(after[ids.len() as int] == id);
    }
}

/// The update for each signal, stated by the first position `p` of the identifier in the list:
/// a replacing notification that is shown takes the place of the entry at `p`; one that is not
/// shown, and every new notification, is appended; a notification signal is never ignored and
/// never removes anything; a closed notification is removed at `p`, and ignored only when it
/// is not shown.
pub proof fn lemma_update_by_first_position(ids: Seq<u32>, id: u32, p: int, replace: bool)
    requires
        ids.len() <= u32::MAX,
    ensures
        0 <= p < ids.len() && ids[p] == id && (forall|j: int| 0 <= j < p ==> ids[j] != id) ==> {
            &&& planned_update(ids, ServiceSignal::Notified { id, replace: true })
                == ListUpdate::Replace { position: p as u32 }
            &&& planned_update(ids, ServiceSignal::Closed { id }) == ListUpdate::Remove {
                position: p as u32,
            }
        },
        !ids.contains(id) ==> planned_update(ids, ServiceSignal::Notified { id, replace })
            == ListUpdate::Append,
        !ids.contains(id) ==> planned_update(ids, ServiceSignal::Closed { id }) == ListUpdate::Ignore,
        planned_update(ids, ServiceSignal::Notified { id, replace: false }) == ListUpdate::Append,
        !(planned_update(ids, ServiceSignal::Notified { id, replace }) is Ignore),
        !(planned_update(ids, ServiceSignal::Notified { id, replace }) is Remove),
        ids.contains(id) ==> planned_update(ids, ServiceSignal::Closed { id }) is Remove,
{
    ids.index_of_first_ensures(id);
    if 0 <= p < ids.len() && ids[p] == id && (forall|j: int| 0 <= j < p ==> ids[j] != id) {
        lemma_first_position(ids, id, p);
    }
}

} // verus!
