//! The list of notifications that are still on screen, oldest first.

use vstd::prelude::*;

use crate::notification::FocusNotification;
use crate::text::same_text;

verus! {

/// `list` without the notifications of pane `pane_id`, order kept.
pub open spec fn without_pane(list: Seq<FocusNotification>, pane_id: Seq<char>) -> Seq<
    FocusNotification,
>
    decreases list.len(),
{
    if list.len() == 0 {
        list
    } else {
        let rest = without_pane(list.drop_last(), pane_id);
        if list.last().pane_id@ != pane_id {
            rest.push(list.last())
        } else {
            rest
        }
    }
}

/// `list` with `notification` as the newest entry of its pane, replacing any
/// older entry of that pane.
pub open spec fn upserted(list: Seq<FocusNotification>, notification: FocusNotification) -> Seq<
    FocusNotification,
> {
    without_pane(list, notification.pane_id@).push(notification)
}

/// No pane has two entries.
pub open spec fn panes_unique(list: Seq<FocusNotification>) -> bool {
    forall|i: int, j: int|
        0 <= i < j < list.len() ==> #[trigger] list[i].pane_id@ != #[trigger] list[j].pane_id@
}

proof fn lemma_without_pane_step(list: Seq<FocusNotification>, pane_id: Seq<char>, j: int)
    requires
        0 <= j < list.len(),
    ensures
        without_pane(list.take(j + 1), pane_id) == if list[j].pane_id@ != pane_id {
            without_pane(list.take(j), pane_id).push(list[j])
        } else {
            without_pane(list.take(j), pane_id)
        },
{
    assert(list.take(j + 1).drop_last() =~= list.take(j));
}

/// Removes the notifications of pane `pane_id`.
pub fn remove_active_notification(notifications: &mut Vec<FocusNotification>, pane_id: &str)
    ensures
        final(notifications)@ == without_pane(old(notifications)@, pane_id@),
{
    let ghost start = notifications@;
    let mut i: usize = 0;
    let ghost mut j: int = 0;
    assert(start.take(0) =~= Seq::<FocusNotification>::empty());
    assert(start.skip(0) =~= start);
    while i < notifications.len()
        invariant
            0 <= j <= start.len(),
            i <= notifications@.len(),
            notifications@.take(i as int) == without_pane(start.take(j), pane_id@),
            notifications@.skip(i as int) == start.skip(j),
            notifications@.len() - i == start.len() - j,
        decreases notifications@.len() - i,
    {
        let ghost before = notifications@;
        assert(before.skip(i as int)[0] == start.skip(j)[0]);
        assert(start[j] == before[i as int]);
        proof {
            lemma_without_pane_step(start, pane_id@, j);
        }
        if same_text(notifications[i].pane_id.as_str(), pane_id) {
            notifications.remove(i);
            assert(notifications@.take(i as int) =~= before.take(i as int));
            assert(notifications@.skip(i as int) =~= before.skip(i as int).drop_first());
            assert(start.skip(j).drop_first() =~= start.skip(j + 1));
        } else {
            assert(notifications@.take(i + 1) =~= before.take(i as int).push(before[i as int]));
            assert(notifications@.skip(i + 1) =~= before.skip(i as int).drop_first());
            assert(start.skip(j).drop_first() =~= start.skip(j + 1));
            i = i + 1;
        }
        proof {
            j = j + 1;
        }
    }
    assert(notifications@.skip(i as int).len() == 0);
    assert(j == start.len());
    assert(start.take(j) =~= start);
    assert(notifications@.take(i as int) =~= notifications@);
}

/// Makes `notification` the newest entry, replacing any older entry of its pane.
pub fn upsert_active_notification(
    notifications: &mut Vec<FocusNotification>,
    notification: FocusNotification,
)
    ensures
        final(notifications)@ == upserted(old(notifications)@, notification),
{
    remove_active_notification(notifications, notification.pane_id.as_str());
    notifications.push(notification);
}

/// The newest entry of the list, if any.
pub fn latest_active_notification(notifications: Vec<FocusNotification>) -> (res: Option<
    FocusNotification,
>)
    ensures
        res == (if notifications@.len() == 0 {
            None
        } else {
            Some(notifications@.last())
        }),
{
    let mut notifications = notifications;
    notifications.pop()
}

} // verus!
verus! {

proof fn lemma_without_pane_members(list: Seq<FocusNotification>, pane_id: Seq<char>)
    ensures
        forall|x: FocusNotification|
            #[trigger] without_pane(list, pane_id).contains(x) <==> (list.contains(x)
                && x.pane_id@ != pane_id),
        without_pane(list, pane_id).len() <= list.len(),
    decreases list.len(),
{
    if list.len() > 0 {
        let rest = list.drop_last();
        let wl = without_pane(list, pane_id);
        let wr = without_pane(rest, pane_id);
        lemma_without_pane_members(rest, pane_id);
        assert forall|x: FocusNotification|
            #[trigger] wl.contains(x) <==> (list.contains(x) && x.pane_id@ != pane_id) by {
            if wl.contains(x) {
                let k = choose|k: int| 0 <= k < wl.len() && wl[k] == x;
                if list.last().pane_id@ != pane_id && k == wl.len() - 1 {
                    assert(list[list.len() - 1] == x);
                    assert(list.contains(x));
                } else {
                    assert(wr[k] == x);
                    assert(wr.contains(x));
                    let k2 = choose|k2: int| 0 <= k2 < rest.len() && rest[k2] == x;
                    assert(list[k2] == x);
                    assert(list.contains(x));
                }
            }
            if list.contains(x) && x.pane_id@ != pane_id {
                let k = choose|k: int| 0 <= k < list.len() && list[k] == x;
                if k == list.len() - 1 {
                    assert(wl[wl.len() - 1] == x);
                    assert(wl.contains(x));
                } else {
                    assert(rest[k] == x);
                    assert(rest.contains(x));
                    assert(wr.contains(x));
                    let k2 = choose|k2: int| 0 <= k2 < wr.len() && wr[k2] == x;
                    assert(wl[k2] == x);
                    assert(wl.contains(x));
                }
            }
        }
    }
}

proof fn lemma_without_pane_idempotent(list: Seq<FocusNotification>, pane_id: Seq<char>)
    ensures
        without_pane(without_pane(list, pane_id), pane_id) == without_pane(list, pane_id),
    decreases list.len(),
{
    if list.len() > 0 {
        let rest = list.drop_last();
        lemma_without_pane_idempotent(rest, pane_id);
        if list.last().pane_id@ != pane_id {
            let w = without_pane(rest, pane_id).push(list.last());
            assert(w.drop_last() =~= without_pane(rest, pane_id));
        }
    }
}

proof fn lemma_without_pane_of_push_same(list: Seq<FocusNotification>, n: FocusNotification)
    ensures
        without_pane(list.push(n), n.pane_id@) == without_pane(list, n.pane_id@),
{
    assert(list.push(n).drop_last() =~= list);
}

/// A removed pane has no entry left, and every entry of another pane stays.
pub proof fn law_remove_clears_only_that_pane(list: Seq<FocusNotification>, pane_id: Seq<char>)
    ensures
        forall|i: int|
            0 <= i < without_pane(list, pane_id).len() ==> #[trigger] without_pane(
                list,
                pane_id,
            )[i].pane_id@ != pane_id,
        forall|x: FocusNotification|
            list.contains(x) && x.pane_id@ != pane_id ==> #[trigger] without_pane(
                list,
                pane_id,
            ).contains(x),
{
    lemma_without_pane_members(list, pane_id);
    let w = without_pane(list, pane_id);
    assert forall|i: int| 0 <= i < w.len() implies #[trigger] w[i].pane_id@ != pane_id by {
        assert(w[i] == w[i]);
        assert(w.contains(w[i]));
    }
}

/// After an upsert the notification is the newest entry, no other entry is of
/// its pane, and every entry of another pane stays.
pub proof fn law_upsert_makes_newest(list: Seq<FocusNotification>, n: FocusNotification)
    ensures
        upserted(list, n).last() == n,
        forall|i: int|
            0 <= i < upserted(list, n).len() - 1 ==> #[trigger] upserted(list, n)[i].pane_id@
                != n.pane_id@,
        forall|x: FocusNotification|
            list.contains(x) && x.pane_id@ != n.pane_id@ ==> #[trigger] upserted(
                list,
                n,
            ).contains(x),
{
    law_remove_clears_only_that_pane(list, n.pane_id@);
    let w = without_pane(list, n.pane_id@);
    let u = upserted(list, n);
    assert forall|i: int| 0 <= i < u.len() - 1 implies #[trigger] u[i].pane_id@ != n.pane_id@ by {
        assert(u[i] == w[i]);
    }
    assert forall|x: FocusNotification|
        list.contains(x) && x.pane_id@ != n.pane_id@ implies #[trigger] u.contains(x) by {
        assert(w.contains(x));
        let k = choose|k: int| 0 <= k < w.len() && w[k] == x;
        assert(u[k] == x);
    }
}

/// Dismissing a pane undoes an upsert of that pane.
pub proof fn law_remove_undoes_upsert(list: Seq<FocusNotification>, n: FocusNotification)
    ensures
        without_pane(upserted(list, n), n.pane_id@) == without_pane(list, n.pane_id@),
{
    lemma_without_pane_of_push_same(without_pane(list, n.pane_id@), n);
    lemma_without_pane_idempotent(list, n.pane_id@);
}

/// Upserting the same notification twice is the same as once.
pub proof fn law_upsert_idempotent(list: Seq<FocusNotification>, n: FocusNotification)
    ensures
        upserted(upserted(list, n), n) == upserted(list, n),
{
    law_remove_undoes_upsert(list, n);
}

/// Dismissing a pane twice is the same as once.
pub proof fn law_remove_idempotent(list: Seq<FocusNotification>, pane_id: Seq<char>)
    ensures
        without_pane(without_pane(list, pane_id), pane_id) == without_pane(list, pane_id),
{
    lemma_without_pane_idempotent(list, pane_id);
}

proof fn lemma_without_pane_unique(list: Seq<FocusNotification>, pane_id: Seq<char>)
    requires
        panes_unique(list),
    ensures
        panes_unique(without_pane(list, pane_id)),
    decreases list.len(),
{
    if list.len() > 0 {
        let rest = list.drop_last();
        assert(panes_unique(rest)) by {
            assert forall|i: int, j: int| 0 <= i < j < rest.len() implies #[trigger] rest[i].pane_id@
                != #[trigger] rest[j].pane_id@ by {
                assert(rest[i] == list[i] && rest[j] == list[j]);
            }
        }
        lemma_without_pane_unique(rest, pane_id);
        if list.last().pane_id@ != pane_id {
            let w = without_pane(rest, pane_id);
            lemma_without_pane_members(rest, pane_id);
            let u = w.push(list.last());
            assert forall|i: int, j: int| 0 <= i < j < u.len() implies #[trigger] u[i].pane_id@
                != #[trigger] u[j].pane_id@ by {
                if j == u.len() - 1 {
                    assert(w.contains(w[i]));
                    assert(rest.contains(w[i]));
                    let k = choose|k: int| 0 <= k < rest.len() && rest[k] == w[i];
                    assert(list[k] == rest[k]);
                    assert(list[list.len() - 1] == list.last());
                } else {
                    assert(u[i] == w[i] && u[j] == w[j]);
                }
            }
        }
    }
}

/// The list never holds two entries of one pane: an upsert keeps that so, and
/// so does a dismissal.
pub proof fn law_panes_stay_unique(list: Seq<FocusNotification>, n: FocusNotification, pane_id: Seq<char>)
    requires
        panes_unique(list),
    ensures
        panes_unique(upserted(list, n)),
        panes_unique(without_pane(list, pane_id)),
{
    lemma_without_pane_unique(list, pane_id);
    lemma_without_pane_unique(list, n.pane_id@);
    law_upsert_makes_newest(list, n);
    let u = upserted(list, n);
    let w = without_pane(list, n.pane_id@);
    assert forall|i: int, j: int| 0 <= i < j < u.len() implies #[trigger] u[i].pane_id@
        != #[trigger] u[j].pane_id@ by {
        if j < u.len() - 1 {
            assert(u[i] == w[i] && u[j] == w[j]);
        }
    }
}

} // verus!
