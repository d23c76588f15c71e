use crate::message::{
    delete_cooking_text, delete_deleted_text, delete_done_text, delete_missing_text,
    delete_served_text, delete_text, duplicate_text, place_text,
};
use crate::rules::{
    amended, any_outstanding, deleted, deleted_row, derived_status, item_status, item_update,
    item_updated, placed, reconciled, session_accepts, session_status, status_updated,
    with_accepted, with_all_accepted, ItemUpdate,
};
use crate::order_type::{
    DeleteOrderView, ItemPairView, ItemStatus, PlaceOrderView, TableStatus,
};
use crate::store::{
    item_named, latest_opened_at, not_new_item, ItemView, SessionView, StoreView,
};
use crate::timestamp::Timestamp;
use vstd::prelude::*;

verus! {

/// True when every item is `Done` or `Deleted`.
pub open spec fn all_settled(items: Seq<ItemView>) -> bool {
    forall|i: int|
        0 <= i < items.len() ==> (#[trigger] items[i]).status == ItemStatus::Done || items[i].status
            == ItemStatus::Deleted
}

/// True when every row of the session of `table_id` opened at `opened_at`
/// is closed and has a closing time.
pub open spec fn session_closed(s: StoreView, table_id: Seq<char>, opened_at: Timestamp) -> bool {
    forall|i: int|
        0 <= i < s.tablet.len() && (#[trigger] s.tablet[i]).table_id == table_id
            && s.tablet[i].opened_at == opened_at ==> s.tablet[i].status == TableStatus::Close
            && s.tablet[i].closed_at is Some
}

/// True when every row of the session of `table_id` opened at `opened_at`
/// is open.
pub open spec fn session_open(s: StoreView, table_id: Seq<char>, opened_at: Timestamp) -> bool {
    forall|i: int|
        0 <= i < s.tablet.len() && (#[trigger] s.tablet[i]).table_id == table_id
            && s.tablet[i].opened_at == opened_at ==> s.tablet[i].status == TableStatus::Open
}

/// Reconciliation is idempotent: a second reconciliation of the same
/// session, at whatever instant, with no change to the items in between,
/// changes nothing. Every session keeps the status that the first one gave
/// it, and a session that the first one closed keeps the closing time that
/// it got then.
pub proof fn lemma_reconcile_idempotent(
    s: StoreView,
    table_id: Seq<char>,
    opened_at: Timestamp,
    first: Timestamp,
    second: Timestamp,
)
    ensures
        reconciled(reconciled(s, table_id, opened_at, first), table_id, opened_at, second)
            == reconciled(s, table_id, opened_at, first),
{
    let once = reconciled(s, table_id, opened_at, first);
    let twice = reconciled(once, table_id, opened_at, second);
    assert(once.session_items(table_id, opened_at) == s.session_items(table_id, opened_at));
    assert(twice.tablet =~= once.tablet);
}

/// Reconciliation sets the closing time once. A session that is closed and
/// has a closing time, and whose items are all `Done` or `Deleted`, is left
/// exactly as it is; a session that is closed by the reconciliation gets
/// the time of the reconciliation.
pub proof fn lemma_closing_time_is_set_once(
    s: StoreView,
    table_id: Seq<char>,
    opened_at: Timestamp,
    now: Timestamp,
)
    requires
        all_settled(s.session_items(table_id, opened_at)),
    ensures
        ({
            let after = reconciled(s, table_id, opened_at, now);
            &&& after.tablet.len() == s.tablet.len()
            &&& forall|i: int|
                0 <= i < s.tablet.len() && (#[trigger] s.tablet[i]).table_id == table_id
                    && s.tablet[i].opened_at == opened_at ==> after.tablet[i] == if s.tablet[i].status
                    == TableStatus::Close && s.tablet[i].closed_at is Some {
                    s.tablet[i]
                } else {
                    SessionView {
                        status: TableStatus::Close,
                        closed_at: Some(now),
                        ..s.tablet[i]
                    }
                }
        }),
{
    lemma_settled_session_closes(s, table_id, opened_at, now);
}

/// A session whose items are all `Done` or `Deleted`, and a session without
/// items, is closed after reconciliation and has a closing time.
pub proof fn lemma_settled_session_closes(
    s: StoreView,
    table_id: Seq<char>,
    opened_at: Timestamp,
    now: Timestamp,
)
    requires
        all_settled(s.session_items(table_id, opened_at)),
    ensures
        derived_status(s.session_items(table_id, opened_at)) == TableStatus::Close,
        session_closed(reconciled(s, table_id, opened_at, now), table_id, opened_at),
{
    let items = s.session_items(table_id, opened_at);
    assert(!any_outstanding(items)) by {
        if any_outstanding(items) {
            let i = choose|i: int| 0 <= i < items.len() && (#[trigger] items[i]).status.outstanding();
            assert(items[i].status == ItemStatus::Done || items[i].status == ItemStatus::Deleted);
        }
    }
}

/// A session with an item that is `New` or `Process` is open after
/// reconciliation.
pub proof fn lemma_outstanding_session_stays_open(
    s: StoreView,
    table_id: Seq<char>,
    opened_at: Timestamp,
    now: Timestamp,
)
    requires
        !all_settled(s.session_items(table_id, opened_at)),
    ensures
        derived_status(s.session_items(table_id, opened_at)) == TableStatus::Open,
        session_open(reconciled(s, table_id, opened_at, now), table_id, opened_at),
{
    let items = s.session_items(table_id, opened_at);
    let i = choose|i: int|
        0 <= i < items.len() && !((#[trigger] items[i]).status == ItemStatus::Done
            || items[i].status == ItemStatus::Deleted);
    assert(items[i].status.outstanding());
}

/// When a status update leaves every item of the session `Done` or
/// `Deleted`, the session is closed afterwards, and its closing time is
/// set.
pub proof fn lemma_last_status_update_closes_session(
    s: StoreView,
    created_at: Timestamp,
    updated_at: Timestamp,
    table_id: Seq<char>,
    line: ItemPairView,
    to: ItemStatus,
    now: Timestamp,
)
    requires
        all_settled(
            status_updated(s, created_at, updated_at, table_id, line, to, now).session_items(
                table_id,
                created_at,
            ),
        ),
    ensures
        session_closed(
            status_updated(s, created_at, updated_at, table_id, line, to, now),
            table_id,
            created_at,
        ),
{
    let after = status_updated(s, created_at, updated_at, table_id, line, to, now);
    let before = StoreView {
        tablet: s.tablet,
        items: after.items,
        item_history: after.item_history,
    };
    assert(after == reconciled(before, table_id, created_at, now));
    lemma_settled_session_closes(before, table_id, created_at, now);
}

/// When a delete leaves every item of the owning session `Done` or
/// `Deleted`, or leaves it without items, the session is closed afterwards,
/// and its closing time is set.
pub proof fn lemma_last_delete_closes_session(s: StoreView, order: DeleteOrderView, now: Timestamp)
    requires
        s.current_item(order.table_id, order.item) matches Some(row) && row.status
            == ItemStatus::New && all_settled(
            deleted(s, order, now).session_items(order.table_id, row.created_at),
        ),
    ensures
        session_closed(
            deleted(s, order, now),
            order.table_id,
            s.current_item(order.table_id, order.item)->0.created_at,
        ),
{
    let row = s.current_item(order.table_id, order.item)->0;
    let after = deleted(s, order, now);
    let before = StoreView {
        tablet: s.tablet,
        items: after.items,
        item_history: after.item_history,
    };
    assert(after == reconciled(before, order.table_id, row.created_at, now));
    lemma_settled_session_closes(before, order.table_id, row.created_at, now);
}

/// A place request for a table whose current session is open writes
/// nothing: no session and no item is added, and the request hears that
/// the order is a duplicate.
pub proof fn lemma_duplicate_place_writes_nothing(
    s: StoreView,
    order: PlaceOrderView,
    opened_at: Seq<char>,
)
    requires
        s.current_session(order.table_id) matches Some(cur) && cur.status == TableStatus::Open,
    ensures
        placed(s, order) == s,
        place_text(session_status(s.current_session(order.table_id)), opened_at, order.table_id)
            == duplicate_text(order.table_id),
{
}

/// The row that a delete request found is among the items, is the item that
/// was asked for, and belongs to the table's latest session.
pub proof fn lemma_current_item_is_a_row(s: StoreView, table_id: Seq<char>, item: Seq<char>)
    requires
        s.current_item(table_id, item) is Some,
    ensures
        ({
            let row = s.current_item(table_id, item)->0;
            &&& s.items.contains(row)
            &&& row.table_id == table_id
            &&& row.item == item
            &&& latest_opened_at(s.tablet, table_id) == Some(row.created_at)
        }),
{
    let pred = item_named(table_id, item, latest_opened_at(s.tablet, table_id));
    let rows = s.items.filter(pred);
    s.items.lemma_filter_pred(pred, 0);
    assert(rows.contains(rows[0]));
    s.items.lemma_filter_contains_rev(pred, rows[0]);
}

/// Delete succeeds from `New` only. An item that is `Process`, `Done` or
/// `Deleted` stays as it is, nothing else is written either, and the
/// request hears why it failed; so does a request for an item that is not
/// there. An item that is `New` leaves the items, and the history gets a
/// `Deleted` row for it.
pub proof fn lemma_delete_only_from_new(s: StoreView, order: DeleteOrderView, now: Timestamp)
    ensures
        ({
            let after = deleted(s, order, now);
            let text = delete_text(
                item_status(s.current_item(order.table_id, order.item)),
                order.item,
                order.table_id,
            );
            match s.current_item(order.table_id, order.item) {
                Some(row) => match row.status {
                    ItemStatus::New => {
                        &&& after.items == s.items.filter(
                            not_new_item(order.table_id, order.item, row.created_at),
                        )
                        &&& !after.items.contains(row)
                        &&& after.item_history == s.item_history.push(
                            deleted_row(row, order.deleted_at),
                        )
                        &&& after.item_history.last().status == ItemStatus::Deleted
                        &&& text == delete_done_text(order.item, order.table_id)
                    },
                    ItemStatus::Process => after == s && text == delete_cooking_text(
                        order.item,
                        order.table_id,
                    ),
                    ItemStatus::Done => after == s && text == delete_served_text(
                        order.item,
                        order.table_id,
                    ),
                    ItemStatus::Deleted => after == s && text == delete_deleted_text(
                        order.item,
                        order.table_id,
                    ),
                },
                None => after == s && text == delete_missing_text(order.item, order.table_id),
            }
        }),
{
    match s.current_item(order.table_id, order.item) {
        Some(row) => {
            lemma_current_item_is_a_row(s, order.table_id, order.item);
            if row.status == ItemStatus::New {
                let keep = not_new_item(order.table_id, order.item, row.created_at);
                let kept = s.items.filter(keep);
                if kept.contains(row) {
                    let i = choose|i: int| 0 <= i < kept.len() && kept[i] == row;
                    s.items.lemma_filter_pred(keep, i);
                }
            }
        },
        None => {},
    }
}

/// A line of an update for an item that the open session does not have is
/// accepted exactly as Place accepts a line: the store is the one that
/// Place's acceptance of that one line gives, with the item in
/// preparation, and the line is reported as added, which is what gives it
/// a cook task.
pub proof fn lemma_update_of_absent_item_is_acceptance(
    s: StoreView,
    opened_at: Timestamp,
    updated_at: Timestamp,
    table_id: Seq<char>,
    line: ItemPairView,
)
    requires
        session_accepts(s, table_id, opened_at),
        s.current_item_rows(table_id, line.name).len() == 0,
    ensures
        item_update(s, opened_at, table_id, line) == ItemUpdate::Added,
        item_updated(s, opened_at, updated_at, table_id, line) == with_accepted(
            s,
            opened_at,
            updated_at,
            table_id,
            line,
        ),
        item_updated(s, opened_at, updated_at, table_id, line) == with_all_accepted(
            s,
            opened_at,
            updated_at,
            table_id,
            seq![line],
        ),
        item_updated(s, opened_at, updated_at, table_id, line).items.last().status
            == ItemStatus::Process,
{
    let one = seq![line];
    assert(one.drop_last() =~= Seq::<ItemPairView>::empty());
    assert(one.last() == line);
    assert(with_all_accepted(s, opened_at, updated_at, table_id, one.drop_last()) == s);
}

/// A line of an update for an item that is still `New` changes the amount
/// and nothing else in the items: no cook task is started.
pub proof fn lemma_update_of_new_item_amends(
    s: StoreView,
    opened_at: Timestamp,
    updated_at: Timestamp,
    table_id: Seq<char>,
    line: ItemPairView,
)
    requires
        session_accepts(s, table_id, opened_at),
        s.current_item(table_id, line.name) matches Some(row) && row.status == ItemStatus::New,
    ensures
        item_update(s, opened_at, table_id, line) == ItemUpdate::Amended,
        item_updated(s, opened_at, updated_at, table_id, line) == amended(
            s,
            opened_at,
            updated_at,
            table_id,
            line,
        ),
        item_updated(s, opened_at, updated_at, table_id, line).items.len() == s.items.len(),
{
}

} // verus!
