use crate::rules::{
    accepted_row, after_updates, blocks_place, deleted, derived_status, item_update, item_updated,
    opened_session, placed, reconcile_sessions, reconciled, session_accepts, session_status,
    status_updated, updated,
    with_all_accepted, ItemUpdate,
};
use crate::laws::{all_settled, lemma_current_item_is_a_row, lemma_settled_session_closes};
use crate::order_type::{
    DeleteOrderView, ItemPairView, ItemStatus, PlaceOrderView, TableStatus, UpdateOrderView,
};
use crate::store::{
    item_named, later_of, later_than_all, latest_opened_at, lemma_latest_opened_at, not_new_item,
    session_at, with_amount, with_status, ItemView, SessionView, StoreView,
};
use crate::timestamp::Timestamp;
use vstd::prelude::*;

verus! {

/// No two sessions of one table were opened at the same instant.
pub open spec fn session_keys_distinct(tablet: Seq<SessionView>) -> bool {
    forall|i: int, j: int|
        0 <= i < j < tablet.len() ==> !((#[trigger] tablet[i]).table_id == (
        #[trigger] tablet[j]).table_id && tablet[i].opened_at == tablet[j].opened_at)
}

/// Every open session is the latest of its table.
pub open spec fn open_sessions_latest(tablet: Seq<SessionView>) -> bool {
    forall|i: int|
        0 <= i < tablet.len() && (#[trigger] tablet[i]).status == TableStatus::Open
            ==> latest_opened_at(tablet, tablet[i].table_id) == Some(tablet[i].opened_at)
}

/// The sessions are well formed: `opened_at` tells the sessions of a table
/// apart, and only the latest session of a table can be open.
pub open spec fn sessions_well_formed(tablet: Seq<SessionView>) -> bool {
    session_keys_distinct(tablet) && open_sessions_latest(tablet)
}

/// Among well-formed sessions a table has at most one open session.
pub proof fn lemma_at_most_one_open_session(tablet: Seq<SessionView>, i: int, j: int)
    requires
        sessions_well_formed(tablet),
        0 <= i < tablet.len(),
        0 <= j < tablet.len(),
        tablet[i].table_id == tablet[j].table_id,
        tablet[i].status == TableStatus::Open,
        tablet[j].status == TableStatus::Open,
    ensures
        i == j,
{
    if i < j {
        assert(!(tablet[i].table_id == tablet[j].table_id && tablet[i].opened_at
            == tablet[j].opened_at));
    } else if j < i {
        assert(!(tablet[j].table_id == tablet[i].table_id && tablet[j].opened_at
            == tablet[i].opened_at));
    }
}

/// When exactly one row matches, the matching rows are that row alone.
pub proof fn lemma_filter_single<A>(rows: Seq<A>, pred: spec_fn(A) -> bool, k: int)
    requires
        0 <= k < rows.len(),
        pred(rows[k]),
        forall|j: int| 0 <= j < rows.len() && j != k ==> !pred(#[trigger] rows[j]),
    ensures
        rows.filter(pred) == seq![rows[k]],
    decreases rows.len(),
{
    reveal(Seq::filter);
    let front = rows.drop_last();
    if k == rows.len() - 1 {
        assert forall|j: int| 0 <= j < front.len() implies !pred(#[trigger] front[j]) by {
            assert(front[j] == rows[j]);
        }
        front.lemma_all_neg_filter_empty(pred);
        assert(front.filter(pred) =~= Seq::<A>::empty());
        assert(rows.filter(pred) =~= seq![rows[k]]);
    } else {
        assert(front[k] == rows[k]);
        assert forall|j: int| 0 <= j < front.len() && j != k implies !pred(#[trigger] front[j]) by {
            assert(front[j] == rows[j]);
        }
        lemma_filter_single(front, pred, k);
    }
}

/// Among well-formed sessions an open session is its table's current
/// session.
pub proof fn lemma_open_session_is_current(s: StoreView, k: int)
    requires
        sessions_well_formed(s.tablet),
        0 <= k < s.tablet.len(),
        s.tablet[k].status == TableStatus::Open,
    ensures
        s.current_session(s.tablet[k].table_id) == Some(s.tablet[k]),
{
    let table_id = s.tablet[k].table_id;
    let pred = session_at(table_id, latest_opened_at(s.tablet, table_id));
    assert forall|j: int| 0 <= j < s.tablet.len() && j != k implies !pred(#[trigger] s.tablet[j]) by {
        if j < k {
            assert(!(s.tablet[j].table_id == s.tablet[k].table_id && s.tablet[j].opened_at
                == s.tablet[k].opened_at));
        } else {
            assert(!(s.tablet[k].table_id == s.tablet[j].table_id && s.tablet[k].opened_at
                == s.tablet[j].opened_at));
        }
    }
    lemma_filter_single(s.tablet, pred, k);
}

/// The latest session of a table after one more row was inserted.
pub proof fn lemma_latest_after_insert(
    tablet: Seq<SessionView>,
    row: SessionView,
    table_id: Seq<char>,
)
    ensures
        latest_opened_at(tablet.push(row), table_id) == if row.table_id == table_id {
            Some(later_of(latest_opened_at(tablet, table_id), row.opened_at))
        } else {
            latest_opened_at(tablet, table_id)
        },
{
    assert(tablet.push(row).drop_last() =~= tablet);
}

/// Changing the status and the closing time of sessions moves no session
/// to another table or time, so each table's latest session stays the same.
pub proof fn lemma_latest_ignores_status(
    tablet: Seq<SessionView>,
    change: spec_fn(SessionView) -> SessionView,
    table_id: Seq<char>,
)
    requires
        forall|r: SessionView|
            (#[trigger] change(r)).table_id == r.table_id && change(r).opened_at == r.opened_at,
    ensures
        latest_opened_at(tablet.map_values(change), table_id) == latest_opened_at(tablet, table_id),
    decreases tablet.len(),
{
    if tablet.len() > 0 {
        lemma_latest_ignores_status(tablet.drop_last(), change, table_id);
        assert(tablet.map_values(change).drop_last() =~= tablet.drop_last().map_values(change));
    }
}

/// Accepting order lines writes no session.
pub proof fn lemma_acceptance_keeps_sessions(
    s: StoreView,
    created_at: Timestamp,
    updated_at: Timestamp,
    table_id: Seq<char>,
    lines: Seq<ItemPairView>,
)
    ensures
        with_all_accepted(s, created_at, updated_at, table_id, lines).tablet == s.tablet,
        s.item_history.is_prefix_of(
            with_all_accepted(s, created_at, updated_at, table_id, lines).item_history,
        ),
    decreases lines.len(),
{
    if lines.len() > 0 {
        lemma_acceptance_keeps_sessions(s, created_at, updated_at, table_id, lines.drop_last());
    }
}

/// Place keeps the sessions well formed when the order is later than
/// every session that its table has had: the session that it opens is then
/// the table's only open one.
pub proof fn lemma_place_keeps_sessions_well_formed(s: StoreView, order: PlaceOrderView)
    requires
        sessions_well_formed(s.tablet),
        later_than_all(s.tablet, order.table_id, order.created_at),
    ensures
        sessions_well_formed(placed(s, order).tablet),
{
    if !blocks_place(session_status(s.current_session(order.table_id))) {
        let row = opened_session(order);
        let before = s.tablet;
        let after = before.push(row);
        lemma_acceptance_keeps_sessions(
            StoreView { tablet: after, ..s },
            order.created_at,
            order.created_at,
            order.table_id,
            order.items,
        );
        lemma_latest_opened_at(before, order.table_id);
        assert forall|i: int, j: int| 0 <= i < j < after.len() implies !((
        #[trigger] after[i]).table_id == (#[trigger] after[j]).table_id && after[i].opened_at
            == after[j].opened_at) by {
            if j < before.len() {
                assert(!(before[i].table_id == before[j].table_id && before[i].opened_at
                    == before[j].opened_at));
            } else if before[i].table_id == order.table_id {
                assert(before[i].opened_at.nanos < order.created_at.nanos);
            }
        }
        assert forall|i: int|
            0 <= i < after.len() && (#[trigger] after[i]).status
                == TableStatus::Open implies latest_opened_at(after, after[i].table_id) == Some(
            after[i].opened_at,
        ) by {
            lemma_latest_after_insert(before, row, after[i].table_id);
            if i < before.len() {
                assert(before[i].status == TableStatus::Open);
                if before[i].table_id == order.table_id {
                    lemma_open_session_is_current(s, i);
                }
            }
        }
    }
}

/// Reconciliation keeps the sessions well formed when it is given a
/// table's latest session, and when the items of the session it is given
/// are all `Done` or `Deleted`.
pub proof fn lemma_reconcile_keeps_sessions_well_formed(
    s: StoreView,
    table_id: Seq<char>,
    opened_at: Timestamp,
    now: Timestamp,
)
    requires
        sessions_well_formed(s.tablet),
        latest_opened_at(s.tablet, table_id) == Some(opened_at) || all_settled(
            s.session_items(table_id, opened_at),
        ),
    ensures
        sessions_well_formed(reconciled(s, table_id, opened_at, now).tablet),
{
    let status = derived_status(s.session_items(table_id, opened_at));
    let change = reconcile_sessions(table_id, opened_at, status, now);
    let before = s.tablet;
    let after = reconciled(s, table_id, opened_at, now).tablet;
    assert(after == before.map_values(change));
    if all_settled(s.session_items(table_id, opened_at)) {
        lemma_settled_session_closes(s, table_id, opened_at, now);
    }
    assert forall|i: int, j: int| 0 <= i < j < after.len() implies !((
    #[trigger] after[i]).table_id == (#[trigger] after[j]).table_id && after[i].opened_at
        == after[j].opened_at) by {
        assert(!(before[i].table_id == before[j].table_id && before[i].opened_at
            == before[j].opened_at));
    }
    assert forall|i: int|
        0 <= i < after.len() && (#[trigger] after[i]).status
            == TableStatus::Open implies latest_opened_at(after, after[i].table_id) == Some(
        after[i].opened_at,
    ) by {
        lemma_latest_ignores_status(before, change, after[i].table_id);
        if !(before[i].table_id == table_id && before[i].opened_at == opened_at) {
            assert(before[i].status == TableStatus::Open);
        }
    }
}

/// Delete keeps the sessions well formed: the session that it reconciles is
/// the table's latest.
pub proof fn lemma_delete_keeps_sessions_well_formed(
    s: StoreView,
    order: DeleteOrderView,
    now: Timestamp,
)
    requires
        sessions_well_formed(s.tablet),
    ensures
        sessions_well_formed(deleted(s, order, now).tablet),
{
    match s.current_item(order.table_id, order.item) {
        Some(row) => {
            if row.status == ItemStatus::New {
                lemma_current_item_is_a_row(s, order.table_id, order.item);
                let after = deleted(s, order, now);
                let before = StoreView {
                    tablet: s.tablet,
                    items: after.items,
                    item_history: after.item_history,
                };
                assert(after == reconciled(before, order.table_id, row.created_at, now));
                lemma_reconcile_keeps_sessions_well_formed(
                    before,
                    order.table_id,
                    row.created_at,
                    now,
                );
            }
        },
        None => {},
    }
}

/// A status update keeps the sessions well formed when the item belongs to
/// the table's latest session.
pub proof fn lemma_status_update_keeps_sessions_well_formed(
    s: StoreView,
    created_at: Timestamp,
    updated_at: Timestamp,
    table_id: Seq<char>,
    line: ItemPairView,
    to: ItemStatus,
    now: Timestamp,
)
    requires
        sessions_well_formed(s.tablet),
        latest_opened_at(s.tablet, table_id) == Some(created_at),
    ensures
        sessions_well_formed(
            status_updated(s, created_at, updated_at, table_id, line, to, now).tablet,
        ),
{
    let after = status_updated(s, created_at, updated_at, table_id, line, to, now);
    let before = StoreView {
        tablet: s.tablet,
        items: after.items,
        item_history: after.item_history,
    };
    assert(after == reconciled(before, table_id, created_at, now));
    lemma_reconcile_keeps_sessions_well_formed(before, table_id, created_at, now);
}

/// Applying the lines of an update writes no session and only adds to the
/// history.
pub proof fn lemma_updates_keep_sessions(
    s: StoreView,
    opened_at: Timestamp,
    updated_at: Timestamp,
    table_id: Seq<char>,
    lines: Seq<ItemPairView>,
)
    ensures
        after_updates(s, opened_at, updated_at, table_id, lines).tablet == s.tablet,
        s.item_history.is_prefix_of(
            after_updates(s, opened_at, updated_at, table_id, lines).item_history,
        ),
    decreases lines.len(),
{
    if lines.len() > 0 {
        lemma_updates_keep_sessions(s, opened_at, updated_at, table_id, lines.drop_last());
        let before = after_updates(s, opened_at, updated_at, table_id, lines.drop_last());
        let after = item_updated(before, opened_at, updated_at, table_id, lines.last());
        assert(before.item_history.is_prefix_of(after.item_history));
    }
}

/// An update writes no session: it leaves every session as it is.
pub proof fn lemma_update_keeps_sessions(s: StoreView, order: UpdateOrderView)
    ensures
        updated(s, order).tablet == s.tablet,
{
    match s.current_session(order.table_id) {
        Some(cur) => {
            lemma_updates_keep_sessions(
                s,
                cur.opened_at,
                order.updated_at,
                order.table_id,
                order.items,
            );
        },
        None => {},
    }
}

/// The history is append-only: whatever a request writes, the rows that
/// the history held stay where they were and as they were.
pub proof fn lemma_history_is_append_only(
    s: StoreView,
    place: PlaceOrderView,
    update: UpdateOrderView,
    delete: DeleteOrderView,
    created_at: Timestamp,
    updated_at: Timestamp,
    table_id: Seq<char>,
    line: ItemPairView,
    to: ItemStatus,
    now: Timestamp,
)
    ensures
        s.item_history.is_prefix_of(placed(s, place).item_history),
        s.item_history.is_prefix_of(updated(s, update).item_history),
        s.item_history.is_prefix_of(deleted(s, delete, now).item_history),
        s.item_history.is_prefix_of(
            item_updated(s, created_at, updated_at, table_id, line).item_history,
        ),
        s.item_history.is_prefix_of(
            status_updated(s, created_at, updated_at, table_id, line, to, now).item_history,
        ),
        reconciled(s, table_id, created_at, now).item_history == s.item_history,
{
    lemma_acceptance_keeps_sessions(
        StoreView { tablet: s.tablet.push(opened_session(place)), ..s },
        place.created_at,
        place.created_at,
        place.table_id,
        place.items,
    );
    match s.current_session(update.table_id) {
        Some(cur) => {
            lemma_updates_keep_sessions(
                s,
                cur.opened_at,
                update.updated_at,
                update.table_id,
                update.items,
            );
        },
        None => {},
    }
}

/// True when two rows are rows for the same item of the same session.
pub open spec fn same_item_key(a: ItemView, b: ItemView) -> bool {
    a.table_id == b.table_id && a.item == b.item && a.created_at == b.created_at
}

/// No two rows are for the same item of the same session.
pub open spec fn item_keys_distinct(items: Seq<ItemView>) -> bool {
    forall|i: int, j: int|
        0 <= i < j < items.len() ==> !same_item_key(#[trigger] items[i], #[trigger] items[j])
}

/// True when `tablet` holds the session of `table_id` opened at `opened_at`.
pub open spec fn has_session(tablet: Seq<SessionView>, table_id: Seq<char>, opened_at: Timestamp)
    -> bool {
    exists|k: int|
        0 <= k < tablet.len() && (#[trigger] tablet[k]).table_id == table_id && tablet[k].opened_at
            == opened_at
}

/// Every item belongs to a session that the store holds.
pub open spec fn items_owned(s: StoreView) -> bool {
    forall|i: int|
        0 <= i < s.items.len() ==> has_session(
            s.tablet,
            (#[trigger] s.items[i]).table_id,
            s.items[i].created_at,
        )
}

/// No two lines of an order name the same item.
pub open spec fn line_names_distinct(lines: Seq<ItemPairView>) -> bool {
    forall|i: int, j: int|
        0 <= i < j < lines.len() ==> (#[trigger] lines[i]).name != (#[trigger] lines[j]).name
}

/// The store is well formed: its sessions are, every item belongs to a
/// session, and an item has one row in its session.
pub open spec fn well_formed(s: StoreView) -> bool {
    sessions_well_formed(s.tablet) && items_owned(s) && item_keys_distinct(s.items)
}

/// When no two rows match, at most one row is found.
pub proof fn lemma_filter_at_most_one<A>(rows: Seq<A>, pred: spec_fn(A) -> bool)
    requires
        forall|i: int, j: int|
            0 <= i < j < rows.len() ==> !(pred(#[trigger] rows[i]) && pred(#[trigger] rows[j])),
    ensures
        rows.filter(pred).len() <= 1,
    decreases rows.len(),
{
    reveal(Seq::filter);
    if rows.len() > 0 {
        let front = rows.drop_last();
        assert forall|i: int, j: int| 0 <= i < j < front.len() implies !(pred(#[trigger] front[i])
            && pred(#[trigger] front[j])) by {
            assert(front[i] == rows[i] && front[j] == rows[j]);
        }
        lemma_filter_at_most_one(front, pred);
        if pred(rows.last()) {
            assert forall|i: int| 0 <= i < front.len() implies !pred(#[trigger] front[i]) by {
                assert(front[i] == rows[i]);
                assert(rows[rows.len() - 1] == rows.last());
            }
            front.lemma_all_neg_filter_empty(pred);
        }
    }
}

/// Rows that are left after some were removed are still told apart by
/// their keys.
pub proof fn lemma_filter_keeps_keys_distinct(items: Seq<ItemView>, keep: spec_fn(ItemView) -> bool)
    requires
        item_keys_distinct(items),
    ensures
        item_keys_distinct(items.filter(keep)),
    decreases items.len(),
{
    reveal(Seq::filter);
    if items.len() > 0 {
        let front = items.drop_last();
        assert forall|i: int, j: int| 0 <= i < j < front.len() implies !same_item_key(
            #[trigger] front[i],
            #[trigger] front[j],
        ) by {
            assert(front[i] == items[i] && front[j] == items[j]);
        }
        lemma_filter_keeps_keys_distinct(front, keep);
        let kept = front.filter(keep);
        if keep(items.last()) {
            let after = kept.push(items.last());
            assert forall|i: int, j: int| 0 <= i < j < after.len() implies !same_item_key(
                #[trigger] after[i],
                #[trigger] after[j],
            ) by {
                if j < kept.len() {
                    assert(after[i] == kept[i] && after[j] == kept[j]);
                } else {
                    assert(kept.contains(kept[i]));
                    front.lemma_filter_contains_rev(keep, kept[i]);
                    let k = choose|k: int| 0 <= k < front.len() && front[k] == kept[i];
                    assert(items[k] == kept[i]);
                    assert(items[items.len() - 1] == items.last());
                    assert(!same_item_key(items[k], items[items.len() - 1]));
                }
            }
        }
    }
}

/// In a store whose items are told apart by their keys, an item that was
/// not found as one row has no row at all in the table's latest session.
pub proof fn lemma_item_not_found_is_absent(s: StoreView, table_id: Seq<char>, item: Seq<char>)
    requires
        item_keys_distinct(s.items),
        s.current_item(table_id, item) is None,
    ensures
        s.current_item_rows(table_id, item).len() == 0,
        forall|i: int|
            0 <= i < s.items.len() ==> !item_named(
                table_id,
                item,
                latest_opened_at(s.tablet, table_id),
            )(#[trigger] s.items[i]),
{
    let pred = item_named(table_id, item, latest_opened_at(s.tablet, table_id));
    assert forall|i: int, j: int| 0 <= i < j < s.items.len() implies !(pred(#[trigger] s.items[i])
        && pred(#[trigger] s.items[j])) by {
        assert(!same_item_key(s.items[i], s.items[j]));
    }
    lemma_filter_at_most_one(s.items, pred);
    assert forall|i: int| 0 <= i < s.items.len() implies !pred(#[trigger] s.items[i]) by {
        if pred(s.items[i]) {
            s.items.lemma_filter_contains(pred, i);
        }
    }
}

/// What accepting order lines writes to the items: one row for each line,
/// in preparation, after the rows that were there.
pub proof fn lemma_accepted_items(
    s: StoreView,
    created_at: Timestamp,
    updated_at: Timestamp,
    table_id: Seq<char>,
    lines: Seq<ItemPairView>,
)
    ensures
        with_all_accepted(s, created_at, updated_at, table_id, lines).items == s.items + Seq::new(
            lines.len(),
            |i: int| accepted_row(created_at, updated_at, table_id, lines[i], ItemStatus::Process),
        ),
    decreases lines.len(),
{
    let rows = |lines: Seq<ItemPairView>|
        Seq::new(
            lines.len(),
            |i: int| accepted_row(created_at, updated_at, table_id, lines[i], ItemStatus::Process),
        );
    if lines.len() == 0 {
        assert(s.items + rows(lines) =~= s.items);
    } else {
        lemma_accepted_items(s, created_at, updated_at, table_id, lines.drop_last());
        assert(s.items + rows(lines) =~= (s.items + rows(lines.drop_last())).push(
            accepted_row(created_at, updated_at, table_id, lines.last(), ItemStatus::Process),
        ));
    }
}

/// Place keeps the store well formed when the order is later than every
/// session that its table has had and names no item twice.
pub proof fn lemma_place_keeps_store_well_formed(s: StoreView, order: PlaceOrderView)
    requires
        well_formed(s),
        later_than_all(s.tablet, order.table_id, order.created_at),
        line_names_distinct(order.items),
    ensures
        well_formed(placed(s, order)),
{
    lemma_place_keeps_sessions_well_formed(s, order);
    if !blocks_place(session_status(s.current_session(order.table_id))) {
        let base = StoreView { tablet: s.tablet.push(opened_session(order)), ..s };
        let after = placed(s, order);
        lemma_acceptance_keeps_sessions(
            base,
            order.created_at,
            order.created_at,
            order.table_id,
            order.items,
        );
        lemma_accepted_items(base, order.created_at, order.created_at, order.table_id, order.items);
        lemma_latest_opened_at(s.tablet, order.table_id);
        let old_len = s.items.len() as int;
        assert(after.tablet[s.tablet.len() as int] == opened_session(order));
        assert forall|i: int| 0 <= i < after.items.len() implies has_session(
            after.tablet,
            (#[trigger] after.items[i]).table_id,
            after.items[i].created_at,
        ) by {
            if i < old_len {
                assert(after.items[i] == s.items[i]);
                let k = choose|k: int|
                    0 <= k < s.tablet.len() && (#[trigger] s.tablet[k]).table_id
                        == s.items[i].table_id && s.tablet[k].opened_at == s.items[i].created_at;
                assert(after.tablet[k] == s.tablet[k]);
            }
        }
        assert forall|i: int, j: int| 0 <= i < j < after.items.len() implies !same_item_key(
            #[trigger] after.items[i],
            #[trigger] after.items[j],
        ) by {
            if j < old_len {
                assert(!same_item_key(s.items[i], s.items[j]));
            } else if i < old_len {
                assert(after.items[i] == s.items[i]);
                if s.items[i].table_id == order.table_id {
                    let k = choose|k: int|
                        0 <= k < s.tablet.len() && (#[trigger] s.tablet[k]).table_id
                            == s.items[i].table_id && s.tablet[k].opened_at
                            == s.items[i].created_at;
                    assert(s.tablet[k].opened_at.nanos < order.created_at.nanos);
                }
            } else {
                assert(order.items[i - old_len].name != order.items[j - old_len].name);
            }
        }
    }
}

/// Applying one line of an update keeps the store well formed.
pub proof fn lemma_item_update_keeps_store_well_formed(
    s: StoreView,
    opened_at: Timestamp,
    updated_at: Timestamp,
    table_id: Seq<char>,
    line: ItemPairView,
)
    requires
        well_formed(s),
    ensures
        well_formed(item_updated(s, opened_at, updated_at, table_id, line)),
{
    let after = item_updated(s, opened_at, updated_at, table_id, line);
    match item_update(s, opened_at, table_id, line) {
        ItemUpdate::Added => {
            assert(session_accepts(s, table_id, opened_at));
            let cur = s.current_session(table_id)->0;
            let pred = session_at(table_id, latest_opened_at(s.tablet, table_id));
            s.tablet.lemma_filter_pred(pred, 0);
            assert(s.tablet.filter(pred).contains(cur));
            s.tablet.lemma_filter_contains_rev(pred, cur);
            let k = choose|k: int| 0 <= k < s.tablet.len() && s.tablet[k] == cur;
            assert(s.tablet[k].table_id == table_id && s.tablet[k].opened_at == opened_at);
            lemma_item_not_found_is_absent(s, table_id, line.name);
            let old_len = s.items.len() as int;
            assert forall|i: int| 0 <= i < after.items.len() implies has_session(
                after.tablet,
                (#[trigger] after.items[i]).table_id,
                after.items[i].created_at,
            ) by {
                if i < old_len {
                    assert(after.items[i] == s.items[i]);
                }
            }
            assert forall|i: int, j: int| 0 <= i < j < after.items.len() implies !same_item_key(
                #[trigger] after.items[i],
                #[trigger] after.items[j],
            ) by {
                if j < old_len {
                    assert(!same_item_key(s.items[i], s.items[j]));
                } else {
                    assert(after.items[i] == s.items[i]);
                    assert(!item_named(table_id, line.name, latest_opened_at(s.tablet, table_id))(
                        s.items[i],
                    ));
                }
            }
        },
        ItemUpdate::Amended => {
            let change = with_amount(table_id, line.name, Some(opened_at), updated_at, line.amount);
            assert forall|i: int| 0 <= i < after.items.len() implies has_session(
                after.tablet,
                (#[trigger] after.items[i]).table_id,
                after.items[i].created_at,
            ) by {
                assert(after.items[i] == change(s.items[i]));
            }
            assert forall|i: int, j: int| 0 <= i < j < after.items.len() implies !same_item_key(
                #[trigger] after.items[i],
                #[trigger] after.items[j],
            ) by {
                assert(!same_item_key(s.items[i], s.items[j]));
            }
        },
        _ => {},
    }
}

/// Applying the lines of an update keeps the store well formed.
pub proof fn lemma_updates_keep_store_well_formed(
    s: StoreView,
    opened_at: Timestamp,
    updated_at: Timestamp,
    table_id: Seq<char>,
    lines: Seq<ItemPairView>,
)
    requires
        well_formed(s),
    ensures
        well_formed(after_updates(s, opened_at, updated_at, table_id, lines)),
    decreases lines.len(),
{
    if lines.len() > 0 {
        lemma_updates_keep_store_well_formed(s, opened_at, updated_at, table_id, lines.drop_last());
        lemma_item_update_keeps_store_well_formed(
            after_updates(s, opened_at, updated_at, table_id, lines.drop_last()),
            opened_at,
            updated_at,
            table_id,
            lines.last(),
        );
    }
}

/// An update keeps the store well formed.
pub proof fn lemma_update_keeps_store_well_formed(s: StoreView, order: UpdateOrderView)
    requires
        well_formed(s),
    ensures
        well_formed(updated(s, order)),
{
    match s.current_session(order.table_id) {
        Some(cur) => {
            lemma_updates_keep_store_well_formed(
                s,
                cur.opened_at,
                order.updated_at,
                order.table_id,
                order.items,
            );
        },
        None => {},
    }
}

/// Reconciliation keeps the store well formed when it is given a table's
/// latest session, and when the items of the session it is given are all
/// `Done` or `Deleted`.
pub proof fn lemma_reconcile_keeps_store_well_formed(
    s: StoreView,
    table_id: Seq<char>,
    opened_at: Timestamp,
    now: Timestamp,
)
    requires
        well_formed(s),
        latest_opened_at(s.tablet, table_id) == Some(opened_at) || all_settled(
            s.session_items(table_id, opened_at),
        ),
    ensures
        well_formed(reconciled(s, table_id, opened_at, now)),
{
    lemma_reconcile_keeps_sessions_well_formed(s, table_id, opened_at, now);
    let after = reconciled(s, table_id, opened_at, now);
    assert forall|i: int| 0 <= i < after.items.len() implies has_session(
        after.tablet,
        (#[trigger] after.items[i]).table_id,
        after.items[i].created_at,
    ) by {
        let k = choose|k: int|
            0 <= k < s.tablet.len() && (#[trigger] s.tablet[k]).table_id == s.items[i].table_id
                && s.tablet[k].opened_at == s.items[i].created_at;
        assert(after.tablet[k].table_id == s.tablet[k].table_id && after.tablet[k].opened_at
            == s.tablet[k].opened_at);
    }
}

/// Delete keeps the store well formed.
pub proof fn lemma_delete_keeps_store_well_formed(s: StoreView, order: DeleteOrderView, now: Timestamp)
    requires
        well_formed(s),
    ensures
        well_formed(deleted(s, order, now)),
{
    match s.current_item(order.table_id, order.item) {
        Some(row) => {
            if row.status == ItemStatus::New {
                lemma_current_item_is_a_row(s, order.table_id, order.item);
                let keep = not_new_item(order.table_id, order.item, row.created_at);
                let after = deleted(s, order, now);
                let before = StoreView {
                    tablet: s.tablet,
                    items: s.items.filter(keep),
                    item_history: after.item_history,
                };
                assert(after == reconciled(before, order.table_id, row.created_at, now));
                lemma_filter_keeps_keys_distinct(s.items, keep);
                assert forall|i: int| 0 <= i < before.items.len() implies has_session(
                    before.tablet,
                    (#[trigger] before.items[i]).table_id,
                    before.items[i].created_at,
                ) by {
                    assert(before.items.contains(before.items[i]));
                    s.items.lemma_filter_contains_rev(keep, before.items[i]);
                    let k = choose|k: int| 0 <= k < s.items.len() && s.items[k] == before.items[i];
                    assert(has_session(s.tablet, s.items[k].table_id, s.items[k].created_at));
                }
                lemma_reconcile_keeps_store_well_formed(
                    before,
                    order.table_id,
                    row.created_at,
                    now,
                );
            }
        },
        None => {},
    }
}

/// A status update keeps the store well formed when the item belongs to
/// the table's latest session.
pub proof fn lemma_status_update_keeps_store_well_formed(
    s: StoreView,
    created_at: Timestamp,
    updated_at: Timestamp,
    table_id: Seq<char>,
    line: ItemPairView,
    to: ItemStatus,
    now: Timestamp,
)
    requires
        well_formed(s),
        latest_opened_at(s.tablet, table_id) == Some(created_at),
    ensures
        well_formed(status_updated(s, created_at, updated_at, table_id, line, to, now)),
{
    let after = status_updated(s, created_at, updated_at, table_id, line, to, now);
    let change = with_status(
        table_id,
        line.name,
        latest_opened_at(s.tablet, table_id),
        updated_at,
        to,
    );
    let before = StoreView {
        tablet: s.tablet,
        items: s.items.map_values(change),
        item_history: after.item_history,
    };
    assert(after == reconciled(before, table_id, created_at, now));
    assert forall|i: int| 0 <= i < before.items.len() implies has_session(
        before.tablet,
        (#[trigger] before.items[i]).table_id,
        before.items[i].created_at,
    ) by {
        assert(before.items[i] == change(s.items[i]));
        assert(has_session(s.tablet, s.items[i].table_id, s.items[i].created_at));
    }
    assert forall|i: int, j: int| 0 <= i < j < before.items.len() implies !same_item_key(
        #[trigger] before.items[i],
        #[trigger] before.items[j],
    ) by {
        assert(!same_item_key(s.items[i], s.items[j]));
    }
    lemma_reconcile_keeps_store_well_formed(before, table_id, created_at, now);
}

} // verus!
