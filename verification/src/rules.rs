use crate::order_type::{
    DeleteOrderView, ItemPair, ItemPairView, ItemStatus, PlaceOrder, PlaceOrderView, TableStatus,
    UpdateOrderView,
};
use crate::store::{
    items_view, latest_opened_at, not_new_item, with_amount, with_status,
    Item, ItemView, SessionView, StoreView, TableSession,
};
use crate::timestamp::Timestamp;
use vstd::prelude::*;

verus! {

/// The status of the session that a lookup found.
pub open spec fn session_status(found: Option<SessionView>) -> Option<TableStatus> {
    match found {
        Some(row) => Some(row.status),
        None => None,
    }
}

/// The status of the item that a lookup found.
pub open spec fn item_status(found: Option<ItemView>) -> Option<ItemStatus> {
    match found {
        Some(row) => Some(row.status),
        None => None,
    }
}

/// A place request is turned away exactly when the table's current session
/// is open. A table without a current session and a table whose current
/// session is closed are treated alike.
pub open spec fn blocks_place(current: Option<TableStatus>) -> bool {
    current == Some(TableStatus::Open)
}

/// True when a place request has to be turned away as a duplicate.
pub fn place_is_duplicate(current: Option<TableStatus>) -> (duplicate: bool)
    ensures
        duplicate == blocks_place(current),
{
    match current {
        Some(TableStatus::Open) => true,
        _ => false,
    }
}

/// A delete request goes through exactly when the item is still `New`.
pub open spec fn deletable(found: Option<ItemStatus>) -> bool {
    found == Some(ItemStatus::New)
}

/// True when a delete request for an item in this state goes through.
pub fn can_delete(found: Option<ItemStatus>) -> (allowed: bool)
    ensures
        allowed == deletable(found),
{
    match found {
        Some(ItemStatus::New) => true,
        _ => false,
    }
}

/// True when updates are accepted into the session opened at `opened_at`:
/// it is the table's current session, and it is open.
pub open spec fn accepts_updates(current: Option<SessionView>, opened_at: Timestamp) -> bool {
    current matches Some(cur) && cur.status == TableStatus::Open && cur.opened_at == opened_at
}

/// True when updates are accepted into the session opened at `opened_at`,
/// given the table's current session.
pub fn session_accepts_updates(current: &Option<TableSession>, opened_at: Timestamp) -> (accepts:
    bool)
    ensures
        accepts == accepts_updates(
            match *current {
                Some(row) => Some(row@),
                None => None,
            },
            opened_at,
        ),
{
    match current {
        Some(cur) => cur.opened_at.nanos == opened_at.nanos && match cur.status {
            TableStatus::Open => true,
            TableStatus::Close => false,
        },
        None => false,
    }
}

/// How a request to change one order line of a session ends.
#[derive(Clone, Copy, Debug, PartialEq, Eq, Structural)]
pub enum ItemUpdate {
    /// The item was still `New`: its amount was changed.
    Amended,
    /// The session had no such item: the line was accepted as a new item.
    Added,
    /// The item is in preparation and cannot be changed.
    Cooking,
    /// The item was served and cannot be changed.
    Served,
    /// The item was deleted and cannot be changed.
    Removed,
    /// The session is not the table's current session, or it is closed.
    SessionNotOpen,
}

/// How a request to change one order line ends, given whether the session
/// accepts updates and the state of the item that the line names.
pub open spec fn item_update_for(accepts: bool, found: Option<ItemStatus>) -> ItemUpdate {
    if !accepts {
        ItemUpdate::SessionNotOpen
    } else {
        match found {
            None => ItemUpdate::Added,
            Some(ItemStatus::New) => ItemUpdate::Amended,
            Some(ItemStatus::Process) => ItemUpdate::Cooking,
            Some(ItemStatus::Done) => ItemUpdate::Served,
            Some(ItemStatus::Deleted) => ItemUpdate::Removed,
        }
    }
}

impl ItemUpdate {
    /// How a request to change one order line ends.
    pub fn decide(accepts: bool, found: Option<ItemStatus>) -> (outcome: ItemUpdate)
        ensures
            outcome == item_update_for(accepts, found),
    {
        if !accepts {
            ItemUpdate::SessionNotOpen
        } else {
            match found {
                None => ItemUpdate::Added,
                Some(ItemStatus::New) => ItemUpdate::Amended,
                Some(ItemStatus::Process) => ItemUpdate::Cooking,
                Some(ItemStatus::Done) => ItemUpdate::Served,
                Some(ItemStatus::Deleted) => ItemUpdate::Removed,
            }
        }
    }
}

/// True when some item still needs work from the kitchen.
pub open spec fn any_outstanding(items: Seq<ItemView>) -> bool {
    exists|i: int| 0 <= i < items.len() && (#[trigger] items[i]).status.outstanding()
}

/// The status that a session has by its items: open while any of them is
/// `New` or `Process`; closed when all are `Done` or `Deleted`, and when
/// there are none.
pub open spec fn derived_status(items: Seq<ItemView>) -> TableStatus {
    if any_outstanding(items) {
        TableStatus::Open
    } else {
        TableStatus::Close
    }
}

/// The closing time of a session after reconciliation at `now` gave it
/// `status`. A session that is closed by this gets `now`; so does one that
/// was closed but had no closing time. A session that was closed with a
/// closing time keeps it: the closing time is set once, when the session
/// closes. A session that stays or becomes open keeps what it has.
pub open spec fn closing_time(row: SessionView, status: TableStatus, now: Timestamp) -> Option<
    Timestamp,
> {
    match status {
        TableStatus::Open => row.closed_at,
        TableStatus::Close => if row.status == TableStatus::Close && row.closed_at is Some {
            row.closed_at
        } else {
            Some(now)
        },
    }
}

/// A session after reconciliation at `now` gave it `status`.
pub open spec fn reconciled_session(row: SessionView, status: TableStatus, now: Timestamp)
    -> SessionView {
    SessionView { status, closed_at: closing_time(row, status, now), ..row }
}

/// Reconciles the session of `table_id` opened at `opened_at` to `status`
/// at `now`, and leaves the other sessions as they are.
pub open spec fn reconcile_sessions(
    table_id: Seq<char>,
    opened_at: Timestamp,
    status: TableStatus,
    now: Timestamp,
) -> spec_fn(SessionView) -> SessionView {
    |row: SessionView|
        if row.table_id == table_id && row.opened_at == opened_at {
            reconciled_session(row, status, now)
        } else {
            row
        }
}

/// The status that a session has by its items.
pub fn table_status_for(items: &Vec<Item>) -> (status: TableStatus)
    ensures
        status == derived_status(items_view(items@)),
{
    let ghost rows = items_view(items@);
    let mut i: usize = 0;
    while i < items.len()
        invariant
            i <= items.len(),
            rows == items_view(items@),
            forall|j: int| 0 <= j < i ==> !(#[trigger] rows[j]).status.outstanding(),
        decreases items.len() - i,
    {
        assert(rows[i as int] == items@[i as int]@);
        if items[i].status.is_outstanding() {
            return TableStatus::Open;
        }
        i += 1;
    }
    TableStatus::Close
}

/// The closing time of the session `row` after reconciliation at `now`
/// gave it `status`.
pub fn closing_time_for(row: &TableSession, status: TableStatus, now: Timestamp) -> (closed_at:
    Option<Timestamp>)
    ensures
        closed_at == closing_time(row@, status, now),
{
    match status {
        TableStatus::Open => row.closed_at,
        TableStatus::Close => match (row.status, row.closed_at) {
            (TableStatus::Close, Some(closed_at)) => Some(closed_at),
            _ => Some(now),
        },
    }
}

/// The store after the session of `table_id` opened at `opened_at` has got
/// the status that its items give it. A session that is closed by this gets
/// `now` as its closing time; one that was closed before keeps its own.
pub open spec fn reconciled(
    s: StoreView,
    table_id: Seq<char>,
    opened_at: Timestamp,
    now: Timestamp,
) -> StoreView {
    let status = derived_status(s.session_items(table_id, opened_at));
    StoreView {
        tablet: s.tablet.map_values(reconcile_sessions(table_id, opened_at, status, now)),
        ..s
    }
}

/// The row that an accepted order line gets, with the given status.
pub open spec fn accepted_row(
    created_at: Timestamp,
    updated_at: Timestamp,
    table_id: Seq<char>,
    line: ItemPairView,
    status: ItemStatus,
) -> ItemView {
    ItemView { created_at, updated_at, table_id, item: line.name, amount: line.amount, status }
}

/// The store after one order line was accepted into a session: the item is
/// in preparation at once, and the history records that it was new and
/// that it went into preparation.
pub open spec fn with_accepted(
    s: StoreView,
    created_at: Timestamp,
    updated_at: Timestamp,
    table_id: Seq<char>,
    line: ItemPairView,
) -> StoreView {
    StoreView {
        tablet: s.tablet,
        items: s.items.push(
            accepted_row(created_at, updated_at, table_id, line, ItemStatus::Process),
        ),
        item_history: s.item_history.push(
            accepted_row(created_at, updated_at, table_id, line, ItemStatus::New),
        ).push(accepted_row(created_at, updated_at, table_id, line, ItemStatus::Process)),
    }
}

/// The store after all of `lines` were accepted, first to last.
pub open spec fn with_all_accepted(
    s: StoreView,
    created_at: Timestamp,
    updated_at: Timestamp,
    table_id: Seq<char>,
    lines: Seq<ItemPairView>,
) -> StoreView
    decreases lines.len(),
{
    if lines.len() == 0 {
        s
    } else {
        with_accepted(
            with_all_accepted(s, created_at, updated_at, table_id, lines.drop_last()),
            created_at,
            updated_at,
            table_id,
            lines.last(),
        )
    }
}

/// The session that a place order opens.
pub open spec fn opened_session(order: PlaceOrderView) -> SessionView {
    SessionView {
        opened_at: order.created_at,
        closed_at: None,
        table_id: order.table_id,
        status: TableStatus::Open,
    }
}

/// The store after a place request: unchanged when the table's current
/// session is open; else with a new open session and every line of the
/// order accepted into it.
pub open spec fn placed(s: StoreView, order: PlaceOrderView) -> StoreView {
    if blocks_place(session_status(s.current_session(order.table_id))) {
        s
    } else {
        with_all_accepted(
            StoreView { tablet: s.tablet.push(opened_session(order)), ..s },
            order.created_at,
            order.created_at,
            order.table_id,
            order.items,
        )
    }
}

/// The row that the history gets for a deleted item.
pub open spec fn deleted_row(row: ItemView, deleted_at: Timestamp) -> ItemView {
    ItemView { updated_at: deleted_at, status: ItemStatus::Deleted, ..row }
}

/// The store after a delete request at time `now`: unchanged unless the item
/// has exactly one row in the table's latest session and that row is `New`;
/// then without that row, with a `Deleted` row in the history, and with the
/// owning session reconciled.
pub open spec fn deleted(s: StoreView, order: DeleteOrderView, now: Timestamp) -> StoreView {
    match s.current_item(order.table_id, order.item) {
        Some(row) => if row.status == ItemStatus::New {
            reconciled(
                StoreView {
                    tablet: s.tablet,
                    items: s.items.filter(not_new_item(order.table_id, order.item, row.created_at)),
                    item_history: s.item_history.push(deleted_row(row, order.deleted_at)),
                },
                order.table_id,
                row.created_at,
                now,
            )
        } else {
            s
        },
        None => s,
    }
}

/// True when the session of `table_id` opened at `opened_at` is the table's
/// current session and is open.
pub open spec fn session_accepts(s: StoreView, table_id: Seq<char>, opened_at: Timestamp) -> bool {
    accepts_updates(s.current_session(table_id), opened_at)
}

/// How a request to change `line` in the session of `table_id` opened at
/// `opened_at` ends.
pub open spec fn item_update(
    s: StoreView,
    opened_at: Timestamp,
    table_id: Seq<char>,
    line: ItemPairView,
) -> ItemUpdate {
    item_update_for(
        session_accepts(s, table_id, opened_at),
        item_status(s.current_item(table_id, line.name)),
    )
}

/// The store after the amount of a `New` item was changed: the row has the
/// new amount and time, and the history has one more `New` row.
pub open spec fn amended(
    s: StoreView,
    opened_at: Timestamp,
    updated_at: Timestamp,
    table_id: Seq<char>,
    line: ItemPairView,
) -> StoreView {
    StoreView {
        tablet: s.tablet,
        items: s.items.map_values(
            with_amount(table_id, line.name, Some(opened_at), updated_at, line.amount),
        ),
        item_history: s.item_history.push(
            accepted_row(opened_at, updated_at, table_id, line, ItemStatus::New),
        ),
    }
}

/// The store after a request to change `line` in the session of `table_id`
/// opened at `opened_at`.
pub open spec fn item_updated(
    s: StoreView,
    opened_at: Timestamp,
    updated_at: Timestamp,
    table_id: Seq<char>,
    line: ItemPairView,
) -> StoreView {
    match item_update(s, opened_at, table_id, line) {
        ItemUpdate::Added => with_accepted(s, opened_at, updated_at, table_id, line),
        ItemUpdate::Amended => amended(s, opened_at, updated_at, table_id, line),
        _ => s,
    }
}

/// The store after requests to change each of `lines`, first to last.
pub open spec fn after_updates(
    s: StoreView,
    opened_at: Timestamp,
    updated_at: Timestamp,
    table_id: Seq<char>,
    lines: Seq<ItemPairView>,
) -> StoreView
    decreases lines.len(),
{
    if lines.len() == 0 {
        s
    } else {
        item_updated(
            after_updates(s, opened_at, updated_at, table_id, lines.drop_last()),
            opened_at,
            updated_at,
            table_id,
            lines.last(),
        )
    }
}

/// Those of `lines` that were accepted as new items when each was applied
/// in turn.
pub open spec fn added_lines(
    s: StoreView,
    opened_at: Timestamp,
    updated_at: Timestamp,
    table_id: Seq<char>,
    lines: Seq<ItemPairView>,
) -> Seq<ItemPairView>
    decreases lines.len(),
{
    if lines.len() == 0 {
        Seq::empty()
    } else {
        let earlier = added_lines(s, opened_at, updated_at, table_id, lines.drop_last());
        let before = after_updates(s, opened_at, updated_at, table_id, lines.drop_last());
        if item_update(before, opened_at, table_id, lines.last()) == ItemUpdate::Added {
            earlier.push(lines.last())
        } else {
            earlier
        }
    }
}

/// The store after an update request: unchanged unless the table's current
/// session is open; else with each line of the order applied in turn.
pub open spec fn updated(s: StoreView, order: UpdateOrderView) -> StoreView {
    match s.current_session(order.table_id) {
        Some(cur) => if cur.status == TableStatus::Open {
            after_updates(s, cur.opened_at, order.updated_at, order.table_id, order.items)
        } else {
            s
        },
        None => s,
    }
}

/// The lines of an update request that need cooking: those that were
/// accepted as new items.
pub open spec fn update_added(s: StoreView, order: UpdateOrderView) -> Seq<ItemPairView> {
    match s.current_session(order.table_id) {
        Some(cur) => if cur.status == TableStatus::Open {
            added_lines(s, cur.opened_at, order.updated_at, order.table_id, order.items)
        } else {
            Seq::empty()
        },
        None => Seq::empty(),
    }
}

/// The amount that the item of `line` had before a request to change it;
/// zero when it had no row.
pub open spec fn previous_amount(found: Option<ItemView>) -> i32 {
    match found {
        Some(row) => row.amount,
        None => 0,
    }
}

/// The store after a status update for the item of `line`: the rows for
/// the item in the table's latest session have the status `to`, the history
/// has a row for the change, and the session opened at `created_at` is
/// reconciled.
pub open spec fn status_updated(
    s: StoreView,
    created_at: Timestamp,
    updated_at: Timestamp,
    table_id: Seq<char>,
    line: ItemPairView,
    to: ItemStatus,
    now: Timestamp,
) -> StoreView {
    reconciled(
        StoreView {
            tablet: s.tablet,
            items: s.items.map_values(
                with_status(
                    table_id,
                    line.name,
                    latest_opened_at(s.tablet, table_id),
                    updated_at,
                    to,
                ),
            ),
            item_history: s.item_history.push(
                accepted_row(created_at, updated_at, table_id, line, to),
            ),
        },
        table_id,
        created_at,
        now,
    )
}

impl TableSession {
    /// The session that a place order opens.
    pub fn opened(order: &PlaceOrder) -> (row: TableSession)
        ensures
            row@ == opened_session(order@),
    {
        TableSession {
            opened_at: order.created_at,
            closed_at: None,
            table_id: order.table_id.clone(),
            status: TableStatus::Open,
        }
    }
}

/// The rows that an accepted order line is written as.
#[derive(Debug)]
pub struct Accepted {
    /// The row for the items: the item is in preparation at once.
    pub item: Item,
    /// The rows for the history, in the order in which they are written:
    /// the item was new, then it went into preparation.
    pub history: Vec<Item>,
}

impl Accepted {
    /// The rows that the line is written as when it is accepted into the
    /// session of `table_id` opened at `created_at`.
    pub fn of(created_at: Timestamp, updated_at: Timestamp, table_id: &String, line: &ItemPair)
        -> (rows: Accepted)
        ensures
            rows.item@ == accepted_row(
                created_at,
                updated_at,
                table_id@,
                line@,
                ItemStatus::Process,
            ),
            items_view(rows.history@) == seq![
                accepted_row(created_at, updated_at, table_id@, line@, ItemStatus::New),
                accepted_row(created_at, updated_at, table_id@, line@, ItemStatus::Process),
            ],
    {
        let mut history: Vec<Item> = Vec::new();
        history.push(Item::accepted(created_at, updated_at, table_id, line, ItemStatus::New));
        history.push(Item::accepted(created_at, updated_at, table_id, line, ItemStatus::Process));
        assert(items_view(history@) =~= seq![
            accepted_row(created_at, updated_at, table_id@, line@, ItemStatus::New),
            accepted_row(created_at, updated_at, table_id@, line@, ItemStatus::Process),
        ]);
        Accepted {
            item: Item::accepted(created_at, updated_at, table_id, line, ItemStatus::Process),
            history,
        }
    }
}

impl Item {
    /// The row that an order line gets in the session of `table_id` opened
    /// at `created_at`, with the given status.
    pub fn accepted(
        created_at: Timestamp,
        updated_at: Timestamp,
        table_id: &String,
        line: &ItemPair,
        status: ItemStatus,
    ) -> (row: Item)
        ensures
            row@ == accepted_row(created_at, updated_at, table_id@, line@, status),
    {
        Item {
            created_at,
            updated_at,
            table_id: table_id.clone(),
            item: line.name.clone(),
            amount: line.amount,
            status,
        }
    }

    /// The row that the history gets when this item is deleted.
    pub fn deleted(&self, deleted_at: Timestamp) -> (row: Item)
        ensures
            row@ == deleted_row(self@, deleted_at),
    {
        Item {
            created_at: self.created_at,
            updated_at: deleted_at,
            table_id: self.table_id.clone(),
            item: self.item.clone(),
            amount: self.amount,
            status: ItemStatus::Deleted,
        }
    }
}

} // verus!
