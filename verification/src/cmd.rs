use crate::kitchen::CookTask;
use crate::message::{
    delete_message, delete_text, item_listing, item_listing_text, item_update_message,
    item_update_text, place_message, place_text, table_listing, table_listing_text,
    update_message, update_text,
};
use crate::order_type::{
    DeleteOrder, ItemPair, ItemPairView, ItemStatus, PlaceOrder, TableStatus, UpdateOrder,
    pairs_view,
};
use crate::rules::{
    added_lines, after_updates, blocks_place, can_delete, closing_time_for, deleted, item_status,
    item_update, item_updated, place_is_duplicate, placed, previous_amount, reconcile_sessions,
    reconciled, session_accepts_updates, session_status, status_updated, table_status_for, update_added,
    updated, with_accepted, with_all_accepted, Accepted, ItemUpdate,
};
use crate::settings::{Settings, SettingsView};
use crate::store::{items_view, Item, Store, TableSession};
use crate::timestamp::{timestamp_text, Timestamp};
use vstd::prelude::*;

verus! {

/// The address of the database.
#[derive(Debug)]
pub struct Dbio {
    name: String,
}

/// The address that the settings give: the prefix, a colon, the password,
/// an at sign, the host, a colon, the port, a slash and the database's name.
pub open spec fn db_url(config: SettingsView) -> Seq<char> {
    config.database.prefix + ":"@ + config.database.password + "@"@ + config.database.ip + ":"@
        + config.database.port + "/"@ + config.database.db_name
}

impl Dbio {
    /// The address as text.
    pub closed spec fn path(&self) -> Seq<char> {
        self.name@
    }

    pub fn new(config: &Settings) -> (dbio: Dbio)
        ensures
            dbio.path() == db_url(config@),
    {
        let mut db_url = String::new();
        db_url.append(config.database.get_prefix().as_str());
        db_url.append(":");
        db_url.append(config.database.get_password().as_str());
        db_url.append("@");
        db_url.append(config.database.get_ip().as_str());
        db_url.append(":");
        db_url.append(config.database.get_port().as_str());
        db_url.append("/");
        db_url.append(config.database.get_db_name().as_str());
        assert(db_url@ =~= self::db_url(config@));
        Dbio { name: db_url }
    }

    pub fn get_db_path(&self) -> (path: &str)
        ensures
            path@ == self.path(),
    {
        self.name.as_str()
    }
}

/// The cook tasks for the lines of an accepted order, one for each line and
/// in the same order.
pub open spec fn cooks_for(
    cooks: Seq<CookTask>,
    created_at: Timestamp,
    table_id: Seq<char>,
    lines: Seq<ItemPairView>,
) -> bool {
    &&& cooks.len() == lines.len()
    &&& forall|i: int|
        0 <= i < cooks.len() ==> (#[trigger] cooks[i]).cooks(created_at, table_id, lines[i])
}

/// What a request that may start cooking gives back.
#[derive(Debug)]
pub struct Reply {
    /// What the client is told.
    pub message: String,
    /// The work that now has to be handed to the kitchen.
    pub cooks: Vec<CookTask>,
}

/// What a request to change one order line gives back.
#[derive(Debug)]
pub struct ItemReply {
    pub outcome: ItemUpdate,
    /// What is reported of the request.
    pub message: String,
    /// The work for the kitchen, when the line was accepted as a new item.
    pub cook: Option<CookTask>,
}

/// The status of a session that was looked up.
pub fn status_of_session(found: &Option<TableSession>) -> (status: Option<TableStatus>)
    ensures
        status == session_status(
            match *found {
                Some(row) => Some(row@),
                None => None,
            },
        ),
{
    match found {
        Some(row) => Some(row.status),
        None => None,
    }
}

/// The status of an item that was looked up.
pub fn status_of_item(found: &Option<Item>) -> (status: Option<ItemStatus>)
    ensures
        status == item_status(
            match *found {
                Some(row) => Some(row@),
                None => None,
            },
        ),
{
    match found {
        Some(row) => Some(row.status),
        None => None,
    }
}

/// The amount of an item that was looked up; zero when there was none.
pub fn amount_of_item(found: &Option<Item>) -> (amount: i32)
    ensures
        amount == previous_amount(
            match *found {
                Some(row) => Some(row@),
                None => None,
            },
        ),
{
    match found {
        Some(row) => row.amount,
        None => 0,
    }
}

impl Store {
    /// Reconciliation: gives the session of `table_id` opened at `opened_at`
    /// the status that its items give it, with `now` as the closing time of
    /// a session that is closed by this. A session that was closed before
    /// keeps its closing time.
    pub fn update_table_status_at(&mut self, table_id: &String, opened_at: Timestamp, now: Timestamp)
        ensures
            final(self)@ == reconciled(old(self)@, table_id@, opened_at, now),
    {
        let items = self.session_items(table_id, opened_at);
        let status = table_status_for(&items);
        let ghost rows = self@.tablet;
        let ghost change = reconcile_sessions(table_id@, opened_at, status, now);
        let mut i: usize = 0;
        while i < self.tablet.len()
            invariant
                i <= self.tablet.len(),
                self.items == old(self).items,
                self.item_history == old(self).item_history,
                rows == old(self)@.tablet,
                self.tablet@.len() == rows.len(),
                change == reconcile_sessions(table_id@, opened_at, status, now),
                forall|j: int| 0 <= j < i ==> (#[trigger] self.tablet@[j])@ == change(rows[j]),
                forall|j: int| i <= j < rows.len() ==> (#[trigger] self.tablet@[j])@ == rows[j],
            decreases self.tablet.len() - i,
        {
            let row = &self.tablet[i];
            if row.table_id == *table_id && row.opened_at.nanos == opened_at.nanos {
                let closed_at = closing_time_for(row, status, now);
                self.tablet[i].status = status;
                self.tablet[i].closed_at = closed_at;
            }
            i += 1;
        }
        assert(self@.tablet =~= rows.map_values(change));
    }

    /// Reconciliation at the current time: `update_table_status_at` with the
    /// system clock's time.
    pub fn update_table_status(&mut self, table_id: String, opened_at: Timestamp)
        ensures
            exists|now: Timestamp|
                final(self)@ == reconciled(old(self)@, table_id@, opened_at, now),
    {
        let now = Timestamp::now();
        self.update_table_status_at(&table_id, opened_at, now);
    }

    /// Accepts one order line into the session of `table_id` opened at
    /// `created_at`.
    pub fn accept_item(
        &mut self,
        created_at: Timestamp,
        updated_at: Timestamp,
        table_id: &String,
        line: &ItemPair,
    )
        ensures
            final(self)@ == with_accepted(old(self)@, created_at, updated_at, table_id@, line@),
    {
        let mut rows = Accepted::of(created_at, updated_at, table_id, line);
        assert(items_view(rows.history@).len() == rows.history@.len());
        assert(items_view(rows.history@)[0] == rows.history@[0]@);
        assert(items_view(rows.history@)[1] == rows.history@[1]@);
        self.insert_item(rows.item);
        let process = rows.history.pop().unwrap();
        let new = rows.history.pop().unwrap();
        self.insert_history(new);
        self.insert_history(process);
    }

    /// Place: opens a session for the order's table and accepts every line
    /// of the order into it, unless the table's current session is open.
    /// The reply names a cook task for each accepted line.
    pub fn place(&mut self, order: PlaceOrder) -> (reply: Reply)
        ensures
            final(self)@ == placed(old(self)@, order@),
            reply.message@ == place_text(
                session_status(old(self)@.current_session(order@.table_id)),
                timestamp_text(order.created_at.nanos),
                order@.table_id,
            ),
            cooks_for(
                reply.cooks@,
                order.created_at,
                order@.table_id,
                if blocks_place(session_status(old(self)@.current_session(order@.table_id))) {
                    Seq::empty()
                } else {
                    order@.items
                },
            ),
    {
        let current = self.current_session(&order.table_id);
        let status = status_of_session(&current);
        let at = order.created_at.to_text();
        let message = place_message(status, at.as_str(), order.table_id.as_str());
        let mut cooks: Vec<CookTask> = Vec::new();
        if place_is_duplicate(status) {
            return Reply { message, cooks };
        }
        self.insert_session(TableSession::opened(&order));
        let ghost base = self@;
        let ghost lines = order@.items;
        let mut i: usize = 0;
        while i < order.items.len()
            invariant
                i <= order.items.len(),
                lines == pairs_view(order.items@),
                self@ == with_all_accepted(
                    base,
                    order.created_at,
                    order.created_at,
                    order.table_id@,
                    lines.take(i as int),
                ),
                cooks_for(cooks@, order.created_at, order.table_id@, lines.take(i as int)),
            decreases order.items.len() - i,
        {
            assert(lines.take(i as int + 1).drop_last() =~= lines.take(i as int));
            assert(lines.take(i as int + 1).last() == order.items@[i as int]@);
            self.accept_item(order.created_at, order.created_at, &order.table_id, &order.items[i]);
            let task = CookTask::draw(order.created_at, &order.table_id, &order.items[i]);
            cooks.push(task);
            i += 1;
        }
        assert(lines.take(order.items.len() as int) =~= lines);
        Reply { message, cooks }
    }

    /// Delete at time `now`: takes the item off the order when it has
    /// exactly one row in the table's latest session and that row is still
    /// `New`, records the deletion in the history and reconciles the owning
    /// session. In every other case nothing is written.
    pub fn delete_at(&mut self, order: &DeleteOrder, now: Timestamp) -> (message: String)
        ensures
            final(self)@ == deleted(old(self)@, order@, now),
            message@ == delete_text(
                item_status(old(self)@.current_item(order@.table_id, order@.item)),
                order@.item,
                order@.table_id,
            ),
    {
        let found = self.current_item(&order.table_id, &order.item);
        let status = status_of_item(&found);
        let message = delete_message(status, order.item.as_str(), order.table_id.as_str());
        match found {
            Some(row) => {
                if can_delete(status) {
                    self.delete_new_item(&order.table_id, &order.item, row.created_at);
                    self.insert_history(row.deleted(order.deleted_at));
                    self.update_table_status_at(&order.table_id, row.created_at, now);
                }
            },
            None => {},
        }
        message
    }

    /// Delete at the current time: `delete_at` with the system clock's time.
    pub fn delete(&mut self, order: DeleteOrder) -> (message: String)
        ensures
            exists|now: Timestamp| final(self)@ == deleted(old(self)@, order@, now),
            message@ == delete_text(
                item_status(old(self)@.current_item(order@.table_id, order@.item)),
                order@.item,
                order@.table_id,
            ),
    {
        let now = Timestamp::now();
        self.delete_at(&order, now)
    }

    /// Applies one line of an update to the session of `table_id` opened at
    /// `opened_at`, which has to be the table's current session and open.
    /// An item that is still `New` gets the line's amount; an item that the
    /// session does not have is accepted as Place accepts a line, and is
    /// given a cook task; an item in any other state stays as it is.
    pub fn update_order_item(
        &mut self,
        opened_at: Timestamp,
        updated_at: Timestamp,
        table_id: String,
        elem: ItemPair,
    ) -> (reply: ItemReply)
        ensures
            reply.outcome == item_update(old(self)@, opened_at, table_id@, elem@),
            final(self)@ == item_updated(old(self)@, opened_at, updated_at, table_id@, elem@),
            reply.message@ == item_update_text(
                reply.outcome,
                previous_amount(old(self)@.current_item(table_id@, elem@.name)),
                table_id@,
                elem@,
            ),
            match reply.cook {
                Some(task) => reply.outcome == ItemUpdate::Added && task.cooks(
                    opened_at,
                    table_id@,
                    elem@,
                ),
                None => reply.outcome != ItemUpdate::Added,
            },
    {
        let current = self.current_session(&table_id);
        let accepts = session_accepts_updates(&current, opened_at);
        let found = self.current_item(&table_id, &elem.name);
        let outcome = ItemUpdate::decide(accepts, status_of_item(&found));
        let previous: i32 = amount_of_item(&found);
        let message = item_update_message(outcome, previous, table_id.as_str(), &elem);
        let cook = match outcome {
            ItemUpdate::Added => {
                self.accept_item(opened_at, updated_at, &table_id, &elem);
                Some(CookTask::draw(opened_at, &table_id, &elem))
            },
            ItemUpdate::Amended => {
                self.set_item_amount(
                    &table_id,
                    &elem.name,
                    Some(opened_at),
                    updated_at,
                    elem.amount,
                );
                self.insert_history(
                    Item::accepted(opened_at, updated_at, &table_id, &elem, ItemStatus::New),
                );
                None
            },
            _ => None,
        };
        ItemReply { outcome, message, cook }
    }

    /// Update: when the table's current session is open, applies each line
    /// of the order to it in turn, as `update_order_item` does. The reply
    /// names a cook task for each line that was accepted as a new item.
    pub fn update(&mut self, order: UpdateOrder) -> (reply: Reply)
        ensures
            final(self)@ == updated(old(self)@, order@),
            reply.message@ == update_text(
                session_status(old(self)@.current_session(order@.table_id)),
                order@.table_id,
            ),
            old(self)@.current_session(order@.table_id) matches Some(cur) ==> cooks_for(
                reply.cooks@,
                cur.opened_at,
                order@.table_id,
                update_added(old(self)@, order@),
            ),
            old(self)@.current_session(order@.table_id) is None ==> reply.cooks@.len() == 0,
    {
        let current = self.current_session(&order.table_id);
        let message = update_message(status_of_session(&current), order.table_id.as_str());
        let mut cooks: Vec<CookTask> = Vec::new();
        let opened_at = match &current {
            Some(cur) => match cur.status {
                TableStatus::Open => cur.opened_at,
                TableStatus::Close => {
                    return Reply { message, cooks };
                },
            },
            None => {
                return Reply { message, cooks };
            },
        };
        let ghost base = self@;
        let ghost lines = order@.items;
        let mut i: usize = 0;
        while i < order.items.len()
            invariant
                i <= order.items.len(),
                lines == pairs_view(order.items@),
                self@ == after_updates(
                    base,
                    opened_at,
                    order.updated_at,
                    order.table_id@,
                    lines.take(i as int),
                ),
                cooks_for(
                    cooks@,
                    opened_at,
                    order.table_id@,
                    added_lines(
                        base,
                        opened_at,
                        order.updated_at,
                        order.table_id@,
                        lines.take(i as int),
                    ),
                ),
            decreases order.items.len() - i,
        {
            assert(lines.take(i as int + 1).drop_last() =~= lines.take(i as int));
            assert(lines.take(i as int + 1).last() == order.items@[i as int]@);
            let reply = self.update_order_item(
                opened_at,
                order.updated_at,
                order.table_id.clone(),
                order.items[i].clone(),
            );
            match reply.cook {
                Some(task) => {
                    cooks.push(task);
                },
                None => {},
            }
            i += 1;
        }
        assert(lines.take(order.items.len() as int) =~= lines);
        Reply { message, cooks }
    }

    /// Status update at time `now`: gives the rows for the item in the
    /// table's latest session the status `to`, records the change in the
    /// history, and reconciles the session opened at `created_at`, whether
    /// or not a row was changed.
    pub fn update_item_status_at(
        &mut self,
        created_at: Timestamp,
        updated_at: Timestamp,
        table_id: &String,
        elem: &ItemPair,
        to: ItemStatus,
        now: Timestamp,
    )
        ensures
            final(self)@ == status_updated(
                old(self)@,
                created_at,
                updated_at,
                table_id@,
                elem@,
                to,
                now,
            ),
    {
        let latest = self.latest_opened_at(table_id);
        self.set_item_status(table_id, &elem.name, latest, updated_at, to);
        self.insert_history(Item::accepted(created_at, updated_at, table_id, elem, to));
        self.update_table_status_at(table_id, created_at, now);
    }

    /// Status update at the current time: `update_item_status_at` with the
    /// system clock's time.
    pub fn update_item_status(
        &mut self,
        created_at: Timestamp,
        updated_at: Timestamp,
        table_id: String,
        elem: ItemPair,
        to: ItemStatus,
    )
        ensures
            exists|now: Timestamp|
                final(self)@ == status_updated(
                    old(self)@,
                    created_at,
                    updated_at,
                    table_id@,
                    elem@,
                    to,
                    now,
                ),
    {
        let now = Timestamp::now();
        self.update_item_status_at(created_at, updated_at, &table_id, &elem, to, now);
    }

    /// The end of a cook task, at time `done_at`: the item becomes `Done`
    /// and its session is reconciled.
    pub fn cook_order_item(
        &mut self,
        ts: Timestamp,
        table_id: String,
        elem: ItemPair,
        done_at: Timestamp,
    )
        ensures
            final(self)@ == status_updated(
                old(self)@,
                ts,
                done_at,
                table_id@,
                elem@,
                ItemStatus::Done,
                done_at,
            ),
    {
        self.update_item_status_at(ts, done_at, &table_id, &elem, ItemStatus::Done, done_at);
    }

    /// The items of the table's latest session as a listing; `queried_at`
    /// is the text of the time of the query.
    pub fn query_by_tableid_with(&self, table_id: &String, queried_at: &str) -> (s: String)
        ensures
            s@ == table_listing_text(queried_at@, table_id@, self@.current_items(table_id@)),
    {
        let rows = self.current_items(table_id);
        table_listing(queried_at, table_id.as_str(), &rows)
    }

    /// The items of the table's latest session as a listing that names the
    /// current time.
    pub fn query_by_tableid(&self, table_id: String) -> (s: String)
        ensures
            exists|now: Timestamp|
                s@ == table_listing_text(
                    timestamp_text(now.nanos),
                    table_id@,
                    self@.current_items(table_id@),
                ),
    {
        let now = Timestamp::now();
        let at = now.to_text();
        self.query_by_tableid_with(&table_id, at.as_str())
    }

    /// The rows for one item of the table's latest session as text;
    /// `queried_at` is the text of the time of the query.
    pub fn query_by_tableid_and_item_with(&self, table_id: &String, item: &String, queried_at: &str)
        -> (s: String)
        ensures
            s@ == item_listing_text(
                queried_at@,
                table_id@,
                self@.current_item_rows(table_id@, item@),
            ),
    {
        let rows = self.current_item_rows(table_id, item);
        item_listing(queried_at, table_id.as_str(), &rows)
    }

    /// The rows for one item of the table's latest session as text that
    /// names the current time.
    pub fn query_by_tableid_and_item(&self, table_id: String, item: String) -> (s: String)
        ensures
            exists|now: Timestamp|
                s@ == item_listing_text(
                    timestamp_text(now.nanos),
                    table_id@,
                    self@.current_item_rows(table_id@, item@),
                ),
    {
        let now = Timestamp::now();
        let at = now.to_text();
        self.query_by_tableid_and_item_with(&table_id, &item, at.as_str())
    }
}

} // verus!
