use crate::order_type::{ItemStatus, TableStatus};
use crate::timestamp::Timestamp;
use vstd::prelude::*;

verus! {

/// One open-to-close lifecycle of a table's order: a row of `tablet`.
#[derive(Debug)]
pub struct TableSession {
    pub opened_at: Timestamp,
    pub closed_at: Option<Timestamp>,
    pub table_id: String,
    pub status: TableStatus,
}

/// A session as the contracts see it: its table's name as text.
pub struct SessionView {
    pub opened_at: Timestamp,
    pub closed_at: Option<Timestamp>,
    pub table_id: Seq<char>,
    pub status: TableStatus,
}

impl View for TableSession {
    type V = SessionView;

    open spec fn view(&self) -> SessionView {
        SessionView {
            opened_at: self.opened_at,
            closed_at: self.closed_at,
            table_id: self.table_id@,
            status: self.status,
        }
    }
}

impl Clone for TableSession {
    fn clone(&self) -> (r: TableSession)
        ensures
            r@ == self@,
    {
        TableSession {
            opened_at: self.opened_at,
            closed_at: self.closed_at,
            table_id: self.table_id.clone(),
            status: self.status,
        }
    }
}

/// One ordered item: a row of `items`, and in the same shape a row of
/// `item_history`. `created_at` is the `opened_at` of the session that owns
/// the item.
#[derive(Debug)]
pub struct Item {
    pub created_at: Timestamp,
    pub updated_at: Timestamp,
    pub table_id: String,
    pub item: String,
    pub amount: i32,
    pub status: ItemStatus,
}

/// An item's row as the contracts see it: its names as text.
pub struct ItemView {
    pub created_at: Timestamp,
    pub updated_at: Timestamp,
    pub table_id: Seq<char>,
    pub item: Seq<char>,
    pub amount: i32,
    pub status: ItemStatus,
}

impl View for Item {
    type V = ItemView;

    open spec fn view(&self) -> ItemView {
        ItemView {
            created_at: self.created_at,
            updated_at: self.updated_at,
            table_id: self.table_id@,
            item: self.item@,
            amount: self.amount,
            status: self.status,
        }
    }
}

impl Clone for Item {
    fn clone(&self) -> (r: Item)
        ensures
            r@ == self@,
    {
        Item {
            created_at: self.created_at,
            updated_at: self.updated_at,
            table_id: self.table_id.clone(),
            item: self.item.clone(),
            amount: self.amount,
            status: self.status,
        }
    }
}

/// The three tables of the order engine, held in memory, each in the order
/// in which its rows were inserted. Any rows make a store: what keeps the
/// rows consistent is stated of the operations, not of the tables.
#[derive(Debug)]
pub struct Store {
    pub tablet: Vec<TableSession>,
    pub items: Vec<Item>,
    pub item_history: Vec<Item>,
}

/// The three tables as the contracts see them.
pub struct StoreView {
    pub tablet: Seq<SessionView>,
    pub items: Seq<ItemView>,
    pub item_history: Seq<ItemView>,
}

/// The views of the rows of `tablet`, in the same order.
pub open spec fn sessions_view(rows: Seq<TableSession>) -> Seq<SessionView> {
    rows.map_values(|r: TableSession| r@)
}

/// The views of item rows, in the same order.
pub open spec fn items_view(rows: Seq<Item>) -> Seq<ItemView> {
    rows.map_values(|r: Item| r@)
}

impl View for Store {
    type V = StoreView;

    open spec fn view(&self) -> StoreView {
        StoreView {
            tablet: sessions_view(self.tablet@),
            items: items_view(self.items@),
            item_history: items_view(self.item_history@),
        }
    }
}

/// What a lookup that expects one row gives: the row when exactly one row
/// matched, nothing when none or several did.
pub open spec fn sole<A>(rows: Seq<A>) -> Option<A> {
    if rows.len() == 1 {
        Some(rows[0])
    } else {
        None
    }
}

/// The later of `t` and what `best` holds.
pub open spec fn later_of(best: Option<Timestamp>, t: Timestamp) -> Timestamp {
    match best {
        Some(b) => if b.nanos >= t.nanos {
            b
        } else {
            t
        },
        None => t,
    }
}

/// The greatest `opened_at` among the sessions of `table_id`, if it has any.
pub open spec fn latest_opened_at(tablet: Seq<SessionView>, table_id: Seq<char>) -> Option<
    Timestamp,
>
    decreases tablet.len(),
{
    if tablet.len() == 0 {
        None
    } else {
        let earlier = latest_opened_at(tablet.drop_last(), table_id);
        if tablet.last().table_id == table_id {
            Some(later_of(earlier, tablet.last().opened_at))
        } else {
            earlier
        }
    }
}

/// True when `t` is later than every session of `table_id`.
pub open spec fn later_than_all(tablet: Seq<SessionView>, table_id: Seq<char>, t: Timestamp)
    -> bool {
    match latest_opened_at(tablet, table_id) {
        Some(latest) => latest.nanos < t.nanos,
        None => true,
    }
}

/// Sessions of `table_id` that were opened at `opened_at`.
pub open spec fn session_at(table_id: Seq<char>, opened_at: Option<Timestamp>) -> spec_fn(
    SessionView,
) -> bool {
    |s: SessionView| s.table_id == table_id && opened_at == Some(s.opened_at)
}

/// Items of `table_id` that belong to the session opened at `created_at`.
pub open spec fn item_in(table_id: Seq<char>, created_at: Option<Timestamp>) -> spec_fn(
    ItemView,
) -> bool {
    |r: ItemView| r.table_id == table_id && created_at == Some(r.created_at)
}

/// Items named `item` of `table_id` in the session opened at `created_at`.
pub open spec fn item_named(
    table_id: Seq<char>,
    item: Seq<char>,
    created_at: Option<Timestamp>,
) -> spec_fn(ItemView) -> bool {
    |r: ItemView| r.table_id == table_id && r.item == item && created_at == Some(r.created_at)
}

impl StoreView {
    /// The rows of the table's latest session: those of its sessions whose
    /// `opened_at` is the greatest.
    pub open spec fn current_sessions(self, table_id: Seq<char>) -> Seq<SessionView> {
        self.tablet.filter(session_at(table_id, latest_opened_at(self.tablet, table_id)))
    }

    /// The table's current session: the one row with the greatest
    /// `opened_at`. There is none when the table has no session, or when
    /// several rows share the greatest `opened_at`.
    pub open spec fn current_session(self, table_id: Seq<char>) -> Option<SessionView> {
        sole(self.current_sessions(table_id))
    }

    /// The items of the table's latest session, in insertion order.
    pub open spec fn current_items(self, table_id: Seq<char>) -> Seq<ItemView> {
        self.items.filter(item_in(table_id, latest_opened_at(self.tablet, table_id)))
    }

    /// The rows for `item` in the table's latest session.
    pub open spec fn current_item_rows(self, table_id: Seq<char>, item: Seq<char>) -> Seq<
        ItemView,
    > {
        self.items.filter(item_named(table_id, item, latest_opened_at(self.tablet, table_id)))
    }

    /// The row for `item` in the table's latest session, when there is
    /// exactly one.
    pub open spec fn current_item(self, table_id: Seq<char>, item: Seq<char>) -> Option<
        ItemView,
    > {
        sole(self.current_item_rows(table_id, item))
    }

    /// The items of the session of `table_id` opened at `opened_at`.
    pub open spec fn session_items(self, table_id: Seq<char>, opened_at: Timestamp) -> Seq<
        ItemView,
    > {
        self.items.filter(item_in(table_id, Some(opened_at)))
    }
}

/// `latest_opened_at` is the greatest `opened_at` of the table's sessions:
/// some session of the table has it, and none has a later one. It is absent
/// exactly when the table has no session.
pub proof fn lemma_latest_opened_at(tablet: Seq<SessionView>, table_id: Seq<char>)
    ensures
        match latest_opened_at(tablet, table_id) {
            Some(t) => {
                &&& exists|i: int|
                    0 <= i < tablet.len() && tablet[i].table_id == table_id
                        && #[trigger] tablet[i].opened_at == t
                &&& forall|i: int|
                    0 <= i < tablet.len() && tablet[i].table_id == table_id
                        ==> (#[trigger] tablet[i]).opened_at.nanos <= t.nanos
            },
            None => forall|i: int|
                0 <= i < tablet.len() ==> (#[trigger] tablet[i]).table_id != table_id,
        },
    decreases tablet.len(),
{
    if tablet.len() > 0 {
        let front = tablet.drop_last();
        lemma_latest_opened_at(front, table_id);
        let earlier = latest_opened_at(front, table_id);
        let n = tablet.len() - 1;
        assert(forall|i: int| 0 <= i < n ==> front[i] == tablet[i]);
        match latest_opened_at(tablet, table_id) {
            Some(t) => {
                if tablet.last().table_id == table_id && t == tablet.last().opened_at {
                    assert(tablet[n].opened_at == t);
                } else {
                    let i = choose|i: int|
                        0 <= i < front.len() && front[i].table_id == table_id
                            && #[trigger] front[i].opened_at == t;
                    assert(tablet[i].opened_at == t);
                }
                assert forall|i: int|
                    0 <= i < tablet.len() && tablet[i].table_id == table_id implies (
                #[trigger] tablet[i]).opened_at.nanos <= t.nanos by {
                    if i < n {
                        assert(front[i] == tablet[i]);
                    }
                }
            },
            None => {
                assert forall|i: int| 0 <= i < tablet.len() implies (
                #[trigger] tablet[i]).table_id != table_id by {
                    if i < n {
                        assert(front[i] == tablet[i]);
                    }
                }
            },
        }
    }
}

/// One step of a scan: the matches among the first `i + 1` rows are those
/// among the first `i`, and row `i` too when it matches.
pub proof fn lemma_filter_step<A>(rows: Seq<A>, pred: spec_fn(A) -> bool, i: int)
    requires
        0 <= i < rows.len(),
    ensures
        rows.take(i + 1).filter(pred) == if pred(rows[i]) {
            rows.take(i).filter(pred).push(rows[i])
        } else {
            rows.take(i).filter(pred)
        },
{
    reveal(Seq::filter);
    assert(rows.take(i + 1).drop_last() =~= rows.take(i));
}

/// Every item but the rows for `item` of `table_id` in the session opened at
/// `created_at` that are still `New`.
pub open spec fn not_new_item(table_id: Seq<char>, item: Seq<char>, created_at: Timestamp)
    -> spec_fn(ItemView) -> bool {
    |r: ItemView|
        !(r.table_id == table_id && r.item == item && r.created_at == created_at && r.status
            == ItemStatus::New)
}

/// Gives the rows for `item` of `table_id` in the session opened at
/// `created_at` a new amount, and leaves the other rows as they are.
pub open spec fn with_amount(
    table_id: Seq<char>,
    item: Seq<char>,
    created_at: Option<Timestamp>,
    updated_at: Timestamp,
    amount: i32,
) -> spec_fn(ItemView) -> ItemView {
    |r: ItemView|
        if item_named(table_id, item, created_at)(r) {
            ItemView { updated_at, amount, ..r }
        } else {
            r
        }
}

/// Gives the rows for `item` of `table_id` in the session opened at
/// `created_at` a new status, and leaves the other rows as they are.
pub open spec fn with_status(
    table_id: Seq<char>,
    item: Seq<char>,
    created_at: Option<Timestamp>,
    updated_at: Timestamp,
    status: ItemStatus,
) -> spec_fn(ItemView) -> ItemView {
    |r: ItemView|
        if item_named(table_id, item, created_at)(r) {
            ItemView { updated_at, status, ..r }
        } else {
            r
        }
}

impl Store {
    /// A store with no rows.
    pub fn new() -> (s: Store)
        ensures
            s@.tablet.len() == 0,
            s@.items.len() == 0,
            s@.item_history.len() == 0,
    {
        Store { tablet: Vec::new(), items: Vec::new(), item_history: Vec::new() }
    }

    /// The greatest `opened_at` among the sessions of `table_id`.
    pub fn latest_opened_at(&self, table_id: &String) -> (r: Option<Timestamp>)
        ensures
            r == latest_opened_at(self@.tablet, table_id@),
    {
        let ghost rows = self@.tablet;
        let mut best: Option<Timestamp> = None;
        let mut i: usize = 0;
        while i < self.tablet.len()
            invariant
                i <= self.tablet.len(),
                rows == self@.tablet,
                best == latest_opened_at(rows.take(i as int), table_id@),
            decreases self.tablet.len() - i,
        {
            assert(rows.take(i as int + 1).drop_last() =~= rows.take(i as int));
            assert(rows[i as int] == self.tablet@[i as int]@);
            let row = &self.tablet[i];
            if row.table_id == *table_id {
                best = match best {
                    Some(b) => if b.nanos >= row.opened_at.nanos {
                        Some(b)
                    } else {
                        Some(row.opened_at)
                    },
                    None => Some(row.opened_at),
                };
            }
            i += 1;
        }
        assert(rows.take(self.tablet.len() as int) =~= rows);
        best
    }

    /// True when `t` is later than every session that the table has had: the
    /// time of an order that opens the table's next session has to be.
    pub fn is_later_than_all(&self, table_id: &String, t: Timestamp) -> (b: bool)
        ensures
            b == later_than_all(self@.tablet, table_id@, t),
    {
        match self.latest_opened_at(table_id) {
            Some(latest) => t.is_after(&latest),
            None => true,
        }
    }

    /// The table's current session, as `StoreView::current_session` defines
    /// it.
    pub fn current_session(&self, table_id: &String) -> (r: Option<TableSession>)
        ensures
            match r {
                Some(row) => self@.current_session(table_id@) == Some(row@),
                None => self@.current_session(table_id@) is None,
            },
    {
        let latest = self.latest_opened_at(table_id);
        let ghost rows = self@.tablet;
        let ghost pred = session_at(table_id@, latest);
        let mut found: Option<usize> = None;
        let mut count: usize = 0;
        let mut i: usize = 0;
        while i < self.tablet.len()
            invariant
                i <= self.tablet.len(),
                rows == self@.tablet,
                pred == session_at(table_id@, latest),
                count == rows.take(i as int).filter(pred).len(),
                count <= i,
                count > 0 ==> found is Some,
                found matches Some(k) ==> k < i && rows.take(i as int).filter(pred)[0]
                    == rows[k as int] && count > 0,
            decreases self.tablet.len() - i,
        {
            proof {
                lemma_filter_step(rows, pred, i as int);
            }
            assert(rows[i as int] == self.tablet@[i as int]@);
            let row = &self.tablet[i];
            let hit = row.table_id == *table_id && match latest {
                Some(t) => t.nanos == row.opened_at.nanos,
                None => false,
            };
            assert(hit == pred(rows[i as int]));
            if hit {
                if count == 0 {
                    found = Some(i);
                }
                count += 1;
            }
            i += 1;
        }
        assert(rows.take(self.tablet.len() as int) =~= rows);
        match found {
            Some(k) => {
                if count == 1 {
                    Some(self.tablet[k].clone())
                } else {
                    None
                }
            },
            None => None,
        }
    }

    /// The items of `table_id` in the session opened at `created_at`, in
    /// insertion order.
    pub fn items_of(&self, table_id: &String, created_at: Option<Timestamp>) -> (found: Vec<Item>)
        ensures
            items_view(found@) == self@.items.filter(item_in(table_id@, created_at)),
    {
        let ghost rows = self@.items;
        let ghost pred = item_in(table_id@, created_at);
        let mut found: Vec<Item> = Vec::new();
        let mut i: usize = 0;
        while i < self.items.len()
            invariant
                i <= self.items.len(),
                rows == self@.items,
                pred == item_in(table_id@, created_at),
                items_view(found@) == rows.take(i as int).filter(pred),
            decreases self.items.len() - i,
        {
            proof {
                lemma_filter_step(rows, pred, i as int);
            }
            assert(rows[i as int] == self.items@[i as int]@);
            let row = &self.items[i];
            let hit = row.table_id == *table_id && match created_at {
                Some(t) => t.nanos == row.created_at.nanos,
                None => false,
            };
            assert(hit == pred(rows[i as int]));
            if hit {
                let ghost before = items_view(found@);
                found.push(row.clone());
                assert(items_view(found@) =~= before.push(rows[i as int]));
            }
            i += 1;
        }
        assert(rows.take(self.items.len() as int) =~= rows);
        found
    }

    /// The rows for `item` of `table_id` in the session opened at
    /// `created_at`, in insertion order.
    pub fn item_rows_of(&self, table_id: &String, item: &String, created_at: Option<Timestamp>)
        -> (found: Vec<Item>)
        ensures
            items_view(found@) == self@.items.filter(item_named(table_id@, item@, created_at)),
    {
        let ghost rows = self@.items;
        let ghost pred = item_named(table_id@, item@, created_at);
        let mut found: Vec<Item> = Vec::new();
        let mut i: usize = 0;
        while i < self.items.len()
            invariant
                i <= self.items.len(),
                rows == self@.items,
                pred == item_named(table_id@, item@, created_at),
                items_view(found@) == rows.take(i as int).filter(pred),
            decreases self.items.len() - i,
        {
            proof {
                lemma_filter_step(rows, pred, i as int);
            }
            assert(rows[i as int] == self.items@[i as int]@);
            let row = &self.items[i];
            let hit = row.table_id == *table_id && row.item == *item && match created_at {
                Some(t) => t.nanos == row.created_at.nanos,
                None => false,
            };
            assert(hit == pred(rows[i as int]));
            if hit {
                let ghost before = items_view(found@);
                found.push(row.clone());
                assert(items_view(found@) =~= before.push(rows[i as int]));
            }
            i += 1;
        }
        assert(rows.take(self.items.len() as int) =~= rows);
        found
    }

    /// The items of the table's latest session, in insertion order.
    pub fn current_items(&self, table_id: &String) -> (found: Vec<Item>)
        ensures
            items_view(found@) == self@.current_items(table_id@),
    {
        let latest = self.latest_opened_at(table_id);
        self.items_of(table_id, latest)
    }

    /// The rows for `item` in the table's latest session, in insertion
    /// order.
    pub fn current_item_rows(&self, table_id: &String, item: &String) -> (found: Vec<Item>)
        ensures
            items_view(found@) == self@.current_item_rows(table_id@, item@),
    {
        let latest = self.latest_opened_at(table_id);
        self.item_rows_of(table_id, item, latest)
    }

    /// The items of the session of `table_id` opened at `opened_at`, in
    /// insertion order.
    pub fn session_items(&self, table_id: &String, opened_at: Timestamp) -> (found: Vec<Item>)
        ensures
            items_view(found@) == self@.session_items(table_id@, opened_at),
    {
        self.items_of(table_id, Some(opened_at))
    }

    /// The row for `item` in the table's latest session, as
    /// `StoreView::current_item` defines it.
    pub fn current_item(&self, table_id: &String, item: &String) -> (r: Option<Item>)
        ensures
            match r {
                Some(row) => self@.current_item(table_id@, item@) == Some(row@),
                None => self@.current_item(table_id@, item@) is None,
            },
    {
        let mut rows = self.current_item_rows(table_id, item);
        assert(items_view(rows@).len() == rows@.len());
        if rows.len() == 1 {
            assert(items_view(rows@)[0] == rows@[0]@);
            rows.pop()
        } else {
            None
        }
    }

    /// Appends a row to `tablet`.
    pub fn insert_session(&mut self, row: TableSession)
        ensures
            final(self)@ == (StoreView { tablet: old(self)@.tablet.push(row@), ..old(self)@ }),
    {
        self.tablet.push(row);
        assert(self@.tablet =~= old(self)@.tablet.push(row@));
    }

    /// Appends a row to `items`.
    pub fn insert_item(&mut self, row: Item)
        ensures
            final(self)@ == (StoreView { items: old(self)@.items.push(row@), ..old(self)@ }),
    {
        self.items.push(row);
        assert(self@.items =~= old(self)@.items.push(row@));
    }

    /// Appends a row to `item_history`.
    pub fn insert_history(&mut self, row: Item)
        ensures
            final(self)@ == (StoreView {
                item_history: old(self)@.item_history.push(row@),
                ..old(self)@
            }),
    {
        self.item_history.push(row);
        assert(self@.item_history =~= old(self)@.item_history.push(row@));
    }

    /// Removes from `items` the rows for `item` of `table_id` in the session
    /// opened at `created_at` that are still `New`.
    pub fn delete_new_item(&mut self, table_id: &String, item: &String, created_at: Timestamp)
        ensures
            final(self)@ == (StoreView {
                items: old(self)@.items.filter(not_new_item(table_id@, item@, created_at)),
                ..old(self)@
            }),
    {
        let ghost rows = self@.items;
        let ghost keep = not_new_item(table_id@, item@, created_at);
        let mut kept: Vec<Item> = Vec::new();
        let mut i: usize = 0;
        while i < self.items.len()
            invariant
                i <= self.items.len(),
                *self == *old(self),
                rows == self@.items,
                keep == not_new_item(table_id@, item@, created_at),
                items_view(kept@) == rows.take(i as int).filter(keep),
            decreases self.items.len() - i,
        {
            proof {
                lemma_filter_step(rows, keep, i as int);
            }
            assert(rows[i as int] == self.items@[i as int]@);
            let row = &self.items[i];
            let gone = row.table_id == *table_id && row.item == *item && row.created_at.nanos
                == created_at.nanos && match row.status {
                ItemStatus::New => true,
                _ => false,
            };
            assert(gone == !keep(rows[i as int]));
            if !gone {
                let ghost before = items_view(kept@);
                let copy = row.clone();
                kept.push(copy);
                assert(items_view(kept@) =~= before.push(rows[i as int]));
            }
            i += 1;
        }
        assert(rows.take(self.items.len() as int) =~= rows);
        self.items = kept;
    }

    /// Sets `amount` and `updated_at` in the rows for `item` of `table_id` in
    /// the session opened at `created_at`.
    pub fn set_item_amount(
        &mut self,
        table_id: &String,
        item: &String,
        created_at: Option<Timestamp>,
        updated_at: Timestamp,
        amount: i32,
    )
        ensures
            final(self)@ == (StoreView {
                items: old(self)@.items.map_values(
                    with_amount(table_id@, item@, created_at, updated_at, amount),
                ),
                ..old(self)@
            }),
    {
        let ghost rows = self@.items;
        let ghost change = with_amount(table_id@, item@, created_at, updated_at, amount);
        let mut i: usize = 0;
        while i < self.items.len()
            invariant
                i <= self.items.len(),
                self.tablet == old(self).tablet,
                self.item_history == old(self).item_history,
                rows == old(self)@.items,
                self.items@.len() == rows.len(),
                change == with_amount(table_id@, item@, created_at, updated_at, amount),
                forall|j: int| 0 <= j < i ==> (#[trigger] self.items@[j])@ == change(rows[j]),
                forall|j: int| i <= j < rows.len() ==> (#[trigger] self.items@[j])@ == rows[j],
            decreases self.items.len() - i,
        {
            let row = &self.items[i];
            let hit = row.table_id == *table_id && row.item == *item && match created_at {
                Some(t) => t.nanos == row.created_at.nanos,
                None => false,
            };
            assert(hit == item_named(table_id@, item@, created_at)(rows[i as int]));
            if hit {
                self.items[i].updated_at = updated_at;
                self.items[i].amount = amount;
            }
            i += 1;
        }
        assert(self@.items =~= rows.map_values(change));
    }

    /// Sets `status` and `updated_at` in the rows for `item` of `table_id` in
    /// the session opened at `created_at`.
    pub fn set_item_status(
        &mut self,
        table_id: &String,
        item: &String,
        created_at: Option<Timestamp>,
        updated_at: Timestamp,
        status: ItemStatus,
    )
        ensures
            final(self)@ == (StoreView {
                items: old(self)@.items.map_values(
                    with_status(table_id@, item@, created_at, updated_at, status),
                ),
                ..old(self)@
            }),
    {
        let ghost rows = self@.items;
        let ghost change = with_status(table_id@, item@, created_at, updated_at, status);
        let mut i: usize = 0;
        while i < self.items.len()
            invariant
                i <= self.items.len(),
                self.tablet == old(self).tablet,
                self.item_history == old(self).item_history,
                rows == old(self)@.items,
                self.items@.len() == rows.len(),
                change == with_status(table_id@, item@, created_at, updated_at, status),
                forall|j: int| 0 <= j < i ==> (#[trigger] self.items@[j])@ == change(rows[j]),
                forall|j: int| i <= j < rows.len() ==> (#[trigger] self.items@[j])@ == rows[j],
            decreases self.items.len() - i,
        {
            let row = &self.items[i];
            let hit = row.table_id == *table_id && row.item == *item && match created_at {
                Some(t) => t.nanos == row.created_at.nanos,
                None => false,
            };
            assert(hit == item_named(table_id@, item@, created_at)(rows[i as int]));
            if hit {
                self.items[i].updated_at = updated_at;
                self.items[i].status = status;
            }
            i += 1;
        }
        assert(self@.items =~= rows.map_values(change));
    }
}

} // verus!
