use restaurant::kitchen::{CookTask, COOK_TIME_MAX, COOK_TIME_MIN};
use restaurant::message::{
    delete_message, duplicate_message, item_listing, item_update_message, new_order_message,
    no_order_message, place_message, table_listing, update_message,
};
use restaurant::order_type::{
    DeleteOrder, ItemPair, ItemStatus, PlaceOrder, TableStatus, UpdateOrder,
};
use restaurant::cmd::{amount_of_item, status_of_item, status_of_session};
use restaurant::rules::{
    can_delete, closing_time_for, place_is_duplicate, session_accepts_updates, table_status_for,
    Accepted, ItemUpdate,
};
use restaurant::store::{Item, Store, TableSession};
use restaurant::text::{join2, join3, join4, join5};
use restaurant::timestamp::Timestamp;

const T0: i64 = 1_662_921_288_000_000_000;

fn at(secs: i64) -> Timestamp {
    Timestamp::new(T0 + secs * 1_000_000_000)
}

fn pair(name: &str, amount: i32) -> ItemPair {
    ItemPair { name: name.to_string(), amount }
}

fn place_order(secs: i64, table_id: &str, items: Vec<ItemPair>) -> PlaceOrder {
    PlaceOrder { created_at: at(secs), table_id: table_id.to_string(), items }
}

fn session(secs: i64, table_id: &str, status: TableStatus) -> TableSession {
    TableSession { opened_at: at(secs), closed_at: None, table_id: table_id.to_string(), status }
}

fn item(secs: i64, table_id: &str, name: &str, amount: i32, status: ItemStatus) -> Item {
    Item {
        created_at: at(secs),
        updated_at: at(secs),
        table_id: table_id.to_string(),
        item: name.to_string(),
        amount,
        status,
    }
}

fn same_item(a: &Item, b: &Item) -> bool {
    a.created_at == b.created_at
        && a.updated_at == b.updated_at
        && a.table_id == b.table_id
        && a.item == b.item
        && a.amount == b.amount
        && a.status == b.status
}

#[test]
fn place_on_an_empty_store_opens_a_session_and_cooks_the_item() {
    let mut store = Store::new();
    let reply = store.place(place_order(0, "1", vec![pair("A", 2)]));
    assert!(reply.message.contains("New"));
    assert_eq!("New Order! opened_at: 2022-09-11 18:34:48 UTC, table_id: 1", reply.message);
    assert_eq!(1, store.tablet.len());
    assert_eq!(TableStatus::Open, store.tablet[0].status);
    assert_eq!(at(0), store.tablet[0].opened_at);
    assert_eq!(None, store.tablet[0].closed_at);
    assert_eq!("1", store.tablet[0].table_id);
    assert_eq!(1, store.items.len());
    assert!(same_item(&item(0, "1", "A", 2, ItemStatus::Process), &store.items[0]));
    assert_eq!(2, store.item_history.len());
    assert!(same_item(&item(0, "1", "A", 2, ItemStatus::New), &store.item_history[0]));
    assert!(same_item(&item(0, "1", "A", 2, ItemStatus::Process), &store.item_history[1]));
    assert_eq!(1, reply.cooks.len());
    let task = &reply.cooks[0];
    assert_eq!(at(0), task.created_at);
    assert_eq!("1", task.table_id);
    assert_eq!("A", task.item.name);
    assert_eq!(2, task.item.amount);
    assert!(COOK_TIME_MIN <= task.cook_time && task.cook_time <= COOK_TIME_MAX);

    store.cook_order_item(task.created_at, task.table_id.clone(), task.item.clone(), at(9));
    assert_eq!(ItemStatus::Done, store.items[0].status);
    assert_eq!(at(9), store.items[0].updated_at);
    assert_eq!(TableStatus::Close, store.tablet[0].status);
    assert_eq!(Some(at(9)), store.tablet[0].closed_at);
    assert_eq!(3, store.item_history.len());
    assert_eq!(ItemStatus::Done, store.item_history[2].status);
    assert_eq!(at(0), store.item_history[2].created_at);
    assert_eq!(at(9), store.item_history[2].updated_at);
}

#[test]
fn a_second_place_for_a_table_in_service_is_a_duplicate() {
    let mut store = Store::new();
    store.place(place_order(0, "1", vec![pair("A", 2)]));
    let reply = store.place(place_order(1, "1", vec![pair("B", 1)]));
    assert!(reply.message.contains("Duplicated"));
    assert_eq!(
        "Duplicated! There has been an order of table_id: 1, being served in the queue",
        reply.message
    );
    assert!(reply.cooks.is_empty());
    assert_eq!(1, store.tablet.len());
    assert_eq!(1, store.items.len());
    assert_eq!("A", store.items[0].item);
    assert_eq!(2, store.item_history.len());
}

#[test]
fn delete_of_an_item_in_preparation_fails_and_leaves_the_row() {
    let mut store = Store::new();
    store.place(place_order(0, "1", vec![pair("A", 2)]));
    let message = store.delete_at(
        &DeleteOrder { deleted_at: at(3), table_id: "1".to_string(), item: "A".to_string() },
        at(4),
    );
    assert!(message.contains("Failed"));
    assert!(message.contains("cooking"));
    assert_eq!("Delete Order Failed! The item: A of table_id: 1 is cooking", message);
    assert_eq!(1, store.items.len());
    assert!(same_item(&item(0, "1", "A", 2, ItemStatus::Process), &store.items[0]));
    assert_eq!(2, store.item_history.len());
    assert_eq!(TableStatus::Open, store.tablet[0].status);
    assert_eq!(None, store.tablet[0].closed_at);
}

#[test]
fn a_query_for_a_table_without_orders_says_so() {
    let store = Store::new();
    let answer = store.query_by_tableid("no-such-table".to_string());
    assert!(answer.contains("No Order"));
    assert_eq!("No Order of table id: no-such-table", answer);
    assert_eq!(
        "No Order of table id: no-such-table",
        store.query_by_tableid_and_item("no-such-table".to_string(), "A".to_string())
    );
}

#[test]
fn reconciliation_is_idempotent() {
    let mut store = Store::new();
    store.insert_session(session(0, "1", TableStatus::Open));
    store.insert_item(item(0, "1", "A", 1, ItemStatus::Done));
    store.update_table_status_at(&"1".to_string(), at(0), at(5));
    assert_eq!(TableStatus::Close, store.tablet[0].status);
    assert_eq!(Some(at(5)), store.tablet[0].closed_at);
    store.update_table_status_at(&"1".to_string(), at(0), at(5));
    assert_eq!(TableStatus::Close, store.tablet[0].status);
    assert_eq!(Some(at(5)), store.tablet[0].closed_at);
    store.update_table_status_at(&"1".to_string(), at(0), at(6));
    assert_eq!(TableStatus::Close, store.tablet[0].status);
    assert_eq!(Some(at(5)), store.tablet[0].closed_at);

    let mut open = Store::new();
    open.insert_session(session(0, "1", TableStatus::Open));
    open.insert_item(item(0, "1", "A", 1, ItemStatus::Process));
    open.update_table_status_at(&"1".to_string(), at(0), at(5));
    open.update_table_status_at(&"1".to_string(), at(0), at(6));
    assert_eq!(TableStatus::Open, open.tablet[0].status);
    assert_eq!(None, open.tablet[0].closed_at);
}

#[test]
fn reconciliation_touches_only_the_session_it_is_given() {
    let mut store = Store::new();
    store.insert_session(session(0, "1", TableStatus::Open));
    store.insert_session(session(0, "2", TableStatus::Open));
    store.insert_session(session(7, "1", TableStatus::Open));
    store.insert_item(item(7, "1", "A", 1, ItemStatus::New));
    store.update_table_status_at(&"1".to_string(), at(0), at(9));
    assert_eq!(TableStatus::Close, store.tablet[0].status);
    assert_eq!(Some(at(9)), store.tablet[0].closed_at);
    assert_eq!(TableStatus::Open, store.tablet[1].status);
    assert_eq!(None, store.tablet[1].closed_at);
    assert_eq!(TableStatus::Open, store.tablet[2].status);
    assert_eq!(None, store.tablet[2].closed_at);
    store.update_table_status_at(&"3".to_string(), at(0), at(9));
    assert_eq!(3, store.tablet.len());
}

#[test]
fn reconciliation_opens_a_closed_session_that_has_work_left() {
    let mut store = Store::new();
    let mut closed = session(0, "1", TableStatus::Close);
    closed.closed_at = Some(at(1));
    store.insert_session(closed);
    store.insert_item(item(0, "1", "A", 1, ItemStatus::New));
    store.update_table_status_at(&"1".to_string(), at(0), at(9));
    assert_eq!(TableStatus::Open, store.tablet[0].status);
    assert_eq!(Some(at(1)), store.tablet[0].closed_at);
}

#[test]
fn the_session_closes_when_its_last_item_is_done() {
    let mut store = Store::new();
    let reply = store.place(place_order(0, "1", vec![pair("A", 2), pair("B", 3)]));
    assert_eq!(2, reply.cooks.len());
    assert_eq!("B", reply.cooks[1].item.name);
    store.cook_order_item(at(0), "1".to_string(), pair("A", 2), at(6));
    assert_eq!(TableStatus::Open, store.tablet[0].status);
    assert_eq!(None, store.tablet[0].closed_at);
    store.cook_order_item(at(0), "1".to_string(), pair("B", 3), at(8));
    assert_eq!(TableStatus::Close, store.tablet[0].status);
    assert_eq!(Some(at(8)), store.tablet[0].closed_at);
    assert_eq!(ItemStatus::Done, store.items[0].status);
    assert_eq!(ItemStatus::Done, store.items[1].status);
}

#[test]
fn delete_of_a_new_item_removes_it_and_records_the_deletion() {
    let mut store = Store::new();
    store.insert_session(session(0, "1", TableStatus::Open));
    store.insert_item(item(0, "1", "A", 2, ItemStatus::New));
    store.insert_item(item(0, "1", "B", 1, ItemStatus::Process));
    let message = store.delete_at(
        &DeleteOrder { deleted_at: at(3), table_id: "1".to_string(), item: "A".to_string() },
        at(4),
    );
    assert_eq!("Delete Order Successed! item: A of table_id: 1 deleted", message);
    assert_eq!(1, store.items.len());
    assert_eq!("B", store.items[0].item);
    assert_eq!(1, store.item_history.len());
    let gone = &store.item_history[0];
    assert_eq!(ItemStatus::Deleted, gone.status);
    assert_eq!(at(0), gone.created_at);
    assert_eq!(at(3), gone.updated_at);
    assert_eq!("1", gone.table_id);
    assert_eq!("A", gone.item);
    assert_eq!(2, gone.amount);
    assert_eq!(TableStatus::Open, store.tablet[0].status);
}

#[test]
fn delete_of_the_last_item_closes_the_session() {
    let mut store = Store::new();
    store.insert_session(session(0, "1", TableStatus::Open));
    store.insert_item(item(0, "1", "A", 2, ItemStatus::New));
    store.delete_at(
        &DeleteOrder { deleted_at: at(3), table_id: "1".to_string(), item: "A".to_string() },
        at(4),
    );
    assert!(store.items.is_empty());
    assert_eq!(TableStatus::Close, store.tablet[0].status);
    assert_eq!(Some(at(4)), store.tablet[0].closed_at);
}

#[test]
fn delete_fails_for_every_state_but_new() {
    let order = DeleteOrder { deleted_at: at(3), table_id: "1".to_string(), item: "A".to_string() };
    let cases = [
        (ItemStatus::Process, "Delete Order Failed! The item: A of table_id: 1 is cooking"),
        (ItemStatus::Done, "Delete Order Failed! The item: A of table_id: 1 was done"),
        (ItemStatus::Deleted, "Delete Order Failed! The item: A of table_id: 1 was deleted"),
    ];
    for (status, expected) in cases {
        let mut store = Store::new();
        store.insert_session(session(0, "1", TableStatus::Open));
        store.insert_item(item(0, "1", "A", 2, status));
        let message = store.delete_at(&order, at(4));
        assert_eq!(expected, message);
        assert_eq!(1, store.items.len());
        assert!(same_item(&item(0, "1", "A", 2, status), &store.items[0]));
        assert!(store.item_history.is_empty());
        assert_eq!(TableStatus::Open, store.tablet[0].status);
        assert_eq!(None, store.tablet[0].closed_at);
    }
    let mut store = Store::new();
    store.insert_session(session(0, "1", TableStatus::Open));
    assert_eq!("Delete Order Failed! No item: A of table_id: 1", store.delete_at(&order, at(4)));
    assert_eq!(TableStatus::Open, store.tablet[0].status);
}

#[test]
fn delete_looks_in_the_latest_session_only() {
    let mut store = Store::new();
    let mut old = session(0, "1", TableStatus::Close);
    old.closed_at = Some(at(1));
    store.insert_session(old);
    store.insert_item(item(0, "1", "A", 2, ItemStatus::New));
    store.insert_session(session(5, "1", TableStatus::Open));
    let order = DeleteOrder { deleted_at: at(6), table_id: "1".to_string(), item: "A".to_string() };
    assert_eq!("Delete Order Failed! No item: A of table_id: 1", store.delete_at(&order, at(7)));
    assert_eq!(1, store.items.len());
}

#[test]
fn an_update_for_an_absent_item_accepts_it_as_place_does() {
    let mut placed = Store::new();
    placed.place(place_order(0, "1", vec![pair("A", 2)]));

    let mut updated = Store::new();
    updated.insert_session(session(0, "1", TableStatus::Open));
    let reply = updated.update_order_item(at(0), at(0), "1".to_string(), pair("A", 2));
    assert_eq!(ItemUpdate::Added, reply.outcome);
    assert_eq!("Update Item Successed! New item: A added to the table_id: 1", reply.message);
    let task = reply.cook.unwrap();
    assert_eq!(at(0), task.created_at);
    assert_eq!("1", task.table_id);
    assert_eq!("A", task.item.name);
    assert!(COOK_TIME_MIN <= task.cook_time && task.cook_time <= COOK_TIME_MAX);

    assert_eq!(placed.items.len(), updated.items.len());
    assert!(same_item(&placed.items[0], &updated.items[0]));
    assert_eq!(placed.item_history.len(), updated.item_history.len());
    assert!(same_item(&placed.item_history[0], &updated.item_history[0]));
    assert!(same_item(&placed.item_history[1], &updated.item_history[1]));
}

#[test]
fn an_update_changes_the_amount_of_a_new_item_only() {
    let mut store = Store::new();
    store.insert_session(session(0, "1", TableStatus::Open));
    store.insert_item(item(0, "1", "A", 2, ItemStatus::New));
    store.insert_item(item(0, "1", "B", 2, ItemStatus::Process));
    store.insert_item(item(0, "1", "C", 2, ItemStatus::Done));
    store.insert_item(item(0, "1", "D", 2, ItemStatus::Deleted));
    let reply = store.update(UpdateOrder {
        updated_at: at(2),
        table_id: "1".to_string(),
        items: vec![pair("A", 8), pair("B", 8), pair("C", 8), pair("D", 8), pair("E", 8)],
    });
    assert_eq!("Update Order Successed! table_id: 1", reply.message);
    assert_eq!(5, store.items.len());
    assert_eq!(8, store.items[0].amount);
    assert_eq!(at(2), store.items[0].updated_at);
    assert_eq!(ItemStatus::New, store.items[0].status);
    for k in 1..4 {
        assert_eq!(2, store.items[k].amount);
        assert_eq!(at(0), store.items[k].updated_at);
    }
    assert!(same_item(
        &Item { updated_at: at(2), ..item(0, "1", "E", 8, ItemStatus::Process) },
        &store.items[4]
    ));
    assert_eq!(3, store.item_history.len());
    assert!(same_item(
        &Item { updated_at: at(2), ..item(0, "1", "A", 8, ItemStatus::New) },
        &store.item_history[0]
    ));
    assert_eq!(ItemStatus::New, store.item_history[1].status);
    assert_eq!(ItemStatus::Process, store.item_history[2].status);
    assert_eq!(1, reply.cooks.len());
    assert_eq!("E", reply.cooks[0].item.name);
    assert_eq!(8, reply.cooks[0].item.amount);
    assert_eq!(at(0), reply.cooks[0].created_at);
}

#[test]
fn an_update_is_turned_away_without_an_open_session() {
    let mut store = Store::new();
    let order = || UpdateOrder {
        updated_at: at(2),
        table_id: "1".to_string(),
        items: vec![pair("A", 8)],
    };
    let reply = store.update(order());
    assert_eq!("Update Order Failed! Non-existent table_id: 1", reply.message);
    assert!(reply.cooks.is_empty());
    assert!(store.items.is_empty());
    store.insert_session(session(0, "1", TableStatus::Close));
    let reply = store.update(order());
    assert_eq!(
        "Update Order Failed! table_id: 1 was done. Please launch a new order",
        reply.message
    );
    assert!(reply.cooks.is_empty());
    assert!(store.items.is_empty());
    assert!(store.item_history.is_empty());
}

#[test]
fn a_line_of_an_update_reports_how_it_ended() {
    let cases = [
        (
            ItemStatus::New,
            ItemUpdate::Amended,
            "Update Item Successed! The item: A of table_id: 1 amount: 2 -> 8",
        ),
        (
            ItemStatus::Process,
            ItemUpdate::Cooking,
            "Update Item Failed! The item: A of table_id: 1 is cooking",
        ),
        (
            ItemStatus::Done,
            ItemUpdate::Served,
            "Update Item Failed! The item: A of table_id: 1 was done",
        ),
        (
            ItemStatus::Deleted,
            ItemUpdate::Removed,
            "Update Item Failed! The item: A of table_id: 1 was deleted",
        ),
    ];
    for (status, outcome, message) in cases {
        let mut store = Store::new();
        store.insert_session(session(0, "1", TableStatus::Open));
        store.insert_item(item(0, "1", "A", 2, status));
        let reply = store.update_order_item(at(0), at(2), "1".to_string(), pair("A", 8));
        assert_eq!(outcome, reply.outcome);
        assert_eq!(message, reply.message);
        assert!(reply.cook.is_none());
    }
    let mut store = Store::new();
    store.insert_session(session(0, "1", TableStatus::Close));
    let reply = store.update_order_item(at(0), at(2), "1".to_string(), pair("A", 8));
    assert_eq!(ItemUpdate::SessionNotOpen, reply.outcome);
    assert_eq!("Update Item Failed! The item: A of table_id: 1 has no open order", reply.message);
    assert!(reply.cook.is_none());
    assert!(store.items.is_empty());
    let mut store = Store::new();
    store.insert_session(session(0, "1", TableStatus::Open));
    let reply = store.update_order_item(at(1), at(2), "1".to_string(), pair("A", 8));
    assert_eq!(ItemUpdate::SessionNotOpen, reply.outcome);
    assert!(store.items.is_empty());
}

#[test]
fn place_after_a_closed_session_opens_a_new_one() {
    let mut store = Store::new();
    let mut closed = session(0, "1", TableStatus::Close);
    closed.closed_at = Some(at(1));
    store.insert_session(closed);
    store.insert_item(item(0, "1", "A", 2, ItemStatus::Done));
    let reply = store.place(place_order(5, "1", vec![pair("B", 8)]));
    assert_eq!("New Order! opened_at: 2022-09-11 18:34:53 UTC, table_id: 1", reply.message);
    assert_eq!(2, store.tablet.len());
    assert_eq!(TableStatus::Close, store.tablet[0].status);
    assert_eq!(TableStatus::Open, store.tablet[1].status);
    assert_eq!(at(5), store.tablet[1].opened_at);
    assert_eq!(2, store.items.len());
    assert_eq!(at(5), store.items[1].created_at);
    let current = store.current_session(&"1".to_string()).unwrap();
    assert_eq!(at(5), current.opened_at);
    assert_eq!(Some(at(5)), store.latest_opened_at(&"1".to_string()));
    assert_eq!(None, store.latest_opened_at(&"2".to_string()));
    assert!(store.is_later_than_all(&"1".to_string(), at(6)));
    assert!(!store.is_later_than_all(&"1".to_string(), at(5)));
    assert!(!store.is_later_than_all(&"1".to_string(), at(2)));
    assert!(store.is_later_than_all(&"2".to_string(), at(0)));
}

#[test]
fn a_table_whose_latest_sessions_tie_has_no_current_session() {
    let mut store = Store::new();
    store.insert_session(session(0, "1", TableStatus::Open));
    store.insert_session(session(0, "1", TableStatus::Open));
    assert!(store.current_session(&"1".to_string()).is_none());
    let reply = store.place(place_order(3, "1", vec![]));
    assert!(reply.message.contains("New"));
    assert!(reply.cooks.is_empty());
    assert_eq!(3, store.tablet.len());
    assert!(store.items.is_empty());
}

#[test]
fn an_item_with_two_rows_is_not_found_as_one() {
    let mut store = Store::new();
    store.insert_session(session(0, "1", TableStatus::Open));
    store.insert_item(item(0, "1", "A", 2, ItemStatus::New));
    store.insert_item(item(0, "1", "A", 3, ItemStatus::New));
    assert!(store.current_item(&"1".to_string(), &"A".to_string()).is_none());
    assert!(store.current_item(&"1".to_string(), &"B".to_string()).is_none());
    store.insert_item(item(0, "1", "B", 3, ItemStatus::Done));
    let found = store.current_item(&"1".to_string(), &"B".to_string()).unwrap();
    assert!(same_item(&item(0, "1", "B", 3, ItemStatus::Done), &found));
}

#[test]
fn a_query_lists_the_items_of_the_latest_session() {
    let mut store = Store::new();
    store.insert_session(session(0, "1", TableStatus::Close));
    store.insert_item(item(0, "1", "Z", 9, ItemStatus::Done));
    store.insert_session(session(5, "1", TableStatus::Open));
    store.insert_item(item(5, "1", "A", 2, ItemStatus::New));
    store.insert_item(item(5, "2", "C", 4, ItemStatus::New));
    store.insert_item(item(5, "1", "B", -10, ItemStatus::Process));
    assert_eq!(
        "{ queried_at: now, table_id: 1, items: [ { item: A, amount: 2, status: New },{ item: B, \
         amount: -10, status: Process },] }",
        store.query_by_tableid_with(&"1".to_string(), "now")
    );
    assert_eq!(
        "{ queried_at: now, table_id: 1, item: B, amount: -10, item_status: Process }",
        store.query_by_tableid_and_item_with(&"1".to_string(), &"B".to_string(), "now")
    );
    assert_eq!(
        "No Order of table id: 1",
        store.query_by_tableid_and_item_with(&"1".to_string(), &"Z".to_string(), "now")
    );
    assert_eq!("No Order of table id: 3", store.query_by_tableid_with(&"3".to_string(), "now"));
    let answer = store.query_by_tableid("1".to_string());
    assert!(answer.starts_with("{ queried_at: "));
    assert!(answer.contains(" UTC, table_id: 1, items: [ { item: A, amount: 2, status: New },"));
}

#[test]
fn a_status_update_changes_the_rows_of_the_latest_session() {
    let mut store = Store::new();
    store.insert_session(session(0, "1", TableStatus::Open));
    store.insert_item(item(0, "1", "A", 2, ItemStatus::Process));
    store.insert_item(item(0, "1", "B", 2, ItemStatus::Process));
    store.insert_item(item(0, "2", "A", 2, ItemStatus::Process));
    store.update_item_status_at(
        at(0),
        at(3),
        &"1".to_string(),
        &pair("A", 2),
        ItemStatus::Done,
        at(4),
    );
    assert_eq!(ItemStatus::Done, store.items[0].status);
    assert_eq!(at(3), store.items[0].updated_at);
    assert_eq!(ItemStatus::Process, store.items[1].status);
    assert_eq!(ItemStatus::Process, store.items[2].status);
    assert_eq!(1, store.item_history.len());
    assert!(same_item(
        &Item { updated_at: at(3), ..item(0, "1", "A", 2, ItemStatus::Done) },
        &store.item_history[0]
    ));
    assert_eq!(TableStatus::Open, store.tablet[0].status);
}

#[test]
fn a_status_update_for_a_vanished_row_still_reconciles() {
    let mut store = Store::new();
    store.insert_session(session(0, "1", TableStatus::Open));
    store.update_item_status_at(
        at(0),
        at(3),
        &"1".to_string(),
        &pair("A", 2),
        ItemStatus::Done,
        at(4),
    );
    assert!(store.items.is_empty());
    assert_eq!(1, store.item_history.len());
    assert_eq!(TableStatus::Close, store.tablet[0].status);
    assert_eq!(Some(at(4)), store.tablet[0].closed_at);
}

#[test]
fn the_store_writes_change_the_rows_they_name() {
    let mut store = Store::new();
    store.insert_session(session(0, "1", TableStatus::Open));
    store.insert_session(session(0, "2", TableStatus::Open));
    store.insert_item(item(0, "1", "A", 2, ItemStatus::New));
    store.insert_item(item(0, "1", "A", 2, ItemStatus::Done));
    store.insert_item(item(0, "1", "B", 2, ItemStatus::New));
    store.insert_item(item(1, "1", "A", 2, ItemStatus::New));
    store.set_item_amount(&"1".to_string(), &"A".to_string(), Some(at(0)), at(2), 5);
    assert_eq!(5, store.items[0].amount);
    assert_eq!(5, store.items[1].amount);
    assert_eq!(2, store.items[2].amount);
    assert_eq!(2, store.items[3].amount);
    store.set_item_amount(&"1".to_string(), &"A".to_string(), None, at(2), 6);
    assert_eq!(5, store.items[0].amount);
    store.set_item_status(&"1".to_string(), &"B".to_string(), Some(at(0)), at(2), ItemStatus::Done);
    assert_eq!(ItemStatus::Done, store.items[2].status);
    assert_eq!(at(2), store.items[2].updated_at);
    assert_eq!(ItemStatus::New, store.items[0].status);
    store.delete_new_item(&"1".to_string(), &"A".to_string(), at(0));
    assert_eq!(3, store.items.len());
    assert_eq!(ItemStatus::Done, store.items[0].status);
    assert_eq!("B", store.items[1].item);
    assert_eq!(at(1), store.items[2].created_at);
    assert_eq!(1, store.session_items(&"1".to_string(), at(1)).len());
    assert_eq!(2, store.session_items(&"1".to_string(), at(0)).len());
    assert_eq!(0, store.session_items(&"2".to_string(), at(0)).len());
    assert_eq!(TableStatus::Open, table_status_for(&store.session_items(&"1".to_string(), at(1))));
    assert_eq!(TableStatus::Close, table_status_for(&store.session_items(&"1".to_string(), at(0))));
    assert_eq!(TableStatus::Close, table_status_for(&store.session_items(&"2".to_string(), at(0))));
}

#[test]
fn the_replies_are_worded_as_the_server_words_them() {
    assert_eq!("ab", join2("a", "b"));
    assert_eq!("abc", join3("a", "b", "c"));
    assert_eq!("abcd", join4("a", "b", "c", "d"));
    assert_eq!("abcde", join5("a", "b", "c", "d", "e"));
    assert_eq!(
        "Duplicated! There has been an order of table_id: 12, being served in the queue",
        duplicate_message("12")
    );
    assert_eq!("New Order! opened_at: then, table_id: 12", new_order_message("then", "12"));
    assert_eq!("No Order of table id: 12", no_order_message("12"));
    assert_eq!("New Order! opened_at: then, table_id: 12", place_message(None, "then", "12"));
    assert_eq!(
        "New Order! opened_at: then, table_id: 12",
        place_message(Some(TableStatus::Close), "then", "12")
    );
    assert_eq!(
        "Duplicated! There has been an order of table_id: 12, being served in the queue",
        place_message(Some(TableStatus::Open), "then", "12")
    );
    assert_eq!("Delete Order Failed! No item: A of table_id: 1", delete_message(None, "A", "1"));
    assert_eq!(
        "Delete Order Successed! item: A of table_id: 1 deleted",
        delete_message(Some(ItemStatus::New), "A", "1")
    );
    assert_eq!(
        "Delete Order Failed! The item: A of table_id: 1 is cooking",
        delete_message(Some(ItemStatus::Process), "A", "1")
    );
    assert_eq!(
        "Delete Order Failed! The item: A of table_id: 1 was done",
        delete_message(Some(ItemStatus::Done), "A", "1")
    );
    assert_eq!(
        "Delete Order Failed! The item: A of table_id: 1 was deleted",
        delete_message(Some(ItemStatus::Deleted), "A", "1")
    );
    assert_eq!("Update Order Failed! Non-existent table_id: 4", update_message(None, "4"));
    assert_eq!(
        "Update Order Successed! table_id: 4",
        update_message(Some(TableStatus::Open), "4")
    );
    assert_eq!(
        "Update Order Failed! table_id: 4 was done. Please launch a new order",
        update_message(Some(TableStatus::Close), "4")
    );
    assert_eq!(
        "Update Item Successed! The item: A of table_id: 1 amount: -3 -> 12",
        item_update_message(ItemUpdate::Amended, -3, "1", &pair("A", 12))
    );
}

#[test]
fn a_cook_task_takes_between_five_and_fifteen_seconds() {
    assert_eq!(5, COOK_TIME_MIN);
    assert_eq!(15, COOK_TIME_MAX);
    let mut seen = [false; 16];
    for _ in 0..2000 {
        let task = CookTask::draw(at(0), &"1".to_string(), &pair("A", 2));
        assert!(5 <= task.cook_time && task.cook_time <= 15);
        assert_eq!(at(0), task.created_at);
        assert_eq!("1", task.table_id);
        assert_eq!("A", task.item.name);
        assert_eq!(2, task.item.amount);
        seen[task.cook_time as usize] = true;
    }
    assert!(seen[5..].iter().filter(|s| **s).count() > 1);
}

#[test]
fn the_rules_decide_by_the_state_that_was_found() {
    assert!(place_is_duplicate(Some(TableStatus::Open)));
    assert!(!place_is_duplicate(Some(TableStatus::Close)));
    assert!(!place_is_duplicate(None));
    assert!(can_delete(Some(ItemStatus::New)));
    assert!(!can_delete(Some(ItemStatus::Process)));
    assert!(!can_delete(Some(ItemStatus::Done)));
    assert!(!can_delete(Some(ItemStatus::Deleted)));
    assert!(!can_delete(None));
    assert_eq!(ItemUpdate::Added, ItemUpdate::decide(true, None));
    assert_eq!(ItemUpdate::Amended, ItemUpdate::decide(true, Some(ItemStatus::New)));
    assert_eq!(ItemUpdate::Cooking, ItemUpdate::decide(true, Some(ItemStatus::Process)));
    assert_eq!(ItemUpdate::Served, ItemUpdate::decide(true, Some(ItemStatus::Done)));
    assert_eq!(ItemUpdate::Removed, ItemUpdate::decide(true, Some(ItemStatus::Deleted)));
    assert_eq!(ItemUpdate::SessionNotOpen, ItemUpdate::decide(false, None));
    assert_eq!(ItemUpdate::SessionNotOpen, ItemUpdate::decide(false, Some(ItemStatus::New)));
    assert!(session_accepts_updates(&Some(session(0, "1", TableStatus::Open)), at(0)));
    assert!(!session_accepts_updates(&Some(session(0, "1", TableStatus::Open)), at(1)));
    assert!(!session_accepts_updates(&Some(session(0, "1", TableStatus::Close)), at(0)));
    assert!(!session_accepts_updates(&None, at(0)));
    let open = session(0, "1", TableStatus::Open);
    let unmarked = session(0, "1", TableStatus::Close);
    let closed = TableSession { closed_at: Some(at(1)), ..session(0, "1", TableStatus::Close) };
    let reopened = TableSession { closed_at: Some(at(1)), ..session(0, "1", TableStatus::Open) };
    assert_eq!(None, closing_time_for(&open, TableStatus::Open, at(3)));
    assert_eq!(Some(at(3)), closing_time_for(&open, TableStatus::Close, at(3)));
    assert_eq!(None, closing_time_for(&unmarked, TableStatus::Open, at(3)));
    assert_eq!(Some(at(3)), closing_time_for(&unmarked, TableStatus::Close, at(3)));
    assert_eq!(Some(at(1)), closing_time_for(&closed, TableStatus::Open, at(3)));
    assert_eq!(Some(at(1)), closing_time_for(&closed, TableStatus::Close, at(3)));
    assert_eq!(Some(at(1)), closing_time_for(&reopened, TableStatus::Open, at(3)));
    assert_eq!(Some(at(3)), closing_time_for(&reopened, TableStatus::Close, at(3)));
    assert_eq!(TableStatus::Close, table_status_for(&vec![]));
    assert_eq!(
        TableStatus::Close,
        table_status_for(&vec![
            item(0, "1", "A", 1, ItemStatus::Done),
            item(0, "1", "B", 1, ItemStatus::Deleted)
        ])
    );
    assert_eq!(
        TableStatus::Open,
        table_status_for(&vec![
            item(0, "1", "A", 1, ItemStatus::Done),
            item(0, "1", "B", 1, ItemStatus::New)
        ])
    );
    assert_eq!(
        TableStatus::Open,
        table_status_for(&vec![item(0, "1", "A", 1, ItemStatus::Process)])
    );
}

#[test]
fn the_rows_of_an_order_are_made_as_the_rules_say() {
    let order = place_order(2, "4", vec![pair("A", 3)]);
    let opened = TableSession::opened(&order);
    assert_eq!(at(2), opened.opened_at);
    assert_eq!(None, opened.closed_at);
    assert_eq!("4", opened.table_id);
    assert_eq!(TableStatus::Open, opened.status);
    let row = Item::accepted(at(2), at(3), &"4".to_string(), &pair("A", 3), ItemStatus::Process);
    assert!(same_item(&Item { updated_at: at(3), ..item(2, "4", "A", 3, ItemStatus::Process) }, &row));
    let rows = Accepted::of(at(2), at(3), &"4".to_string(), &pair("A", 3));
    assert!(same_item(&row, &rows.item));
    assert_eq!(2, rows.history.len());
    assert!(same_item(&Item { status: ItemStatus::New, ..row.clone() }, &rows.history[0]));
    assert!(same_item(&row, &rows.history[1]));
    assert_eq!(Some(TableStatus::Open), status_of_session(&Some(opened.clone())));
    assert_eq!(None, status_of_session(&None));
    assert_eq!(Some(ItemStatus::Process), status_of_item(&Some(row.clone())));
    assert_eq!(None, status_of_item(&None));
    assert_eq!(3, amount_of_item(&Some(row.clone())));
    assert_eq!(0, amount_of_item(&None));
    let gone = row.deleted(at(9));
    assert!(same_item(&Item { updated_at: at(9), ..item(2, "4", "A", 3, ItemStatus::Deleted) }, &gone));
}

#[test]
fn listings_are_worded_from_the_rows_given() {
    let rows = vec![item(0, "1", "A", 2, ItemStatus::New), item(0, "1", "B", 7, ItemStatus::Done)];
    assert_eq!(
        "{ queried_at: now, table_id: 1, items: [ { item: A, amount: 2, status: New },{ item: B, \
         amount: 7, status: Done },] }",
        table_listing("now", "1", &rows)
    );
    assert_eq!("No Order of table id: 1", table_listing("now", "1", &vec![]));
    assert_eq!(
        "{ queried_at: now, table_id: 1, item: A, amount: 2, item_status: New, table_id: 1, item: \
         B, amount: 7, item_status: Done }",
        item_listing("now", "1", &rows)
    );
    assert_eq!("No Order of table id: 1", item_listing("now", "1", &vec![]));
}

#[test]
fn a_closed_session_keeps_its_closing_time() {
    let mut store = Store::new();
    store.insert_session(TableSession {
        closed_at: Some(at(5)),
        ..session(0, "1", TableStatus::Close)
    });
    store.update_table_status_at(&"1".to_string(), at(0), at(9));
    assert_eq!(TableStatus::Close, store.tablet[0].status);
    assert_eq!(Some(at(5)), store.tablet[0].closed_at);

    store.insert_item(item(0, "1", "A", 1, ItemStatus::Done));
    store.update_table_status_at(&"1".to_string(), at(0), at(10));
    assert_eq!(Some(at(5)), store.tablet[0].closed_at);

    store.insert_item(item(0, "1", "B", 1, ItemStatus::Process));
    store.update_table_status_at(&"1".to_string(), at(0), at(11));
    assert_eq!(TableStatus::Open, store.tablet[0].status);
    assert_eq!(Some(at(5)), store.tablet[0].closed_at);
    store.cook_order_item(at(0), "1".to_string(), pair("B", 1), at(12));
    assert_eq!(TableStatus::Close, store.tablet[0].status);
    assert_eq!(Some(at(12)), store.tablet[0].closed_at);
}

#[test]
fn a_closed_session_without_a_closing_time_gets_one() {
    let mut store = Store::new();
    store.insert_session(session(0, "1", TableStatus::Close));
    store.update_table_status_at(&"1".to_string(), at(0), at(9));
    assert_eq!(TableStatus::Close, store.tablet[0].status);
    assert_eq!(Some(at(9)), store.tablet[0].closed_at);
    store.update_table_status_at(&"1".to_string(), at(0), at(10));
    assert_eq!(Some(at(9)), store.tablet[0].closed_at);
}

#[test]
fn a_cook_task_that_ends_after_the_session_closed_leaves_the_closing_time() {
    let mut store = Store::new();
    let reply = store.place(place_order(0, "1", vec![pair("A", 2), pair("A", 2)]));
    assert_eq!(2, reply.cooks.len());
    store.cook_order_item(at(0), "1".to_string(), pair("A", 2), at(6));
    assert_eq!(ItemStatus::Done, store.items[0].status);
    assert_eq!(ItemStatus::Done, store.items[1].status);
    assert_eq!(TableStatus::Close, store.tablet[0].status);
    assert_eq!(Some(at(6)), store.tablet[0].closed_at);
    store.cook_order_item(at(0), "1".to_string(), pair("A", 2), at(8));
    assert_eq!(TableStatus::Close, store.tablet[0].status);
    assert_eq!(Some(at(6)), store.tablet[0].closed_at);
    assert_eq!(at(8), store.items[0].updated_at);
}
