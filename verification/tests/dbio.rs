use restaurant::cmd::Dbio;
use restaurant::order_type::{
    DeleteOrder, ItemPair, ItemStatus, PlaceOrder, TableStatus, UpdateOrder,
};
use restaurant::settings::Settings;
use restaurant::store::{Item, Store, TableSession};
use restaurant::timestamp::Timestamp;

fn session(opened_at: Timestamp, table_id: &str, status: TableStatus) -> TableSession {
    TableSession { opened_at, closed_at: None, table_id: table_id.to_string(), status }
}

fn item(at: Timestamp, table_id: &str, name: &str, amount: i32, status: ItemStatus) -> Item {
    Item {
        created_at: at,
        updated_at: at,
        table_id: table_id.to_string(),
        item: name.to_string(),
        amount,
        status,
    }
}

fn settings() -> Settings {
    Settings::new(
        Some("127.0.0.1".to_string()),
        Some("8080".to_string()),
        Some("postgresql://postgres".to_string()),
        Some("postgres".to_string()),
        Some("127.0.0.1".to_string()),
        Some("5432".to_string()),
        Some("restaurant".to_string()),
    )
}

#[test]
fn test_dbio_new_given_config_provided_when_init_then_inst_generated() {
    let dbio: Dbio = Dbio::new(&settings());
    assert!(dbio.get_db_path().len() > 0);
}

#[test]
fn test_dbio_update_table_status_given_no_items_left_when_executed_then_tablestatus_gets_close() {
    let mut store = Store::new();
    let opened_at = Timestamp::now();
    store.insert_session(session(opened_at, "1", TableStatus::Open));
    store.update_table_status("1".to_string(), opened_at);
    assert_eq!(1, store.tablet.len());
    let row = &store.tablet[0];
    assert!(row.closed_at.is_some(), "Field 'clsoed_at' should not be null");
    assert_eq!(TableStatus::Close, row.status, "tablestatus should be 'Close'");
}

#[test]
fn test_dbio_update_table_status_given_all_itemstatus_done_when_executed_then_tablestatus_gets_close(
) {
    let mut store = Store::new();
    let opened_at = Timestamp::now();
    store.insert_session(session(opened_at, "1", TableStatus::Open));
    store.insert_item(item(opened_at, "1", "A", 1, ItemStatus::Done));
    store.insert_item(item(opened_at, "1", "B", 1, ItemStatus::Done));
    store.update_table_status("1".to_string(), opened_at);
    let row = &store.tablet[0];
    assert!(row.closed_at.is_some(), "Field 'clsoed_at' should not be null");
    assert_eq!(TableStatus::Close, row.status, "tablestatus should be 'Close'");
}

#[test]
fn test_dbio_update_table_status_given_all_itemstatus_deleted_when_executed_then_tablestatus_gets_close(
) {
    let mut store = Store::new();
    let opened_at = Timestamp::now();
    store.insert_session(session(opened_at, "1", TableStatus::Open));
    store.insert_item(item(opened_at, "1", "A", 1, ItemStatus::Deleted));
    store.insert_item(item(opened_at, "1", "B", 1, ItemStatus::Deleted));
    store.update_table_status("1".to_string(), opened_at);
    let row = &store.tablet[0];
    assert!(row.closed_at.is_some(), "Field 'clsoed_at' should not be null");
    assert_eq!(TableStatus::Close, row.status, "tablestatus should be 'Close'");
}

#[test]
fn test_dbio_update_table_status_given_certain_itemstatus_new_when_executed_then_tablestatus_gets_open(
) {
    let mut store = Store::new();
    let opened_at = Timestamp::now();
    store.insert_session(session(opened_at, "1", TableStatus::Open));
    store.insert_item(item(opened_at, "1", "A", 1, ItemStatus::New));
    store.insert_item(item(opened_at, "1", "B", 1, ItemStatus::Done));
    store.update_table_status("1".to_string(), opened_at);
    assert_eq!(TableStatus::Open, store.tablet[0].status, "tablestatus should be 'Open'");
}

#[test]
fn test_dbio_update_table_status_given_certain_itemstatus_process_when_executed_then_tablestatus_gets_open(
) {
    let mut store = Store::new();
    let opened_at = Timestamp::now();
    store.insert_session(session(opened_at, "1", TableStatus::Open));
    store.insert_item(item(opened_at, "1", "A", 1, ItemStatus::Process));
    store.insert_item(item(opened_at, "1", "B", 1, ItemStatus::Done));
    store.update_table_status("1".to_string(), opened_at);
    assert_eq!(TableStatus::Open, store.tablet[0].status, "tablestatus should be 'Open'");
}

fn stored_item_after_status_update(to: ItemStatus) -> Item {
    let mut store = Store::new();
    let now = Timestamp::now();
    let order = UpdateOrder {
        updated_at: Timestamp::now(),
        table_id: "1".to_string(),
        items: vec![ItemPair { name: "A".to_string(), amount: 1 }],
    };
    let elem = ItemPair { name: order.items[0].name.clone(), amount: order.items[0].amount };
    store.insert_session(session(now, &order.table_id, TableStatus::Open));
    let mut row = item(now, &order.table_id, &order.items[0].name, order.items[0].amount, ItemStatus::New);
    row.updated_at = order.updated_at;
    store.insert_item(row.clone());
    store.insert_history(row);
    store.update_item_status(now, order.updated_at, order.table_id, elem, to);
    assert_eq!(1, store.items.len());
    assert_eq!(now, store.items[0].created_at);
    assert_eq!("1", store.items[0].table_id);
    assert_eq!("A", store.items[0].item);
    store.items[0].clone()
}

#[test]
fn test_dbio_update_item_status_given_an_item_created_when_updated_then_status_new() {
    let row = stored_item_after_status_update(ItemStatus::New);
    assert!(row.updated_at.to_text().len() > 0);
    assert_eq!(ItemStatus::New, row.status);
}

#[test]
fn test_dbio_update_item_status_given_an_item_process_when_updated_then_status_process() {
    let row = stored_item_after_status_update(ItemStatus::Process);
    assert!(row.updated_at.to_text().len() > 0);
    assert_eq!(ItemStatus::Process, row.status);
}

#[test]
fn test_dbio_update_item_status_given_an_item_served_when_updated_then_status_done() {
    let row = stored_item_after_status_update(ItemStatus::Done);
    assert!(row.updated_at.to_text().len() > 0);
    assert_eq!(ItemStatus::Done, row.status);
}

#[test]
fn test_dbio_query_by_tableid_and_item_given_no_row_exists_when_select_then_result_contains_no_string_literal(
) {
    let store = Store::new();
    let res = store.query_by_tableid_and_item("1".to_string(), "A".to_string());
    assert!(res.contains("No"));
}

#[test]
fn test_dbio_query_by_tableid_and_item_given_one_row_exists_when_select_then_result_contains_item_string_literal(
) {
    let mut store = Store::new();
    let opened_at = Timestamp::now();
    store.insert_session(session(opened_at, "1", TableStatus::Open));
    store.insert_item(item(opened_at, "1", "A", 2, ItemStatus::New));
    store.insert_history(item(opened_at, "1", "A", 2, ItemStatus::New));
    let res = store.query_by_tableid_and_item("1".to_string(), "A".to_string());
    assert!(res.contains("item"));
}

#[test]
fn test_dbio_query_by_tableid_given_no_tableid_exists_when_select_then_result_contains_no_string_literal(
) {
    let store = Store::new();
    let res = store.query_by_tableid("1".to_string());
    assert!(res.contains("No"));
}

#[test]
fn test_dbio_query_by_tableid_given_tableid_exists_when_select_then_result_contains_tableid_string_literal(
) {
    let mut store = Store::new();
    let opened_at = Timestamp::now();
    store.insert_session(session(opened_at, "1", TableStatus::Open));
    store.insert_item(item(opened_at, "1", "A", 2, ItemStatus::New));
    store.insert_history(item(opened_at, "1", "A", 2, ItemStatus::New));
    let res = store.query_by_tableid("1".to_string());
    assert!(res.contains("table_id"));
}

#[test]
fn test_dbio_delete_given_no_items_when_delete_then_result_contains_failed_string_literal() {
    let mut store = Store::new();
    let order = DeleteOrder {
        deleted_at: Timestamp::now(),
        table_id: "1".to_string(),
        item: "A".to_string(),
    };
    let res = store.delete(order);
    assert!(res.contains("Failed"));
}

#[test]
fn test_dbio_delete_given_items_exist_and_status_process_when_delete_then_result_contains_failed_string_literal(
) {
    let mut store = Store::new();
    let opened_at = Timestamp::now();
    store.insert_session(session(opened_at, "1", TableStatus::Open));
    store.insert_item(item(opened_at, "1", "A", 2, ItemStatus::Process));
    let order = DeleteOrder {
        deleted_at: Timestamp::now(),
        table_id: "1".to_string(),
        item: "A".to_string(),
    };
    let res = store.delete(order);
    assert!(res.contains("Failed"));
}

#[test]
fn test_dbio_delete_given_items_exist_and_status_done_when_delete_then_result_contains_failed_string_literal(
) {
    let mut store = Store::new();
    let opened_at = Timestamp::now();
    store.insert_session(session(opened_at, "1", TableStatus::Open));
    store.insert_item(item(opened_at, "1", "A", 2, ItemStatus::Done));
    let order = DeleteOrder {
        deleted_at: Timestamp::now(),
        table_id: "1".to_string(),
        item: "A".to_string(),
    };
    let res = store.delete(order);
    assert!(res.contains("Failed"));
}

#[test]
fn test_dbio_delete_given_items_exist_and_status_new_when_delete_then_result_contains_successed_string_literal(
) {
    let mut store = Store::new();
    let opened_at = Timestamp::now();
    store.insert_session(session(opened_at, "1", TableStatus::Open));
    store.insert_item(item(opened_at, "1", "A", 2, ItemStatus::New));
    let order = DeleteOrder {
        deleted_at: Timestamp::now(),
        table_id: "1".to_string(),
        item: "A".to_string(),
    };
    let res = store.delete(order);
    assert!(res.contains("Successed"));
}

#[test]
fn test_dbio_update_given_no_row_exists_when_update_then_result_contains_non_existent_string_literal(
) {
    let mut store = Store::new();
    let order = UpdateOrder {
        updated_at: Timestamp::now(),
        table_id: "1".to_string(),
        items: vec![ItemPair { name: "A".to_string(), amount: 1 }],
    };
    let res = store.update(order).message;
    assert!(res.contains("Non-existent"));
}

#[test]
fn test_dbio_update_given_table_status_close_when_update_then_result_contains_failed_string_literal(
) {
    let mut store = Store::new();
    let opened_at = Timestamp::now();
    store.insert_session(session(opened_at, "1", TableStatus::Close));
    store.insert_item(item(opened_at, "1", "A", 2, ItemStatus::Done));
    store.insert_history(item(opened_at, "1", "A", 2, ItemStatus::Done));
    let order = UpdateOrder {
        updated_at: Timestamp::now(),
        table_id: "1".to_string(),
        items: vec![ItemPair { name: "A".to_string(), amount: 8 }],
    };
    let res = store.update(order).message;
    assert!(res.contains("Failed"));
}

#[test]
fn test_dbio_update_given_table_status_open_when_update_then_result_contains_successed_string_literal(
) {
    let mut store = Store::new();
    let opened_at = Timestamp::now();
    store.insert_session(session(opened_at, "1", TableStatus::Open));
    store.insert_item(item(opened_at, "1", "A", 2, ItemStatus::New));
    store.insert_history(item(opened_at, "1", "A", 2, ItemStatus::New));
    let order = UpdateOrder {
        updated_at: Timestamp::now(),
        table_id: "1".to_string(),
        items: vec![ItemPair { name: "A".to_string(), amount: 8 }],
    };
    let res = store.update(order).message;
    assert!(res.contains("Successed"));
}

#[test]
fn test_dbio_place_given_no_previous_row_when_place_then_result_contains_new_string_literal() {
    let mut store = Store::new();
    let order = PlaceOrder {
        created_at: Timestamp::now(),
        table_id: "1".to_string(),
        items: vec![ItemPair { name: "A".to_string(), amount: 8 }],
    };
    let res = store.place(order).message;
    assert!(res.contains("New"));
}

#[test]
fn test_dbio_place_given_previous_row_exists_and_table_status_open_when_place_result_contains_duplicated_string_literal(
) {
    let mut store = Store::new();
    let opened_at = Timestamp::now();
    store.insert_session(session(opened_at, "1", TableStatus::Open));
    store.insert_item(item(opened_at, "1", "A", 2, ItemStatus::New));
    store.insert_history(item(opened_at, "1", "A", 2, ItemStatus::New));
    let order = PlaceOrder {
        created_at: Timestamp::now(),
        table_id: "1".to_string(),
        items: vec![ItemPair { name: "B".to_string(), amount: 8 }],
    };
    let res = store.place(order).message;
    assert!(res.contains("Duplicated"));
}

#[test]
fn test_dbio_place_given_previous_row_exists_and_table_status_close_when_place_result_contains_new_string_literal(
) {
    let mut store = Store::new();
    let opened_at = Timestamp::now();
    store.insert_session(session(opened_at, "1", TableStatus::Close));
    store.insert_item(item(opened_at, "1", "A", 2, ItemStatus::Done));
    store.insert_history(item(opened_at, "1", "A", 2, ItemStatus::Done));
    let order = PlaceOrder {
        created_at: Timestamp::now(),
        table_id: "1".to_string(),
        items: vec![ItemPair { name: "B".to_string(), amount: 8 }],
    };
    let res = store.place(order).message;
    assert!(res.contains("New"));
}
