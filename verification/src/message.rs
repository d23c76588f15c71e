use crate::order_type::{ItemPair, ItemPairView, ItemStatus, TableStatus};
use crate::rules::{blocks_place, ItemUpdate};
use crate::store::{items_view, Item, ItemView};
use crate::text::{append_decimal, decimal_text, join2, join3, join4, join5};
use vstd::prelude::*;

verus! {

/// What a place request hears when the table is already being served.
pub open spec fn duplicate_text(table_id: Seq<char>) -> Seq<char> {
    "Duplicated! There has been an order of table_id: "@ + table_id
        + ", being served in the queue"@
}

/// What a place request hears when its order is accepted; `opened_at` is the
/// text of the order's time.
pub open spec fn new_order_text(opened_at: Seq<char>, table_id: Seq<char>) -> Seq<char> {
    "New Order! opened_at: "@ + opened_at + ", table_id: "@ + table_id
}

/// What a place request hears, given the status of the table's current
/// session and the text of the order's time.
pub open spec fn place_text(
    current: Option<TableStatus>,
    opened_at: Seq<char>,
    table_id: Seq<char>,
) -> Seq<char> {
    if blocks_place(current) {
        duplicate_text(table_id)
    } else {
        new_order_text(opened_at, table_id)
    }
}

/// What a delete request hears when the item was taken off the order.
pub open spec fn delete_done_text(item: Seq<char>, table_id: Seq<char>) -> Seq<char> {
    "Delete Order Successed! item: "@ + item + " of table_id: "@ + table_id + " deleted"@
}

/// What a delete request hears when the order has no such item.
pub open spec fn delete_missing_text(item: Seq<char>, table_id: Seq<char>) -> Seq<char> {
    "Delete Order Failed! No item: "@ + item + " of table_id: "@ + table_id
}

/// What a delete request hears when the item is in preparation.
pub open spec fn delete_cooking_text(item: Seq<char>, table_id: Seq<char>) -> Seq<char> {
    "Delete Order Failed! The item: "@ + item + " of table_id: "@ + table_id + " is cooking"@
}

/// What a delete request hears when the item was served.
pub open spec fn delete_served_text(item: Seq<char>, table_id: Seq<char>) -> Seq<char> {
    "Delete Order Failed! The item: "@ + item + " of table_id: "@ + table_id + " was done"@
}

/// What a delete request hears when the item was deleted before.
pub open spec fn delete_deleted_text(item: Seq<char>, table_id: Seq<char>) -> Seq<char> {
    "Delete Order Failed! The item: "@ + item + " of table_id: "@ + table_id + " was deleted"@
}

/// What a delete request hears, given the state of the item found.
pub open spec fn delete_text(found: Option<ItemStatus>, item: Seq<char>, table_id: Seq<char>)
    -> Seq<char> {
    match found {
        None => delete_missing_text(item, table_id),
        Some(ItemStatus::New) => delete_done_text(item, table_id),
        Some(ItemStatus::Process) => delete_cooking_text(item, table_id),
        Some(ItemStatus::Done) => delete_served_text(item, table_id),
        Some(ItemStatus::Deleted) => delete_deleted_text(item, table_id),
    }
}

/// What an update request hears when the table's order is open.
pub open spec fn update_accepted_text(table_id: Seq<char>) -> Seq<char> {
    "Update Order Successed! table_id: "@ + table_id
}

/// What an update request hears when the table's order was completed.
pub open spec fn update_closed_text(table_id: Seq<char>) -> Seq<char> {
    "Update Order Failed! table_id: "@ + table_id + " was done. Please launch a new order"@
}

/// What an update request hears when the table has no order.
pub open spec fn update_missing_text(table_id: Seq<char>) -> Seq<char> {
    "Update Order Failed! Non-existent table_id: "@ + table_id
}

/// What an update request hears, given the status of the table's current
/// session.
pub open spec fn update_text(current: Option<TableStatus>, table_id: Seq<char>) -> Seq<char> {
    match current {
        None => update_missing_text(table_id),
        Some(TableStatus::Open) => update_accepted_text(table_id),
        Some(TableStatus::Close) => update_closed_text(table_id),
    }
}

/// What is reported of a request to change one order line; `previous` is
/// the amount that the item had.
pub open spec fn item_update_text(
    outcome: ItemUpdate,
    previous: i32,
    table_id: Seq<char>,
    line: ItemPairView,
) -> Seq<char> {
    match outcome {
        ItemUpdate::Amended => "Update Item Successed! The item: "@ + line.name
            + " of table_id: "@ + table_id + " amount: "@ + decimal_text(previous as int)
            + " -> "@ + decimal_text(line.amount as int),
        ItemUpdate::Added => "Update Item Successed! New item: "@ + line.name
            + " added to the table_id: "@ + table_id,
        ItemUpdate::Cooking => "Update Item Failed! The item: "@ + line.name
            + " of table_id: "@ + table_id + " is cooking"@,
        ItemUpdate::Served => "Update Item Failed! The item: "@ + line.name
            + " of table_id: "@ + table_id + " was done"@,
        ItemUpdate::Removed => "Update Item Failed! The item: "@ + line.name
            + " of table_id: "@ + table_id + " was deleted"@,
        ItemUpdate::SessionNotOpen => "Update Item Failed! The item: "@ + line.name
            + " of table_id: "@ + table_id + " has no open order"@,
    }
}

/// What a query hears when the table has nothing on order.
pub open spec fn no_order_text(table_id: Seq<char>) -> Seq<char> {
    "No Order of table id: "@ + table_id
}

/// One item in the listing of a table.
pub open spec fn entry_text(row: ItemView) -> Seq<char> {
    "{ item: "@ + row.item + ", amount: "@ + decimal_text(row.amount as int) + ", status: "@
        + row.status.name() + " },"@
}

/// The items in the listing of a table, one after the other.
pub open spec fn entries_text(rows: Seq<ItemView>) -> Seq<char>
    decreases rows.len(),
{
    if rows.len() == 0 {
        Seq::empty()
    } else {
        entries_text(rows.drop_last()) + entry_text(rows.last())
    }
}

/// The answer to a query for the items of a table; `queried_at` is the text
/// of the time of the query, `rows` are the items of the table's latest
/// session.
pub open spec fn table_listing_text(
    queried_at: Seq<char>,
    table_id: Seq<char>,
    rows: Seq<ItemView>,
) -> Seq<char> {
    if rows.len() == 0 {
        no_order_text(table_id)
    } else {
        "{ queried_at: "@ + queried_at + ", table_id: "@ + table_id + ", items: [ "@
            + entries_text(rows) + "] }"@
    }
}

/// One row in the answer to a query for one item.
pub open spec fn detail_text(row: ItemView) -> Seq<char> {
    ", table_id: "@ + row.table_id + ", item: "@ + row.item + ", amount: "@ + decimal_text(
        row.amount as int,
    ) + ", item_status: "@ + row.status.name()
}

/// The rows in the answer to a query for one item, one after the other.
pub open spec fn details_text(rows: Seq<ItemView>) -> Seq<char>
    decreases rows.len(),
{
    if rows.len() == 0 {
        Seq::empty()
    } else {
        details_text(rows.drop_last()) + detail_text(rows.last())
    }
}

/// The answer to a query for one item of a table; `rows` are the rows for
/// the item in the table's latest session.
pub open spec fn item_listing_text(
    queried_at: Seq<char>,
    table_id: Seq<char>,
    rows: Seq<ItemView>,
) -> Seq<char> {
    if rows.len() == 0 {
        no_order_text(table_id)
    } else {
        "{ queried_at: "@ + queried_at + details_text(rows) + " }"@
    }
}

/// The reply to a place request that was turned away.
pub fn duplicate_message(table_id: &str) -> (s: String)
    ensures
        s@ == duplicate_text(table_id@),
{
    join3(
        "Duplicated! There has been an order of table_id: ",
        table_id,
        ", being served in the queue",
    )
}

/// The reply to a place request that was accepted; `opened_at` is the text
/// of the order's time.
pub fn new_order_message(opened_at: &str, table_id: &str) -> (s: String)
    ensures
        s@ == new_order_text(opened_at@, table_id@),
{
    join4("New Order! opened_at: ", opened_at, ", table_id: ", table_id)
}

/// The reply to a place request, given the status of the table's current
/// session; `opened_at` is the text of the order's time.
pub fn place_message(current: Option<TableStatus>, opened_at: &str, table_id: &str) -> (s: String)
    ensures
        s@ == place_text(current, opened_at@, table_id@),
{
    match current {
        Some(TableStatus::Open) => duplicate_message(table_id),
        _ => new_order_message(opened_at, table_id),
    }
}

/// The reply to a delete request, given the state of the item found.
pub fn delete_message(found: Option<ItemStatus>, item: &str, table_id: &str) -> (s: String)
    ensures
        s@ == delete_text(found, item@, table_id@),
{
    match found {
        None => join4("Delete Order Failed! No item: ", item, " of table_id: ", table_id),
        Some(ItemStatus::New) => join5(
            "Delete Order Successed! item: ",
            item,
            " of table_id: ",
            table_id,
            " deleted",
        ),
        Some(ItemStatus::Process) => join5(
            "Delete Order Failed! The item: ",
            item,
            " of table_id: ",
            table_id,
            " is cooking",
        ),
        Some(ItemStatus::Done) => join5(
            "Delete Order Failed! The item: ",
            item,
            " of table_id: ",
            table_id,
            " was done",
        ),
        Some(ItemStatus::Deleted) => join5(
            "Delete Order Failed! The item: ",
            item,
            " of table_id: ",
            table_id,
            " was deleted",
        ),
    }
}

/// The reply to an update request, given the status of the table's current
/// session.
pub fn update_message(current: Option<TableStatus>, table_id: &str) -> (s: String)
    ensures
        s@ == update_text(current, table_id@),
{
    match current {
        None => join2("Update Order Failed! Non-existent table_id: ", table_id),
        Some(TableStatus::Open) => join2("Update Order Successed! table_id: ", table_id),
        Some(TableStatus::Close) => join3(
            "Update Order Failed! table_id: ",
            table_id,
            " was done. Please launch a new order",
        ),
    }
}

/// What is reported of a request to change one order line; `previous` is
/// the amount that the item had.
pub fn item_update_message(outcome: ItemUpdate, previous: i32, table_id: &str, line: &ItemPair)
    -> (s: String)
    ensures
        s@ == item_update_text(outcome, previous, table_id@, line@),
{
    let name = line.name.as_str();
    match outcome {
        ItemUpdate::Amended => {
            let mut s = join5(
                "Update Item Successed! The item: ",
                name,
                " of table_id: ",
                table_id,
                " amount: ",
            );
            append_decimal(&mut s, previous);
            s.append(" -> ");
            append_decimal(&mut s, line.amount);
            s
        },
        ItemUpdate::Added => join4(
            "Update Item Successed! New item: ",
            name,
            " added to the table_id: ",
            table_id,
        ),
        ItemUpdate::Cooking => join5(
            "Update Item Failed! The item: ",
            name,
            " of table_id: ",
            table_id,
            " is cooking",
        ),
        ItemUpdate::Served => join5(
            "Update Item Failed! The item: ",
            name,
            " of table_id: ",
            table_id,
            " was done",
        ),
        ItemUpdate::Removed => join5(
            "Update Item Failed! The item: ",
            name,
            " of table_id: ",
            table_id,
            " was deleted",
        ),
        ItemUpdate::SessionNotOpen => join5(
            "Update Item Failed! The item: ",
            name,
            " of table_id: ",
            table_id,
            " has no open order",
        ),
    }
}

/// The answer to a query that found nothing.
pub fn no_order_message(table_id: &str) -> (s: String)
    ensures
        s@ == no_order_text(table_id@),
{
    join2("No Order of table id: ", table_id)
}

/// Appends one item of a table's listing to `out`.
pub fn append_entry(out: &mut String, row: &Item)
    ensures
        final(out)@ == old(out)@ + entry_text(row@),
{
    out.append("{ item: ");
    out.append(row.item.as_str());
    out.append(", amount: ");
    append_decimal(out, row.amount);
    out.append(", status: ");
    let status = row.status.to_string();
    out.append(status.as_str());
    out.append(" },");
    assert(out@ =~= old(out)@ + entry_text(row@));
}

/// Appends one row of the answer to a query for one item to `out`.
pub fn append_detail(out: &mut String, row: &Item)
    ensures
        final(out)@ == old(out)@ + detail_text(row@),
{
    out.append(", table_id: ");
    out.append(row.table_id.as_str());
    out.append(", item: ");
    out.append(row.item.as_str());
    out.append(", amount: ");
    append_decimal(out, row.amount);
    out.append(", item_status: ");
    let status = row.status.to_string();
    out.append(status.as_str());
    assert(out@ =~= old(out)@ + detail_text(row@));
}

/// The answer to a query for the items of a table, given the items of the
/// table's latest session; `queried_at` is the text of the time of the
/// query.
pub fn table_listing(queried_at: &str, table_id: &str, rows: &Vec<Item>) -> (s: String)
    ensures
        s@ == table_listing_text(queried_at@, table_id@, items_view(rows@)),
{
    if rows.len() == 0 {
        return no_order_message(table_id);
    }
    let ghost listed = items_view(rows@);
    let mut res = join5("{ queried_at: ", queried_at, ", table_id: ", table_id, ", items: [ ");
    let ghost head = res@;
    let mut i: usize = 0;
    while i < rows.len()
        invariant
            i <= rows.len(),
            listed == items_view(rows@),
            res@ == head + entries_text(listed.take(i as int)),
        decreases rows.len() - i,
    {
        assert(listed.take(i as int + 1).drop_last() =~= listed.take(i as int));
        assert(listed.take(i as int + 1).last() == rows@[i as int]@);
        append_entry(&mut res, &rows[i]);
        assert(res@ =~= head + entries_text(listed.take(i as int + 1)));
        i += 1;
    }
    assert(listed.take(rows.len() as int) =~= listed);
    res.append("] }");
    res
}

/// The answer to a query for one item of a table, given the rows for the
/// item in the table's latest session; `queried_at` is the text of the time
/// of the query.
pub fn item_listing(queried_at: &str, table_id: &str, rows: &Vec<Item>) -> (s: String)
    ensures
        s@ == item_listing_text(queried_at@, table_id@, items_view(rows@)),
{
    if rows.len() == 0 {
        return no_order_message(table_id);
    }
    let ghost listed = items_view(rows@);
    let mut res = join2("{ queried_at: ", queried_at);
    let ghost head = res@;
    let mut i: usize = 0;
    while i < rows.len()
        invariant
            i <= rows.len(),
            listed == items_view(rows@),
            res@ == head + details_text(listed.take(i as int)),
        decreases rows.len() - i,
    {
        assert(listed.take(i as int + 1).drop_last() =~= listed.take(i as int));
        assert(listed.take(i as int + 1).last() == rows@[i as int]@);
        append_detail(&mut res, &rows[i]);
        assert(res@ =~= head + details_text(listed.take(i as int + 1)));
        i += 1;
    }
    assert(listed.take(rows.len() as int) =~= listed);
    res.append(" }");
    res
}

} // verus!
