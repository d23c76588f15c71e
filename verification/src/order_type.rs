use crate::text::{append_decimal, decimal_text};
use crate::timestamp::{timestamp_text, Timestamp};
use vstd::prelude::*;

verus! {

/// The five kinds of request that a tablet sends.
#[derive(Clone, Copy, Debug, PartialEq, Eq, Structural)]
pub enum ReqType {
    Place,
    Delete,
    Update,
    /// Show all items of a table.
    StatusAll,
    /// Show one item of a table.
    StatusItem,
}

impl ReqType {
    /// The number that stands for the request kind on the wire.
    pub open spec fn code(self) -> int {
        match self {
            ReqType::Place => 0,
            ReqType::Delete => 1,
            ReqType::Update => 2,
            ReqType::StatusAll => 3,
            ReqType::StatusItem => 4,
        }
    }

    /// The request kind with code `n`; `n` itself comes back when no kind
    /// has that code.
    pub fn try_from(n: i8) -> (r: Result<ReqType, i8>)
        ensures
            match r {
                Ok(kind) => kind.code() == n,
                Err(rejected) => rejected == n && !(0 <= n <= 4),
            },
    {
        match n {
            0 => Ok(ReqType::Place),
            1 => Ok(ReqType::Delete),
            2 => Ok(ReqType::Update),
            3 => Ok(ReqType::StatusAll),
            4 => Ok(ReqType::StatusItem),
            _ => Err(n),
        }
    }

    /// The code of the request kind.
    pub fn into_i8(self) -> (n: i8)
        ensures
            n == self.code(),
    {
        match self {
            ReqType::Place => 0,
            ReqType::Delete => 1,
            ReqType::Update => 2,
            ReqType::StatusAll => 3,
            ReqType::StatusItem => 4,
        }
    }
}

/// Aggregate state of one table session.
#[derive(Clone, Copy, Debug, PartialEq, Eq, Structural)]
pub enum TableStatus {
    Open,
    Close,
}

impl TableStatus {
    /// The status as the database names it.
    pub open spec fn name(self) -> Seq<char> {
        match self {
            TableStatus::Open => "Open"@,
            TableStatus::Close => "Close"@,
        }
    }

    pub fn to_string(&self) -> (s: String)
        ensures
            s@ == self.name(),
    {
        match self {
            TableStatus::Open => String::from_str("Open"),
            TableStatus::Close => String::from_str("Close"),
        }
    }
}

/// Lifecycle state of one ordered item.
#[derive(Clone, Copy, Debug, PartialEq, Eq, Structural)]
pub enum ItemStatus {
    New,
    Process,
    Done,
    Deleted,
}

impl ItemStatus {
    /// An item in `New` or `Process` still needs work from the kitchen.
    pub open spec fn outstanding(self) -> bool {
        self == ItemStatus::New || self == ItemStatus::Process
    }

    pub fn is_outstanding(&self) -> (b: bool)
        ensures
            b == self.outstanding(),
    {
        match self {
            ItemStatus::New => true,
            ItemStatus::Process => true,
            ItemStatus::Done => false,
            ItemStatus::Deleted => false,
        }
    }

    /// The status as the database names it.
    pub open spec fn name(self) -> Seq<char> {
        match self {
            ItemStatus::New => "New"@,
            ItemStatus::Process => "Process"@,
            ItemStatus::Done => "Done"@,
            ItemStatus::Deleted => "Deleted"@,
        }
    }

    pub fn to_string(&self) -> (s: String)
        ensures
            s@ == self.name(),
    {
        match self {
            ItemStatus::New => String::from_str("New"),
            ItemStatus::Process => String::from_str("Process"),
            ItemStatus::Done => String::from_str("Done"),
            ItemStatus::Deleted => String::from_str("Deleted"),
        }
    }
}

/// One line of an order: what is wanted and how many of it.
#[derive(Debug)]
pub struct ItemPair {
    pub name: String,
    pub amount: i32,
}

/// An order line as the contracts see it.
pub struct ItemPairView {
    pub name: Seq<char>,
    pub amount: i32,
}

impl View for ItemPair {
    type V = ItemPairView;

    open spec fn view(&self) -> ItemPairView {
        ItemPairView { name: self.name@, amount: self.amount }
    }
}

impl Clone for ItemPair {
    fn clone(&self) -> (r: ItemPair)
        ensures
            r@ == self@,
    {
        ItemPair { name: self.name.clone(), amount: self.amount }
    }
}

/// The views of a list of order lines, in the same order.
pub open spec fn pairs_view(items: Seq<ItemPair>) -> Seq<ItemPairView> {
    items.map_values(|p: ItemPair| p@)
}

/// A request to open a session for a table with the given items.
#[derive(Debug)]
pub struct PlaceOrder {
    pub created_at: Timestamp,
    pub table_id: String,
    pub items: Vec<ItemPair>,
}

/// A place order as the contracts see it.
pub struct PlaceOrderView {
    pub created_at: Timestamp,
    pub table_id: Seq<char>,
    pub items: Seq<ItemPairView>,
}

impl View for PlaceOrder {
    type V = PlaceOrderView;

    open spec fn view(&self) -> PlaceOrderView {
        PlaceOrderView {
            created_at: self.created_at,
            table_id: self.table_id@,
            items: pairs_view(self.items@),
        }
    }
}

/// A request to take one item off a table's order.
#[derive(Debug)]
pub struct DeleteOrder {
    pub deleted_at: Timestamp,
    pub table_id: String,
    pub item: String,
}

/// A delete order as the contracts see it.
pub struct DeleteOrderView {
    pub deleted_at: Timestamp,
    pub table_id: Seq<char>,
    pub item: Seq<char>,
}

impl View for DeleteOrder {
    type V = DeleteOrderView;

    open spec fn view(&self) -> DeleteOrderView {
        DeleteOrderView { deleted_at: self.deleted_at, table_id: self.table_id@, item: self.item@ }
    }
}

/// A request to change amounts in, or add items to, a table's open order.
#[derive(Debug)]
pub struct UpdateOrder {
    pub updated_at: Timestamp,
    pub table_id: String,
    pub items: Vec<ItemPair>,
}

/// An update order as the contracts see it.
pub struct UpdateOrderView {
    pub updated_at: Timestamp,
    pub table_id: Seq<char>,
    pub items: Seq<ItemPairView>,
}

impl View for UpdateOrder {
    type V = UpdateOrderView;

    open spec fn view(&self) -> UpdateOrderView {
        UpdateOrderView {
            updated_at: self.updated_at,
            table_id: self.table_id@,
            items: pairs_view(self.items@),
        }
    }
}

/// One order line as `name:amount`.
pub open spec fn pair_text(p: ItemPairView) -> Seq<char> {
    p.name + ":"@ + decimal_text(p.amount as int)
}

/// The order lines as `name:amount`, joined by a comma and a space.
pub open spec fn pairs_text(items: Seq<ItemPairView>) -> Seq<char>
    decreases items.len(),
{
    if items.len() == 0 {
        Seq::empty()
    } else if items.len() == 1 {
        pair_text(items[0])
    } else {
        pairs_text(items.drop_last()) + ", "@ + pair_text(items.last())
    }
}

/// How a place order is shown, given the text of its time.
pub open spec fn place_order_text(created_at: Seq<char>, order: PlaceOrderView) -> Seq<char> {
    "{ created_at: "@ + created_at + ", table_id: "@ + order.table_id + ", items: [ "@
        + pairs_text(order.items) + " ] }"@
}

/// How an update order is shown, given the text of its time.
pub open spec fn update_order_text(updated_at: Seq<char>, order: UpdateOrderView) -> Seq<char> {
    "{ updated_at: "@ + updated_at + ", table_id: "@ + order.table_id + ", items: [ "@
        + pairs_text(order.items) + " ] }"@
}

/// How a delete order is shown, given the text of its time.
pub open spec fn delete_order_text(deleted_at: Seq<char>, order: DeleteOrderView) -> Seq<char> {
    "{ deleted_at: "@ + deleted_at + ", table_id:"@ + order.table_id + ", items: "@ + order.item
        + " }"@
}

/// Appends the order lines to `out`, as `pairs_text` writes them.
pub fn append_pairs(out: &mut String, items: &Vec<ItemPair>)
    ensures
        final(out)@ == old(out)@ + pairs_text(pairs_view(items@)),
{
    let ghost lines = pairs_view(items@);
    let mut i: usize = 0;
    while i < items.len()
        invariant
            i <= items.len(),
            lines == pairs_view(items@),
            out@ == old(out)@ + pairs_text(lines.take(i as int)),
        decreases items.len() - i,
    {
        let ghost before = out@;
        if i > 0 {
            out.append(", ");
        }
        out.append(items[i].name.as_str());
        out.append(":");
        append_decimal(out, items[i].amount);
        proof {
            let done = lines.take(i as int + 1);
            assert(done.drop_last() =~= lines.take(i as int));
            assert(done.last() == items@[i as int]@);
            if i > 0 {
                assert(out@ =~= before + ", "@ + pair_text(done.last()));
            } else {
                assert(pairs_text(lines.take(0)) =~= Seq::<char>::empty());
                assert(out@ =~= before + pair_text(done.last()));
            }
            assert(out@ =~= old(out)@ + pairs_text(done));
        }
        i += 1;
    }
    assert(lines.take(items.len() as int) =~= lines);
}

impl PlaceOrder {
    /// The order as text, with `created_at` as the text of its time.
    pub fn disp_with(&self, created_at: &str) -> (s: String)
        ensures
            s@ == place_order_text(created_at@, self@),
    {
        let mut res = String::from_str("{ created_at: ");
        res.append(created_at);
        res.append(", table_id: ");
        res.append(self.table_id.as_str());
        res.append(", items: [ ");
        append_pairs(&mut res, &self.items);
        res.append(" ] }");
        res
    }

    /// The order as text.
    pub fn disp(&self) -> (s: String)
        ensures
            s@ == place_order_text(timestamp_text(self.created_at.nanos), self@),
    {
        let at = self.created_at.to_text();
        self.disp_with(at.as_str())
    }
}

impl UpdateOrder {
    /// The order as text, with `updated_at` as the text of its time.
    pub fn disp_with(&self, updated_at: &str) -> (s: String)
        ensures
            s@ == update_order_text(updated_at@, self@),
    {
        let mut res = String::from_str("{ updated_at: ");
        res.append(updated_at);
        res.append(", table_id: ");
        res.append(self.table_id.as_str());
        res.append(", items: [ ");
        append_pairs(&mut res, &self.items);
        res.append(" ] }");
        res
    }

    /// The order as text.
    pub fn disp(&self) -> (s: String)
        ensures
            s@ == update_order_text(timestamp_text(self.updated_at.nanos), self@),
    {
        let at = self.updated_at.to_text();
        self.disp_with(at.as_str())
    }
}

impl DeleteOrder {
    /// The order as text, with `deleted_at` as the text of its time.
    pub fn disp_with(&self, deleted_at: &str) -> (s: String)
        ensures
            s@ == delete_order_text(deleted_at@, self@),
    {
        let mut res = String::from_str("{ deleted_at: ");
        res.append(deleted_at);
        res.append(", table_id:");
        res.append(self.table_id.as_str());
        res.append(", items: ");
        res.append(self.item.as_str());
        res.append(" }");
        res
    }

    /// The order as text.
    pub fn disp(&self) -> (s: String)
        ensures
            s@ == delete_order_text(timestamp_text(self.deleted_at.nanos), self@),
    {
        let at = self.deleted_at.to_text();
        self.disp_with(at.as_str())
    }
}

} // verus!
