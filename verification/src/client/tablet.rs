use crate::order_type::{DeleteOrder, ItemPair, PlaceOrder, ReqType, UpdateOrder};
use crate::timestamp::Timestamp;
use vstd::prelude::*;

verus! {

/// What a request carries in its body.
#[derive(Debug)]
pub enum Payload {
    Place(PlaceOrder),
    Delete(DeleteOrder),
    Update(UpdateOrder),
    Nothing,
}

/// The name and the password that a tablet shows.
#[derive(Debug)]
pub struct Credentials {
    pub username: String,
    pub password: String,
}

/// A request that a tablet is about to send.
#[derive(Debug)]
pub struct Request {
    pub kind: ReqType,
    /// The full address: the server's base address and the operation's path.
    pub url: String,
    /// The name and the password to show, where the operation asks for them.
    pub credentials: Option<Credentials>,
    /// How many seconds to wait for the answer.
    pub timeout: u64,
    pub body: Payload,
}

/// A tablet: it stands at one table and words that table's requests.
pub trait Tablet {
    fn get_table_id(&self) -> String;

    fn place_order(&self, table_id: String, items: Vec<ItemPair>, now: Timestamp) -> Request;

    fn delete_order(&self, table_id: String, item: String, now: Timestamp) -> Request;

    fn update_order(&self, table_id: String, items: Vec<ItemPair>, now: Timestamp) -> Request;

    fn status_order_all(&self, table_id: String) -> Request;

    fn status_order_item(&self, table_id: String, item: String) -> Request;
}

} // verus!
