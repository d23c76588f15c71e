//! Order fulfilment for a restaurant: table sessions, item lifecycles and the
//! reconciliation of a table's status from the states of its items.

pub mod auth;
pub mod client;
pub mod cmd;
pub mod invariants;
pub mod kitchen;
pub mod laws;
pub mod message;
pub mod order_type;
pub mod route;
pub mod rules;
pub mod schema;
pub mod settings;
pub mod signal;
pub mod store;
pub mod text;
pub mod timestamp;
