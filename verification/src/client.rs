//! The tablets: what the staff at a table sends to the server.

pub mod settings;
pub mod staff;
pub mod tablet;
