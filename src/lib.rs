//! A persisted to-do list: items with a storage-assigned id and a text body,
//! kept in a relational table and reached through a pool of connections.
pub mod entry;
pub mod error;
pub mod order;
pub mod sqlite;
pub mod table;
