//! The database.

pub mod connection;
