//! The application store: the records of every managed application.
//!
//! The store is one list of records, rewritten whole on every change. The
//! functions here work on the list as it was read and give back the list to
//! write.

pub mod models;
pub mod read_from;
pub mod update_storage;
pub mod write_to_storage;
