//! A small user-database library: a users table with create, update, find and
//! delete operations, the validation rules of the command-line front end, and
//! the command dispatch logic, all with verified contracts.
//!
//! The datastore semantics are captured by [`table::UsersTable`], an in-memory
//! users table with the same observable behaviour as the SQL statements the
//! front end issues (unique emails, exactly-one-row lookups, silent no-op
//! updates and deletes of absent ids). The front end performs the actual I/O
//! and hands plain values to this crate.

pub mod command;
pub mod error;
pub mod laws;
pub mod table;
pub mod user;
pub mod validate;
