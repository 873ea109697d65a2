//! An in-memory registry of user records with server-assigned identifiers,
//! and the two request handlers built on it.
//!
//! - [`user`]: the record.
//! - [`ids`]: which identifier a new record gets.
//! - [`registry`]: the store, with `get` and `insert`.
//! - [`handlers`]: lookup and creation as request handlers, from plain
//!   values to responses.
//! - [`decimal`]: identifiers written out as text.
//! - [`laws`]: what holds over whole runs of inserts and lookups.
//!
//! The registry is a plain value: `insert` takes it by exclusive reference,
//! so no operation ever sees another one half done. A service that shares
//! one registry among its workers keeps it behind a lock and holds the lock
//! for the whole of each operation.

pub mod decimal;
pub mod handlers;
pub mod ids;
pub mod laws;
pub mod registry;
pub mod user;
