//! A durable counter: one named integer kept in an embedded SQLite database,
//! read and changed through a handle that serializes every operation.
//!
//! [`Database`] is the handle. It opens the database file inside a data
//! directory that its caller has made, keeps the only connection to that file
//! behind a lock, and offers the operations on the counter. Every operation
//! can fail, and every failure is a [`StorageFailure`].

pub mod db;
pub mod failure;
pub mod laws;
pub mod medium;

pub use db::Database;
pub use failure::FailureKind;
pub use failure::StorageFailure;
