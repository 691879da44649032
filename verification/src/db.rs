//! The counter store: a locked SQLite connection and the operations on the
//! one row it keeps.
//!
//! What the database answers is decided outside this crate, by the file it
//! lives in. The contracts therefore come in two layers. The functions that
//! judge an answer ([`opened`], [`statement_done`], [`row_changed`] and
//! [`value_read`]) and those that compute the next value ([`successor`] and
//! [`predecessor`]) say exactly what the store makes of every possible answer.
//! The operations of [`Database`] say which statements they put to the
//! database, in which order, and what they return for the answers they got.

use std::path::PathBuf;
use std::sync::Mutex;
use rusqlite::Connection;
use vstd::prelude::*;
use crate::failure::{FailureKind, StorageFailure};
use crate::medium::{
    acquire,
    execute,
    executed,
    guarded,
    held,
    join,
    joined,
    open,
    opening,
    queried,
    query_integer,
};

verus! {

/// Name of the database file inside the application's data directory.
pub const DATABASE_FILE: &'static str = "app.db";

/// Creates the key-value table unless it is there already.
pub const CREATE_TABLE: &'static str = "CREATE TABLE IF NOT EXISTS counter (
                key TEXT PRIMARY KEY,
                value INTEGER NOT NULL DEFAULT 0
            )";

/// Creates the row of the counter at zero unless it is there already.
pub const INSERT_DEFAULT: &'static str =
    "INSERT OR IGNORE INTO counter (key, value) VALUES ('main', 0)";

/// Reads the counter.
pub const SELECT_VALUE: &'static str = "SELECT value FROM counter WHERE key = 'main'";

/// Replaces the counter by the first parameter.
pub const UPDATE_VALUE: &'static str = "UPDATE counter SET value = ?1 WHERE key = 'main'";

/// Message of the failure reported when an update finds no row to change.
pub const ROW_MISSING: &'static str = "the counter row is missing";

/// Message of the failure reported when the counter cannot move further.
pub const OUT_OF_RANGE: &'static str = "the counter is at the end of its range";

/// `outcome` is the failure that the store makes of `error`.
pub open spec fn fails_with<T>(outcome: Result<T, StorageFailure>, error: rusqlite::Error) -> bool {
    outcome matches Err(failure) && failure.stands_for(error)
}

/// `outcome` is the store's own failure of `kind`, with `message`.
pub open spec fn fails_as<T>(
    outcome: Result<T, StorageFailure>,
    kind: FailureKind,
    message: Seq<char>,
) -> bool {
    outcome matches Err(failure) && failure@ == (kind, message)
}

/// What the store makes of the answer to opening the file.
pub open spec fn open_judged(
    answer: Result<Connection, rusqlite::Error>,
    outcome: Result<Connection, StorageFailure>,
) -> bool {
    match answer {
        Ok(connection) => outcome == Ok::<Connection, StorageFailure>(connection),
        Err(error) => fails_with(outcome, error),
    }
}

/// What the store makes of the answer to a statement of the schema: it is
/// done however many rows it changed.
pub open spec fn statement_judged(
    answer: Result<usize, rusqlite::Error>,
    done: Result<(), StorageFailure>,
) -> bool {
    match answer {
        Ok(_) => done is Ok,
        Err(error) => fails_with(done, error),
    }
}

/// What the store makes of the answer to an update of the counter: an update
/// that changed no row found the counter's row missing.
pub open spec fn update_judged(
    changed: Result<usize, rusqlite::Error>,
    done: Result<(), StorageFailure>,
) -> bool {
    match changed {
        Ok(rows) => if rows == 0 {
            fails_as(done, FailureKind::RowMissing, ROW_MISSING@)
        } else {
            done is Ok
        },
        Err(error) => fails_with(done, error),
    }
}

/// What the store makes of the answer to the query for the counter.
pub open spec fn value_judged(
    read: Result<i32, rusqlite::Error>,
    outcome: Result<i32, StorageFailure>,
) -> bool {
    match read {
        Ok(value) => outcome == Ok::<i32, StorageFailure>(value),
        Err(error) => fails_with(outcome, error),
    }
}

/// The counter `delta` away from `value`, where the range of the counter
/// holds it.
pub open spec fn stepped(value: i32, delta: int) -> Option<i32> {
    if i32::MIN <= value + delta <= i32::MAX {
        Some((value + delta) as i32)
    } else {
        None
    }
}

/// What creating the schema returns. The table is asked for first. The row is
/// asked for only once the table is there, and the first failure is the one
/// returned.
pub open spec fn schema_outcome(done: Result<(), StorageFailure>) -> bool {
    exists|created: Result<usize, rusqlite::Error>| #[trigger]
        executed(CREATE_TABLE@, Seq::<i32>::empty(), created) && match created {
            Ok(_) => exists|inserted: Result<usize, rusqlite::Error>| #[trigger]
                executed(INSERT_DEFAULT@, Seq::<i32>::empty(), inserted) && statement_judged(
                    inserted,
                    done,
                ),
            Err(error) => fails_with(done, error),
        }
}

/// What opening a store in `directory` returns. The one file that is opened is
/// the database file inside `directory`. A failure to open it is returned as
/// it is; a handle is returned only once the schema was created on that file.
pub open spec fn open_outcome(directory: PathBuf, store: Result<Database, StorageFailure>) -> bool {
    exists|path: PathBuf, answer: Result<Connection, rusqlite::Error>| #[trigger]
        joined(directory, DATABASE_FILE@, path) && #[trigger] opening(path, answer)
            && match answer {
            Ok(_) => match store {
                Ok(_) => schema_outcome(Ok(())),
                Err(failure) => schema_outcome(Err(failure)),
            },
            Err(error) => fails_with(store, error),
        }
}

/// What reading the counter returns: the value that the one query found, or
/// the failure of that query.
pub open spec fn read_outcome(outcome: Result<i32, StorageFailure>) -> bool {
    exists|read: Result<i32, rusqlite::Error>| #[trigger]
        queried(SELECT_VALUE@, 0, read) && value_judged(read, outcome)
}

/// What setting the counter to `value` returns. One update is made, with
/// `value` as its parameter. `value` is returned where it changed a row; a
/// missing row and an error of the medium are failures.
pub open spec fn set_outcome(value: i32, outcome: Result<i32, StorageFailure>) -> bool {
    exists|changed: Result<usize, rusqlite::Error>| #[trigger]
        executed(UPDATE_VALUE@, seq![value], changed) && match changed {
            Ok(rows) => if rows == 0 {
                fails_as(outcome, FailureKind::RowMissing, ROW_MISSING@)
            } else {
                outcome == Ok::<i32, StorageFailure>(value)
            },
            Err(error) => fails_with(outcome, error),
        }
}

/// What moving the counter by `delta` returns. The counter is read first.
/// Where the read fails, or the value read has no neighbour `delta` away in
/// the counter's range, the operation fails and nothing is written. Otherwise
/// the neighbour is written as by setting the counter, and returned.
pub open spec fn step_outcome(delta: int, outcome: Result<i32, StorageFailure>) -> bool {
    exists|read: Result<i32, rusqlite::Error>| #[trigger]
        queried(SELECT_VALUE@, 0, read) && match read {
            Ok(value) => match stepped(value, delta) {
                Some(next) => set_outcome(next, outcome),
                None => fails_as(outcome, FailureKind::OutOfRange, OUT_OF_RANGE@),
            },
            Err(error) => fails_with(outcome, error),
        }
}

/// Judges the answer to opening the database file: the connection as it came,
/// or the failure that stands for the medium's error.
pub fn opened(answer: Result<Connection, rusqlite::Error>) -> (outcome: Result<
    Connection,
    StorageFailure,
>)
    ensures
        open_judged(answer, outcome),
{
    match answer {
        Ok(connection) => Ok(connection),
        Err(error) => Err(StorageFailure::from_sqlite(&error)),
    }
}

/// Judges the answer to a statement of the schema. Such a statement may find
/// its work done already, so any number of changed rows is a success.
pub fn statement_done(answer: Result<usize, rusqlite::Error>) -> (done: Result<(), StorageFailure>)
    ensures
        statement_judged(answer, done),
{
    match answer {
        Ok(_) => Ok(()),
        Err(error) => Err(StorageFailure::from_sqlite(&error)),
    }
}

/// Judges the answer to an update of the counter. It succeeds exactly when the
/// medium reported at least one changed row: an update that changed nothing
/// found no counter row, which is a failure like any error of the medium.
pub fn row_changed(changed: Result<usize, rusqlite::Error>) -> (done: Result<(), StorageFailure>)
    ensures
        update_judged(changed, done),
{
    match changed {
        Ok(rows) => {
            if rows == 0 {
                Err(StorageFailure::new(FailureKind::RowMissing, ROW_MISSING.to_owned()))
            } else {
                Ok(())
            }
        },
        Err(error) => Err(StorageFailure::from_sqlite(&error)),
    }
}

/// Judges the answer to the query for the counter: the value as read, or the
/// failure that stands for the medium's error.
pub fn value_read(read: Result<i32, rusqlite::Error>) -> (outcome: Result<i32, StorageFailure>)
    ensures
        value_judged(read, outcome),
{
    match read {
        Ok(value) => Ok(value),
        Err(error) => Err(StorageFailure::from_sqlite(&error)),
    }
}

/// The value one above `value`, or nothing at the upper end of the range.
pub fn successor(value: i32) -> (next: Option<i32>)
    ensures
        next == stepped(value, 1),
{
    if value < i32::MAX {
        Some(value + 1)
    } else {
        None
    }
}

/// The value one below `value`, or nothing at the lower end of the range.
pub fn predecessor(value: i32) -> (next: Option<i32>)
    ensures
        next == stepped(value, -1),
{
    if value > i32::MIN {
        Some(value - 1)
    } else {
        None
    }
}

/// Handle of the counter store. It owns the only connection to the database
/// file and lets one operation at a time use it.
pub struct Database {
    conn: Mutex<Connection>,
}

impl Database {
    /// Opens the database file in `app_data_dir`, creating the file if there is
    /// none, and makes sure that the table and the counter's row are there. The
    /// directory itself is not created: where it is missing, opening fails.
    pub fn new(app_data_dir: PathBuf) -> (store: Result<Database, StorageFailure>)
        ensures
            open_outcome(app_data_dir, store),
    {
        let db_path = join(&app_data_dir, DATABASE_FILE);
        match opened(open(&db_path)) {
            Ok(conn) => match Self::init_schema(&conn) {
                Ok(()) => Ok(Database { conn: guarded(conn) }),
                Err(failure) => Err(failure),
            },
            Err(failure) => Err(failure),
        }
    }

    /// Creates the table and the counter's row where they are missing, and
    /// leaves both alone where they exist. The row is not inserted once the
    /// table could not be created.
    fn init_schema(conn: &Connection) -> (done: Result<(), StorageFailure>)
        ensures
            schema_outcome(done),
    {
        let none: Vec<i32> = Vec::new();
        match statement_done(execute(conn, CREATE_TABLE, &none)) {
            Ok(()) => statement_done(execute(conn, INSERT_DEFAULT, &none)),
            Err(failure) => Err(failure),
        }
    }

    /// The current value of the counter, as the database reads it.
    pub fn get_count(&self) -> (outcome: Result<i32, StorageFailure>)
        ensures
            read_outcome(outcome),
    {
        let guard = acquire(&self.conn);
        value_read(query_integer(held(&guard), SELECT_VALUE, 0))
    }

    /// Replaces the counter by `value` and returns `value`. It fails, and
    /// returns no value, when the update changed no row.
    pub fn set_count(&self, value: i32) -> (outcome: Result<i32, StorageFailure>)
        ensures
            set_outcome(value, outcome),
    {
        let guard = acquire(&self.conn);
        Self::store(held(&guard), value)
    }

    /// Adds one to the counter and returns the new value. At the upper end of
    /// the range it fails and leaves the counter as it is.
    pub fn increment(&self) -> (outcome: Result<i32, StorageFailure>)
        ensures
            step_outcome(1, outcome),
    {
        self.shift(true)
    }

    /// Subtracts one from the counter and returns the new value. At the lower
    /// end of the range it fails and leaves the counter as it is.
    pub fn decrement(&self) -> (outcome: Result<i32, StorageFailure>)
        ensures
            step_outcome(-1, outcome),
    {
        self.shift(false)
    }

    /// Sets the counter to zero: the same as `set_count(0)`.
    pub fn reset(&self) -> (outcome: Result<i32, StorageFailure>)
        ensures
            set_outcome(0, outcome),
    {
        self.set_count(0)
    }

    /// Moves the counter one up or one down. The read and the write happen
    /// under one hold of the lock, so that no other caller's operation falls
    /// between the two. Nothing is written once the read has failed or the
    /// value has no neighbour on that side.
    fn shift(&self, upward: bool) -> (outcome: Result<i32, StorageFailure>)
        ensures
            step_outcome(if upward { 1 } else { -1 }, outcome),
    {
        let guard = acquire(&self.conn);
        match value_read(query_integer(held(&guard), SELECT_VALUE, 0)) {
            Ok(value) => {
                let neighbour = if upward {
                    successor(value)
                } else {
                    predecessor(value)
                };
                match neighbour {
                    Some(next) => Self::store(held(&guard), next),
                    None => Err(
                        StorageFailure::new(FailureKind::OutOfRange, OUT_OF_RANGE.to_owned()),
                    ),
                }
            },
            Err(failure) => Err(failure),
        }
    }

    /// Writes `value` to the counter's row through `conn` and returns it.
    fn store(conn: &Connection, value: i32) -> (outcome: Result<i32, StorageFailure>)
        ensures
            set_outcome(value, outcome),
    {
        let mut parameters: Vec<i32> = Vec::new();
        parameters.push(value);
        assert(parameters@ =~= seq![value]);
        match row_changed(execute(conn, UPDATE_VALUE, &parameters)) {
            Ok(()) => Ok(value),
            Err(failure) => Err(failure),
        }
    }
}

} // verus!
