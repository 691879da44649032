//! What the operations return on a medium that behaves.
//!
//! The contracts of the operations speak of the answers that the database
//! gave. The predicates here describe a database by its answers, and the
//! lemmas say what the contracts promise of each operation on such a
//! database.

use std::path::PathBuf;
use rusqlite::Connection;
use vstd::prelude::*;
use crate::db::{
    fails_as,
    fails_with,
    open_outcome,
    read_outcome,
    schema_outcome,
    statement_judged,
    set_outcome,
    step_outcome,
    stepped,
    Database,
    CREATE_TABLE,
    DATABASE_FILE,
    INSERT_DEFAULT,
    OUT_OF_RANGE,
    ROW_MISSING,
    SELECT_VALUE,
    UPDATE_VALUE,
};
use crate::failure::{FailureKind, StorageFailure};
use crate::medium::{executed, joined, no_rows, opening, queried};

verus! {

/// The counter's row holds `value`: the query for the counter has no other
/// answer.
pub open spec fn holds(value: i32) -> bool {
    forall|read: Result<i32, rusqlite::Error>| #[trigger]
        queried(SELECT_VALUE@, 0, read) ==> read == Ok::<i32, rusqlite::Error>(value)
}

/// The medium takes `value`: the update that writes it has no other answer
/// than that it changed a row.
pub open spec fn takes(value: i32) -> bool {
    forall|changed: Result<usize, rusqlite::Error>| #[trigger]
        executed(UPDATE_VALUE@, seq![value], changed) ==> (changed matches Ok(rows) && rows > 0)
}

/// The counter's row is gone: the query for the counter has no other answer
/// than that it found no row.
pub open spec fn reads_no_row() -> bool {
    forall|read: Result<i32, rusqlite::Error>| #[trigger]
        queried(SELECT_VALUE@, 0, read) ==> (read matches Err(error) && no_rows(error))
}

/// The counter's row is gone: the update that writes `value` has no other
/// answer than that it changed no row.
pub open spec fn writes_no_row(value: i32) -> bool {
    forall|changed: Result<usize, rusqlite::Error>| #[trigger]
        executed(UPDATE_VALUE@, seq![value], changed) ==> changed == Ok::<usize, rusqlite::Error>(0)
}

/// The database file in `directory` does not open: opening it has no other
/// answer than an error.
pub open spec fn does_not_open(directory: PathBuf) -> bool {
    forall|path: PathBuf, answer: Result<Connection, rusqlite::Error>|
        #[trigger] joined(directory, DATABASE_FILE@, path) && #[trigger] opening(path, answer)
            ==> answer is Err
}

/// The medium refuses the statement `sql` of the schema: running it has no
/// other answer than an error.
pub open spec fn refuses(sql: Seq<char>) -> bool {
    forall|answer: Result<usize, rusqlite::Error>| #[trigger]
        executed(sql, Seq::<i32>::empty(), answer) ==> answer is Err
}

/// Where the database file does not open, no handle is returned.
pub proof fn lemma_no_handle_without_the_file(
    directory: PathBuf,
    store: Result<Database, StorageFailure>,
)
    requires
        open_outcome(directory, store),
        does_not_open(directory),
    ensures
        store is Err,
{
}

/// Where the medium refuses to create the table or to insert the counter's
/// row, as it does on a file that is no database, creating the schema fails
/// and no handle is returned.
pub proof fn lemma_no_handle_without_the_schema(
    directory: PathBuf,
    store: Result<Database, StorageFailure>,
)
    requires
        open_outcome(directory, store),
        refuses(CREATE_TABLE@) || refuses(INSERT_DEFAULT@),
    ensures
        store is Err,
{
}

/// A handle is returned only after the medium answered both statements of the
/// schema with success: the table first, then the counter's row.
pub proof fn lemma_handle_means_schema(directory: PathBuf, store: Result<Database, StorageFailure>)
    requires
        open_outcome(directory, store),
        store is Ok,
    ensures
        exists|created: usize, inserted: usize|
            #[trigger] executed(CREATE_TABLE@, Seq::<i32>::empty(), Ok(created))
            && #[trigger] executed(INSERT_DEFAULT@, Seq::<i32>::empty(), Ok(inserted)),
{
    let done: Result<(), StorageFailure> = Ok(());
    assert(schema_outcome(done));
    let created = choose|created: Result<usize, rusqlite::Error>| #[trigger]
        executed(CREATE_TABLE@, Seq::<i32>::empty(), created) && match created {
            Ok(_) => exists|inserted: Result<usize, rusqlite::Error>| #[trigger]
                executed(INSERT_DEFAULT@, Seq::<i32>::empty(), inserted) && statement_judged(
                    inserted,
                    done,
                ),
            Err(error) => fails_with(done, error),
        };
    let inserted = choose|inserted: Result<usize, rusqlite::Error>| #[trigger]
        executed(INSERT_DEFAULT@, Seq::<i32>::empty(), inserted) && statement_judged(
            inserted,
            done,
        );
    assert(executed(CREATE_TABLE@, Seq::<i32>::empty(), Ok(created->Ok_0)));
    assert(executed(INSERT_DEFAULT@, Seq::<i32>::empty(), Ok(inserted->Ok_0)));
}

/// Reading a counter that holds `value` returns `value`.
pub proof fn lemma_read_returns_what_is_held(value: i32, outcome: Result<i32, StorageFailure>)
    requires
        read_outcome(outcome),
        holds(value),
    ensures
        outcome == Ok::<i32, StorageFailure>(value),
{
}

/// Setting the counter to `value`, on a medium that takes it, returns `value`.
/// Resetting is setting to zero, so it returns zero there.
pub proof fn lemma_set_returns_its_argument(value: i32, outcome: Result<i32, StorageFailure>)
    requires
        set_outcome(value, outcome),
        takes(value),
    ensures
        outcome == Ok::<i32, StorageFailure>(value),
{
}

/// Whatever the medium answers, setting the counter never returns another
/// value than the one it was given.
pub proof fn lemma_set_returns_nothing_else(value: i32, outcome: Result<i32, StorageFailure>)
    requires
        set_outcome(value, outcome),
    ensures
        outcome matches Ok(stored) ==> stored == value,
{
}

/// Moving a counter that holds `value` by `delta`, where the neighbour is in
/// range and the medium takes it, returns the neighbour: `value + 1` for an
/// increment and `value - 1` for a decrement.
pub proof fn lemma_step_returns_the_neighbour(
    value: i32,
    delta: int,
    outcome: Result<i32, StorageFailure>,
)
    requires
        step_outcome(delta, outcome),
        holds(value),
        i32::MIN <= value + delta <= i32::MAX,
        takes((value + delta) as i32),
    ensures
        outcome matches Ok(next) && next == value + delta,
{
    assert(stepped(value, delta) == Some((value + delta) as i32));
}

/// Moving a counter that holds `value` by `delta`, where the neighbour is out
/// of range, fails as out of range.
pub proof fn lemma_step_stops_at_the_end(
    value: i32,
    delta: int,
    outcome: Result<i32, StorageFailure>,
)
    requires
        step_outcome(delta, outcome),
        holds(value),
        !(i32::MIN <= value + delta <= i32::MAX),
    ensures
        fails_as(outcome, FailureKind::OutOfRange, OUT_OF_RANGE@),
{
}

/// Where the counter's row is gone, reading fails as a missing row.
pub proof fn lemma_read_misses_the_row(outcome: Result<i32, StorageFailure>)
    requires
        read_outcome(outcome),
        reads_no_row(),
    ensures
        outcome matches Err(failure) && failure@.0 == FailureKind::RowMissing,
{
}

/// Where the counter's row is gone, moving the counter fails as a missing
/// row.
pub proof fn lemma_step_misses_the_row(delta: int, outcome: Result<i32, StorageFailure>)
    requires
        step_outcome(delta, outcome),
        reads_no_row(),
    ensures
        outcome matches Err(failure) && failure@.0 == FailureKind::RowMissing,
{
}

/// Where the counter's row is gone, setting the counter fails as a missing
/// row and returns no value.
pub proof fn lemma_set_misses_the_row(value: i32, outcome: Result<i32, StorageFailure>)
    requires
        set_outcome(value, outcome),
        writes_no_row(value),
    ensures
        fails_as(outcome, FailureKind::RowMissing, ROW_MISSING@),
{
}

} // verus!
