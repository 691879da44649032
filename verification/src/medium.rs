//! The boundary to the durable medium: the SQLite connection, the path of its
//! file and the lock that guards it.
//!
//! Nothing in this file is proved. What a database answers depends on the file
//! behind it, so no contract here says what an answer is. Each call that asks
//! something of the medium is tied to its answer by a relation without a
//! definition: it holds of what was asked and what came back, and of nothing
//! else that the verified code could learn. Asking twice may be answered in two
//! ways, and both answers then stand in the relation.

use std::path::PathBuf;
use std::sync::Mutex;
use std::sync::MutexGuard;
use rusqlite::Connection;
use vstd::prelude::*;

verus! {

/// `rusqlite::Connection`, carried as an opaque value.
#[verifier::external_type_specification]
#[verifier::external_body]
pub struct ExConnection(rusqlite::Connection);

/// `rusqlite::Error`, carried as an opaque value.
#[verifier::external_type_specification]
#[verifier::external_body]
pub struct ExError(rusqlite::Error);

/// `std::path::PathBuf`, carried as an opaque value.
#[verifier::external_type_specification]
#[verifier::external_body]
pub struct ExPathBuf(std::path::PathBuf);

/// `std::sync::Mutex`, carried as an opaque value.
#[verifier::external_type_specification]
#[verifier::external_body]
#[verifier::reject_recursive_types(T)]
pub struct ExMutex<T: ?Sized>(std::sync::Mutex<T>);

/// `std::sync::MutexGuard`, carried as an opaque value.
#[verifier::external_type_specification]
#[verifier::external_body]
#[verifier::reject_recursive_types(T)]
pub struct ExMutexGuard<'a, T: ?Sized + 'a>(std::sync::MutexGuard<'a, T>);

/// `path` is what the platform made of `name` inside `directory`.
pub uninterp spec fn joined(directory: PathBuf, name: Seq<char>, path: PathBuf) -> bool;

/// `answer` is what came back when the database file at `path` was opened.
pub uninterp spec fn opening(path: PathBuf, answer: Result<Connection, rusqlite::Error>) -> bool;

/// `changed` is what the database answered to the statement `sql`, run with
/// `parameters`.
pub uninterp spec fn executed(
    sql: Seq<char>,
    parameters: Seq<i32>,
    changed: Result<usize, rusqlite::Error>,
) -> bool;

/// `read` is what the database answered to the query `sql`, read as the
/// integer in `column` of the first row.
pub uninterp spec fn queried(sql: Seq<char>, column: usize, read: Result<i32, rusqlite::Error>) -> bool;

/// True of the one error by which a query says that it found no row.
pub uninterp spec fn no_rows(error: rusqlite::Error) -> bool;

/// `PathBuf::join`: the path of `name` inside `directory`. How the two are put
/// together is the platform's business: the contract only records that the
/// result came from these two.
#[verifier::external_body]
pub(crate) fn join(directory: &PathBuf, name: &str) -> (path: PathBuf)
    ensures
        joined(*directory, name@, path),
{
    directory.join(name)
}

/// `Connection::open`: opens the database file at `path` for reading and
/// writing, creating it if there is none. Whether that succeeds is decided by
/// the file system: the contract only records that the answer was given for
/// this path.
#[verifier::external_body]
pub(crate) fn open(path: &PathBuf) -> (answer: Result<Connection, rusqlite::Error>)
    ensures
        opening(*path, answer),
{
    Connection::open(path)
}

/// `Connection::execute`, with the parameters handed over through
/// `rusqlite::params_from_iter`: runs one statement that returns no rows, with
/// `parameters` bound in order, and reports how many rows it changed. The
/// contract only records that the answer was given to this statement and these
/// parameters.
#[verifier::external_body]
pub(crate) fn execute(connection: &Connection, sql: &str, parameters: &Vec<i32>) -> (changed:
    Result<usize, rusqlite::Error>)
    ensures
        executed(sql@, parameters@, changed),
{
    connection.execute(sql, rusqlite::params_from_iter(parameters.iter()))
}

/// `Connection::query_row` with `Row::get`: runs one query without parameters
/// and reads the integer in `column` of its first row. The contract only
/// records that the answer was given to this query and column.
///
/// Where the value found is no integer, `Row::get` looks up the column's name
/// for its error and panics on a name that is not UTF-8. The one query that
/// the store makes names its column in ASCII, so only that query is admitted.
#[verifier::external_body]
pub(crate) fn query_integer(connection: &Connection, sql: &str, column: usize) -> (read: Result<
    i32,
    rusqlite::Error,
>)
    requires
        sql@ == crate::db::SELECT_VALUE@,
    ensures
        queried(sql@, column, read),
{
    connection.query_row(sql, [], |row| row.get(column))
}

/// Tells `rusqlite::Error::QueryReturnedNoRows` from every other error.
#[verifier::external_body]
pub(crate) fn found_no_rows(error: &rusqlite::Error) -> (found: bool)
    ensures
        found == no_rows(*error),
{
    match error {
        rusqlite::Error::QueryReturnedNoRows => true,
        _ => false,
    }
}

/// `Mutex::new`: a lock that owns `connection`.
#[verifier::external_body]
pub(crate) fn guarded(connection: Connection) -> Mutex<Connection> {
    Mutex::new(connection)
}

/// `Mutex::lock`: waits until no other thread holds the lock, then holds it
/// until the guard is dropped. A lock that an earlier holder left poisoned by
/// panicking is taken all the same, through `PoisonError::into_inner`: the
/// connection has no state of this crate that a panic could have broken. A
/// thread that holds the guard must not ask again; the store never does, as
/// each operation takes the guard once and calls nothing but the database
/// while it holds it.
#[verifier::external_body]
pub(crate) fn acquire<'a>(lock: &'a Mutex<Connection>) -> MutexGuard<'a, Connection> {
    match lock.lock() {
        Ok(guard) => guard,
        Err(poisoned) => poisoned.into_inner(),
    }
}

/// `Deref::deref` of a guard: the connection that the guard gives access to.
#[verifier::external_body]
pub(crate) fn held<'a, 'b>(guard: &'b MutexGuard<'a, Connection>) -> &'b Connection {
    std::ops::Deref::deref(guard)
}

} // verus!
