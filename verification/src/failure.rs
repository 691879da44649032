//! The one error that a counter store reports, and why it came about.

use vstd::prelude::*;
use crate::medium::{found_no_rows, no_rows};

verus! {

/// Why an operation of the store failed.
#[derive(Clone, Copy, Debug, PartialEq, Eq, Structural)]
pub enum FailureKind {
    /// The medium reported an error: the file could not be opened, read or
    /// written, or a statement was refused.
    Medium,
    /// The counter's row was not there when it was read or updated.
    RowMissing,
    /// The counter stands at the end of its range and cannot move further.
    OutOfRange,
}

/// The durable medium could not satisfy a read or a write. The kind says why;
/// the message is a diagnostic for people.
#[derive(Debug)]
pub struct StorageFailure {
    kind: FailureKind,
    message: String,
}

impl View for StorageFailure {
    type V = (FailureKind, Seq<char>);

    closed spec fn view(&self) -> (FailureKind, Seq<char>) {
        (self.kind, self.message@)
    }
}

/// The kind under which the store files an error of the SQLite layer: a query
/// that found no row is a missing row, everything else is the medium's.
pub open spec fn kind_of(error: rusqlite::Error) -> FailureKind {
    if no_rows(error) {
        FailureKind::RowMissing
    } else {
        FailureKind::Medium
    }
}

impl StorageFailure {
    /// True when the message is the text that `error` displays as.
    pub closed spec fn reports(&self, error: rusqlite::Error) -> bool {
        vstd::string::to_string_from_display_ensures::<rusqlite::Error>(&error, self.message)
    }

    /// True when the failure is the one that the store makes of `error`: it
    /// carries the error's text and the error's kind.
    pub open spec fn stands_for(&self, error: rusqlite::Error) -> bool {
        self.reports(error) && self@.0 == kind_of(error)
    }

    /// A failure of `kind` that carries `message`.
    pub fn new(kind: FailureKind, message: String) -> (failure: StorageFailure)
        ensures
            failure@ == (kind, message@),
    {
        StorageFailure { kind, message }
    }

    /// The failure that stands for an error of the SQLite layer.
    pub fn from_sqlite(error: &rusqlite::Error) -> (failure: StorageFailure)
        ensures
            failure.stands_for(*error),
    {
        let kind = if found_no_rows(error) {
            FailureKind::RowMissing
        } else {
            FailureKind::Medium
        };
        StorageFailure { kind, message: error.to_string() }
    }

    /// Why the operation failed.
    pub fn kind(&self) -> (kind: FailureKind)
        ensures
            kind == self@.0,
    {
        self.kind
    }

    /// The diagnostic text.
    pub fn message(&self) -> (text: &str)
        ensures
            text@ == self@.1,
    {
        self.message.as_str()
    }
}

} // verus!
