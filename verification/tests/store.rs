use counter_store::db::{DATABASE_FILE, ROW_MISSING};
use counter_store::db::OUT_OF_RANGE;
use counter_store::{Database, FailureKind, StorageFailure};
use std::io::Read;
use std::io::Write;
use std::path::PathBuf;

fn open(dir: &tempfile::TempDir) -> Database {
    Database::new(dir.path().to_path_buf()).unwrap()
}

fn side_door(dir: &tempfile::TempDir) -> rusqlite::Connection {
    rusqlite::Connection::open(dir.path().join(DATABASE_FILE)).unwrap()
}

fn stored(dir: &tempfile::TempDir) -> i64 {
    side_door(dir)
        .query_row("SELECT value FROM counter WHERE key = 'main'", [], |row| row.get(0))
        .unwrap()
}

fn shareable<T: Send + Sync>(_: &T) {}

#[test]
fn fresh_store_reports_zero() {
    let dir = tempfile::tempdir().unwrap();
    let db = open(&dir);
    assert_eq!(db.get_count().unwrap(), 0);
}

#[test]
fn store_keeps_its_file_in_the_data_directory() {
    let dir = tempfile::tempdir().unwrap();
    let _db = open(&dir);
    assert_eq!(DATABASE_FILE, "app.db");
    assert!(dir.path().join("app.db").is_file());
}

#[test]
fn walk_through_all_operations() {
    let dir = tempfile::tempdir().unwrap();
    let db = open(&dir);
    assert_eq!(db.get_count().unwrap(), 0);
    assert_eq!(db.increment().unwrap(), 1);
    assert_eq!(db.increment().unwrap(), 2);
    assert_eq!(db.decrement().unwrap(), 1);
    assert_eq!(db.set_count(10).unwrap(), 10);
    assert_eq!(db.reset().unwrap(), 0);
    assert_eq!(db.get_count().unwrap(), 0);
}

#[test]
fn opening_again_does_not_reset_the_counter() {
    let dir = tempfile::tempdir().unwrap();
    let first = open(&dir);
    assert_eq!(first.set_count(7).unwrap(), 7);
    let second = open(&dir);
    assert_eq!(second.get_count().unwrap(), 7);
    assert_eq!(first.get_count().unwrap(), 7);
}

#[test]
fn increment_returns_the_successor_and_persists_it() {
    let dir = tempfile::tempdir().unwrap();
    let db = open(&dir);
    for start in [0, 41, -1, -2147483648, 2147483646] {
        assert_eq!(db.set_count(start).unwrap(), start);
        assert_eq!(db.increment().unwrap(), start + 1);
        assert_eq!(db.get_count().unwrap(), start + 1);
    }
    drop(db);
    assert_eq!(open(&dir).get_count().unwrap(), 2147483647);
}

#[test]
fn decrement_returns_the_predecessor_and_persists_it() {
    let dir = tempfile::tempdir().unwrap();
    let db = open(&dir);
    for start in [0, 43, 1, 2147483647, -2147483647] {
        assert_eq!(db.set_count(start).unwrap(), start);
        assert_eq!(db.decrement().unwrap(), start - 1);
        assert_eq!(db.get_count().unwrap(), start - 1);
    }
    drop(db);
    assert_eq!(open(&dir).get_count().unwrap(), -2147483648);
}

#[test]
fn set_returns_its_argument_and_get_follows() {
    let dir = tempfile::tempdir().unwrap();
    let db = open(&dir);
    for value in [5, -5, 0, 2147483647, -2147483648, 5] {
        assert_eq!(db.set_count(value).unwrap(), value);
        assert_eq!(db.get_count().unwrap(), value);
    }
}

#[test]
fn reset_is_set_to_zero() {
    let dir = tempfile::tempdir().unwrap();
    let by_reset = open(&dir);
    let other = tempfile::tempdir().unwrap();
    let by_set = open(&other);
    by_reset.set_count(99).unwrap();
    by_set.set_count(99).unwrap();
    assert_eq!(by_reset.reset().unwrap(), 0);
    assert_eq!(by_set.set_count(0).unwrap(), 0);
    assert_eq!(by_reset.get_count().unwrap(), by_set.get_count().unwrap());
    assert_eq!(by_reset.reset().unwrap(), 0);
    assert_eq!(by_reset.get_count().unwrap(), 0);
}

#[test]
fn value_survives_close_and_reopen() {
    let dir = tempfile::tempdir().unwrap();
    for value in [12, -3, 0, 2147483647, -2147483648] {
        let db = open(&dir);
        assert_eq!(db.set_count(value).unwrap(), value);
        drop(db);
        let db = open(&dir);
        assert_eq!(db.get_count().unwrap(), value);
    }
}

#[test]
fn many_increments_are_all_counted() {
    let dir = tempfile::tempdir().unwrap();
    let db = open(&dir);
    shareable(&db);
    let callers = [&db, &db, &db, &db];
    for round in 0..50 {
        for (slot, caller) in callers.iter().enumerate() {
            assert_eq!(caller.increment().unwrap(), round * 4 + slot as i32 + 1);
        }
    }
    assert_eq!(db.get_count().unwrap(), 200);
}

#[test]
fn two_handles_on_one_file_lose_no_update() {
    let dir = tempfile::tempdir().unwrap();
    let first = open(&dir);
    let second = open(&dir);
    for _ in 0..20 {
        first.increment().unwrap();
        second.increment().unwrap();
    }
    assert_eq!(first.get_count().unwrap(), 40);
    assert_eq!(second.get_count().unwrap(), 40);
}

#[test]
fn failed_operation_leaves_the_last_value_readable() {
    let dir = tempfile::tempdir().unwrap();
    let db = open(&dir);
    assert_eq!(db.set_count(7).unwrap(), 7);
    let side = side_door(&dir);
    side.execute("ALTER TABLE counter RENAME TO parked", []).unwrap();
    assert!(db.increment().is_err());
    assert!(db.set_count(1).is_err());
    assert!(db.get_count().is_err());
    side.execute("ALTER TABLE parked RENAME TO counter", []).unwrap();
    assert_eq!(db.get_count().unwrap(), 7);
    assert_eq!(db.increment().unwrap(), 8);
}

#[test]
fn failure_carries_the_message_of_the_medium() {
    let dir = tempfile::tempdir().unwrap();
    let db = open(&dir);
    side_door(&dir).execute("DROP TABLE counter", []).unwrap();
    let failure: StorageFailure = db.get_count().err().unwrap();
    assert_eq!(failure.message(), "no such table: counter");
    assert_eq!(failure.kind(), FailureKind::Medium);
}

#[test]
fn missing_row_fails_every_operation_and_is_not_recreated() {
    let dir = tempfile::tempdir().unwrap();
    let db = open(&dir);
    assert_eq!(db.set_count(3).unwrap(), 3);
    let side = side_door(&dir);
    assert_eq!(side.execute("DELETE FROM counter WHERE key = 'main'", []).unwrap(), 1);
    let read = db.get_count().err().unwrap();
    assert_eq!(read.kind(), FailureKind::RowMissing);
    assert_eq!(read.message(), "Query returned no rows");
    let written = db.set_count(4).err().unwrap();
    assert_eq!(written.kind(), FailureKind::RowMissing);
    assert_eq!(written.message(), ROW_MISSING);
    let up = db.increment().err().unwrap();
    assert_eq!(up.kind(), FailureKind::RowMissing);
    assert_eq!(up.message(), "Query returned no rows");
    let down = db.decrement().err().unwrap();
    assert_eq!(down.kind(), FailureKind::RowMissing);
    assert_eq!(down.message(), "Query returned no rows");
    let cleared = db.reset().err().unwrap();
    assert_eq!(cleared.kind(), FailureKind::RowMissing);
    assert_eq!(cleared.message(), ROW_MISSING);
    let rows: i64 = side.query_row("SELECT COUNT(*) FROM counter", [], |row| row.get(0)).unwrap();
    assert_eq!(rows, 0);
    assert!(db.get_count().is_err());
}

#[test]
fn opening_creates_a_missing_row_at_zero() {
    let dir = tempfile::tempdir().unwrap();
    let db = open(&dir);
    assert_eq!(db.set_count(3).unwrap(), 3);
    side_door(&dir).execute("DELETE FROM counter WHERE key = 'main'", []).unwrap();
    let again = open(&dir);
    assert_eq!(again.get_count().unwrap(), 0);
    assert_eq!(db.get_count().unwrap(), 0);
}

#[test]
fn only_the_main_row_is_touched() {
    let dir = tempfile::tempdir().unwrap();
    let db = open(&dir);
    let side = side_door(&dir);
    side.execute("INSERT INTO counter (key, value) VALUES ('other', 50)", []).unwrap();
    assert_eq!(db.increment().unwrap(), 1);
    assert_eq!(db.set_count(9).unwrap(), 9);
    assert_eq!(db.decrement().unwrap(), 8);
    assert_eq!(db.reset().unwrap(), 0);
    let other: i32 = side
        .query_row("SELECT value FROM counter WHERE key = 'other'", [], |row| row.get(0))
        .unwrap();
    assert_eq!(other, 50);
    let rows: i64 = side.query_row("SELECT COUNT(*) FROM counter", [], |row| row.get(0)).unwrap();
    assert_eq!(rows, 2);
}

#[test]
fn table_has_the_documented_layout() {
    let dir = tempfile::tempdir().unwrap();
    let _db = open(&dir);
    let side = side_door(&dir);
    side.execute("INSERT INTO counter (key) VALUES ('fresh')", []).unwrap();
    let fresh: i64 = side
        .query_row("SELECT value FROM counter WHERE key = 'fresh'", [], |row| row.get(0))
        .unwrap();
    assert_eq!(fresh, 0);
    assert!(side.execute("INSERT INTO counter (key, value) VALUES ('main', 1)", []).is_err());
    assert!(side.execute("INSERT INTO counter (key, value) VALUES ('void', NULL)", []).is_err());
}

#[test]
fn increment_at_the_largest_value_fails_and_changes_nothing() {
    let dir = tempfile::tempdir().unwrap();
    let db = open(&dir);
    assert_eq!(db.set_count(2147483647).unwrap(), 2147483647);
    let failure = db.increment().err().unwrap();
    assert_eq!(failure.kind(), FailureKind::OutOfRange);
    assert_eq!(failure.message(), OUT_OF_RANGE);
    assert_eq!(db.get_count().unwrap(), 2147483647);
    assert_eq!(stored(&dir), 2147483647);
    assert_eq!(db.decrement().unwrap(), 2147483646);
}

#[test]
fn decrement_at_the_smallest_value_fails_and_changes_nothing() {
    let dir = tempfile::tempdir().unwrap();
    let db = open(&dir);
    assert_eq!(db.set_count(-2147483648).unwrap(), -2147483648);
    let failure = db.decrement().err().unwrap();
    assert_eq!(failure.kind(), FailureKind::OutOfRange);
    assert_eq!(failure.message(), "the counter is at the end of its range");
    assert_eq!(db.get_count().unwrap(), -2147483648);
    assert_eq!(stored(&dir), -2147483648);
    assert_eq!(db.increment().unwrap(), -2147483647);
}

#[test]
fn value_outside_the_range_is_a_failure_and_stays_as_it_is() {
    let dir = tempfile::tempdir().unwrap();
    let db = open(&dir);
    let side = side_door(&dir);
    side.execute("UPDATE counter SET value = 2147483648 WHERE key = 'main'", []).unwrap();
    let failure = db.get_count().err().unwrap();
    assert_eq!(failure.kind(), FailureKind::Medium);
    assert_eq!(failure.message(), "Integer 2147483648 out of range at index 0");
    assert_eq!(db.increment().err().unwrap().kind(), FailureKind::Medium);
    assert_eq!(db.decrement().err().unwrap().kind(), FailureKind::Medium);
    assert_eq!(stored(&dir), 2147483648);
    assert_eq!(db.set_count(5).unwrap(), 5);
    assert_eq!(db.get_count().unwrap(), 5);
}

#[test]
fn refused_write_fails_the_operation_and_changes_nothing() {
    let dir = tempfile::tempdir().unwrap();
    let db = open(&dir);
    assert_eq!(db.set_count(7).unwrap(), 7);
    let side = side_door(&dir);
    side.execute(
        "CREATE TRIGGER frozen BEFORE UPDATE ON counter BEGIN SELECT RAISE(ABORT, 'frozen'); END",
        [],
    )
    .unwrap();
    let up = db.increment().err().unwrap();
    assert_eq!(up.kind(), FailureKind::Medium);
    assert_eq!(up.message(), "frozen");
    assert_eq!(db.decrement().err().unwrap().message(), "frozen");
    assert_eq!(db.set_count(1).err().unwrap().message(), "frozen");
    assert_eq!(db.reset().err().unwrap().message(), "frozen");
    assert_eq!(db.get_count().unwrap(), 7);
    side.execute("DROP TRIGGER frozen", []).unwrap();
    assert_eq!(db.increment().unwrap(), 8);
}

#[test]
fn opening_fails_where_the_directory_is_missing() {
    let dir = tempfile::tempdir().unwrap();
    let missing: PathBuf = dir.path().join("not").join("there");
    let failure = Database::new(missing).err().unwrap();
    assert_eq!(failure.kind(), FailureKind::Medium);
    let expected = format!(
        "unable to open database file: {}",
        dir.path().join("not").join("there").join("app.db").display()
    );
    assert_eq!(failure.message(), expected);
}

#[test]
fn opening_fails_where_the_file_is_no_database() {
    let dir = tempfile::tempdir().unwrap();
    let mut file = tempfile::Builder::new()
        .prefix("app")
        .suffix(".db")
        .rand_bytes(0)
        .tempfile_in(dir.path())
        .unwrap();
    assert_eq!(file.path(), dir.path().join(DATABASE_FILE));
    file.write_all(&[0x55; 4096]).unwrap();
    file.flush().unwrap();
    let failure = Database::new(dir.path().to_path_buf()).err().unwrap();
    assert_eq!(failure.kind(), FailureKind::Medium);
    assert_eq!(failure.message(), "file is not a database");
    let mut content = Vec::new();
    file.reopen().unwrap().read_to_end(&mut content).unwrap();
    assert_eq!(content, vec![0x55; 4096]);
}
