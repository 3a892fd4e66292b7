use rusqlite::Connection;
use schemamama_rusqlite::{SqliteAdapter, SqliteMigration, SqliteMigrationError};

struct CreateUsers;

impl SqliteMigration for CreateUsers {
    fn spec_version(&self) -> i64 {
        self.version()
    }

    fn version(&self) -> i64 {
        1
    }

    fn description(&self) -> String {
        "create users table".to_string()
    }

    fn up(&self, conn: &Connection) -> rusqlite::Result<()> {
        conn.execute("CREATE TABLE users (id BIGINT PRIMARY KEY);", [])
            .map(|_| ())
    }

    fn down(&self, conn: &Connection) -> rusqlite::Result<()> {
        conn.execute("DROP TABLE users;", []).map(|_| ())
    }
}

/// A migration with no schema changes of its own, under a chosen version.
struct Noop(i64);

impl SqliteMigration for Noop {
    fn spec_version(&self) -> i64 {
        self.version()
    }

    fn version(&self) -> i64 {
        self.0
    }

    fn description(&self) -> String {
        "no operation".to_string()
    }
}

fn ready_adapter() -> SqliteAdapter {
    let conn = Connection::open_in_memory().unwrap();
    let mut adapter = SqliteAdapter::new(conn);
    adapter.setup_schema().unwrap();
    adapter
}

fn table_exists(adapter: &SqliteAdapter, name: &str) -> bool {
    adapter
        .connection()
        .query_row(
            "SELECT name FROM sqlite_master WHERE type = 'table' AND name = ?1;",
            (name,),
            |row| row.get::<usize, String>(0),
        )
        .is_ok()
}

#[test]
fn empty_store_reports_none_and_no_versions() {
    let adapter = ready_adapter();
    assert_eq!(adapter.current_version().unwrap(), None);
    assert_eq!(adapter.migrated_versions().unwrap(), Vec::<i64>::new());
}

#[test]
fn apply_records_each_version_and_current_is_max() {
    let mut adapter = ready_adapter();
    adapter.apply_migration(&Noop(3)).unwrap();
    adapter.apply_migration(&Noop(1)).unwrap();
    adapter.apply_migration(&Noop(2)).unwrap();
    assert_eq!(adapter.migrated_versions().unwrap(), vec![1, 2, 3]);
    assert_eq!(adapter.current_version().unwrap(), Some(3));
}

#[test]
fn duplicate_apply_fails_and_leaves_set_unchanged() {
    let mut adapter = ready_adapter();
    adapter.apply_migration(&Noop(5)).unwrap();
    let second = adapter.apply_migration(&Noop(5));
    assert!(matches!(second, Err(SqliteMigrationError::RusqliteError(_))));
    assert_eq!(adapter.migrated_versions().unwrap(), vec![5]);
    assert_eq!(adapter.current_version().unwrap(), Some(5));
}

/// A migration whose `up` succeeds in creating a table before the
/// bookkeeping insert collides with an already-applied version.
struct CreatePosts;

impl SqliteMigration for CreatePosts {
    fn spec_version(&self) -> i64 {
        self.version()
    }

    fn version(&self) -> i64 {
        5
    }

    fn description(&self) -> String {
        "create posts table".to_string()
    }

    fn up(&self, conn: &Connection) -> rusqlite::Result<()> {
        conn.execute("CREATE TABLE posts (id BIGINT PRIMARY KEY);", [])
            .map(|_| ())
    }
}

#[test]
fn bookkeeping_conflict_rolls_back_migration_changes() {
    let mut adapter = ready_adapter();
    adapter.apply_migration(&Noop(5)).unwrap();
    let second = adapter.apply_migration(&CreatePosts);
    assert!(matches!(second, Err(SqliteMigrationError::RusqliteError(_))));
    assert!(!table_exists(&adapter, "posts"));
    assert_eq!(adapter.migrated_versions().unwrap(), vec![5]);
}

/// A migration whose `up` makes a schema change and then fails.
struct HalfDone;

impl SqliteMigration for HalfDone {
    fn spec_version(&self) -> i64 {
        self.version()
    }

    fn version(&self) -> i64 {
        2
    }

    fn description(&self) -> String {
        "fails after a partial change".to_string()
    }

    fn up(&self, conn: &Connection) -> rusqlite::Result<()> {
        conn.execute("CREATE TABLE half (id BIGINT PRIMARY KEY);", [])?;
        conn.execute("CREATE TABLE half (id BIGINT PRIMARY KEY);", [])
            .map(|_| ())
    }
}

#[test]
fn failed_up_callback_rolls_back_its_changes() {
    let mut adapter = ready_adapter();
    let result = adapter.apply_migration(&HalfDone);
    assert!(matches!(result, Err(SqliteMigrationError::RusqliteError(_))));
    assert!(!table_exists(&adapter, "half"));
    assert_eq!(adapter.migrated_versions().unwrap(), Vec::<i64>::new());
    assert_eq!(adapter.current_version().unwrap(), None);
}

/// A migration whose `down` leaves a visible marker when it runs.
struct Marker;

impl SqliteMigration for Marker {
    fn spec_version(&self) -> i64 {
        self.version()
    }

    fn version(&self) -> i64 {
        9
    }

    fn description(&self) -> String {
        "marks that down ran".to_string()
    }

    fn down(&self, conn: &Connection) -> rusqlite::Result<()> {
        conn.execute("CREATE TABLE down_marker (id BIGINT PRIMARY KEY);", [])
            .map(|_| ())
    }
}

#[test]
fn revert_of_unapplied_version_is_a_noop_but_down_runs() {
    let mut adapter = ready_adapter();
    adapter.apply_migration(&Noop(1)).unwrap();
    adapter.revert_migration(&Marker).unwrap();
    assert_eq!(adapter.migrated_versions().unwrap(), vec![1]);
    assert_eq!(adapter.current_version().unwrap(), Some(1));
    assert!(table_exists(&adapter, "down_marker"));
}

#[test]
fn apply_then_revert_restores_current_version() {
    let mut adapter = ready_adapter();
    adapter.apply_migration(&Noop(2)).unwrap();
    assert_eq!(adapter.current_version().unwrap(), Some(2));
    adapter.apply_migration(&Noop(7)).unwrap();
    assert_eq!(adapter.current_version().unwrap(), Some(7));
    adapter.revert_migration(&Noop(7)).unwrap();
    assert_eq!(adapter.current_version().unwrap(), Some(2));
    adapter.revert_migration(&Noop(2)).unwrap();
    assert_eq!(adapter.current_version().unwrap(), None);
}

#[test]
fn setup_schema_is_idempotent_and_keeps_versions() {
    let mut adapter = ready_adapter();
    adapter.apply_migration(&Noop(4)).unwrap();
    adapter.setup_schema().unwrap();
    assert_eq!(adapter.migrated_versions().unwrap(), vec![4]);
}

#[test]
fn schema_setup_failure_is_surfaced_as_fatal() {
    let conn = Connection::open_in_memory().unwrap();
    let mut adapter = SqliteAdapter::new(conn);
    adapter
        .connection()
        .execute_batch("PRAGMA query_only = ON;")
        .unwrap();
    let result = adapter.setup_schema();
    assert!(matches!(
        result,
        Err(SqliteMigrationError::SchemaSetupFailure(_))
    ));
}

#[test]
fn end_to_end_create_users_and_revert() {
    let mut adapter = ready_adapter();
    adapter.apply_migration(&CreateUsers).unwrap();
    assert_eq!(adapter.current_version().unwrap(), Some(1));
    assert!(table_exists(&adapter, "users"));
    adapter.revert_migration(&CreateUsers).unwrap();
    assert_eq!(adapter.current_version().unwrap(), None);
    assert!(!table_exists(&adapter, "users"));
}
