use vstd::prelude::*;

use crate::errors::SqliteMigrationError;
use crate::migration::SqliteMigration;
use crate::model::{current_of, StoreState};

verus! {

/// Declares rusqlite's connection type: the single handle through which all
/// bookkeeping statements and migration callbacks run. Relies on
/// `rusqlite::Connection`.
#[verifier::external_type_specification]
#[verifier::external_body]
pub struct ExConnection(rusqlite::Connection);

/// An adapter that runs migrations against one SQLite connection.
///
/// It owns the bookkeeping table that records which versions have been
/// applied, and runs each migration's callback together with the matching
/// bookkeeping update in one transaction. The abstract content of the table
/// is carried alongside the connection as the ghost [`StoreState`].
pub struct SqliteAdapter {
    conn: rusqlite::Connection,
    store: Ghost<StoreState>,
}

impl View for SqliteAdapter {
    type V = StoreState;

    closed spec fn view(&self) -> StoreState {
        self.store@
    }
}

impl SqliteAdapter {
    /// The adapter is at rest: no transaction is open, so the transactional
    /// view of the version set coincides with the committed one, which is
    /// finite since the table is.
    pub open spec fn wf(&self) -> bool {
        &&& !self@.open
        &&& self@.pending == self@.rows
        &&& self@.rows.finite()
    }

    /// Relies on rusqlite's `Connection::execute` to run `CREATE TABLE IF
    /// NOT EXISTS` for the bookkeeping table: after success the table
    /// exists, holding whatever versions an earlier process recorded in it;
    /// outside a transaction a failed statement changes nothing.
    #[verifier::external_body]
    fn exec_create_table(&mut self) -> (r: Result<(), rusqlite::Error>)
        requires
            !old(self)@.open,
        ensures
            r is Ok ==> {
                &&& final(self)@.ready
                &&& !final(self)@.open
                &&& final(self)@.rows.finite()
                &&& final(self)@.pending == final(self)@.rows
                &&& old(self)@.ready ==> final(self)@.rows == old(self)@.rows
            },
            r is Err ==> final(self)@ == old(self)@,
    {
        let query = "CREATE TABLE IF NOT EXISTS schemamama (version BIGINT PRIMARY KEY);";
        match self.conn.execute(query, []) {
            Ok(_) => Ok(()),
            Err(e) => Err(e),
        }
    }

    /// Relies on rusqlite's `Connection::execute_batch` to run `BEGIN
    /// DEFERRED`, the statement rusqlite's own transaction type begins with:
    /// on success a transaction is open whose view of the table equals the
    /// committed one; on failure nothing has changed.
    #[verifier::external_body]
    fn exec_begin(&mut self) -> (r: Result<(), rusqlite::Error>)
        requires
            old(self)@.ready,
            !old(self)@.open,
        ensures
            r is Ok ==> {
                &&& final(self)@.ready
                &&& final(self)@.open
                &&& final(self)@.rows == old(self)@.rows
                &&& final(self)@.pending == old(self)@.rows
            },
            r is Err ==> final(self)@ == old(self)@,
    {
        self.conn.execute_batch("BEGIN DEFERRED;")
    }

    /// Relies on rusqlite's `Connection::execute` to insert one version row
    /// inside the open transaction. The version column is the primary key,
    /// so inserting a version the transaction already sees must fail; a
    /// failed statement makes nothing durable.
    #[verifier::external_body]
    fn exec_insert_version(&mut self, version: i64) -> (r: Result<(), rusqlite::Error>)
        requires
            old(self)@.ready,
            old(self)@.open,
        ensures
            r is Ok ==> {
                &&& !old(self)@.pending.contains(version)
                &&& final(self)@.ready
                &&& final(self)@.open
                &&& final(self)@.rows == old(self)@.rows
                &&& final(self)@.pending == old(self)@.pending.insert(version)
            },
            old(self)@.pending.contains(version) ==> r is Err,
            r is Err ==> final(self)@.ready && final(self)@.rows == old(self)@.rows,
    {
        let query = "INSERT INTO schemamama (version) VALUES ($1);";
        match self.conn.execute(query, (version,)) {
            Ok(_) => Ok(()),
            Err(e) => Err(e),
        }
    }

    /// Relies on rusqlite's `Connection::execute` to delete one version row
    /// inside the open transaction: deleting an absent version affects zero
    /// rows and is no error of the statement itself; a failed statement
    /// makes nothing durable.
    #[verifier::external_body]
    fn exec_delete_version(&mut self, version: i64) -> (r: Result<(), rusqlite::Error>)
        requires
            old(self)@.ready,
            old(self)@.open,
        ensures
            r is Ok ==> {
                &&& final(self)@.ready
                &&& final(self)@.open
                &&& final(self)@.rows == old(self)@.rows
                &&& final(self)@.pending == old(self)@.pending.remove(version)
            },
            r is Err ==> final(self)@.ready && final(self)@.rows == old(self)@.rows,
    {
        let query = "DELETE FROM schemamama WHERE version = $1;";
        match self.conn.execute(query, (version,)) {
            Ok(_) => Ok(()),
            Err(e) => Err(e),
        }
    }

    /// Relies on rusqlite's `Connection::execute_batch` to run `COMMIT`, the
    /// statement rusqlite's own transaction type commits with: on success
    /// the transaction's view becomes the committed content of the table,
    /// all or nothing; a failed commit makes nothing durable.
    #[verifier::external_body]
    fn exec_commit(&mut self) -> (r: Result<(), rusqlite::Error>)
        requires
            old(self)@.ready,
            old(self)@.open,
        ensures
            r is Ok ==> {
                &&& final(self)@.ready
                &&& !final(self)@.open
                &&& final(self)@.rows == old(self)@.pending
                &&& final(self)@.pending == old(self)@.pending
            },
            r is Err ==> final(self)@.ready && final(self)@.rows == old(self)@.rows,
    {
        self.conn.execute_batch("COMMIT;")
    }

    /// Relies on rusqlite's `Connection::execute_batch` to run `ROLLBACK`,
    /// the statement rusqlite's own transaction type rolls back with. A
    /// rollback never makes pending changes durable; with no statement in
    /// progress it returns the connection to autocommit, and when no
    /// transaction is active the connection is in autocommit already.
    /// Callers may ignore the driver's result.
    #[verifier::external_body]
    fn exec_rollback(&mut self) -> (r: Result<(), rusqlite::Error>)
        requires
            old(self)@.ready,
        ensures
            final(self)@.ready,
            !final(self)@.open,
            final(self)@.rows == old(self)@.rows,
            final(self)@.pending == old(self)@.rows,
    {
        self.conn.execute_batch("ROLLBACK;")
    }

    /// Relies on rusqlite's `Connection::query_row` with `SELECT version ...
    /// ORDER BY version DESC LIMIT 1`: the first row of the descending
    /// order is the greatest version, and an empty table is reported as
    /// `Error::QueryReturnedNoRows`, which this wrapper alone maps to
    /// `None`.
    #[verifier::external_body]
    fn exec_select_current(&self) -> (r: Result<Option<i64>, rusqlite::Error>)
        requires
            self@.ready,
            !self@.open,
        ensures
            r matches Ok(c) ==> current_of(self@.rows, c),
    {
        let query = "SELECT version FROM schemamama ORDER BY version DESC LIMIT 1;";
        match self.conn.query_row(query, [], |row| row.get(0)) {
            Ok(version) => Ok(Some(version)),
            Err(rusqlite::Error::QueryReturnedNoRows) => Ok(None),
            Err(e) => Err(e),
        }
    }

    /// Relies on rusqlite's `Connection::prepare` and
    /// `Statement::query_map` with `SELECT version ... ORDER BY version
    /// ASC`: one row per recorded version, in ascending order, with no
    /// duplicates since the column is the primary key.
    #[verifier::external_body]
    fn exec_select_all(&self) -> (r: Result<Vec<i64>, rusqlite::Error>)
        requires
            self@.ready,
            !self@.open,
        ensures
            r matches Ok(vs) ==> {
                &&& forall|i: int, j: int| 0 <= i < j < vs@.len() ==> vs@[i] < vs@[j]
                &&& forall|v: i64| #![auto] self@.rows.contains(v) <==> vs@.contains(v)
            },
    {
        let query = "SELECT version FROM schemamama ORDER BY version ASC;";
        let mut statement = self.conn.prepare(query)?;
        let result = statement.query_map([], |row| row.get(0))?;
        result.collect()
    }

    /// Create a new adapter that owns the given SQLite connection.
    pub fn new(connection: rusqlite::Connection) -> (r: SqliteAdapter)
        ensures
            r.wf(),
            !r@.ready,
    {
        SqliteAdapter {
            conn: connection,
            store: Ghost(
                StoreState {
                    ready: false,
                    open: false,
                    rows: Set::empty(),
                    pending: Set::empty(),
                },
            ),
        }
    }

    /// The underlying SQLite connection. Callers must leave the bookkeeping
    /// table alone.
    pub fn connection(&self) -> &rusqlite::Connection {
        &self.conn
    }

    /// Create the bookkeeping table if it is absent. Idempotent, and safe to
    /// call on every process start: success leaves any versions an earlier
    /// process recorded in place. Failure is fatal for the host process and
    /// is surfaced as the distinguished setup error.
    pub fn setup_schema(&mut self) -> (r: Result<(), SqliteMigrationError>)
        requires
            old(self).wf(),
        ensures
            final(self).wf(),
            r is Ok ==> final(self)@.ready,
            r is Ok && old(self)@.ready ==> final(self)@.rows == old(self)@.rows,
            r matches Err(e) ==> e is SchemaSetupFailure && final(self)@ == old(self)@,
    {
        match self.exec_create_table() {
            Ok(()) => Ok(()),
            Err(e) => Err(SqliteMigrationError::SchemaSetupFailure(e)),
        }
    }

    /// Report the greatest applied version, or `None` when no migration has
    /// been applied. Call only after `setup_schema` has succeeded.
    pub fn current_version(&self) -> (r: Result<Option<i64>, SqliteMigrationError>)
        requires
            self.wf(),
            self@.ready,
        ensures
            r matches Ok(c) ==> current_of(self@.rows, c),
            r matches Err(e) ==> e is RusqliteError,
    {
        match self.exec_select_current() {
            Ok(c) => Ok(c),
            Err(e) => Err(SqliteMigrationError::RusqliteError(e)),
        }
    }

    /// Report every applied version, in ascending order, each exactly once;
    /// empty when no migration has been applied. Call only after
    /// `setup_schema` has succeeded.
    pub fn migrated_versions(&self) -> (r: Result<Vec<i64>, SqliteMigrationError>)
        requires
            self.wf(),
            self@.ready,
        ensures
            r matches Ok(vs) ==> {
                &&& forall|i: int, j: int| 0 <= i < j < vs@.len() ==> vs@[i] < vs@[j]
                &&& forall|v: i64| #![auto] self@.rows.contains(v) <==> vs@.contains(v)
            },
            r matches Err(e) ==> e is RusqliteError,
    {
        match self.exec_select_all() {
            Ok(vs) => Ok(vs),
            Err(e) => Err(SqliteMigrationError::RusqliteError(e)),
        }
    }

    /// Apply one migration: begin a transaction, run its `up` callback,
    /// record its version, and commit, so that the callback's effect and the
    /// version marker become durable together or not at all. Fails on a
    /// callback error, on a version already applied, and on a begin or
    /// commit failure; every failure leaves the version set unchanged. Call
    /// only after `setup_schema` has succeeded.
    pub fn apply_migration<M: SqliteMigration>(
        &mut self,
        migration: &M,
    ) -> (r: Result<(), SqliteMigrationError>)
        requires
            old(self).wf(),
            old(self)@.ready,
        ensures
            final(self).wf(),
            final(self)@.ready,
            r is Ok ==> !old(self)@.rows.contains(migration.spec_version())
                && final(self)@.rows == old(self)@.rows.insert(migration.spec_version()),
            r is Err ==> final(self)@.rows == old(self)@.rows,
            old(self)@.rows.contains(migration.spec_version()) ==> r is Err,
            r matches Err(e) ==> e is RusqliteError,
    {
        let version = migration.version();
        match self.exec_begin() {
            Ok(()) => {}
            Err(e) => {
                return Err(SqliteMigrationError::RusqliteError(e));
            }
        }
        match migration.up(&self.conn) {
            Ok(()) => {}
            Err(e) => {
                let _ = self.exec_rollback();
                return Err(SqliteMigrationError::RusqliteError(e));
            }
        }
        match self.exec_insert_version(version) {
            Ok(()) => {}
            Err(e) => {
                let _ = self.exec_rollback();
                return Err(SqliteMigrationError::RusqliteError(e));
            }
        }
        match self.exec_commit() {
            Ok(()) => Ok(()),
            Err(e) => {
                let _ = self.exec_rollback();
                Err(SqliteMigrationError::RusqliteError(e))
            }
        }
    }

    /// Revert one migration: begin a transaction, run its `down` callback,
    /// erase its version, and commit. Reverting a version that is not
    /// applied leaves the version set as it was, and is no error of the
    /// bookkeeping delete, though the `down` callback still runs. Every
    /// failure leaves the version set unchanged. Call only after
    /// `setup_schema` has succeeded.
    pub fn revert_migration<M: SqliteMigration>(
        &mut self,
        migration: &M,
    ) -> (r: Result<(), SqliteMigrationError>)
        requires
            old(self).wf(),
            old(self)@.ready,
        ensures
            final(self).wf(),
            final(self)@.ready,
            r is Ok ==> final(self)@.rows == old(self)@.rows.remove(migration.spec_version()),
            r is Ok && !old(self)@.rows.contains(migration.spec_version()) ==> final(self)@.rows
                == old(self)@.rows,
            r is Err ==> final(self)@.rows == old(self)@.rows,
            r matches Err(e) ==> e is RusqliteError,
    {
        let version = migration.version();
        match self.exec_begin() {
            Ok(()) => {}
            Err(e) => {
                return Err(SqliteMigrationError::RusqliteError(e));
            }
        }
        match migration.down(&self.conn) {
            Ok(()) => {}
            Err(e) => {
                let _ = self.exec_rollback();
                return Err(SqliteMigrationError::RusqliteError(e));
            }
        }
        match self.exec_delete_version(version) {
            Ok(()) => {}
            Err(e) => {
                let _ = self.exec_rollback();
                return Err(SqliteMigrationError::RusqliteError(e));
            }
        }
        match self.exec_commit() {
            Ok(()) => {
                proof {
                    let before = old(self)@.rows;
                    if !before.contains(migration.spec_version()) {
                        assert(before.remove(migration.spec_version()) =~= before);
                    }
                }
                Ok(())
            }
            Err(e) => {
                let _ = self.exec_rollback();
                Err(SqliteMigrationError::RusqliteError(e))
            }
        }
    }
}

} // verus!
