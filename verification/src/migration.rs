use vstd::prelude::*;

verus! {

/// A migration to be executed against a SQLite connection.
///
/// `up` and `down` have empty bodies by default, so their implementation is
/// optional. The adapter hands both callbacks the connection on which its own
/// bookkeeping transaction is open, so their statements join that
/// transaction. An implementation must report its version as a fixed value
/// and must confine its statements to its own schema, leaving the bookkeeping
/// table alone.
pub trait SqliteMigration {
    /// The version this migration identifies itself by.
    spec fn spec_version(&self) -> i64;

    /// Returns the migration's version: an ordered, unique identifier.
    fn version(&self) -> (v: i64)
        ensures
            v == self.spec_version(),
    ;

    /// A message describing the effects of this migration.
    fn description(&self) -> String;

    /// Called when this migration is to be executed.
    #[allow(unused_variables)]
    fn up(&self, conn: &rusqlite::Connection) -> (r: Result<(), rusqlite::Error>) {
        Ok(())
    }

    /// Called when this migration is to be reversed.
    #[allow(unused_variables)]
    fn down(&self, conn: &rusqlite::Connection) -> (r: Result<(), rusqlite::Error>) {
        Ok(())
    }
}

} // verus!
