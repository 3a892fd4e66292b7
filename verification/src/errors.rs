use vstd::prelude::*;

verus! {

/// Declares rusqlite's error type, so that results of adapter operations can
/// carry the native driver diagnostic. Relies on `rusqlite::Error`.
#[verifier::external_type_specification]
#[verifier::external_body]
pub struct ExSqliteError(rusqlite::Error);

/// The failures an adapter operation can surface.
///
/// Every failure aborts the current operation, rolls its transaction back,
/// and reaches the caller as one of these; nothing is retried.
#[derive(Debug)]
pub enum SqliteMigrationError {
    /// The bookkeeping table could not be created. Fatal: the host must not
    /// run migrations against this connection.
    SchemaSetupFailure(rusqlite::Error),
    /// An underlying statement or transaction failed: a migration callback
    /// error, a duplicate-version insert, or a begin/commit failure.
    RusqliteError(rusqlite::Error),
}

} // verus!
