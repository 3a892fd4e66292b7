//! A SQLite adapter for schema migrations.
//!
//! The crate tracks which migration versions have been applied to a SQLite
//! database in a dedicated bookkeeping table, and runs one migration's
//! forward or backward logic together with the bookkeeping update inside a
//! single transaction, so that a migration's effect is durable if and only
//! if its version marker is.

mod adapter;
mod errors;
mod laws;
mod migration;
mod model;

pub use adapter::SqliteAdapter;
pub use errors::SqliteMigrationError;
pub use laws::{
    lemma_applied_after_membership, lemma_apply_run_records_exactly,
    lemma_apply_then_revert_round_trip, lemma_current_version_unique,
};
pub use migration::SqliteMigration;
pub use model::{applied_after, current_of, is_max_of, StoreState};
