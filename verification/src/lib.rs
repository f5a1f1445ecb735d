//! Schema migrations for a graph database, applied once and in order.
//!
//! A migration is a script in the store's query language. A run takes the
//! scripts of a folder in the order of its listing, fingerprints each with
//! SHA-256, and compares it with the chain of migration nodes that the store
//! keeps: a script without a node is run and then recorded, a script whose
//! node has the same checksum is passed over, and a script whose node has
//! another checksum stops the run.
//!
//! The library does no input or output. The caller lists the folder and reads
//! the files ([`discovery`]), and owns the connection to the store: a run
//! ([`run`]) hands out one request at a time, the caller carries it out with
//! the statement made for it ([`statement`]) and hands back the outcome.
//!
//! ```text
//! let mut progress = migrator.run_migrations(migrations);
//! while let RunProgress::Pending(run) = progress {
//!     let outcome = carry_out(run.request());
//!     progress = run.advance(outcome);
//! }
//! ```
//!
//! What a whole run comes to against a store that keeps faith is written
//! down in [`chain`] and proved in [`laws`].

pub mod chain;
pub mod clock;
pub mod discovery;
pub mod driver;
pub mod fingerprint;
pub mod laws;
pub mod migrations;
pub mod parameterize;
pub mod query;
pub mod run;
pub mod statement;

pub use migrations::GraphMigrator;
pub use parameterize::{parameterize, struct_to_hashmap};
pub use query::{all, get_single, read_row, single, QueryError, RowFetch, Rows};
