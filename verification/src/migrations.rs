use crate::clock::{utc_now, Timestamp};
use crate::query::{get_single, QueryError, RowFetch};
use vstd::prelude::*;

verus! {

/// A migration script found on disk.
#[derive(Debug)]
pub struct FileMigration {
    pub checksum: String,
    pub file_name: String,
    pub cypher_text: String,
}

/// A migration script as the contracts see it.
pub struct FileMigrationView {
    pub checksum: Seq<char>,
    pub file_name: Seq<char>,
    pub cypher_text: Seq<char>,
}

impl View for FileMigration {
    type V = FileMigrationView;

    open spec fn view(&self) -> FileMigrationView {
        FileMigrationView {
            checksum: self.checksum@,
            file_name: self.file_name@,
            cypher_text: self.cypher_text@,
        }
    }
}

/// The views of a sequence of migrations.
pub open spec fn migration_views(migrations: Seq<FileMigration>) -> Seq<FileMigrationView> {
    migrations.map_values(|migration: FileMigration| migration@)
}

impl Clone for FileMigration {
    fn clone(&self) -> (copy: Self)
        ensures
            copy == *self,
    {
        FileMigration {
            checksum: self.checksum.clone(),
            file_name: self.file_name.clone(),
            cypher_text: self.cypher_text.clone(),
        }
    }
}

/// A node of the migration chain: one script that was applied.
#[derive(Debug)]
pub struct MigrationsNode {
    pub checksum: String,
    pub file_name: String,
    pub cypher_text: String,
    pub version: u64,
    pub timestamp: Timestamp,
}

/// A node of the migration chain as the contracts see it.
pub struct MigrationsNodeView {
    pub checksum: Seq<char>,
    pub file_name: Seq<char>,
    pub cypher_text: Seq<char>,
    pub version: u64,
    pub timestamp: Timestamp,
}

impl View for MigrationsNode {
    type V = MigrationsNodeView;

    open spec fn view(&self) -> MigrationsNodeView {
        MigrationsNodeView {
            checksum: self.checksum@,
            file_name: self.file_name@,
            cypher_text: self.cypher_text@,
            version: self.version,
            timestamp: self.timestamp,
        }
    }
}

impl Clone for MigrationsNode {
    fn clone(&self) -> (copy: Self)
        ensures
            copy == *self,
    {
        MigrationsNode {
            checksum: self.checksum.clone(),
            file_name: self.file_name.clone(),
            cypher_text: self.cypher_text.clone(),
            version: self.version,
            timestamp: self.timestamp,
        }
    }
}

/// Why a run of migrations stopped.
#[derive(Debug)]
pub enum MigrationError {
    /// A script that was applied before has changed on disk.
    ChecksumMismatch,
    /// The store failed while a transaction was opened, run or committed.
    Neo4jError(neo4rs::Error),
    /// The chain could not be read.
    QueryError(QueryError),
}

impl From<neo4rs::Error> for MigrationError {
    fn from(error: neo4rs::Error) -> (wrapped: MigrationError) {
        MigrationError::Neo4jError(error)
    }
}

impl vstd::std_specs::convert::FromSpecImpl<neo4rs::Error> for MigrationError {
    open spec fn obeys_from_spec() -> bool {
        true
    }

    open spec fn from_spec(error: neo4rs::Error) -> MigrationError {
        MigrationError::Neo4jError(error)
    }
}

impl From<QueryError> for MigrationError {
    fn from(error: QueryError) -> (wrapped: MigrationError) {
        MigrationError::QueryError(error)
    }
}

impl vstd::std_specs::convert::FromSpecImpl<QueryError> for MigrationError {
    open spec fn obeys_from_spec() -> bool {
        true
    }

    open spec fn from_spec(error: QueryError) -> MigrationError {
        MigrationError::QueryError(error)
    }
}

/// Runs migrations from `.cyp` or `.cypher` scripts and keeps a chain of nodes
/// in the store, one for each script that was applied.
pub struct GraphMigrator {}

/// What becomes of a script, given the chain node found under its file name.
pub enum Verdict {
    /// No node: the script is applied and recorded.
    Apply,
    /// A node with the script's checksum: nothing is done.
    Skip,
    /// A node with another checksum: the run ends.
    Reject,
}

/// The verdict on `script` when the chain holds `existing` under its name.
pub open spec fn verdict(script: FileMigrationView, existing: Option<MigrationsNodeView>) -> Verdict {
    match existing {
        None => Verdict::Apply,
        Some(node) => if node.checksum == script.checksum {
            Verdict::Skip
        } else {
            Verdict::Reject
        },
    }
}

/// The chain node for `script`, applied as number `counter` of a run at the
/// instant `now`. The version counts from one. The node's `cypher_text` is the
/// script's file name, not its text.
pub open spec fn chain_node(counter: u64, script: FileMigrationView, now: Timestamp) -> MigrationsNodeView {
    MigrationsNodeView {
        checksum: script.checksum,
        file_name: script.file_name,
        cypher_text: script.file_name,
        version: (counter + 1) as u64,
        timestamp: now,
    }
}

impl GraphMigrator {
    /// A migrator. It holds no state: every run starts afresh.
    pub fn new() -> (migrator: Self)
        ensures
            migrator == (GraphMigrator {}),
    {
        GraphMigrator {}
    }

    /// The chain node that records `migration` as applied at `now`.
    pub fn migration_node(&self, counter: u64, migration: &FileMigration, now: Timestamp) -> (node:
        MigrationsNode)
        requires
            counter < u64::MAX,
        ensures
            node@ == chain_node(counter, migration@, now),
    {
        MigrationsNode {
            checksum: migration.checksum.clone(),
            file_name: migration.file_name.clone(),
            cypher_text: migration.file_name.clone(),
            version: counter + 1,
            timestamp: now,
        }
    }

    /// The chain node that records `migration` as applied now.
    pub fn create_migration_node(&self, counter: u64, migration: &FileMigration) -> (node:
        MigrationsNode)
        requires
            counter < u64::MAX,
        ensures
            node@ == chain_node(counter, migration@, node.timestamp),
    {
        let now = utc_now();
        self.migration_node(counter, migration, now)
    }

    /// Decides on one script from what the chain holds under its file name: the
    /// node to write if the script has to be applied, `None` if it is up to
    /// date, and the mismatch if its content has changed since it was applied.
    pub fn up_migration(
        &self,
        counter: u64,
        migration: &FileMigration,
        existing: Option<MigrationsNode>,
    ) -> (decision: Result<Option<MigrationsNode>, MigrationError>)
        requires
            counter < u64::MAX,
        ensures
            match verdict(migration@, option_view(existing)) {
                Verdict::Reject => decision == Err::<Option<MigrationsNode>, _>(
                    MigrationError::ChecksumMismatch,
                ),
                Verdict::Skip => decision == Ok::<_, MigrationError>(None::<MigrationsNode>),
                Verdict::Apply => decision matches Ok(Some(node)) && node@ == chain_node(
                    counter,
                    migration@,
                    node.timestamp,
                ),
            },
    {
        match existing {
            Some(existing_migration) => {
                if existing_migration.checksum != migration.checksum {
                    return Err(MigrationError::ChecksumMismatch);
                }
                Ok(None)
            },
            None => Ok(Some(self.create_migration_node(counter, migration))),
        }
    }
}

/// What a lookup in the chain came to. `opened` is the error of the
/// transaction or of the query where one of them failed, else what the
/// first pull on the rows gave.
pub open spec fn lookup_outcome(
    opened: Result<RowFetch<Option<MigrationsNode>>, neo4rs::Error>,
) -> Result<Option<MigrationsNode>, MigrationError> {
    match opened {
        Err(error) => Err(MigrationError::Neo4jError(error)),
        Ok(fetch) => match crate::query::single_or_none(fetch) {
            Ok(found) => Ok(found),
            Err(error) => Err(MigrationError::QueryError(error)),
        },
    }
}

/// What a script or a write of a node came to. `committed` is the error of
/// the transaction, of the statement or of the commit where one of them
/// failed.
pub open spec fn commit_outcome(committed: Result<(), neo4rs::Error>) -> Result<
    Option<MigrationsNode>,
    MigrationError,
> {
    match committed {
        Ok(()) => Ok(None),
        Err(error) => Err(MigrationError::Neo4jError(error)),
    }
}

impl GraphMigrator {
    /// The outcome of a lookup in the chain: the node found, if any. A
    /// query without rows is no error.
    pub fn existing_migration(
        &self,
        opened: Result<RowFetch<Option<MigrationsNode>>, neo4rs::Error>,
    ) -> (outcome: Result<Option<MigrationsNode>, MigrationError>)
        ensures
            outcome == lookup_outcome(opened),
    {
        match opened {
            Err(error) => Err(MigrationError::Neo4jError(error)),
            Ok(fetch) => match get_single(fetch) {
                Ok(migration) => Ok(migration),
                Err(error) => Err(MigrationError::QueryError(error)),
            },
        }
    }

    /// The outcome of a statement that was run and committed in a
    /// transaction of its own.
    pub fn committed(&self, committed: Result<(), neo4rs::Error>) -> (outcome: Result<
        Option<MigrationsNode>,
        MigrationError,
    >)
        ensures
            outcome == commit_outcome(committed),
    {
        match committed {
            Ok(()) => Ok(None),
            Err(error) => Err(MigrationError::Neo4jError(error)),
        }
    }
}

/// The view of a node that may be absent.
pub open spec fn option_view(node: Option<MigrationsNode>) -> Option<MigrationsNodeView> {
    match node {
        Some(node) => Some(node@),
        None => None,
    }
}

impl Default for GraphMigrator {
    fn default() -> (migrator: Self)
        ensures
            migrator == (GraphMigrator {}),
    {
        Self::new()
    }
}

} // verus!
