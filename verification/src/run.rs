use crate::clock::Timestamp;
use crate::migrations::{
    chain_node, migration_views, option_view, verdict, FileMigration, FileMigrationView,
    GraphMigrator, MigrationError, MigrationsNode, MigrationsNodeView, Verdict,
};
use vstd::prelude::*;

verus! {

/// What a run asks of the store next. Each request is one unit of work for
/// the caller, who answers with its outcome.
#[derive(Debug)]
pub enum StoreRequest {
    /// Open a transaction and read the chain node with this file name.
    FindExisting { file_name: String },
    /// Run this script in a transaction of its own and commit.
    RunScript { cypher_text: String },
    /// Write this chain node in a transaction of its own and commit.
    WriteNode { node: MigrationsNode, previous_version: i64 },
}

/// A request as the contracts see it.
pub enum StoreRequestView {
    FindExisting { file_name: Seq<char> },
    RunScript { cypher_text: Seq<char> },
    WriteNode { node: MigrationsNodeView, previous_version: i64 },
}

impl View for StoreRequest {
    type V = StoreRequestView;

    open spec fn view(&self) -> StoreRequestView {
        match self {
            StoreRequest::FindExisting { file_name } => StoreRequestView::FindExisting {
                file_name: file_name@,
            },
            StoreRequest::RunScript { cypher_text } => StoreRequestView::RunScript {
                cypher_text: cypher_text@,
            },
            StoreRequest::WriteNode { node, previous_version } => StoreRequestView::WriteNode {
                node: node@,
                previous_version: *previous_version,
            },
        }
    }
}

/// Where a run stands with the script it is at.
#[derive(Debug)]
pub enum Stage {
    /// The chain is being asked for the script's node.
    FindingExisting,
    /// The script is being run; the node is written after it.
    RunningScript(MigrationsNode),
    /// The node is being written.
    WritingNode(MigrationsNode),
}

/// A stage as the contracts see it.
pub enum StageView {
    FindingExisting,
    RunningScript(MigrationsNodeView),
    WritingNode(MigrationsNodeView),
}

impl View for Stage {
    type V = StageView;

    open spec fn view(&self) -> StageView {
        match self {
            Stage::FindingExisting => StageView::FindingExisting,
            Stage::RunningScript(node) => StageView::RunningScript(node@),
            Stage::WritingNode(node) => StageView::WritingNode(node@),
        }
    }
}

/// A run of migrations that waits for the outcome of its last request.
#[derive(Debug)]
pub struct MigrationRun {
    migrations: Vec<FileMigration>,
    position: usize,
    stage: Stage,
}

/// A waiting run as the contracts see it: the scripts of the run, the index
/// of the script it is at, and the stage of that script.
pub struct MigrationRunView {
    pub scripts: Seq<FileMigrationView>,
    pub position: nat,
    pub stage: StageView,
}

impl MigrationRunView {
    /// The run is at one of its scripts, and each script's version fits the
    /// store's integers.
    pub open spec fn well_formed(self) -> bool {
        self.position < self.scripts.len() <= i64::MAX
    }

    /// The script the run is at.
    pub open spec fn script(self) -> FileMigrationView {
        self.scripts[self.position as int]
    }
}

/// A run after a step: it waits for the store again, or it is over.
#[derive(Debug)]
pub enum RunProgress {
    Pending(MigrationRun),
    Finished(Result<(), MigrationError>),
}

/// A run after a step as the contracts see it.
pub enum RunProgressView {
    Pending(MigrationRunView),
    Finished(Result<(), MigrationError>),
}

impl View for RunProgress {
    type V = RunProgressView;

    open spec fn view(&self) -> RunProgressView {
        match self {
            RunProgress::Pending(run) => RunProgressView::Pending(run@),
            RunProgress::Finished(result) => RunProgressView::Finished(*result),
        }
    }
}

/// The start of a run over `scripts`: it asks for the first script's node,
/// or is over at once where there is no script.
pub open spec fn begin(scripts: Seq<FileMigrationView>) -> RunProgressView {
    if scripts.len() == 0 {
        RunProgressView::Finished(Ok(()))
    } else {
        RunProgressView::Pending(
            MigrationRunView { scripts, position: 0, stage: StageView::FindingExisting },
        )
    }
}

/// The run once it is done with the script it is at: on to the next script,
/// or over with success after the last.
pub open spec fn proceed(run: MigrationRunView) -> RunProgressView {
    if run.position + 1 < run.scripts.len() {
        RunProgressView::Pending(
            MigrationRunView {
                scripts: run.scripts,
                position: run.position + 1,
                stage: StageView::FindingExisting,
            },
        )
    } else {
        RunProgressView::Finished(Ok(()))
    }
}

/// What the run asks of the store while it waits.
pub open spec fn pending_request(run: MigrationRunView) -> StoreRequestView {
    match run.stage {
        StageView::FindingExisting => StoreRequestView::FindExisting {
            file_name: run.script().file_name,
        },
        StageView::RunningScript(_) => StoreRequestView::RunScript {
            cypher_text: run.script().cypher_text,
        },
        StageView::WritingNode(node) => StoreRequestView::WriteNode {
            node,
            previous_version: run.position as i64,
        },
    }
}

/// One step of a run: what follows from the outcome of the pending request,
/// where `now` is the clock's reading at this step.
///
/// An error ends the run with that error. A script whose node is found is
/// passed over if the checksums agree; if they differ the run ends with
/// `ChecksumMismatch`. A script without a node is run first and recorded
/// after. The position in the run, counted from one, is the node's version.
pub open spec fn step(
    run: MigrationRunView,
    outcome: Result<Option<MigrationsNodeView>, MigrationError>,
    now: Timestamp,
) -> RunProgressView {
    match outcome {
        Err(error) => RunProgressView::Finished(Err(error)),
        Ok(existing) => match run.stage {
            StageView::FindingExisting => match verdict(run.script(), existing) {
                Verdict::Reject => RunProgressView::Finished(Err(MigrationError::ChecksumMismatch)),
                Verdict::Skip => proceed(run),
                Verdict::Apply => RunProgressView::Pending(
                    MigrationRunView {
                        scripts: run.scripts,
                        position: run.position,
                        stage: StageView::RunningScript(
                            chain_node(run.position as u64, run.script(), now),
                        ),
                    },
                ),
            },
            StageView::RunningScript(node) => RunProgressView::Pending(
                MigrationRunView {
                    scripts: run.scripts,
                    position: run.position,
                    stage: StageView::WritingNode(node),
                },
            ),
            StageView::WritingNode(_) => proceed(run),
        },
    }
}

/// The outcome of a request as the contracts see it.
pub open spec fn outcome_view(outcome: Result<Option<MigrationsNode>, MigrationError>) -> Result<
    Option<MigrationsNodeView>,
    MigrationError,
> {
    match outcome {
        Ok(found) => Ok(option_view(found)),
        Err(error) => Err(error),
    }
}

/// The instant that a step has stamped on a node, where it made one.
pub open spec fn stamped(progress: RunProgressView) -> Timestamp {
    match progress {
        RunProgressView::Pending(run) => match run.stage {
            StageView::RunningScript(node) => node.timestamp,
            _ => Timestamp { seconds: 0, nanoseconds: 0 },
        },
        _ => Timestamp { seconds: 0, nanoseconds: 0 },
    }
}

impl View for MigrationRun {
    type V = MigrationRunView;

    closed spec fn view(&self) -> MigrationRunView {
        MigrationRunView {
            scripts: migration_views(self.migrations@),
            position: self.position as nat,
            stage: self.stage@,
        }
    }
}

impl MigrationRun {
    #[verifier::type_invariant]
    spec fn valid(self) -> bool {
        self.position < self.migrations@.len() <= i64::MAX
    }

    /// What the store has to do next for this run.
    pub fn request(&self) -> (request: StoreRequest)
        ensures
            self@.well_formed(),
            request@ == pending_request(self@),
    {
        proof {
            use_type_invariant(self);
        }
        let migration = &self.migrations[self.position];
        match &self.stage {
            Stage::FindingExisting => StoreRequest::FindExisting {
                file_name: migration.file_name.clone(),
            },
            Stage::RunningScript(_) => StoreRequest::RunScript {
                cypher_text: migration.cypher_text.clone(),
            },
            Stage::WritingNode(node) => StoreRequest::WriteNode {
                node: node.clone(),
                previous_version: self.position as i64,
            },
        }
    }

    /// Takes the outcome of the pending request and moves the run on. The
    /// outcome of a lookup is the node found, if any; that of the other
    /// requests is `Ok(None)`; a failure is the error.
    pub fn advance(self, outcome: Result<Option<MigrationsNode>, MigrationError>) -> (progress:
        RunProgress)
        ensures
            self@.well_formed(),
            progress@ == step(self@, outcome_view(outcome), stamped(progress@)),
            progress matches RunProgress::Pending(next) ==> next@.well_formed(),
    {
        proof {
            use_type_invariant(&self);
        }
        let MigrationRun { migrations, position, stage } = self;
        match outcome {
            Err(error) => RunProgress::Finished(Err(error)),
            Ok(existing) => match stage {
                Stage::FindingExisting => {
                    let migrator = GraphMigrator::new();
                    let decision = migrator.up_migration(
                        position as u64,
                        &migrations[position],
                        existing,
                    );
                    match decision {
                        Err(error) => RunProgress::Finished(Err(error)),
                        Ok(None) => Self::next_script(migrations, position),
                        Ok(Some(node)) => RunProgress::Pending(
                            MigrationRun { migrations, position, stage: Stage::RunningScript(node) },
                        ),
                    }
                },
                Stage::RunningScript(node) => RunProgress::Pending(
                    MigrationRun { migrations, position, stage: Stage::WritingNode(node) },
                ),
                Stage::WritingNode(_) => Self::next_script(migrations, position),
            },
        }
    }

    /// The run after the script at `position`.
    fn next_script(migrations: Vec<FileMigration>, position: usize) -> (progress: RunProgress)
        requires
            position < migrations@.len() <= i64::MAX,
        ensures
            progress@ == proceed(
                MigrationRunView {
                    scripts: migration_views(migrations@),
                    position: position as nat,
                    stage: StageView::FindingExisting,
                },
            ),
            progress matches RunProgress::Pending(next) ==> next@.well_formed(),
    {
        if position < migrations.len() - 1 {
            RunProgress::Pending(
                MigrationRun { migrations, position: position + 1, stage: Stage::FindingExisting },
            )
        } else {
            RunProgress::Finished(Ok(()))
        }
    }
}

impl GraphMigrator {
    /// Starts a run over `migrations`, which are taken in the order given.
    pub fn run_migrations(&self, migrations: Vec<FileMigration>) -> (progress: RunProgress)
        requires
            migrations@.len() <= i64::MAX,
        ensures
            progress@ == begin(migration_views(migrations@)),
            progress matches RunProgress::Pending(run) ==> run@.well_formed(),
    {
        if migrations.len() == 0 {
            RunProgress::Finished(Ok(()))
        } else {
            RunProgress::Pending(
                MigrationRun { migrations, position: 0, stage: Stage::FindingExisting },
            )
        }
    }
}

} // verus!
