//! A model of the store, and of a run played against it.
//!
//! The library never talks to the store: it hands out requests and takes
//! outcomes. What a run comes to therefore depends on how the store answers.
//! This module writes down a store that keeps faith, one that finds what was
//! written and keeps what it was given, so that the laws of a whole run can be
//! stated and proved.

use crate::clock::Timestamp;
use crate::migrations::{FileMigrationView, MigrationError, MigrationsNodeView};
use crate::run::{
    begin, pending_request, step, MigrationRunView, RunProgressView, StageView, StoreRequestView,
};
use vstd::prelude::*;

verus! {

/// A store that keeps faith with a run: the chain of migration nodes in the
/// order in which they were written, and the scripts that were run and
/// committed, in that order.
pub struct StoreModel {
    pub chain: Seq<MigrationsNodeView>,
    pub executed: Seq<Seq<char>>,
}

/// What surrounds a run besides the store: the clock's reading while the
/// script at each position is decided on, and for each request of the run
/// whether it fails, and with which error. Requests are numbered three to a
/// script: the lookup, the script itself, the write of the node.
pub struct World {
    pub clock: spec_fn(nat) -> Timestamp,
    pub failure: spec_fn(nat) -> Option<MigrationError>,
}

/// A run that went to its end: the store it left, and its result.
pub struct Played {
    pub store: StoreModel,
    pub result: Result<(), MigrationError>,
}

/// The node that a lookup by file name gives: the oldest node of that name.
pub open spec fn find_node(chain: Seq<MigrationsNodeView>, file_name: Seq<char>) -> Option<
    MigrationsNodeView,
>
    decreases chain.len(),
{
    if chain.len() == 0 {
        None
    } else {
        match find_node(chain.drop_last(), file_name) {
            Some(node) => Some(node),
            None => if chain.last().file_name == file_name {
                Some(chain.last())
            } else {
                None
            },
        }
    }
}

/// The store after a request that succeeds, and the request's outcome.
pub open spec fn served(store: StoreModel, request: StoreRequestView) -> (
    StoreModel,
    Result<Option<MigrationsNodeView>, MigrationError>,
) {
    match request {
        StoreRequestView::FindExisting { file_name } => (
            store,
            Ok(find_node(store.chain, file_name)),
        ),
        StoreRequestView::RunScript { cypher_text } => (
            StoreModel { chain: store.chain, executed: store.executed.push(cypher_text) },
            Ok(None),
        ),
        StoreRequestView::WriteNode { node, previous_version } => (
            StoreModel { chain: store.chain.push(node), executed: store.executed },
            Ok(None),
        ),
    }
}

/// The store after a request, and the request's outcome. A request that
/// fails leaves the store as it was.
pub open spec fn answered(
    store: StoreModel,
    request: StoreRequestView,
    failure: Option<MigrationError>,
) -> (StoreModel, Result<Option<MigrationsNodeView>, MigrationError>) {
    match failure {
        Some(error) => (store, Err(error)),
        None => served(store, request),
    }
}

/// The place of a stage among the three requests of a script.
pub open spec fn stage_number(stage: StageView) -> nat {
    match stage {
        StageView::FindingExisting => 0,
        StageView::RunningScript(_) => 1,
        StageView::WritingNode(_) => 2,
    }
}

/// The number of the request that a run waits for.
pub open spec fn request_number(run: MigrationRunView) -> nat {
    3 * run.position + stage_number(run.stage)
}

/// How many requests a run can still make.
pub open spec fn remaining(progress: RunProgressView) -> nat {
    match progress {
        RunProgressView::Finished(_) => 0,
        RunProgressView::Pending(run) => if run.well_formed() {
            (3 * (run.scripts.len() - run.position) - stage_number(run.stage)) as nat
        } else {
            0
        },
    }
}

/// A step against the store: the run and the store after the pending request
/// was answered.
pub open spec fn after_request(run: MigrationRunView, store: StoreModel, world: World) -> (
    RunProgressView,
    StoreModel,
) {
    let (after, outcome) = answered(
        store,
        pending_request(run),
        (world.failure)(request_number(run)),
    );
    (step(run, outcome, (world.clock)(run.position)), after)
}

/// The run from `progress` to its end against a store that keeps faith: each
/// pending request is answered from the store, and the run takes a step on
/// the answer. A run that is not well formed makes no request.
pub open spec fn play(progress: RunProgressView, store: StoreModel, world: World) -> Played
    decreases remaining(progress),
{
    match progress {
        RunProgressView::Finished(result) => Played { store, result },
        RunProgressView::Pending(run) => if run.well_formed() {
            let (next, after) = after_request(run, store, world);
            play(next, after, world)
        } else {
            Played { store, result: Ok(()) }
        },
    }
}

/// A whole run over `scripts` against `store`.
pub open spec fn run_against(scripts: Seq<FileMigrationView>, store: StoreModel, world: World) -> Played {
    play(begin(scripts), store, world)
}

/// No request of the run fails.
pub open spec fn unfailing(world: World) -> bool {
    forall|request: nat| (#[trigger] (world.failure)(request)) is None
}

/// Writing a node changes no lookup that found a node before; a lookup that
/// found none finds the new node if it has the name looked for.
pub proof fn lemma_find_after_write(
    chain: Seq<MigrationsNodeView>,
    node: MigrationsNodeView,
    file_name: Seq<char>,
)
    ensures
        find_node(chain.push(node), file_name) == match find_node(chain, file_name) {
            Some(found) => Some(found),
            None => if node.file_name == file_name {
                Some(node)
            } else {
                None
            },
        },
{
    assert(chain.push(node).drop_last() == chain);
}

/// A run is played by taking one step and playing on from there.
pub proof fn lemma_play_unfolds(run: MigrationRunView, store: StoreModel, world: World)
    requires
        run.well_formed(),
    ensures
        play(RunProgressView::Pending(run), store, world) == play(
            after_request(run, store, world).0,
            after_request(run, store, world).1,
            world,
        ),
        remaining(after_request(run, store, world).0) < remaining(RunProgressView::Pending(run)),
{
}

} // verus!
