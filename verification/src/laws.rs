//! What holds of every run against a store that keeps faith.

use crate::chain::{
    after_request, find_node, lemma_find_after_write, lemma_play_unfolds, play, remaining,
    request_number, run_against, unfailing, Played, StoreModel, World,
};
use crate::migrations::{
    chain_node, verdict, FileMigrationView, MigrationError, MigrationsNodeView, Verdict,
};
use crate::run::{begin, proceed, MigrationRunView, RunProgressView, StageView};
use vstd::prelude::*;

verus! {

/// A run never changes or removes what the store held before it: the chain
/// and the scripts run only grow at their ends.
pub proof fn law_store_only_grows(progress: RunProgressView, store: StoreModel, world: World)
    ensures
        store.chain.is_prefix_of(play(progress, store, world).store.chain),
        store.executed.is_prefix_of(play(progress, store, world).store.executed),
    decreases remaining(progress),
{
    match progress {
        RunProgressView::Finished(_) => {},
        RunProgressView::Pending(run) => {
            if run.well_formed() {
                lemma_play_unfolds(run, store, world);
                let (next, after) = after_request(run, store, world);
                law_store_only_grows(next, after, world);
            }
        },
    }
}

/// The chain holds a node for `script`, and the node has the script's
/// checksum.
pub open spec fn up_to_date(script: FileMigrationView, chain: Seq<MigrationsNodeView>) -> bool {
    find_node(chain, script.file_name) matches Some(node) && node.checksum == script.checksum
}

/// Every script before `end` is up to date in the chain.
pub open spec fn up_to_date_before(
    scripts: Seq<FileMigrationView>,
    end: int,
    chain: Seq<MigrationsNodeView>,
) -> bool {
    forall|i: int| 0 <= i < end && i < scripts.len() ==> up_to_date(#[trigger] scripts[i], chain)
}

/// Every script from `start` on is up to date in the chain.
pub open spec fn up_to_date_from(
    scripts: Seq<FileMigrationView>,
    start: int,
    chain: Seq<MigrationsNodeView>,
) -> bool {
    forall|i: int| start <= i < scripts.len() ==> up_to_date(#[trigger] scripts[i], chain)
}

/// A run that finds every remaining script up to date makes no change.
proof fn lemma_up_to_date_run_is_idle(run: MigrationRunView, store: StoreModel, world: World)
    requires
        run.well_formed(),
        run.stage is FindingExisting,
        up_to_date_from(run.scripts, run.position as int, store.chain),
    ensures
        play(RunProgressView::Pending(run), store, world).store == store,
        unfailing(world) ==> play(RunProgressView::Pending(run), store, world).result == Ok::<
            (),
            MigrationError,
        >(()),
    decreases run.scripts.len() - run.position,
{
    lemma_play_unfolds(run, store, world);
    if let RunProgressView::Pending(following) = after_request(run, store, world).0 {
        lemma_up_to_date_run_is_idle(following, store, world);
    }
}

/// What holds of a run on its way to success: the scripts behind it are up
/// to date, and the node in hand is the missing node of the script it is at.
spec fn settling(scripts: Seq<FileMigrationView>, progress: RunProgressView, store: StoreModel) -> bool {
    match progress {
        RunProgressView::Finished(result) => result is Ok ==> up_to_date_from(
            scripts,
            0,
            store.chain,
        ),
        RunProgressView::Pending(run) => {
            &&& run.scripts == scripts
            &&& run.well_formed()
            &&& up_to_date_before(scripts, run.position as int, store.chain)
            &&& match run.stage {
                StageView::FindingExisting => true,
                StageView::RunningScript(node) | StageView::WritingNode(node) => {
                    &&& node.file_name == run.script().file_name
                    &&& node.checksum == run.script().checksum
                    &&& find_node(store.chain, run.script().file_name) is None
                },
            }
        },
    }
}

/// Moving on from a script that is up to date keeps the run settling.
proof fn lemma_proceed_settles(run: MigrationRunView, store: StoreModel)
    requires
        run.well_formed(),
        up_to_date_before(run.scripts, run.position as int, store.chain),
        up_to_date(run.script(), store.chain),
    ensures
        settling(run.scripts, proceed(run), store),
{
    assert forall|i: int| 0 <= i < run.position + 1 && i < run.scripts.len() implies up_to_date(
        #[trigger] run.scripts[i],
        store.chain,
    ) by {}
}

/// A step against the store keeps the run settling.
proof fn lemma_step_settles(run: MigrationRunView, store: StoreModel, world: World)
    requires
        settling(run.scripts, RunProgressView::Pending(run), store),
    ensures
        settling(run.scripts, after_request(run, store, world).0, after_request(run, store, world).1),
{
    let after = after_request(run, store, world).1;
    if (world.failure)(request_number(run)) is None {
        match run.stage {
            StageView::FindingExisting => {
                match verdict(run.script(), find_node(store.chain, run.script().file_name)) {
                    Verdict::Skip => {
                        lemma_proceed_settles(run, store);
                    },
                    _ => {},
                }
            },
            StageView::RunningScript(_) => {},
            StageView::WritingNode(node) => {
                assert forall|i: int| 0 <= i < run.position && i < run.scripts.len() implies up_to_date(
                    #[trigger] run.scripts[i],
                    after.chain,
                ) by {
                    lemma_find_after_write(store.chain, node, run.scripts[i].file_name);
                }
                lemma_find_after_write(store.chain, node, run.script().file_name);
                lemma_proceed_settles(run, after);
            },
        }
    }
}

/// A settling run that succeeds leaves every script up to date.
proof fn lemma_success_settles(
    scripts: Seq<FileMigrationView>,
    progress: RunProgressView,
    store: StoreModel,
    world: World,
)
    requires
        settling(scripts, progress, store),
        play(progress, store, world).result is Ok,
    ensures
        up_to_date_from(scripts, 0, play(progress, store, world).store.chain),
    decreases remaining(progress),
{
    match progress {
        RunProgressView::Finished(_) => {},
        RunProgressView::Pending(run) => {
            lemma_play_unfolds(run, store, world);
            lemma_step_settles(run, store, world);
            let (next, after) = after_request(run, store, world);
            lemma_success_settles(scripts, next, after, world);
        },
    }
}

/// A second run over unchanged scripts does nothing. Where a run over
/// `scripts` has succeeded, a further run over the same scripts against the
/// store it left runs no script and writes no node, whatever the clock shows
/// and whichever requests fail; and it succeeds if none fails.
pub proof fn law_second_run_changes_nothing(
    scripts: Seq<FileMigrationView>,
    store: StoreModel,
    first: World,
    second: World,
)
    requires
        run_against(scripts, store, first).result is Ok,
    ensures
        run_against(scripts, run_against(scripts, store, first).store, second).store
            == run_against(scripts, store, first).store,
        unfailing(second) ==> run_against(
            scripts,
            run_against(scripts, store, first).store,
            second,
        ).result == Ok::<(), MigrationError>(()),
{
    let left = run_against(scripts, store, first).store;
    match begin(scripts) {
        RunProgressView::Finished(_) => {},
        RunProgressView::Pending(run) => {
            if run.well_formed() {
                lemma_success_settles(scripts, begin(scripts), store, first);
                lemma_up_to_date_run_is_idle(run, left, second);
            }
        },
    }
}

/// A run that has not yet passed a script whose node has another checksum
/// fails, and leaves that node in place.
proof fn lemma_changed_script_stops_run(
    run: MigrationRunView,
    store: StoreModel,
    world: World,
    changed: int,
    node: MigrationsNodeView,
)
    requires
        run.well_formed(),
        0 <= changed < run.scripts.len(),
        run.position < changed || (run.position == changed && run.stage is FindingExisting),
        find_node(store.chain, run.scripts[changed].file_name) == Some(node),
        node.checksum != run.scripts[changed].checksum,
    ensures
        play(RunProgressView::Pending(run), store, world).result is Err,
        unfailing(world) ==> play(RunProgressView::Pending(run), store, world).result == Err::<
            (),
            MigrationError,
        >(MigrationError::ChecksumMismatch),
        find_node(
            play(RunProgressView::Pending(run), store, world).store.chain,
            run.scripts[changed].file_name,
        ) == Some(node),
    decreases remaining(RunProgressView::Pending(run)),
{
    lemma_play_unfolds(run, store, world);
    let (next, after) = after_request(run, store, world);
    assert(find_node(after.chain, run.scripts[changed].file_name) == Some(node)) by {
        if let StageView::WritingNode(written) = run.stage {
            lemma_find_after_write(store.chain, written, run.scripts[changed].file_name);
        }
    }
    if let RunProgressView::Pending(following) = next {
        lemma_changed_script_stops_run(following, after, world, changed, node);
    }
}

/// A script that changed after it was applied stops the run. Where the chain
/// holds a node for one of the scripts and its checksum is not the script's,
/// the run fails: with `ChecksumMismatch` if no request fails, with the error
/// of a failed request otherwise. The node stays as it was, and so does
/// everything else that the store held.
pub proof fn law_changed_script_is_rejected(
    scripts: Seq<FileMigrationView>,
    store: StoreModel,
    world: World,
    changed: int,
)
    requires
        0 <= changed < scripts.len() <= i64::MAX,
        find_node(store.chain, scripts[changed].file_name) matches Some(node) && node.checksum
            != scripts[changed].checksum,
    ensures
        run_against(scripts, store, world).result is Err,
        unfailing(world) ==> run_against(scripts, store, world).result == Err::<
            (),
            MigrationError,
        >(MigrationError::ChecksumMismatch),
        find_node(run_against(scripts, store, world).store.chain, scripts[changed].file_name)
            == find_node(store.chain, scripts[changed].file_name),
        store.chain.is_prefix_of(run_against(scripts, store, world).store.chain),
{
    let node = find_node(store.chain, scripts[changed].file_name)->Some_0;
    match begin(scripts) {
        RunProgressView::Finished(_) => {},
        RunProgressView::Pending(run) => {
            lemma_changed_script_stops_run(run, store, world, changed, node);
        },
    }
    law_store_only_grows(begin(scripts), store, world);
}

/// The node that a run writes for the script at `index`.
pub open spec fn node_written(scripts: Seq<FileMigrationView>, world: World, index: int) -> MigrationsNodeView {
    chain_node(index as u64, scripts[index], (world.clock)(index as nat))
}

/// The nodes that a run writes for the scripts from `start` up to `end`, if
/// all of them are applied.
pub open spec fn nodes_written(
    scripts: Seq<FileMigrationView>,
    world: World,
    start: int,
    end: int,
) -> Seq<MigrationsNodeView> {
    Seq::new((end - start) as nat, |k: int| node_written(scripts, world, start + k))
}

/// The texts of the scripts from `start` up to `end`.
pub open spec fn texts_run(scripts: Seq<FileMigrationView>, start: int, end: int) -> Seq<
    Seq<char>,
> {
    Seq::new((end - start) as nat, |k: int| scripts[start + k].cypher_text)
}

/// No script from `start` on has a node in the chain.
pub open spec fn unrecorded_from(
    scripts: Seq<FileMigrationView>,
    start: int,
    chain: Seq<MigrationsNodeView>,
) -> bool {
    forall|i: int| start <= i < scripts.len() ==> find_node(chain, (#[trigger] scripts[i]).file_name) is None
}

/// No two scripts have the same file name.
pub open spec fn distinct_names(scripts: Seq<FileMigrationView>) -> bool {
    forall|i: int, j: int|
        0 <= i < j < scripts.len() ==> (#[trigger] scripts[i]).file_name != (
        #[trigger] scripts[j]).file_name
}

/// No request with a number below `limit` fails.
pub open spec fn unfailing_before(world: World, limit: nat) -> bool {
    forall|request: nat| request < limit ==> (#[trigger] (world.failure)(request)) is None
}

/// The number of the request that runs the script at `index`.
pub open spec fn script_request(index: int) -> nat {
    (3 * index + 1) as nat
}

/// The number of the request that writes the node of the script at `index`.
pub open spec fn write_request(index: int) -> nat {
    (3 * index + 2) as nat
}

/// A run over new scripts applies them in turn up to the request that fails:
/// the script at `failed`, or the write of its node.
proof fn lemma_new_scripts_until_failure(
    run: MigrationRunView,
    store: StoreModel,
    world: World,
    failed: int,
    at_write: bool,
    error: MigrationError,
)
    requires
        run.well_formed(),
        run.stage is FindingExisting,
        distinct_names(run.scripts),
        unrecorded_from(run.scripts, run.position as int, store.chain),
        run.position <= failed < run.scripts.len(),
        unfailing_before(world, if at_write { write_request(failed) } else { script_request(failed) }),
        (world.failure)(if at_write { write_request(failed) } else { script_request(failed) })
            == Some(error),
    ensures
        play(RunProgressView::Pending(run), store, world) == (Played {
            store: StoreModel {
                chain: store.chain + nodes_written(
                    run.scripts,
                    world,
                    run.position as int,
                    failed,
                ),
                executed: store.executed + texts_run(
                    run.scripts,
                    run.position as int,
                    if at_write { failed + 1 } else { failed },
                ),
            },
            result: Err(error),
        }),
        unrecorded_from(
            run.scripts,
            failed,
            play(RunProgressView::Pending(run), store, world).store.chain,
        ),
    decreases failed - run.position,
{
    let scripts = run.scripts;
    let at = run.position as int;
    let node = node_written(scripts, world, at);
    let last_run = if at_write { failed + 1 } else { failed };
    // the lookup finds nothing: the script is run
    assert((world.failure)(request_number(run)) is None);
    assert(find_node(store.chain, scripts[at].file_name) is None);
    lemma_play_unfolds(run, store, world);
    let (running, looked) = after_request(run, store, world);
    assert(looked == store);
    let run_script = MigrationRunView {
        scripts,
        position: run.position,
        stage: StageView::RunningScript(node),
    };
    assert(running == RunProgressView::Pending(run_script));
    assert(request_number(run_script) == script_request(at));
    lemma_play_unfolds(run_script, looked, world);
    let (writing, ran) = after_request(run_script, looked, world);
    if at == failed && !at_write {
        assert(writing == RunProgressView::Finished(Err(error)));
        assert(store.chain + nodes_written(scripts, world, at, failed) =~= store.chain);
        assert(store.executed + texts_run(scripts, at, last_run) =~= store.executed);
    } else {
        assert((world.failure)(request_number(run_script)) is None);
        let write_node = MigrationRunView {
            scripts,
            position: run.position,
            stage: StageView::WritingNode(node),
        };
        assert(writing == RunProgressView::Pending(write_node));
        assert(ran == StoreModel {
            chain: store.chain,
            executed: store.executed.push(scripts[at].cypher_text),
        });
        assert(request_number(write_node) == write_request(at));
        lemma_play_unfolds(write_node, ran, world);
        let (next, written) = after_request(write_node, ran, world);
        if at == failed {
            assert(next == RunProgressView::Finished(Err(error)));
            assert(written == ran);
            assert(store.chain + nodes_written(scripts, world, at, failed) =~= store.chain);
            assert(store.executed + texts_run(scripts, at, last_run) =~= ran.executed);
        } else {
            assert((world.failure)(request_number(write_node)) is None);
            assert(written == StoreModel {
                chain: store.chain.push(node),
                executed: ran.executed,
            });
            assert(next == proceed(write_node));
            assert forall|i: int| at + 1 <= i < scripts.len() implies find_node(
                written.chain,
                (#[trigger] scripts[i]).file_name,
            ) is None by {
                lemma_find_after_write(store.chain, node, scripts[i].file_name);
                assert(scripts[at].file_name != scripts[i].file_name);
            }
            let following = next->Pending_0;
            lemma_new_scripts_until_failure(following, written, world, failed, at_write, error);
            assert(store.chain + nodes_written(scripts, world, at, failed) =~= written.chain
                + nodes_written(scripts, world, at + 1, failed));
            assert(store.executed + texts_run(scripts, at, last_run) =~= written.executed
                + texts_run(scripts, at + 1, last_run));
        }
    }
}

/// A script that fails is not recorded, and nothing after it is tried. Where
/// the scripts are new and the first request to fail is the script at index
/// `failed`, the run ends with that error. The scripts before it were run and
/// have their nodes; the chain holds no node for the failed script nor for
/// any script after it.
pub proof fn law_failed_script_is_not_recorded(
    scripts: Seq<FileMigrationView>,
    store: StoreModel,
    world: World,
    failed: int,
    error: MigrationError,
)
    requires
        0 <= failed < scripts.len() <= i64::MAX,
        distinct_names(scripts),
        unrecorded_from(scripts, 0, store.chain),
        unfailing_before(world, script_request(failed)),
        (world.failure)(script_request(failed)) == Some(error),
    ensures
        run_against(scripts, store, world).result == Err::<(), MigrationError>(error),
        run_against(scripts, store, world).store.chain == store.chain + nodes_written(
            scripts,
            world,
            0,
            failed,
        ),
        run_against(scripts, store, world).store.executed == store.executed + texts_run(
            scripts,
            0,
            failed,
        ),
        unrecorded_from(scripts, failed, run_against(scripts, store, world).store.chain),
{
    let run = begin(scripts)->Pending_0;
    lemma_new_scripts_until_failure(run, store, world, failed, false, error);
}

/// A script and its node are two commits, and the second can fail alone.
/// Where the scripts are new and the first request to fail is the write of
/// the node of the script at index `failed`, the run ends with that error,
/// and the script was run all the same: its effects are in the store, and
/// the chain holds no node for it, so that a later run finds it new.
pub proof fn law_script_can_be_run_and_not_recorded(
    scripts: Seq<FileMigrationView>,
    store: StoreModel,
    world: World,
    failed: int,
    error: MigrationError,
)
    requires
        0 <= failed < scripts.len() <= i64::MAX,
        distinct_names(scripts),
        unrecorded_from(scripts, 0, store.chain),
        unfailing_before(world, write_request(failed)),
        (world.failure)(write_request(failed)) == Some(error),
    ensures
        run_against(scripts, store, world).result == Err::<(), MigrationError>(error),
        run_against(scripts, store, world).store.chain == store.chain + nodes_written(
            scripts,
            world,
            0,
            failed,
        ),
        run_against(scripts, store, world).store.executed == store.executed + texts_run(
            scripts,
            0,
            failed + 1,
        ),
        unrecorded_from(scripts, failed, run_against(scripts, store, world).store.chain),
{
    let run = begin(scripts)->Pending_0;
    lemma_new_scripts_until_failure(run, store, world, failed, true, error);
}

/// The nodes that a run writes for the scripts from `start` on that have no
/// node in `recorded`.
pub open spec fn new_nodes(
    scripts: Seq<FileMigrationView>,
    world: World,
    recorded: Seq<MigrationsNodeView>,
    start: int,
) -> Seq<MigrationsNodeView>
    decreases scripts.len() - start,
{
    if start < 0 || start >= scripts.len() {
        Seq::empty()
    } else if find_node(recorded, scripts[start].file_name) is None {
        seq![node_written(scripts, world, start)] + new_nodes(scripts, world, recorded, start + 1)
    } else {
        new_nodes(scripts, world, recorded, start + 1)
    }
}

/// The texts of the scripts from `start` on that have no node in `recorded`.
pub open spec fn new_texts(
    scripts: Seq<FileMigrationView>,
    recorded: Seq<MigrationsNodeView>,
    start: int,
) -> Seq<Seq<char>>
    decreases scripts.len() - start,
{
    if start < 0 || start >= scripts.len() {
        Seq::empty()
    } else if find_node(recorded, scripts[start].file_name) is None {
        seq![scripts[start].cypher_text] + new_texts(scripts, recorded, start + 1)
    } else {
        new_texts(scripts, recorded, start + 1)
    }
}

/// Every script from `start` on is new to the chain or up to date in it.
pub open spec fn no_script_changed(
    scripts: Seq<FileMigrationView>,
    start: int,
    chain: Seq<MigrationsNodeView>,
) -> bool {
    forall|i: int|
        start <= i < scripts.len() ==> find_node(chain, (#[trigger] scripts[i]).file_name) is None
            || up_to_date(scripts[i], chain)
}

/// A run whose remaining scripts are new or up to date applies the new ones.
proof fn lemma_run_applies_what_is_new(
    run: MigrationRunView,
    store: StoreModel,
    world: World,
    recorded: Seq<MigrationsNodeView>,
)
    requires
        run.well_formed(),
        run.stage is FindingExisting,
        unfailing(world),
        distinct_names(run.scripts),
        no_script_changed(run.scripts, run.position as int, recorded),
        forall|i: int|
            run.position <= i < run.scripts.len() ==> find_node(
                store.chain,
                (#[trigger] run.scripts[i]).file_name,
            ) == find_node(recorded, run.scripts[i].file_name),
    ensures
        play(RunProgressView::Pending(run), store, world) == (Played {
            store: StoreModel {
                chain: store.chain + new_nodes(run.scripts, world, recorded, run.position as int),
                executed: store.executed + new_texts(run.scripts, recorded, run.position as int),
            },
            result: Ok(()),
        }),
    decreases run.scripts.len() - run.position,
{
    let scripts = run.scripts;
    let at = run.position as int;
    let node = node_written(scripts, world, at);
    let found = find_node(recorded, scripts[at].file_name);
    assert(find_node(store.chain, scripts[at].file_name) == found);
    assert(found is None || up_to_date(scripts[at], recorded));
    assert((world.failure)(request_number(run)) is None);
    lemma_play_unfolds(run, store, world);
    let (decided, looked) = after_request(run, store, world);
    assert(looked == store);
    let chain_end = store.chain + new_nodes(scripts, world, recorded, at);
    let executed_end = store.executed + new_texts(scripts, recorded, at);
    if found is Some {
        assert(decided == proceed(run));
        match decided {
            RunProgressView::Finished(_) => {
                assert(new_nodes(scripts, world, recorded, at + 1) =~= Seq::empty());
                assert(new_texts(scripts, recorded, at + 1) =~= Seq::empty());
                assert(chain_end =~= store.chain);
                assert(executed_end =~= store.executed);
            },
            RunProgressView::Pending(following) => {
                lemma_run_applies_what_is_new(following, store, world, recorded);
            },
        }
    } else {
        let run_script = MigrationRunView {
            scripts,
            position: run.position,
            stage: StageView::RunningScript(node),
        };
        assert(decided == RunProgressView::Pending(run_script));
        assert((world.failure)(request_number(run_script)) is None);
        lemma_play_unfolds(run_script, looked, world);
        let (writing, ran) = after_request(run_script, looked, world);
        let write_node = MigrationRunView {
            scripts,
            position: run.position,
            stage: StageView::WritingNode(node),
        };
        assert(writing == RunProgressView::Pending(write_node));
        assert((world.failure)(request_number(write_node)) is None);
        lemma_play_unfolds(write_node, ran, world);
        let (next, written) = after_request(write_node, ran, world);
        assert(written == StoreModel {
            chain: store.chain.push(node),
            executed: store.executed.push(scripts[at].cypher_text),
        });
        assert(next == proceed(write_node));
        match next {
            RunProgressView::Finished(_) => {
                assert(new_nodes(scripts, world, recorded, at + 1) =~= Seq::empty());
                assert(new_texts(scripts, recorded, at + 1) =~= Seq::empty());
                assert(chain_end =~= written.chain);
                assert(executed_end =~= written.executed);
            },
            RunProgressView::Pending(following) => {
                assert forall|i: int| at + 1 <= i < scripts.len() implies find_node(
                    written.chain,
                    (#[trigger] scripts[i]).file_name,
                ) == find_node(recorded, scripts[i].file_name) by {
                    lemma_find_after_write(store.chain, node, scripts[i].file_name);
                    assert(scripts[at].file_name != scripts[i].file_name);
                }
                lemma_run_applies_what_is_new(following, written, world, recorded);
                assert(chain_end =~= written.chain + new_nodes(scripts, world, recorded, at + 1));
                assert(executed_end =~= written.executed + new_texts(scripts, recorded, at + 1));
            },
        }
    }
}

/// What a run does, in one statement. Where no two scripts share a file
/// name, every script is new to the chain or up to date in it, and no request
/// fails, the run succeeds. It runs the scripts that are new, in the order
/// given, and passes over the others; and it adds to the chain one node for
/// each script that it ran, in the same order. The version of a node is the
/// position of its script among all the scripts of the run, counted from one,
/// whether or not the scripts before it were passed over.
pub proof fn law_run_applies_what_is_new(
    scripts: Seq<FileMigrationView>,
    store: StoreModel,
    world: World,
)
    requires
        scripts.len() <= i64::MAX,
        unfailing(world),
        distinct_names(scripts),
        no_script_changed(scripts, 0, store.chain),
    ensures
        run_against(scripts, store, world) == (Played {
            store: StoreModel {
                chain: store.chain + new_nodes(scripts, world, store.chain, 0),
                executed: store.executed + new_texts(scripts, store.chain, 0),
            },
            result: Ok(()),
        }),
{
    if let RunProgressView::Pending(run) = begin(scripts) {
        lemma_run_applies_what_is_new(run, store, world, store.chain);
    }
}

/// Where every script from `start` on is new, the new ones are all of them.
proof fn lemma_new_scripts_are_all_applied(
    scripts: Seq<FileMigrationView>,
    world: World,
    recorded: Seq<MigrationsNodeView>,
    start: int,
)
    requires
        0 <= start <= scripts.len(),
        unrecorded_from(scripts, start, recorded),
    ensures
        new_nodes(scripts, world, recorded, start) == nodes_written(
            scripts,
            world,
            start,
            scripts.len() as int,
        ),
        new_texts(scripts, recorded, start) == texts_run(scripts, start, scripts.len() as int),
    decreases scripts.len() - start,
{
    if start < scripts.len() {
        lemma_new_scripts_are_all_applied(scripts, world, recorded, start + 1);
    }
}

/// New scripts are applied in the order given and recorded with versions
/// counted from one. Where none of the scripts has a node in the chain, no
/// two of them share a file name and no request fails, the run succeeds; it
/// runs every script, in order, and adds one node for each, in order. The
/// node of the script at index `i` has version `i + 1`, the script's checksum
/// and file name, and the reading that the clock gave for that script.
pub proof fn law_new_scripts_are_applied_in_order(
    scripts: Seq<FileMigrationView>,
    store: StoreModel,
    world: World,
)
    requires
        scripts.len() <= i64::MAX,
        unfailing(world),
        distinct_names(scripts),
        unrecorded_from(scripts, 0, store.chain),
    ensures
        run_against(scripts, store, world).result == Ok::<(), MigrationError>(()),
        run_against(scripts, store, world).store.chain == store.chain + nodes_written(
            scripts,
            world,
            0,
            scripts.len() as int,
        ),
        run_against(scripts, store, world).store.executed == store.executed + texts_run(
            scripts,
            0,
            scripts.len() as int,
        ),
        forall|i: int|
            0 <= i < scripts.len() ==> {
                let node = #[trigger] run_against(scripts, store, world).store.chain[store.chain.len()
                    + i];
                &&& node.version == i + 1
                &&& node.file_name == scripts[i].file_name
                &&& node.checksum == scripts[i].checksum
                &&& node.cypher_text == scripts[i].file_name
                &&& node.timestamp == (world.clock)(i as nat)
            },
{
    law_run_applies_what_is_new(scripts, store, world);
    lemma_new_scripts_are_all_applied(scripts, world, store.chain, 0);
}

/// The timestamps of the nodes that a run writes follow the clock: where the
/// clock's readings do not go back from one script to the next, neither do
/// the timestamps along the nodes written.
pub proof fn law_timestamps_follow_the_clock(
    scripts: Seq<FileMigrationView>,
    store: StoreModel,
    world: World,
    earlier: int,
    later: int,
)
    requires
        scripts.len() <= i64::MAX,
        unfailing(world),
        distinct_names(scripts),
        unrecorded_from(scripts, 0, store.chain),
        forall|i: nat, j: nat|
            i <= j ==> (#[trigger] (world.clock)(i)).not_after(#[trigger] (world.clock)(j)),
        0 <= earlier <= later < scripts.len(),
    ensures
        run_against(scripts, store, world).store.chain[store.chain.len()
            + earlier].timestamp.not_after(
            run_against(scripts, store, world).store.chain[store.chain.len() + later].timestamp,
        ),
{
    law_new_scripts_are_applied_in_order(scripts, store, world);
}

/// A run without scripts succeeds and leaves the store as it was.
pub proof fn law_empty_run_changes_nothing(store: StoreModel, world: World)
    ensures
        run_against(Seq::empty(), store, world) == (Played { store, result: Ok(()) }),
{
}

/// No two nodes of the chain have the same file name.
pub open spec fn unique_names(chain: Seq<MigrationsNodeView>) -> bool {
    forall|i: int, j: int|
        0 <= i < j < chain.len() ==> (#[trigger] chain[i]).file_name != (
        #[trigger] chain[j]).file_name
}

/// A lookup finds no node only where the chain has no node of that name.
pub proof fn lemma_not_found_is_absent(chain: Seq<MigrationsNodeView>, file_name: Seq<char>)
    requires
        find_node(chain, file_name) is None,
    ensures
        forall|i: int| 0 <= i < chain.len() ==> (#[trigger] chain[i]).file_name != file_name,
    decreases chain.len(),
{
    if chain.len() > 0 {
        lemma_not_found_is_absent(chain.drop_last(), file_name);
        assert forall|i: int| 0 <= i < chain.len() implies (#[trigger] chain[i]).file_name
            != file_name by {
            if i < chain.len() - 1 {
                assert(chain[i] == chain.drop_last()[i]);
            }
        }
    }
}

/// The node that a run has in hand, if it has one, is for a file name that
/// the chain does not hold.
spec fn node_in_hand_is_new(progress: RunProgressView, store: StoreModel) -> bool {
    match progress {
        RunProgressView::Finished(_) => true,
        RunProgressView::Pending(run) => run.well_formed() ==> match run.stage {
            StageView::FindingExisting => true,
            StageView::RunningScript(node) | StageView::WritingNode(node) => find_node(
                store.chain,
                node.file_name,
            ) is None,
        },
    }
}

/// A step against the store leaves the node in hand new to the chain.
proof fn lemma_step_keeps_node_new(run: MigrationRunView, store: StoreModel, world: World)
    requires
        run.well_formed(),
        node_in_hand_is_new(RunProgressView::Pending(run), store),
    ensures
        node_in_hand_is_new(
            after_request(run, store, world).0,
            after_request(run, store, world).1,
        ),
{
}

/// A run from a state whose node in hand is new ends with the file names of
/// the chain unique, if they were unique.
proof fn lemma_play_keeps_names_unique(progress: RunProgressView, store: StoreModel, world: World)
    requires
        unique_names(store.chain),
        node_in_hand_is_new(progress, store),
    ensures
        unique_names(play(progress, store, world).store.chain),
    decreases remaining(progress),
{
    match progress {
        RunProgressView::Finished(_) => {},
        RunProgressView::Pending(run) => {
            if run.well_formed() {
                lemma_play_unfolds(run, store, world);
                lemma_step_keeps_node_new(run, store, world);
                let (next, after) = after_request(run, store, world);
                assert(unique_names(after.chain)) by {
                    if (world.failure)(request_number(run)) is None {
                        if let StageView::WritingNode(node) = run.stage {
                            lemma_not_found_is_absent(store.chain, node.file_name);
                        }
                    }
                }
                lemma_play_keeps_names_unique(next, after, world);
            }
        },
    }
}

/// A run from a state whose node in hand is new writes no node of a file name
/// that the chain holds already.
proof fn lemma_play_writes_no_second_node(
    progress: RunProgressView,
    store: StoreModel,
    world: World,
    file_name: Seq<char>,
)
    requires
        node_in_hand_is_new(progress, store),
        find_node(store.chain, file_name) is Some,
    ensures
        find_node(play(progress, store, world).store.chain, file_name) == find_node(
            store.chain,
            file_name,
        ),
        forall|k: int|
            store.chain.len() <= k < play(progress, store, world).store.chain.len() ==> (
            #[trigger] play(progress, store, world).store.chain[k]).file_name != file_name,
    decreases remaining(progress),
{
    match progress {
        RunProgressView::Finished(_) => {},
        RunProgressView::Pending(run) => {
            if run.well_formed() {
                lemma_play_unfolds(run, store, world);
                lemma_step_keeps_node_new(run, store, world);
                let (next, after) = after_request(run, store, world);
                if let StageView::WritingNode(node) = run.stage {
                    lemma_find_after_write(store.chain, node, file_name);
                }
                lemma_play_writes_no_second_node(next, after, world, file_name);
                law_store_only_grows(next, after, world);
                let end = play(next, after, world).store.chain;
                assert forall|k: int| store.chain.len() <= k < end.len() implies (
                #[trigger] end[k]).file_name != file_name by {}
            }
        },
    }
}

/// A script that is recorded is not recorded again. Where the chain holds a
/// node of some file name before a run, the run writes no node of that name,
/// and a lookup of the name finds after the run what it found before:
/// whatever the scripts are, and whichever requests fail.
pub proof fn law_recorded_script_is_not_written_again(
    scripts: Seq<FileMigrationView>,
    store: StoreModel,
    world: World,
    file_name: Seq<char>,
)
    requires
        find_node(store.chain, file_name) is Some,
    ensures
        find_node(run_against(scripts, store, world).store.chain, file_name) == find_node(
            store.chain,
            file_name,
        ),
        forall|k: int|
            store.chain.len() <= k < run_against(scripts, store, world).store.chain.len() ==> (
            #[trigger] run_against(scripts, store, world).store.chain[k]).file_name != file_name,
{
    lemma_play_writes_no_second_node(begin(scripts), store, world, file_name);
}

/// The file name stays the key of the chain. Where no two nodes of the chain
/// have the same file name before a run, none have after it, whatever the
/// scripts are and whichever requests fail.
pub proof fn law_file_names_stay_unique(
    scripts: Seq<FileMigrationView>,
    store: StoreModel,
    world: World,
)
    requires
        unique_names(store.chain),
    ensures
        unique_names(run_against(scripts, store, world).store.chain),
{
    lemma_play_keeps_names_unique(begin(scripts), store, world);
}

} // verus!
