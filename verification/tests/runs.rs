use graph_migrator::clock::Timestamp;
use graph_migrator::discovery::ScriptFile;
use graph_migrator::migrations::{FileMigration, MigrationError, MigrationsNode};
use graph_migrator::run::{RunProgress, StoreRequest};
use graph_migrator::{GraphMigrator, QueryError, RowFetch};

/// A store held in memory: the chain, the scripts that were run, and the
/// script text on which it fails.
struct Store {
    chain: Vec<MigrationsNode>,
    executed: Vec<String>,
    requests: Vec<String>,
    broken_script: Option<String>,
    broken_write: bool,
}

fn empty_store() -> Store {
    Store {
        chain: Vec::new(),
        executed: Vec::new(),
        requests: Vec::new(),
        broken_script: None,
        broken_write: false,
    }
}

fn serve(store: &mut Store, request: StoreRequest) -> Result<Option<MigrationsNode>, MigrationError> {
    let migrator = GraphMigrator::new();
    match request {
        StoreRequest::FindExisting { file_name } => {
            store.requests.push(format!("find {}", file_name));
            let found = store.chain.iter().find(|node| node.file_name == file_name).cloned();
            let fetch = match found {
                Some(node) => RowFetch::Decoded(Some(node)),
                None => RowFetch::Exhausted,
            };
            migrator.existing_migration(Ok(fetch))
        }
        StoreRequest::RunScript { cypher_text } => {
            store.requests.push(format!("run {}", cypher_text));
            if store.broken_script.as_deref() == Some(cypher_text.as_str()) {
                return migrator.committed(Err(neo4rs::Error::ConnectionError));
            }
            store.executed.push(cypher_text);
            migrator.committed(Ok(()))
        }
        StoreRequest::WriteNode { node, previous_version } => {
            store.requests.push(format!("write {} after {}", node.file_name, previous_version));
            if store.broken_write {
                return migrator.committed(Err(neo4rs::Error::ConnectionError));
            }
            store.chain.push(node);
            migrator.committed(Ok(()))
        }
    }
}

fn run(store: &mut Store, migrations: Vec<FileMigration>) -> Result<(), MigrationError> {
    let mut progress = GraphMigrator::new().run_migrations(migrations);
    loop {
        match progress {
            RunProgress::Finished(result) => return result,
            RunProgress::Pending(pending) => {
                let outcome = serve(store, pending.request());
                progress = pending.advance(outcome);
            }
        }
    }
}

fn script(file_name: &str, text: &str) -> FileMigration {
    GraphMigrator::new().process_file(file_name, Some(text.to_string())).unwrap()
}

fn chain_names(store: &Store) -> Vec<String> {
    store.chain.iter().map(|node| node.file_name.clone()).collect()
}

fn chain_versions(store: &Store) -> Vec<u64> {
    store.chain.iter().map(|node| node.version).collect()
}

fn not_after(earlier: &Timestamp, later: &Timestamp) -> bool {
    (earlier.seconds, earlier.nanoseconds) <= (later.seconds, later.nanoseconds)
}

#[test]
fn a_new_script_is_run_and_recorded() {
    let mut store = empty_store();
    let text = "CREATE (n:Person { name: 'Ada' })";
    let result = run(&mut store, vec![script("a.cyp", text)]);
    assert!(result.is_ok());
    assert_eq!(store.executed, vec![text.to_string()]);
    assert_eq!(store.chain.len(), 1);
    let node = &store.chain[0];
    assert_eq!(node.file_name, "a.cyp");
    assert_eq!(node.checksum, "5fc585552799ee558896288693fc185ca51f81c6123cf8aba21da563f797a19e");
    assert_eq!(node.version, 1);
}

#[test]
fn the_node_keeps_the_file_name_as_its_text() {
    let mut store = empty_store();
    run(&mut store, vec![script("a.cyp", "CREATE (n)")]).unwrap();
    assert_eq!(store.chain[0].cypher_text, "a.cyp");
}

#[test]
fn the_requests_of_one_new_script() {
    let mut store = empty_store();
    run(&mut store, vec![script("a.cyp", "CREATE (n)")]).unwrap();
    assert_eq!(
        store.requests,
        vec![
            "find a.cyp".to_string(),
            "run CREATE (n)".to_string(),
            "write a.cyp after 0".to_string(),
        ]
    );
}

#[test]
fn a_second_run_skips_unchanged_scripts() {
    let mut store = empty_store();
    let scripts = vec![script("a.cyp", "CREATE (a)"), script("b.cypher", "CREATE (b)")];
    run(&mut store, scripts.clone()).unwrap();
    assert_eq!(store.executed.len(), 2);
    assert_eq!(store.chain.len(), 2);
    store.requests.clear();

    let result = run(&mut store, scripts);
    assert!(result.is_ok());
    assert_eq!(store.executed.len(), 2);
    assert_eq!(chain_names(&store), vec!["a.cyp".to_string(), "b.cypher".to_string()]);
    assert_eq!(store.requests, vec!["find a.cyp".to_string(), "find b.cypher".to_string()]);
}

#[test]
fn a_changed_script_is_rejected() {
    let mut store = empty_store();
    run(&mut store, vec![script("a.cyp", "CREATE (a)")]).unwrap();
    let recorded = store.chain[0].clone();

    let result = run(&mut store, vec![script("a.cyp", "CREATE (changed)")]);
    assert!(matches!(result, Err(MigrationError::ChecksumMismatch)));
    assert_eq!(store.executed, vec!["CREATE (a)".to_string()]);
    assert_eq!(store.chain.len(), 1);
    assert_eq!(store.chain[0].checksum, recorded.checksum);
    assert_eq!(store.chain[0].file_name, recorded.file_name);
    assert_eq!(store.chain[0].version, recorded.version);
    assert_eq!(store.chain[0].timestamp, recorded.timestamp);
}

#[test]
fn nothing_is_tried_after_a_changed_script() {
    let mut store = empty_store();
    run(&mut store, vec![script("a.cyp", "CREATE (a)")]).unwrap();
    store.requests.clear();

    let scripts = vec![script("a.cyp", "CREATE (changed)"), script("b.cyp", "CREATE (b)")];
    let result = run(&mut store, scripts);
    assert!(matches!(result, Err(MigrationError::ChecksumMismatch)));
    assert_eq!(store.requests, vec!["find a.cyp".to_string()]);
    assert_eq!(chain_names(&store), vec!["a.cyp".to_string()]);
}

#[test]
fn scripts_before_a_changed_one_are_applied() {
    let mut store = empty_store();
    run(&mut store, vec![script("b.cyp", "CREATE (b)")]).unwrap();

    let scripts = vec![
        script("a.cyp", "CREATE (a)"),
        script("b.cyp", "CREATE (b2)"),
        script("c.cyp", "CREATE (c)"),
    ];
    let result = run(&mut store, scripts);
    assert!(matches!(result, Err(MigrationError::ChecksumMismatch)));
    assert_eq!(chain_names(&store), vec!["b.cyp".to_string(), "a.cyp".to_string()]);
    assert_eq!(store.executed, vec!["CREATE (b)".to_string(), "CREATE (a)".to_string()]);
}

#[test]
fn new_scripts_get_versions_from_one() {
    let mut store = empty_store();
    let scripts = vec![
        script("c.cyp", "CREATE (c)"),
        script("a.cyp", "CREATE (a)"),
        script("b.cyp", "CREATE (b)"),
        script("d.cypher", "CREATE (d)"),
    ];
    run(&mut store, scripts).unwrap();
    assert_eq!(chain_versions(&store), vec![1, 2, 3, 4]);
    assert_eq!(
        chain_names(&store),
        vec!["c.cyp".to_string(), "a.cyp".to_string(), "b.cyp".to_string(), "d.cypher".to_string()]
    );
    assert_eq!(
        store.executed,
        vec![
            "CREATE (c)".to_string(),
            "CREATE (a)".to_string(),
            "CREATE (b)".to_string(),
            "CREATE (d)".to_string(),
        ]
    );
}

#[test]
fn timestamps_do_not_go_back_along_the_chain() {
    let mut store = empty_store();
    let scripts = vec![
        script("a.cyp", "CREATE (a)"),
        script("b.cyp", "CREATE (b)"),
        script("c.cyp", "CREATE (c)"),
    ];
    run(&mut store, scripts).unwrap();
    assert!(not_after(&store.chain[0].timestamp, &store.chain[1].timestamp));
    assert!(not_after(&store.chain[1].timestamp, &store.chain[2].timestamp));
    assert!(store.chain[0].timestamp.seconds > 1_600_000_000);
}

#[test]
fn versions_follow_the_position_in_the_run() {
    let mut store = empty_store();
    run(&mut store, vec![script("a.cyp", "CREATE (a)"), script("b.cyp", "CREATE (b)")]).unwrap();
    assert_eq!(chain_versions(&store), vec![1, 2]);

    let scripts = vec![
        script("a.cyp", "CREATE (a)"),
        script("b.cyp", "CREATE (b)"),
        script("c.cyp", "CREATE (c)"),
    ];
    run(&mut store, scripts).unwrap();
    assert_eq!(chain_versions(&store), vec![1, 2, 3]);
}

#[test]
fn a_later_batch_counts_from_one_again() {
    let mut store = empty_store();
    run(&mut store, vec![script("a.cyp", "CREATE (a)"), script("b.cyp", "CREATE (b)")]).unwrap();
    run(&mut store, vec![script("c.cyp", "CREATE (c)"), script("d.cyp", "CREATE (d)")]).unwrap();
    assert_eq!(chain_versions(&store), vec![1, 2, 1, 2]);
}

#[test]
fn a_failing_script_stops_the_run_and_is_not_recorded() {
    let mut store = empty_store();
    store.broken_script = Some("CREATE (b)".to_string());
    let scripts = vec![
        script("a.cyp", "CREATE (a)"),
        script("b.cyp", "CREATE (b)"),
        script("c.cyp", "CREATE (c)"),
    ];
    let result = run(&mut store, scripts);
    assert!(matches!(
        result,
        Err(MigrationError::Neo4jError(neo4rs::Error::ConnectionError))
    ));
    assert_eq!(chain_names(&store), vec!["a.cyp".to_string()]);
    assert_eq!(store.executed, vec!["CREATE (a)".to_string()]);
    assert_eq!(
        store.requests,
        vec![
            "find a.cyp".to_string(),
            "run CREATE (a)".to_string(),
            "write a.cyp after 0".to_string(),
            "find b.cyp".to_string(),
            "run CREATE (b)".to_string(),
        ]
    );
}

#[test]
fn a_script_whose_node_was_not_written_is_run_again() {
    let mut store = empty_store();
    store.broken_write = true;
    let result = run(&mut store, vec![script("a.cyp", "CREATE (a)")]);
    assert!(matches!(
        result,
        Err(MigrationError::Neo4jError(neo4rs::Error::ConnectionError))
    ));
    assert_eq!(store.executed, vec!["CREATE (a)".to_string()]);
    assert!(store.chain.is_empty());

    store.broken_write = false;
    run(&mut store, vec![script("a.cyp", "CREATE (a)")]).unwrap();
    assert_eq!(store.executed, vec!["CREATE (a)".to_string(), "CREATE (a)".to_string()]);
    assert_eq!(chain_names(&store), vec!["a.cyp".to_string()]);
}

#[test]
fn a_run_without_scripts_succeeds_at_once() {
    let progress = GraphMigrator::new().run_migrations(Vec::new());
    assert!(matches!(progress, RunProgress::Finished(Ok(()))));
}

#[test]
fn a_run_without_scripts_leaves_the_store_alone() {
    let mut store = empty_store();
    run(&mut store, vec![script("a.cyp", "CREATE (a)")]).unwrap();
    store.requests.clear();
    let result = run(&mut store, Vec::new());
    assert!(result.is_ok());
    assert!(store.requests.is_empty());
    assert_eq!(chain_names(&store), vec!["a.cyp".to_string()]);
    assert_eq!(store.executed.len(), 1);
}

#[test]
fn a_run_over_an_empty_listing_applies_nothing() {
    let mut store = empty_store();
    let migrations = GraphMigrator::new().gather_migrations(Vec::new());
    assert!(run(&mut store, migrations).is_ok());
    assert!(store.chain.is_empty());
    assert!(store.executed.is_empty());
    assert!(store.requests.is_empty());
}

#[test]
fn a_failed_lookup_stops_the_run() {
    let migrator = GraphMigrator::new();
    let pending = match migrator.run_migrations(vec![script("a.cyp", "CREATE (a)")]) {
        RunProgress::Pending(pending) => pending,
        RunProgress::Finished(_) => panic!("the run has a script"),
    };
    let outcome = migrator.existing_migration(Err(neo4rs::Error::ConnectionError));
    let progress = pending.advance(outcome);
    assert!(matches!(
        progress,
        RunProgress::Finished(Err(MigrationError::Neo4jError(neo4rs::Error::ConnectionError)))
    ));
}

#[test]
fn a_node_that_does_not_decode_stops_the_run() {
    let migrator = GraphMigrator::new();
    let pending = match migrator.run_migrations(vec![script("a.cyp", "CREATE (a)")]) {
        RunProgress::Pending(pending) => pending,
        RunProgress::Finished(_) => panic!("the run has a script"),
    };
    let fetch = RowFetch::Undecodable(neo4rs::DeError::PropertyMissingButRequired);
    let progress = pending.advance(migrator.existing_migration(Ok(fetch)));
    assert!(matches!(
        progress,
        RunProgress::Finished(Err(MigrationError::QueryError(QueryError::NeoDeError(
            neo4rs::DeError::PropertyMissingButRequired
        ))))
    ));
}

#[test]
fn the_first_request_looks_for_the_first_script() {
    let scripts = vec![script("b.cyp", "CREATE (b)"), script("a.cyp", "CREATE (a)")];
    match GraphMigrator::new().run_migrations(scripts) {
        RunProgress::Pending(pending) => match pending.request() {
            StoreRequest::FindExisting { file_name } => assert_eq!(file_name, "b.cyp"),
            _ => panic!("a lookup is expected"),
        },
        RunProgress::Finished(_) => panic!("the run has scripts"),
    }
}

#[test]
fn the_same_script_twice_in_a_run_is_applied_once() {
    let mut store = empty_store();
    let scripts = vec![script("a.cyp", "CREATE (a)"), script("a.cyp", "CREATE (a)")];
    run(&mut store, scripts).unwrap();
    assert_eq!(chain_names(&store), vec!["a.cyp".to_string()]);
    assert_eq!(store.executed, vec!["CREATE (a)".to_string()]);
}

#[test]
fn a_text_file_beside_a_script_is_neither_run_nor_recorded() {
    let listing = vec![
        ScriptFile {
            file_name: "a.cyp".to_string(),
            contents: Some("CREATE (n:Person { name: 'Ada' })".to_string()),
        },
        ScriptFile { file_name: "b.txt".to_string(), contents: Some("CREATE (b)".to_string()) },
    ];
    let migrations = GraphMigrator::new().gather_migrations(listing);
    let mut store = empty_store();
    run(&mut store, migrations).unwrap();
    assert_eq!(chain_names(&store), vec!["a.cyp".to_string()]);
    assert_eq!(store.executed, vec!["CREATE (n:Person { name: 'Ada' })".to_string()]);
    assert_eq!(
        store.requests,
        vec![
            "find a.cyp".to_string(),
            "run CREATE (n:Person { name: 'Ada' })".to_string(),
            "write a.cyp after 0".to_string(),
        ]
    );
}

#[test]
fn scripts_that_are_new_are_applied_between_those_up_to_date() {
    let mut store = empty_store();
    run(&mut store, vec![script("b.cyp", "CREATE (b)")]).unwrap();
    store.requests.clear();

    let scripts = vec![
        script("a.cyp", "CREATE (a)"),
        script("b.cyp", "CREATE (b)"),
        script("c.cyp", "CREATE (c)"),
    ];
    run(&mut store, scripts).unwrap();
    assert_eq!(
        chain_names(&store),
        vec!["b.cyp".to_string(), "a.cyp".to_string(), "c.cyp".to_string()]
    );
    assert_eq!(chain_versions(&store), vec![1, 1, 3]);
    assert_eq!(
        store.executed,
        vec!["CREATE (b)".to_string(), "CREATE (a)".to_string(), "CREATE (c)".to_string()]
    );
    assert_eq!(
        store.requests,
        vec![
            "find a.cyp".to_string(),
            "run CREATE (a)".to_string(),
            "write a.cyp after 0".to_string(),
            "find b.cyp".to_string(),
            "find c.cyp".to_string(),
            "run CREATE (c)".to_string(),
            "write c.cyp after 2".to_string(),
        ]
    );
}
