use graph_migrator::statement::{
    Param, ParamValue, Statement, CREATE_MIGRATION_NODE, FIND_MIGRATION_NODE,
};
use graph_migrator::{struct_to_hashmap, GraphMigrator};
use neo4rs::BoltType;
use serde_json::Value;

fn node_map() -> BoltType {
    let mut fields = serde_json::Map::new();
    fields.insert("checksum".to_string(), Value::from("abc123"));
    fields.insert("file_name".to_string(), Value::from("a.cyp"));
    fields.insert("cypher_text".to_string(), Value::from("a.cyp"));
    fields.insert("version".to_string(), Value::from(3u64));
    fields.insert("timestamp".to_string(), Value::from("2024-05-01T10:00:00Z"));
    struct_to_hashmap(Ok(Value::Object(fields))).unwrap()
}

fn param_names(statement: &Statement) -> Vec<String> {
    statement.params.iter().map(|param| param.name.clone()).collect()
}

#[test]
fn the_lookup_matches_by_file_name() {
    let statement = GraphMigrator::new().get_existing_migration("a.cyp");
    assert_eq!(
        statement.text,
        "MATCH (m:DataModelMigration { file_name: $migration_file_name }) RETURN m"
    );
    assert_eq!(statement.text, FIND_MIGRATION_NODE);
    assert_eq!(param_names(&statement), vec!["migration_file_name".to_string()]);
    match &statement.params[0].value {
        ParamValue::Text(name) => assert_eq!(name, "a.cyp"),
        _ => panic!("a text is expected"),
    }
}

#[test]
fn a_script_is_sent_whole_and_without_parameters() {
    let text = "CREATE (a);\nCREATE (b);";
    let statement = GraphMigrator::new().migration_script(text);
    assert_eq!(statement.text, text);
    assert!(statement.params.is_empty());
}

#[test]
fn the_node_statement_binds_the_node_and_the_previous_version() {
    let statement = GraphMigrator::new().migration_node_query(node_map(), 2);
    assert_eq!(statement.text, CREATE_MIGRATION_NODE);
    assert_eq!(
        param_names(&statement),
        vec!["migrationNode".to_string(), "previousVersion".to_string()]
    );
    match &statement.params[0].value {
        ParamValue::Store(bound) => assert_eq!(*bound, node_map()),
        _ => panic!("a value of the store is expected"),
    }
    match &statement.params[1].value {
        ParamValue::Integer(previous) => assert_eq!(*previous, 2),
        _ => panic!("an integer is expected"),
    }
}

#[test]
fn the_node_statement_writes_the_five_properties() {
    for property in ["checksum", "file_name", "cypher_text", "version", "timestamp"] {
        let bound = format!("{}: ", property);
        assert!(CREATE_MIGRATION_NODE.contains(&bound), "{} is written", property);
        let read = format!("$migrationNode.{}", property);
        assert!(CREATE_MIGRATION_NODE.contains(&read), "{} is read", property);
    }
    assert!(CREATE_MIGRATION_NODE.starts_with("CREATE (m:DataModelMigration "));
}

#[test]
fn the_lookup_query_binds_the_file_name() {
    let query = GraphMigrator::new().get_existing_migration("a.cyp").query();
    assert!(query.has_param_key("migration_file_name"));
    assert!(!query.has_param_key("a.cyp"));
    assert!(!query.has_param_key("migrationNode"));
}

#[test]
fn a_script_query_binds_nothing() {
    let query = GraphMigrator::new().migration_script("CREATE (n { name: $name })").query();
    assert!(!query.has_param_key("name"));
    assert!(!query.has_param_key("CREATE (n { name: $name })"));
}

#[test]
fn the_node_query_binds_both_parameters() {
    let query = GraphMigrator::new().migration_node_query(node_map(), 2).query();
    assert!(query.has_param_key("migrationNode"));
    assert!(query.has_param_key("previousVersion"));
    assert!(!query.has_param_key("checksum"));
}

#[test]
fn a_query_binds_every_parameter_of_its_statement() {
    let statement = Statement {
        text: "RETURN $a, $b, $c".to_string(),
        params: vec![
            Param { name: "a".to_string(), value: ParamValue::Text("x".to_string()) },
            Param { name: "b".to_string(), value: ParamValue::Integer(-4) },
            Param { name: "c".to_string(), value: ParamValue::Store(BoltType::from(true)) },
            Param { name: "a".to_string(), value: ParamValue::Integer(9) },
        ],
    };
    let query = statement.query();
    assert!(query.has_param_key("a"));
    assert!(query.has_param_key("b"));
    assert!(query.has_param_key("c"));
    assert!(!query.has_param_key("d"));
}

#[test]
fn a_text_is_bound_as_a_string_of_the_store() {
    let value = ParamValue::Text("a.cyp".to_string()).into_bolt();
    assert_eq!(value, BoltType::String(neo4rs::BoltString::new("a.cyp")));
    assert_ne!(value, BoltType::String(neo4rs::BoltString::new("b.cyp")));
}

#[test]
fn an_integer_is_bound_as_an_integer_of_the_store() {
    let value = ParamValue::Integer(-7).into_bolt();
    assert_eq!(value, BoltType::Integer(neo4rs::BoltInteger::new(-7)));
    let largest = ParamValue::Integer(i64::MAX).into_bolt();
    assert_eq!(largest, BoltType::Integer(neo4rs::BoltInteger::new(i64::MAX)));
}

#[test]
fn a_value_of_the_store_is_bound_as_it_is() {
    let value = ParamValue::Store(node_map()).into_bolt();
    assert_eq!(value, node_map());
}
