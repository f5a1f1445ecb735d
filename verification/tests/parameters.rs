use graph_migrator::{parameterize, struct_to_hashmap, QueryError};
use neo4rs::BoltType;
use serde_json::Value;
use std::collections::HashMap;

fn node_json(version: u64) -> Value {
    let mut fields = serde_json::Map::new();
    fields.insert("checksum".to_string(), Value::from("abc123"));
    fields.insert("file_name".to_string(), Value::from("a.cyp"));
    fields.insert("cypher_text".to_string(), Value::from("a.cyp"));
    fields.insert("version".to_string(), Value::from(version));
    fields.insert("timestamp".to_string(), Value::from("2024-05-01T10:00:00Z"));
    Value::Object(fields)
}

#[test]
fn a_node_becomes_a_map_of_its_properties() {
    let parameter = struct_to_hashmap(Ok(node_json(1))).unwrap();
    let mut expected: HashMap<String, BoltType> = HashMap::new();
    expected.insert("checksum".to_string(), BoltType::from("abc123"));
    expected.insert("file_name".to_string(), BoltType::from("a.cyp"));
    expected.insert("cypher_text".to_string(), BoltType::from("a.cyp"));
    expected.insert("version".to_string(), BoltType::from(1i64));
    expected.insert("timestamp".to_string(), BoltType::from("2024-05-01T10:00:00Z"));
    assert_eq!(parameter, BoltType::from(expected));
}

#[test]
fn a_text_becomes_a_string() {
    let parameter = struct_to_hashmap(Ok(Value::from("a.cyp"))).unwrap();
    assert_eq!(parameter, BoltType::from("a.cyp"));
}

#[test]
fn a_number_becomes_an_integer() {
    let parameter = struct_to_hashmap(Ok(Value::from(42u64))).unwrap();
    assert_eq!(parameter, BoltType::from(42i64));
}

#[test]
fn a_number_beyond_the_store_is_an_error() {
    let parameter = struct_to_hashmap(Ok(Value::from(u64::MAX)));
    assert!(matches!(
        parameter,
        Err(QueryError::ExecutionError(neo4rs::Error::ConversionError))
    ));
}

#[test]
fn a_node_with_a_version_beyond_the_store_is_an_error() {
    let parameter = struct_to_hashmap(Ok(node_json(u64::MAX)));
    assert!(matches!(
        parameter,
        Err(QueryError::ExecutionError(neo4rs::Error::ConversionError))
    ));
}

#[test]
fn an_encoding_error_is_handed_on() {
    let error = serde_json::from_str::<Value>("{").unwrap_err();
    let message = error.to_string();
    match struct_to_hashmap(Err(error)) {
        Err(QueryError::SerializationError(e)) => assert_eq!(e.to_string(), message),
        _ => panic!("the encoder's error is expected"),
    }
}

#[test]
fn parameterize_gives_the_converted_value() {
    let parameter = parameterize(Ok(node_json(7)));
    assert_eq!(parameter, struct_to_hashmap(Ok(node_json(7))).unwrap());
    match parameter {
        BoltType::Map(map) => {
            assert_eq!(map.value.len(), 5);
            assert_eq!(map.get::<i64>("version").unwrap(), 7);
            assert_eq!(map.get::<String>("file_name").unwrap(), "a.cyp");
        }
        _ => panic!("a map is expected"),
    }
}
