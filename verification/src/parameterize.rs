use crate::driver::{bolt_from_json, json_as_bolt};
use crate::query::QueryError;
use vstd::prelude::*;

verus! {

/// The parameter that stands for an encoded instance: the encoder's error if
/// encoding failed, else what the driver makes of the JSON value.
pub open spec fn store_parameter(encoded: Result<serde_json::Value, serde_json::Error>) -> Result<
    neo4rs::BoltType,
    QueryError,
> {
    match encoded {
        Err(e) => Err(QueryError::SerializationError(e)),
        Ok(value) => match json_as_bolt(value) {
            Ok(parameter) => Ok(parameter),
            Err(e) => Err(QueryError::ExecutionError(e)),
        },
    }
}

/// Converts an encoded instance into a map of properties that the driver can
/// bind to a query.
pub fn struct_to_hashmap(encoded: Result<serde_json::Value, serde_json::Error>) -> (parameter:
    Result<neo4rs::BoltType, QueryError>)
    ensures
        parameter == store_parameter(encoded),
{
    match encoded {
        Err(e) => Err(QueryError::SerializationError(e)),
        Ok(value) => match bolt_from_json(value) {
            Ok(parameter) => Ok(parameter),
            Err(e) => Err(QueryError::ExecutionError(e)),
        },
    }
}

/// Converts an encoded instance into a map of properties that the driver can
/// bind to a query, for an instance that the store can hold.
pub fn parameterize(encoded: Result<serde_json::Value, serde_json::Error>) -> (parameter:
    neo4rs::BoltType)
    requires
        store_parameter(encoded) is Ok,
    ensures
        store_parameter(encoded) == Ok::<_, QueryError>(parameter),
{
    struct_to_hashmap(encoded).unwrap()
}

} // verus!
