//! What the library takes from the store's driver and from the JSON encoder.
//!
//! Nothing in this module is proved. The types are declared so that their
//! values can be carried; each function makes one call into the driver, and
//! its contract is what the library believes of that call.

use vstd::prelude::*;

verus! {

/// The driver's error for a failed exchange with the store. Its inside is not
/// read here: a value is only carried to the caller.
#[verifier::external_type_specification]
#[verifier::external_body]
pub struct ExDriverError(neo4rs::Error);

/// The driver's error for a row that cannot be turned into the type asked for.
#[verifier::external_type_specification]
#[verifier::external_body]
pub struct ExRowError(neo4rs::DeError);

/// The error of the JSON encoder.
#[verifier::external_type_specification]
#[verifier::external_body]
pub struct ExJsonError(serde_json::Error);

/// A JSON value, as the encoder hands it out.
#[verifier::external_type_specification]
#[verifier::external_body]
pub struct ExJsonValue(serde_json::Value);

/// A value in the store's own typing, as the driver takes it for a parameter.
#[verifier::external_type_specification]
#[verifier::external_body]
pub struct ExStoreValue(neo4rs::BoltType);

/// A statement of the driver with the values bound to it, ready to be run.
#[verifier::external_type_specification]
#[verifier::external_body]
pub struct ExQuery(neo4rs::Query);

/// What the driver's `BoltType::try_from` makes of a JSON value: the same
/// value in the store's typing, or the driver's error where the store has no
/// type for it. Two values of the store are the same where they compare
/// equal: a map by its entries, whatever the order in which it is walked.
pub uninterp spec fn json_as_bolt(value: serde_json::Value) -> Result<
    neo4rs::BoltType,
    neo4rs::Error,
>;

/// A text in the store's typing: what the driver's `BoltType::from` makes
/// of a string slice.
pub uninterp spec fn text_as_bolt(text: Seq<char>) -> neo4rs::BoltType;

/// An integer in the store's typing: what the driver's `BoltType::from`
/// makes of an `i64`.
pub uninterp spec fn integer_as_bolt(number: i64) -> neo4rs::BoltType;

/// The text that a `neo4rs::Query` holds.
pub uninterp spec fn query_text(query: neo4rs::Query) -> Seq<char>;

/// The values that a `neo4rs::Query` holds, by the names they are bound to.
pub uninterp spec fn query_params(query: neo4rs::Query) -> Map<Seq<char>, neo4rs::BoltType>;

/// The driver's conversion of a JSON value, `BoltType::try_from`. It reads
/// nothing but the value, so it is named and trusted as a function of it.
#[verifier::external_body]
pub(crate) fn bolt_from_json(value: serde_json::Value) -> (converted: Result<
    neo4rs::BoltType,
    neo4rs::Error,
>)
    ensures
        converted == json_as_bolt(value),
{
    neo4rs::BoltType::try_from(value)
}

/// `BoltType::from` on a string slice: the store's string of the same text.
#[verifier::external_body]
pub(crate) fn bolt_text(text: &str) -> (value: neo4rs::BoltType)
    ensures
        value == text_as_bolt(text@),
{
    neo4rs::BoltType::from(text)
}

/// `BoltType::from` on an `i64`: the store's integer of the same value.
#[verifier::external_body]
pub(crate) fn bolt_integer(number: i64) -> (value: neo4rs::BoltType)
    ensures
        value == integer_as_bolt(number),
{
    neo4rs::BoltType::from(number)
}

/// `neo4rs::query`: a statement with the text given and nothing bound.
#[verifier::external_body]
pub(crate) fn new_query(text: &str) -> (query: neo4rs::Query)
    ensures
        query_text(query) == text@,
        query_params(query) == (Map::<Seq<char>, neo4rs::BoltType>::empty()),
{
    neo4rs::query(text)
}

/// `Query::param` with a value that is in the store's typing already: the
/// text stays, and the value is bound to the name in place of any value
/// bound to that name before.
#[verifier::external_body]
pub(crate) fn bind(query: neo4rs::Query, name: &str, value: neo4rs::BoltType) -> (bound:
    neo4rs::Query)
    ensures
        query_text(bound) == query_text(query),
        query_params(bound) == query_params(query).insert(name@, value),
{
    query.param(name, value)
}

} // verus!
