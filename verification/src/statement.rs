use crate::driver::{
    bind, bolt_integer, bolt_text, integer_as_bolt, new_query, query_params, query_text,
    text_as_bolt,
};
use crate::migrations::GraphMigrator;
use vstd::prelude::*;

verus! {

/// The value bound to a parameter of a statement.
#[derive(Debug)]
pub enum ParamValue {
    Text(String),
    Integer(i64),
    /// A value that is in the store's typing already, such as the map of a
    /// chain node's properties.
    Store(neo4rs::BoltType),
}

/// The value of a parameter as the contracts see it.
pub enum ParamValueView {
    Text(Seq<char>),
    Integer(i64),
    Store(neo4rs::BoltType),
}

impl View for ParamValue {
    type V = ParamValueView;

    open spec fn view(&self) -> ParamValueView {
        match self {
            ParamValue::Text(text) => ParamValueView::Text(text@),
            ParamValue::Integer(number) => ParamValueView::Integer(*number),
            ParamValue::Store(value) => ParamValueView::Store(*value),
        }
    }
}

/// A named parameter of a statement.
#[derive(Debug)]
pub struct Param {
    pub name: String,
    pub value: ParamValue,
}

impl View for Param {
    type V = (Seq<char>, ParamValueView);

    open spec fn view(&self) -> (Seq<char>, ParamValueView) {
        (self.name@, self.value@)
    }
}

/// A statement in the store's query language, with the values bound to its
/// parameters.
#[derive(Debug)]
pub struct Statement {
    pub text: String,
    pub params: Vec<Param>,
}

/// A statement as the contracts see it.
pub struct StatementView {
    pub text: Seq<char>,
    pub params: Seq<(Seq<char>, ParamValueView)>,
}

impl View for Statement {
    type V = StatementView;

    open spec fn view(&self) -> StatementView {
        StatementView { text: self.text@, params: param_views(self.params@) }
    }
}

/// The views of a sequence of parameters.
pub open spec fn param_views(params: Seq<Param>) -> Seq<(Seq<char>, ParamValueView)> {
    params.map_values(|param: Param| param@)
}

/// Matches the chain node of a file name.
pub const FIND_MIGRATION_NODE: &'static str =
    "MATCH (m:DataModelMigration { file_name: $migration_file_name }) RETURN m";

/// Creates one chain node with its five properties.
pub const CREATE_MIGRATION_NODE: &'static str =
    "CREATE (m:DataModelMigration { checksum: $migrationNode.checksum, file_name: $migrationNode.file_name, cypher_text: $migrationNode.cypher_text, version: $migrationNode.version, timestamp: datetime($migrationNode.timestamp) })";

/// The lookup of the chain node with the file name `name`.
pub open spec fn find_statement(name: Seq<char>) -> StatementView {
    StatementView {
        text: FIND_MIGRATION_NODE@,
        params: seq![("migration_file_name"@, ParamValueView::Text(name))],
    }
}

/// A migration script as a statement: the whole text, nothing bound.
pub open spec fn script_statement(cypher_text: Seq<char>) -> StatementView {
    StatementView { text: cypher_text, params: Seq::empty() }
}

/// The statement that adds a node to the chain, where `node` is the map of
/// the node's properties. The version before the node's is bound beside it;
/// the text writes the node alone and links it to no other.
pub open spec fn node_statement(node: neo4rs::BoltType, previous_version: i64) -> StatementView {
    StatementView {
        text: CREATE_MIGRATION_NODE@,
        params: seq![
            ("migrationNode"@, ParamValueView::Store(node)),
            ("previousVersion"@, ParamValueView::Integer(previous_version)),
        ],
    }
}

/// A parameter's value in the store's typing.
pub open spec fn bolt_value(value: ParamValueView) -> neo4rs::BoltType {
    match value {
        ParamValueView::Text(text) => text_as_bolt(text),
        ParamValueView::Integer(number) => integer_as_bolt(number),
        ParamValueView::Store(value) => value,
    }
}

/// The values that a list of parameters binds, by name. Where a name comes
/// twice, the later value stands.
pub open spec fn bound_params(params: Seq<(Seq<char>, ParamValueView)>) -> Map<
    Seq<char>,
    neo4rs::BoltType,
>
    decreases params.len(),
{
    if params.len() == 0 {
        Map::empty()
    } else {
        bound_params(params.drop_last()).insert(params.last().0, bolt_value(params.last().1))
    }
}

impl ParamValue {
    /// The value in the store's typing.
    pub fn into_bolt(self) -> (value: neo4rs::BoltType)
        ensures
            value == bolt_value(self@),
    {
        match self {
            ParamValue::Text(text) => bolt_text(text.as_str()),
            ParamValue::Integer(number) => bolt_integer(number),
            ParamValue::Store(value) => value,
        }
    }
}

impl Statement {
    /// The driver's statement with this text and these values bound.
    pub fn query(self) -> (query: neo4rs::Query)
        ensures
            query_text(query) == self@.text,
            query_params(query) == bound_params(self@.params),
    {
        let ghost params = self@.params;
        let mut query = new_query(self.text.as_str());
        for param in it: self.params
            invariant
                param_views(it.seq()) == params,
                query_text(query) == self.text@,
                query_params(query) == bound_params(params.take(it.index() as int)),
        {
            proof {
                let upto = params.take(it.index() + 1);
                assert(upto.drop_last() == params.take(it.index() as int));
            }
            query = bind(query, param.name.as_str(), param.value.into_bolt());
        }
        assert(params.take(params.len() as int) == params);
        query
    }
}

impl GraphMigrator {
    /// The query that looks for a migration node with the same file name.
    pub fn get_existing_migration(&self, name: &str) -> (statement: Statement)
        ensures
            statement@ == find_statement(name@),
    {
        let mut params: Vec<Param> = Vec::new();
        params.push(
            Param {
                name: "migration_file_name".to_owned(),
                value: ParamValue::Text(name.to_owned()),
            },
        );
        let statement = Statement { text: FIND_MIGRATION_NODE.to_owned(), params };
        assert(statement@.params =~= find_statement(name@).params);
        statement
    }

    /// The statement that runs a migration script.
    pub fn migration_script(&self, cypher_text: &str) -> (statement: Statement)
        ensures
            statement@ == script_statement(cypher_text@),
    {
        let statement = Statement { text: cypher_text.to_owned(), params: Vec::new() };
        assert(statement@.params =~= script_statement(cypher_text@).params);
        statement
    }

    /// The statement that writes a node of the migration chain, where `node`
    /// is the map of the node's properties.
    pub fn migration_node_query(&self, node: neo4rs::BoltType, previous_version: i64) -> (statement:
        Statement)
        ensures
            statement@ == node_statement(node, previous_version),
    {
        let mut params: Vec<Param> = Vec::new();
        params.push(Param { name: "migrationNode".to_owned(), value: ParamValue::Store(node) });
        params.push(
            Param {
                name: "previousVersion".to_owned(),
                value: ParamValue::Integer(previous_version),
            },
        );
        let statement = Statement { text: CREATE_MIGRATION_NODE.to_owned(), params };
        assert(statement@.params =~= node_statement(node, previous_version).params);
        statement
    }
}

} // verus!
