use vstd::prelude::*;

verus! {

/// What went wrong while a query was run or its rows were read.
#[derive(Debug)]
pub enum QueryError {
    /// The store or the connection failed.
    ExecutionError(neo4rs::Error),
    /// A row came back that does not have the shape asked for.
    NeoDeError(neo4rs::DeError),
    /// A value could not be encoded.
    SerializationError(serde_json::Error),
    /// A row was needed and the query gave none.
    NoRecordsFound,
}

impl From<neo4rs::Error> for QueryError {
    fn from(error: neo4rs::Error) -> (wrapped: QueryError) {
        QueryError::ExecutionError(error)
    }
}

impl vstd::std_specs::convert::FromSpecImpl<neo4rs::Error> for QueryError {
    open spec fn obeys_from_spec() -> bool {
        true
    }

    open spec fn from_spec(error: neo4rs::Error) -> QueryError {
        QueryError::ExecutionError(error)
    }
}

impl From<neo4rs::DeError> for QueryError {
    fn from(error: neo4rs::DeError) -> (wrapped: QueryError) {
        QueryError::NeoDeError(error)
    }
}

impl vstd::std_specs::convert::FromSpecImpl<neo4rs::DeError> for QueryError {
    open spec fn obeys_from_spec() -> bool {
        true
    }

    open spec fn from_spec(error: neo4rs::DeError) -> QueryError {
        QueryError::NeoDeError(error)
    }
}

impl From<serde_json::Error> for QueryError {
    fn from(error: serde_json::Error) -> (wrapped: QueryError) {
        QueryError::SerializationError(error)
    }
}

impl vstd::std_specs::convert::FromSpecImpl<serde_json::Error> for QueryError {
    open spec fn obeys_from_spec() -> bool {
        true
    }

    open spec fn from_spec(error: serde_json::Error) -> QueryError {
        QueryError::SerializationError(error)
    }
}

/// What one pull on a stream of rows gave, the row already decoded.
#[derive(Debug)]
pub enum RowFetch<T> {
    /// The pull itself failed.
    Failed(neo4rs::Error),
    /// The stream has no further row.
    Exhausted,
    /// A row came, and it does not decode.
    Undecodable(neo4rs::DeError),
    /// A row came and decoded to this value.
    Decoded(T),
}

/// The first row of a query that may have none.
pub open spec fn single_or_none<T>(fetch: RowFetch<Option<T>>) -> Result<Option<T>, QueryError> {
    match fetch {
        RowFetch::Failed(e) => Err(QueryError::ExecutionError(e)),
        RowFetch::Exhausted => Ok(None),
        RowFetch::Undecodable(e) => Err(QueryError::NeoDeError(e)),
        RowFetch::Decoded(value) => Ok(value),
    }
}

/// Safe variant of [`single`]: a query without rows gives `None`, not an error.
pub fn get_single<T>(fetch: RowFetch<Option<T>>) -> (found: Result<Option<T>, QueryError>)
    ensures
        found == single_or_none(fetch),
{
    match fetch {
        RowFetch::Failed(e) => Err(QueryError::ExecutionError(e)),
        RowFetch::Exhausted => Ok(None),
        RowFetch::Undecodable(e) => Err(QueryError::NeoDeError(e)),
        RowFetch::Decoded(value) => Ok(value),
    }
}

/// The row of a query that must have one.
pub open spec fn single_row<T>(fetch: RowFetch<T>) -> Result<T, QueryError> {
    match fetch {
        RowFetch::Failed(e) => Err(QueryError::ExecutionError(e)),
        RowFetch::Exhausted => Err(QueryError::NoRecordsFound),
        RowFetch::Undecodable(e) => Err(QueryError::NeoDeError(e)),
        RowFetch::Decoded(value) => Ok(value),
    }
}

/// The first row of a query; a query without rows is an error.
pub fn single<T>(fetch: RowFetch<T>) -> (found: Result<T, QueryError>)
    ensures
        found == single_row(fetch),
{
    match fetch {
        RowFetch::Failed(e) => Err(QueryError::ExecutionError(e)),
        RowFetch::Exhausted => Err(QueryError::NoRecordsFound),
        RowFetch::Undecodable(e) => Err(QueryError::NeoDeError(e)),
        RowFetch::Decoded(value) => Ok(value),
    }
}

/// The rows of a query, read pull by pull: the rows that decode, in the order
/// in which they came, up to the pull that found the stream exhausted. A row
/// that does not decode is left out. A pull that fails is the error of the
/// whole, whatever came before it. Pulls after the end are not looked at.
pub open spec fn collected<T>(fetches: Seq<RowFetch<T>>) -> Result<Seq<T>, QueryError>
    decreases fetches.len(),
{
    if fetches.len() == 0 {
        Ok(Seq::empty())
    } else {
        let rest = collected(fetches.drop_first());
        match fetches.first() {
            RowFetch::Failed(e) => Err(QueryError::ExecutionError(e)),
            RowFetch::Exhausted => Ok(Seq::empty()),
            RowFetch::Undecodable(_) => rest,
            RowFetch::Decoded(row) => match rest {
                Ok(rows) => Ok(seq![row] + rows),
                Err(e) => Err(e),
            },
        }
    }
}

/// Rows read so far, followed by what the remaining pulls give.
pub open spec fn continued<T>(rows: Seq<T>, rest: Result<Seq<T>, QueryError>) -> Result<
    Seq<T>,
    QueryError,
> {
    match rest {
        Ok(more) => Ok(rows + more),
        Err(e) => Err(e),
    }
}

/// Whether `rows` is the outcome `expected`, the rows compared by their view.
pub open spec fn rows_are<T>(rows: Result<Vec<T>, QueryError>, expected: Result<
    Seq<T>,
    QueryError,
>) -> bool {
    match (rows, expected) {
        (Ok(found), Ok(wanted)) => found@ == wanted,
        (Err(e), Err(f)) => e == f,
        _ => false,
    }
}

/// The rows of a query while they are read: more may come, or the reading
/// is over and has this result.
#[derive(Debug)]
pub enum Rows<T> {
    Reading(Vec<T>),
    Finished(Result<Vec<T>, QueryError>),
}

/// The rows of a query while they are read, as the contracts see them.
pub enum RowsView<T> {
    Reading(Seq<T>),
    Finished(Result<Seq<T>, QueryError>),
}

impl<T> View for Rows<T> {
    type V = RowsView<T>;

    open spec fn view(&self) -> RowsView<T> {
        match self {
            Rows::Reading(rows) => RowsView::Reading(rows@),
            Rows::Finished(Ok(rows)) => RowsView::Finished(Ok(rows@)),
            Rows::Finished(Err(e)) => RowsView::Finished(Err(*e)),
        }
    }
}

/// The rows read so far and what one more pull makes of them. A row that
/// decodes is added; one that does not is left out; the end of the stream
/// ends the reading with the rows read; a failed pull ends it with the error.
pub open spec fn after_pull<T>(rows: Seq<T>, fetch: RowFetch<T>) -> RowsView<T> {
    match fetch {
        RowFetch::Failed(e) => RowsView::Finished(Err(QueryError::ExecutionError(e))),
        RowFetch::Exhausted => RowsView::Finished(Ok(rows)),
        RowFetch::Undecodable(_) => RowsView::Reading(rows),
        RowFetch::Decoded(row) => RowsView::Reading(rows.push(row)),
    }
}

/// Takes one pull into the rows read so far.
pub fn read_row<T>(rows: Vec<T>, fetch: RowFetch<T>) -> (progress: Rows<T>)
    ensures
        progress@ == after_pull(rows@, fetch),
{
    match fetch {
        RowFetch::Failed(e) => Rows::Finished(Err(QueryError::ExecutionError(e))),
        RowFetch::Exhausted => Rows::Finished(Ok(rows)),
        RowFetch::Undecodable(_) => Rows::Reading(rows),
        RowFetch::Decoded(row) => {
            let mut rows = rows;
            rows.push(row);
            Rows::Reading(rows)
        },
    }
}

/// Reading pull by pull gives the rows of the whole: the rows read so far,
/// followed by what a pull and the pulls after it give, are what the reading
/// has after that pull, followed by what the pulls after it give.
pub proof fn law_rows_are_read_pull_by_pull<T>(
    rows: Seq<T>,
    fetch: RowFetch<T>,
    rest: Seq<RowFetch<T>>,
)
    ensures
        continued(rows, collected(seq![fetch] + rest)) == match after_pull(rows, fetch) {
            RowsView::Reading(more) => continued(more, collected(rest)),
            RowsView::Finished(result) => result,
        },
{
    let pulls = seq![fetch] + rest;
    assert(pulls.drop_first() == rest);
    if let (RowFetch::Decoded(row), Ok(more)) = (fetch, collected(rest)) {
        assert(rows + (seq![row] + more) == rows.push(row) + more);
    }
}

/// All rows of a query that decode, from every pull that was made on it.
pub fn all<T>(fetches: Vec<RowFetch<T>>) -> (rows: Result<Vec<T>, QueryError>)
    ensures
        rows_are(rows, collected(fetches@)),
{
    let ghost pulls = fetches@;
    let mut output: Vec<T> = Vec::new();
    assert(pulls.skip(0) == pulls);
    for fetch in it: fetches
        invariant
            it.seq() == pulls,
            collected(pulls) == continued(output@, collected(pulls.skip(it.index() as int))),
    {
        proof {
            let here = pulls.skip(it.index() as int);
            assert(here == seq![fetch] + pulls.skip(it.index() + 1));
            law_rows_are_read_pull_by_pull(output@, fetch, pulls.skip(it.index() + 1));
        }
        match read_row(output, fetch) {
            Rows::Reading(rows) => {
                output = rows;
            },
            Rows::Finished(result) => {
                return result;
            },
        }
    }
    Ok(output)
}

} // verus!
