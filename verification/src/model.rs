//! Statements going out and query results coming back.

use crate::row::{clone_texts, text_views, Row};
use hrana_client::proto::Value;
use vstd::prelude::*;

verus! {

/// A query text with its positional parameters, bound in the order given.
#[derive(Clone, Debug)]
pub struct Statement {
    pub q: String,
    pub params: Vec<Value>,
}

impl Statement {
    /// A statement without parameters.
    pub fn new(q: String) -> (stmt: Statement)
        ensures
            stmt.q@ == q@,
            stmt.params@ == Seq::<Value>::empty(),
    {
        Statement { q, params: Vec::new() }
    }

    /// A statement with the given parameters.
    pub fn with_params(q: String, params: Vec<Value>) -> (stmt: Statement)
        ensures
            stmt.q@ == q@,
            stmt.params@ == params@,
    {
        Statement { q, params }
    }
}

/// Execution metadata of one statement.
#[derive(Clone, Copy, Debug, PartialEq, Eq, Structural)]
pub struct Meta {
    pub duration: u64,
}

impl Meta {
    /// The metadata reported when none is available.
    pub open spec fn empty() -> Meta {
        Meta { duration: 0 }
    }
}

impl Default for Meta {
    fn default() -> (meta: Meta)
        ensures
            meta == Meta::empty(),
    {
        Meta { duration: 0 }
    }
}

/// The rows a statement produced, with the names of their columns.
#[derive(Debug)]
pub struct ResultSet {
    pub columns: Vec<String>,
    pub rows: Vec<Row>,
}

/// What a result set holds: the column names in order, and each row as a
/// mapping from name to value.
pub struct ResultSetView {
    pub columns: Seq<Seq<char>>,
    pub rows: Seq<Map<Seq<char>, Value>>,
}

/// The mappings of a sequence of rows.
pub open spec fn row_views(rows: Seq<Row>) -> Seq<Map<Seq<char>, Value>> {
    rows.map_values(|r: Row| r@)
}

impl View for ResultSet {
    type V = ResultSetView;

    open spec fn view(&self) -> ResultSetView {
        ResultSetView { columns: text_views(self.columns@), rows: row_views(self.rows@) }
    }
}

impl Clone for ResultSet {
    /// A copy with the same columns and the same rows in the same order.
    fn clone(&self) -> (copy: ResultSet)
        ensures
            copy@ == self@,
            self.wf() ==> copy.wf(),
    {
        let columns = clone_texts(&self.columns);
        let mut rows: Vec<Row> = Vec::new();
        let mut i: usize = 0;
        while i < self.rows.len()
            invariant
                i <= self.rows@.len(),
                rows@.len() == i,
                forall|j: int| 0 <= j < i ==> (#[trigger] rows@[j])@ == self.rows@[j]@,
                forall|j: int| 0 <= j < i && self.rows@[j].wf() ==> (#[trigger] rows@[j]).wf(),
            decreases self.rows@.len() - i,
        {
            rows.push(self.rows[i].clone());
            i += 1;
        }
        assert(row_views(rows@) =~= row_views(self.rows@));
        ResultSet { columns, rows }
    }
}

impl ResultSet {
    /// Every row is well formed.
    pub open spec fn wf(&self) -> bool {
        forall|i: int| 0 <= i < self.rows@.len() ==> (#[trigger] self.rows@[i]).wf()
    }
}

/// The outcome of one statement.
#[derive(Debug)]
pub enum QueryResult {
    /// The server rejected the statement, with its message.
    Error((String, Meta)),
    /// The statement ran.
    Success((ResultSet, Meta)),
}

/// What a query result holds.
pub enum QueryResultView {
    Error(Seq<char>, Meta),
    Success(ResultSetView, Meta),
}

impl View for QueryResult {
    type V = QueryResultView;

    open spec fn view(&self) -> QueryResultView {
        match *self {
            QueryResult::Error((message, meta)) => QueryResultView::Error(message@, meta),
            QueryResult::Success((rows, meta)) => QueryResultView::Success(rows@, meta),
        }
    }
}

impl Clone for QueryResult {
    /// A copy with the same outcome.
    fn clone(&self) -> (copy: QueryResult)
        ensures
            copy@ == self@,
            self.wf() ==> copy.wf(),
    {
        match self {
            QueryResult::Error((message, meta)) => QueryResult::Error((message.clone(), *meta)),
            QueryResult::Success((rows, meta)) => QueryResult::Success((rows.clone(), *meta)),
        }
    }
}

impl QueryResult {
    /// A successful result holds well-formed rows.
    pub open spec fn wf(&self) -> bool {
        match *self {
            QueryResult::Error(_) => true,
            QueryResult::Success((rows, _)) => rows.wf(),
        }
    }
}

/// The views of a sequence of query results.
pub open spec fn result_views(results: Seq<QueryResult>) -> Seq<QueryResultView> {
    results.map_values(|r: QueryResult| r@)
}

/// Where to connect, and with which token.
#[derive(Clone, Debug)]
pub struct Config {
    pub url: String,
    pub auth_token: Option<String>,
}

} // verus!
