//! The executor's decision logic: which statement form to run, and how the
//! store's reply is shaped into a result. The collaborator performs the
//! connection acquisition and the statement execution and hands the outcome
//! back as a plain value.

use vstd::prelude::*;
use crate::codec::convert_params;
use crate::codec::decode_row_spec;
use crate::codec::decode_rows;
use crate::codec::encode_spec;
use crate::codec::RowMap;
use crate::relational::RelationalValue;
use crate::request::Query;

verus! {

/// What the collaborator must execute: the statement text, the encoded
/// positional parameters (absent for a simple statement, which runs over
/// the text protocol), and the mode.
pub struct Plan {
    pub statement: String,
    pub parameters: Option<Vec<RelationalValue>>,
    pub want_id: bool,
}

/// The outcome the collaborator hands back: a terminal failure from
/// connection acquisition or from statement execution, or the store's
/// last-generated identifier, or the raw result rows.
pub enum StoreReply {
    ConnFailed(String),
    StmtFailed(String),
    Id(Option<u64>),
    Rows(Vec<Vec<(String, RelationalValue)>>),
}

/// The shaped result of one execution: exactly one variant, selected solely
/// by the execution mode.
pub enum QueryResult {
    Id(Option<u64>),
    Rows(Vec<RowMap>),
}

/// A normalized failure: the pool yielded no usable connection, or the
/// statement failed to prepare, bind, or execute.
pub enum Failure {
    Connection(String),
    Query(String),
}

impl Failure {
    /// The fixed prefix identifying the failure class in the log.
    pub fn prefix(&self) -> (r: &'static str)
        ensures
            self is Connection ==> r@ == "MySQL connection error"@,
            self is Query ==> r@ == "MySQL query error"@,
    {
        match self {
            Failure::Connection(_) => "MySQL connection error",
            Failure::Query(_) => "MySQL query error",
        }
    }

    /// The underlying message, surfaced verbatim.
    pub fn message(self) -> (r: String)
        ensures
            self matches Failure::Connection(m) ==> r == m,
            self matches Failure::Query(m) ==> r == m,
    {
        match self {
            Failure::Connection(m) => m,
            Failure::Query(m) => m,
        }
    }
}

/// Plans one execution: keeps the statement text and the mode, and encodes
/// the parameters positionally and in order when the query is prepared.
pub fn plan_query(q: Query, want_id: bool) -> (p: Plan)
    ensures
        p.want_id == want_id,
        q matches Query::Simple(stmt) ==> p.statement == stmt && p.parameters is None,
        q matches Query::Prepared(stmt, params) ==> p.statement == stmt && (
        p.parameters matches Some(encoded) && encoded@.len() == params@.len() && forall|i: int|
            0 <= i < params@.len() ==> encoded@[i]@ == encode_spec(params@[i])),
{
    match q {
        Query::Simple(statement) => Plan { statement, parameters: None, want_id },
        Query::Prepared(statement, params) => Plan {
            statement,
            parameters: Some(convert_params(params)),
            want_id,
        },
    }
}

/// Shapes the store's reply into the result for the selected mode: failures
/// are normalized and terminal; identifier mode wraps the identifier (absent
/// when the statement generated none); row mode decodes every row, in row
/// order, even when there are none.
pub fn assemble_result(want_id: bool, reply: StoreReply) -> (r: Result<QueryResult, Failure>)
    requires
        want_id ==> !(reply is Rows),
        !want_id ==> !(reply is Id),
    ensures
        reply matches StoreReply::ConnFailed(m) ==> r == Err::<QueryResult, Failure>(
            Failure::Connection(m),
        ),
        reply matches StoreReply::StmtFailed(m) ==> r == Err::<QueryResult, Failure>(
            Failure::Query(m),
        ),
        reply matches StoreReply::Id(id) ==> r == Ok::<QueryResult, Failure>(QueryResult::Id(id)),
        reply matches StoreReply::Rows(rows) ==> (r matches Ok(qr) && (
        qr matches QueryResult::Rows(maps) && maps@.len() == rows@.len() && forall|i: int|
            0 <= i < rows@.len() ==> #[trigger] maps@[i]@ == decode_row_spec(rows@[i]@))),
        want_id && r is Ok ==> r->Ok_0 is Id,
        !want_id && r is Ok ==> r->Ok_0 is Rows,
        r is Err <==> (reply is ConnFailed || reply is StmtFailed),
{
    match reply {
        StoreReply::ConnFailed(m) => Err(Failure::Connection(m)),
        StoreReply::StmtFailed(m) => Err(Failure::Query(m)),
        StoreReply::Id(id) => Ok(QueryResult::Id(id)),
        StoreReply::Rows(rows) => Ok(QueryResult::Rows(decode_rows(&rows))),
    }
}

} // verus!
