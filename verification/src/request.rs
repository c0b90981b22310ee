//! The request model: discrimination of the incoming payload into the two
//! recognized query shapes, and the execution-mode flag.

use vstd::prelude::*;
use crate::value::JsonValue;

verus! {

/// An incoming query: a plain statement, or a statement with positional
/// parameters.
pub enum Query {
    Simple(String),
    Prepared(String, Vec<JsonValue>),
}

/// The payload matched neither recognized query shape.
#[derive(Clone, Copy, PartialEq, Eq, Structural, Debug)]
pub struct ShapeError;

/// Discriminates the payload structurally: a string is a `Simple` query; a
/// 2-element array of a string and an array is a `Prepared` query; nothing
/// else is valid.
pub fn parse_query(payload: JsonValue) -> (r: Result<Query, ShapeError>)
    ensures
        payload matches JsonValue::Text(s) ==> r == Ok::<Query, ShapeError>(Query::Simple(s)),
        payload matches JsonValue::Arr(items) ==> {
            if items@.len() == 2 && items@[0] is Text && items@[1] is Arr {
                r == Ok::<Query, ShapeError>(
                    Query::Prepared(items@[0]->Text_0, items@[1]->Arr_0),
                )
            } else {
                r is Err
            }
        },
        !(payload is Text) && !(payload is Arr) ==> r is Err,
{
    match payload {
        JsonValue::Text(s) => Ok(Query::Simple(s)),
        JsonValue::Arr(items) => {
            if items.len() == 2 {
                let mut items = items;
                let second = items.pop().unwrap();
                let first = items.pop().unwrap();
                match (first, second) {
                    (JsonValue::Text(stmt), JsonValue::Arr(ps)) => Ok(Query::Prepared(stmt, ps)),
                    _ => Err(ShapeError),
                }
            } else {
                Err(ShapeError)
            }
        },
        _ => Err(ShapeError),
    }
}

/// The execution mode: the caller is handed the generated identifier only
/// when the mode flag is exactly boolean true; its absence or any other
/// value selects row-set mode.
pub fn want_id(flag: Option<bool>) -> (r: bool)
    ensures
        r == (flag == Some(true)),
{
    match flag {
        Some(b) => b,
        None => false,
    }
}

} // verus!
