pub mod laws;
pub mod lexer;
pub mod query;
pub mod query_parser;
pub mod wire;

pub use self::query::Query;
pub use self::query_parser::QueryParser;

use vstd::prelude::*;

use self::wire::{decimal, decimal_string, wire};
use crate::error::ServiceError;

verus! {

/// The number of results asked of the search engine per query.
pub const QUERY_LIMIT: u32 = 25;

/// The HTTP status by which the search engine acknowledges an insert.
pub const STATUS_CREATED: u16 = 201;

/// A search request as the user sent it.
pub struct Search {
    pub q: String,
}

/// The body of a query request: the compiled query and the page size.
pub fn query_payload(q: &Query) -> (r: String)
    ensures
        r@ == "{\"query\":"@ + wire(q@) + ",\"limit\":"@ + decimal(QUERY_LIMIT as nat) + "}"@,
{
    let mut r = String::from_str("{\"query\":");
    r.append(q.to_json().as_str());
    r.append(",\"limit\":");
    r.append(decimal_string(QUERY_LIMIT as u64).as_str());
    r.append("}");
    r
}

/// The body of an insert request around the document's JSON text; the
/// insert is committed at once.
pub fn insert_payload(document: &str) -> (r: String)
    ensures
        r@ == "{\"options\":{\"commit\":true},\"document\":"@ + document@ + "}"@,
{
    let mut r = String::from_str("{\"options\":{\"commit\":true},\"document\":");
    r.append(document);
    r.append("}");
    r
}

/// What the status of an insert response means: `201 Created` is success,
/// any other status an internal error.
pub fn insert_outcome(status: u16) -> (r: Result<(), ServiceError>)
    ensures
        status == STATUS_CREATED ==> r is Ok,
        status != STATUS_CREATED ==> r matches Err(ServiceError::InternalServerError),
{
    if status == STATUS_CREATED {
        Ok(())
    } else {
        Err(ServiceError::InternalServerError)
    }
}

/// The part of a query response to decode: an empty body stands for an
/// empty result set and is not decoded.
pub fn results_body(body: &[u8]) -> (r: Option<&[u8]>)
    ensures
        body@.len() == 0 ==> r is None,
        body@.len() > 0 ==> r == Some(body),
{
    if body.len() == 0 {
        None
    } else {
        Some(body)
    }
}

} // verus!
