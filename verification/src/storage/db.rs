//! The traits of request bodies that render statements.

use vstd::prelude::*;
use crate::error::Error;
use crate::values::{SqlParam, Uuid};

verus! {

/// Rows that the database hands back for a request.
pub trait DBModel {}

/// A request body that renders one statement with its parameters.
pub trait DBQuery {
    /// Whether the body holds what the statement needs.
    spec fn query_ready(&self) -> bool;

    /// The statement's text.
    spec fn query_text(&self) -> Seq<char>;

    /// The statement's parameters, in order.
    spec fn query_params(&self) -> Seq<SqlParam<'_>>;

    fn get_query(&self) -> (r: (String, Vec<SqlParam<'_>>))
        requires
            self.query_ready(),
        ensures
            r.0@ == self.query_text(),
            r.1@ == self.query_params(),
    ;
}

/// A request body that renders a second statement on the row that the
/// first one touched, identified by `uuid`.
pub trait DBSubquery {
    /// Whether the body holds what the second statement needs.
    spec fn subquery_ready(&self) -> bool;

    /// The second statement's text.
    spec fn subquery_text(&self) -> Seq<char>;

    /// The second statement's parameters, in order.
    spec fn subquery_params<'a>(&'a self, uuid: &'a Uuid) -> Seq<SqlParam<'a>>;

    fn get_subquery<'a>(&'a self, uuid: &'a Uuid) -> (r: (String, Vec<SqlParam<'a>>))
        requires
            self.subquery_ready(),
        ensures
            r.0@ == self.subquery_text(),
            r.1@ == self.subquery_params(uuid),
    ;
}

/// What a delete of one row reports, given how many rows went: whether the
/// row was there; more than one is the service's fault.
pub fn delete_outcome(deleted: u64) -> (r: Result<bool, Error>)
    ensures
        deleted == 0 ==> r == Ok::<bool, Error>(false),
        deleted == 1 ==> r == Ok::<bool, Error>(true),
        deleted > 1 ==> (r matches Err(Error::Internal(m)) && m@ == "more than one row deleted"@),
{
    match deleted {
        0 => Ok(false),
        1 => Ok(true),
        _ => Err(Error::Internal("more than one row deleted".to_owned())),
    }
}

} // verus!
