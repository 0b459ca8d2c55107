//! Database rows of the service and the responses built from them.

pub mod area;
pub mod auth;
pub mod project;
pub mod tag;
pub mod task;

use vstd::prelude::*;

verus! {

/// A database row that has a form to send back to clients.
pub trait ToResponse {
    type Response;

    fn to_response(&self) -> Self::Response;
}

/// The text of an optional value, or the empty text when there is none.
pub open spec fn text_or_empty(value: Option<String>) -> Seq<char> {
    match value {
        Some(s) => s@,
        None => Seq::empty(),
    }
}

/// A copy of the optional text, or the empty text when there is none.
pub fn owned_text_or_empty(value: &Option<String>) -> (r: String)
    ensures
        r@ == text_or_empty(*value),
{
    match value {
        Some(s) => s.clone(),
        None => String::new(),
    }
}

} // verus!
