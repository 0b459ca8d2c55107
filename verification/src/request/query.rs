//! Numbered parameters and bodies that render statements.

use vstd::prelude::*;
use crate::models::db::{parameter_values, range_placeholders};
use crate::text::{joined, push_joined};
use crate::values::SqlParam;
use std::ops::RangeInclusive;

pub use crate::models::request::{CmpFlag, QueryMethod};

verus! {

/// The placeholders of the parameters numbered by the range, joined by commas.
pub fn parameter_string(range: RangeInclusive<usize>) -> (r: String)
    ensures
        r@ == joined(range_placeholders(range), ","@),
{
    let values = parameter_values(range);
    let mut s = String::new();
    push_joined(&mut s, &values, ",");
    s
}

/// A body that renders a statement and, separately, its parameters.
pub trait ToQuery {
    /// Whether the statement can be rendered.
    spec fn statement_ready(&self) -> bool;

    /// Whether the body holds what the parameters need.
    spec fn params_ready(&self) -> bool;

    /// The statement's text.
    spec fn statement_text(&self) -> Seq<char>;

    /// The statement's parameters, in order.
    spec fn params_of(&self) -> Seq<SqlParam<'_>>;

    fn statement(&self) -> (r: String)
        requires
            self.statement_ready(),
        ensures
            r@ == self.statement_text(),
    ;

    fn params(&self) -> (r: Vec<SqlParam<'_>>)
        requires
            self.params_ready(),
        ensures
            r@ == self.params_of(),
    ;
}

} // verus!
