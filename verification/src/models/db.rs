//! Database rows and the numbering of statement parameters.

pub mod area;
pub mod tag;
pub mod task;

pub use area::AreaModel;
pub use tag::TagModel;
pub use task::{TaskModel, TaskTagModel};

use std::ops::RangeInclusive;
use vstd::prelude::*;
use crate::text::{decimal, push_decimal, views};

verus! {

/// The placeholders `$start`, `$start+1`, ... of `count` parameters.
pub open spec fn placeholder_texts(start: nat, count: nat) -> Seq<Seq<char>> {
    Seq::new(count, |i: int| "$"@ + decimal((start + i) as nat))
}

/// The placeholders of the parameters numbered by a range: none when the range is empty.
pub open spec fn range_placeholders(range: RangeInclusive<usize>) -> Seq<Seq<char>> {
    if range@.exhausted || range@.start > range@.end {
        Seq::empty()
    } else {
        placeholder_texts(range@.start as nat, (range@.end - range@.start + 1) as nat)
    }
}

/// One placeholder `$n`.
pub fn placeholder(n: usize) -> (r: String)
    ensures
        r@ == "$"@ + decimal(n as nat),
{
    let mut s = String::new();
    s.append("$");
    push_decimal(&mut s, n);
    s
}

/// The placeholders of the parameters numbered by the range, in order.
pub fn parameter_values(range: RangeInclusive<usize>) -> (r: Vec<String>)
    ensures
        views(r@) == range_placeholders(range),
{
    let ghost whole = range;
    let mut r: Vec<String> = Vec::new();
    if range.is_empty() {
        assert(views(r@) =~= Seq::empty());
        return r;
    }
    let (start, end) = range.into_inner();
    assert(start <= end);
    let mut n = start;
    loop
        invariant_except_break
            start <= n <= end,
            r.len() == n - start,
            views(r@) == placeholder_texts(start as nat, (n - start) as nat),
        ensures
            views(r@) == placeholder_texts(start as nat, (end - start + 1) as nat),
        decreases end - n,
    {
        let ghost before = r@;
        assert(views(before) == placeholder_texts(start as nat, (n - start) as nat));
        r.push(placeholder(n));
        proof {
            let texts = placeholder_texts(start as nat, (n - start + 1) as nat);
            assert(texts[n - start] == "$"@ + decimal(n as nat));
            assert forall|k: int| 0 <= k < n - start implies views(r@)[k] == texts[k] by {
                assert(r@[k] == before[k]);
                assert(views(before)[k] == placeholder_texts(start as nat, (n - start) as nat)[k]);
            }
            assert(views(r@) =~= texts);
        }
        if n == end {
            break;
        }
        n = n + 1;
    }
    r
}

} // verus!
