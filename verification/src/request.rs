//! Request bodies that render a statement and its parameters separately.

pub mod area;
pub mod project;
pub mod query;
pub mod tag;
pub mod task;

use vstd::prelude::*;
use crate::models::request::{QueryMethod, UpdateMethod};
use crate::text::views;
use crate::values::{AsSqlParam, SqlParam};

verus! {

impl<T: AsSqlParam> UpdateMethod<T> {
    /// The value the update binds: the new value, or `NULL` when it clears the field.
    pub open spec fn sql_value(&self) -> SqlParam<'_> {
        match self {
            UpdateMethod::Change(v) => v.param_of(),
            UpdateMethod::Remove => SqlParam::Null,
        }
    }

    /// The value the update binds.
    pub fn to_sql(&self) -> (r: SqlParam<'_>)
        ensures
            r == self.sql_value(),
    {
        match self {
            UpdateMethod::Change(v) => v.as_sql_param(),
            UpdateMethod::Remove => SqlParam::Null,
        }
    }
}

/// The columns after an optional column: listed only when `present`.
pub open spec fn listed_if(columns: Seq<Seq<char>>, column: Seq<char>, present: bool) -> Seq<Seq<char>> {
    if present {
        columns.push(column)
    } else {
        columns
    }
}

/// Lists the column when `present`.
pub fn push_column_if(columns: &mut Vec<String>, column: &str, present: bool)
    ensures
        views(final(columns)@) == listed_if(views(old(columns)@), column@, present),
{
    if present {
        columns.push(column.to_owned());
    }
    assert(views(columns@) =~= listed_if(views(old(columns)@), column@, present));
}

/// The parameters after an optional one.
pub open spec fn pushed_if<'a>(params: Seq<SqlParam<'a>>, param: Option<SqlParam<'a>>) -> Seq<SqlParam<'a>> {
    match param {
        Some(p) => params.push(p),
        None => params,
    }
}

/// The parameter of an optional value.
pub open spec fn value_param<T: AsSqlParam>(value: &Option<T>) -> Option<SqlParam<'_>> {
    match value {
        Some(v) => Some(v.param_of()),
        None => None,
    }
}

/// The parameter of an optional update: its value, or `NULL` when it clears the field.
pub open spec fn update_value_param<T: AsSqlParam>(value: &Option<UpdateMethod<T>>) -> Option<SqlParam<'_>> {
    match value {
        Some(u) => Some(u.sql_value()),
        None => None,
    }
}

/// The parameter of an optional filter, when the filter binds one.
pub open spec fn filter_param<T: AsSqlParam>(value: &Option<QueryMethod<T>>) -> Option<SqlParam<'_>> {
    match value {
        Some(QueryMethod::Match(v)) => Some(v.param_of()),
        Some(QueryMethod::Compare(v, _)) => Some(v.param_of()),
        _ => None,
    }
}

/// The parameter of an optional flag: `stamp` when set, `NULL` when cleared.
pub open spec fn flag_param<'a>(flag: Option<bool>, stamp: SqlParam<'a>) -> Option<SqlParam<'a>> {
    match flag {
        Some(b) => Some(if b { stamp } else { SqlParam::Null }),
        None => None,
    }
}

/// Adds the parameter of an optional value.
pub fn push_value_param<'a, T: AsSqlParam>(params: &mut Vec<SqlParam<'a>>, value: &'a Option<T>)
    ensures
        final(params)@ == pushed_if(old(params)@, value_param(value)),
{
    if let Some(v) = value {
        params.push(v.as_sql_param());
    }
}

/// Adds the parameter of an optional update.
pub fn push_update_value<'a, T: AsSqlParam>(params: &mut Vec<SqlParam<'a>>, value: &'a Option<UpdateMethod<T>>)
    ensures
        final(params)@ == pushed_if(old(params)@, update_value_param(value)),
{
    if let Some(u) = value {
        params.push(u.to_sql());
    }
}

/// Adds the parameter of an optional filter, when it binds one.
pub fn push_filter_param<'a, T: AsSqlParam>(params: &mut Vec<SqlParam<'a>>, value: &'a Option<QueryMethod<T>>)
    ensures
        final(params)@ == pushed_if(old(params)@, filter_param(value)),
{
    if let Some(q) = value {
        if let Some(v) = q.get_param() {
            params.push(v.as_sql_param());
        }
    }
}

/// Adds the parameter of an optional flag.
pub fn push_flag_param<'a>(params: &mut Vec<SqlParam<'a>>, flag: Option<bool>, stamp: SqlParam<'a>)
    ensures
        final(params)@ == pushed_if(old(params)@, flag_param(flag, stamp)),
{
    if let Some(b) = flag {
        if b {
            params.push(stamp);
        } else {
            params.push(SqlParam::Null);
        }
    }
}

/// Whether `column` is listed with `p` as its value: column `i` takes
/// parameter `i + offset`, the parameters before `offset` being bound
/// elsewhere in the statement.
pub open spec fn listed_with<'a>(
    columns: Seq<Seq<char>>,
    params: Seq<SqlParam<'a>>,
    offset: int,
    column: Seq<char>,
    p: SqlParam<'a>,
) -> bool {
    exists|i: int|
        0 <= i < columns.len() && 0 <= i + offset < params.len() && #[trigger] columns[i] == column && params[i
            + offset] == p
}

/// An optional column listed together with its parameter keeps every pair
/// made before, pairs the column with its value when present, and keeps the
/// parameters `offset` ahead of the columns.
pub proof fn lemma_listed_pair<'a>(
    columns: Seq<Seq<char>>,
    params: Seq<SqlParam<'a>>,
    offset: int,
    column: Seq<char>,
    param: Option<SqlParam<'a>>,
    present: bool,
)
    requires
        0 <= offset,
        params.len() == columns.len() + offset,
        present == (param is Some),
    ensures
        pushed_if(params, param).len() == listed_if(columns, column, present).len() + offset,
        listed_if(columns, column, present).len() == columns.len() + if present { 1int } else { 0 },
        forall|c: Seq<char>, p: SqlParam<'a>|
            listed_with(columns, params, offset, c, p) ==> #[trigger] listed_with(
                listed_if(columns, column, present),
                pushed_if(params, param),
                offset,
                c,
                p,
            ),
        param matches Some(p) ==> listed_with(listed_if(columns, column, present), pushed_if(params, param), offset, column, p),
        columns.len() > 0 ==> listed_if(columns, column, present)[0] == columns[0],
        forall|k: int| 0 <= k < params.len() ==> #[trigger] pushed_if(params, param)[k] == params[k],
{
    let c2 = listed_if(columns, column, present);
    let p2 = pushed_if(params, param);
    if let Some(v) = param {
        assert forall|c: Seq<char>, p: SqlParam<'a>| listed_with(columns, params, offset, c, p) implies #[trigger] listed_with(
            c2,
            p2,
            offset,
            c,
            p,
        ) by {
            let i = choose|i: int|
                0 <= i < columns.len() && 0 <= i + offset < params.len() && #[trigger] columns[i] == c && params[i
                    + offset] == p;
            assert(c2[i] == columns[i]);
            assert(p2[i + offset] == params[i + offset]);
        }
        assert(c2[columns.len() as int] == column);
        assert(p2[columns.len() + offset] == v);
    }
}

} // verus!
