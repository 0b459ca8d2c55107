//! Request bodies: what a client may create, change or search for.

pub mod area;
pub mod auth;
pub mod project;
pub mod tag;
pub mod task;

use vstd::prelude::*;
use crate::sql_builder::{PostgresCmp, QueryParts, SQLQueryBuilder, ToPostgresCmp};
use crate::values::{AsSqlParam, SqlParam};

verus! {

/// Paging of query results.
pub struct FilterOptions {
    pub page: Option<usize>,
    pub limit: Option<usize>,
}

impl Default for FilterOptions {
    fn default() -> (r: Self)
        ensures
            r.page == Some(0usize),
            r.limit == Some(25usize),
    {
        Self { page: Some(0), limit: Some(25) }
    }
}

/// A change to one field: clear it (`Remove(true)`), leave it (`Remove(false)`)
/// or set it to a value.
pub enum UpdateMethod<T> {
    Remove(bool),
    Change(T),
}

impl<T: AsSqlParam> UpdateMethod<T> {
    /// Whether the update writes the column (clears it or sets it).
    pub open spec fn writes(&self) -> bool {
        match self {
            UpdateMethod::Remove(b) => *b,
            UpdateMethod::Change(_) => true,
        }
    }

    /// The value that the update writes: `NULL` when it clears the column.
    pub open spec fn param_of(&self) -> SqlParam<'_> {
        match self {
            UpdateMethod::Change(o) => o.param_of(),
            UpdateMethod::Remove(_) => SqlParam::Null,
        }
    }

    /// The value that the update writes.
    pub fn to_sql(&self) -> (r: SqlParam<'_>)
        requires
            self.writes(),
        ensures
            r == self.param_of(),
    {
        match self {
            UpdateMethod::Change(o) => o.as_sql_param(),
            UpdateMethod::Remove(_) => SqlParam::Null,
        }
    }
}

/// Comparisons a query may ask for.
#[derive(Clone, Copy)]
pub enum Compare {
    Equal,
    NotEqual,
    Less,
    LessEq,
    Greater,
    GreaterEq,
}

impl Compare {
    /// The builder operator of the comparison.
    pub open spec fn operator(self) -> PostgresCmp {
        match self {
            Compare::Equal => PostgresCmp::Equal,
            Compare::NotEqual => PostgresCmp::NotEqual,
            Compare::Less => PostgresCmp::Less,
            Compare::LessEq => PostgresCmp::LessEq,
            Compare::Greater => PostgresCmp::Greater,
            Compare::GreaterEq => PostgresCmp::GreaterEq,
        }
    }
}

impl ToPostgresCmp for Compare {
    fn to_postgres_cmp(&self) -> (r: PostgresCmp)
        ensures
            r == self.operator(),
    {
        match self {
            Compare::Equal => PostgresCmp::Equal,
            Compare::NotEqual => PostgresCmp::NotEqual,
            Compare::Less => PostgresCmp::Less,
            Compare::LessEq => PostgresCmp::LessEq,
            Compare::Greater => PostgresCmp::Greater,
            Compare::GreaterEq => PostgresCmp::GreaterEq,
        }
    }
}

/// A filter on one field: present or absent (`NotNull`), equal to or
/// matching a value (`Match`), or compared with a value (`Compare`).
pub enum QueryMethod<T> {
    NotNull(bool),
    Match(T),
    Compare(T, Compare),
}

impl<T: AsSqlParam> QueryMethod<T> {
    /// The value that the filter compares with; `NULL` for presence filters.
    pub open spec fn param_of(&self) -> SqlParam<'_> {
        match self {
            QueryMethod::Match(o) => o.param_of(),
            QueryMethod::Compare(o, _) => o.param_of(),
            QueryMethod::NotNull(_) => SqlParam::Null,
        }
    }

    /// The operator of the filter; `matching` is the one a `Match` uses.
    pub open spec fn operator(&self, matching: PostgresCmp) -> PostgresCmp {
        match self {
            QueryMethod::NotNull(b) => if *b {
                PostgresCmp::NotNull
            } else {
                PostgresCmp::IsNull
            },
            QueryMethod::Match(_) => matching,
            QueryMethod::Compare(_, c) => c.operator(),
        }
    }

    /// The value that the filter compares with.
    pub fn to_sql(&self) -> (r: SqlParam<'_>)
        requires
            !(self is NotNull),
        ensures
            r == self.param_of(),
    {
        self.condition_value()
    }

    fn condition_value(&self) -> (r: SqlParam<'_>)
        ensures
            r == self.param_of(),
    {
        match self {
            QueryMethod::Match(o) => o.as_sql_param(),
            QueryMethod::Compare(o, _) => o.as_sql_param(),
            QueryMethod::NotNull(_) => SqlParam::Null,
        }
    }

    /// Adds the filter on `column` to the builder; `matching` is the
    /// operator a `Match` uses.
    pub fn add_condition_to<'a>(
        &'a self,
        builder: &mut SQLQueryBuilder<SqlParam<'a>>,
        column: &str,
        matching: PostgresCmp,
    )
        ensures
            final(builder)@ == old(builder)@.with_condition(
                column@,
                self.operator(matching),
                self.param_of(),
            ),
    {
        let op = match self {
            QueryMethod::NotNull(b) => {
                if *b {
                    PostgresCmp::NotNull
                } else {
                    PostgresCmp::IsNull
                }
            },
            QueryMethod::Match(_) => matching,
            QueryMethod::Compare(_, c) => c.to_postgres_cmp(),
        };
        builder.add_condition(column, op, self.condition_value());
    }
}

/// The builder after an optional column: unchanged when the value is absent.
pub open spec fn with_optional_column<'a>(
    parts: QueryParts<SqlParam<'a>>,
    column: Seq<char>,
    value: Option<SqlParam<'a>>,
) -> QueryParts<SqlParam<'a>> {
    match value {
        Some(v) => parts.with_column(column, v),
        None => parts,
    }
}

/// The parameter of an optional value.
pub open spec fn optional_param<T: AsSqlParam>(value: &Option<T>) -> Option<SqlParam<'_>> {
    match value {
        Some(v) => Some(v.param_of()),
        None => None,
    }
}

/// The parameter an optional update writes, if it writes one.
pub open spec fn update_param<T: AsSqlParam>(value: &Option<UpdateMethod<T>>) -> Option<SqlParam<'_>> {
    match value {
        Some(u) => if u.writes() {
            Some(u.param_of())
        } else {
            None
        },
        None => None,
    }
}

/// The builder after an optional filter on `column`.
pub open spec fn with_optional_filter<'a, T: AsSqlParam>(
    parts: QueryParts<SqlParam<'a>>,
    column: Seq<char>,
    filter: &'a Option<QueryMethod<T>>,
    matching: PostgresCmp,
) -> QueryParts<SqlParam<'a>> {
    match filter {
        Some(q) => parts.with_condition(column, q.operator(matching), q.param_of()),
        None => parts,
    }
}

/// Adds the value of an optional field as a column.
pub fn add_optional_column<'a, T: AsSqlParam>(
    builder: &mut SQLQueryBuilder<SqlParam<'a>>,
    column: &str,
    value: &'a Option<T>,
)
    ensures
        final(builder)@ == with_optional_column(old(builder)@, column@, optional_param(value)),
{
    if let Some(v) = value {
        builder.add_column(column, v.as_sql_param());
    }
}

/// Adds an optional update as a column, if it writes one.
pub fn add_optional_update<'a, T: AsSqlParam>(
    builder: &mut SQLQueryBuilder<SqlParam<'a>>,
    column: &str,
    value: &'a Option<UpdateMethod<T>>,
)
    ensures
        final(builder)@ == with_optional_column(old(builder)@, column@, update_param(value)),
{
    if let Some(u) = value {
        if matches!(u, UpdateMethod::Remove(true) | UpdateMethod::Change(..)) {
            builder.add_column(column, u.to_sql());
        }
    }
}

/// Adds an optional filter on `column`.
pub fn add_optional_filter<'a, T: AsSqlParam>(
    builder: &mut SQLQueryBuilder<SqlParam<'a>>,
    column: &str,
    filter: &'a Option<QueryMethod<T>>,
    matching: PostgresCmp,
)
    ensures
        final(builder)@ == with_optional_filter(old(builder)@, column@, filter, matching),
{
    if let Some(q) = filter {
        q.add_condition_to(builder, column, matching);
    }
}

/// Whether `q` is `p` with at most `k` more columns and conditions, on the
/// same table and with the same `HAVING` items.
pub open spec fn grows_by<V>(p: QueryParts<V>, q: QueryParts<V>, k: nat) -> bool {
    &&& q.table == p.table
    &&& p.columns.len() <= q.columns.len() <= p.columns.len() + k
    &&& q.conditions.len() <= p.conditions.len() + k
    &&& q.having == p.having
}

/// An optional column adds at most one column.
pub proof fn lemma_optional_column_grows<'a>(
    parts: QueryParts<SqlParam<'a>>,
    column: Seq<char>,
    value: Option<SqlParam<'a>>,
)
    ensures
        grows_by(parts, with_optional_column(parts, column, value), 1),
{
}

/// An optional filter adds at most one condition.
pub proof fn lemma_optional_filter_grows<'a, T: AsSqlParam>(
    parts: QueryParts<SqlParam<'a>>,
    column: Seq<char>,
    filter: &'a Option<QueryMethod<T>>,
    matching: PostgresCmp,
)
    ensures
        grows_by(parts, with_optional_filter(parts, column, filter, matching), 1),
{
}

/// Whether every condition from index `n` on whose operator binds a value
/// carries a compared value, never the `NULL` that a presence filter holds.
pub open spec fn binds_compared_values<'a>(p: QueryParts<SqlParam<'a>>, n: int) -> bool {
    forall|k: int|
        0 <= k && n <= k < p.conditions.len() && (#[trigger] p.conditions[k]).1.binds() ==> !(p.conditions[k].2 is Null)
}

/// Whether `q` holds the conditions of `p` in front, as they were.
pub open spec fn keeps_conditions<V>(p: QueryParts<V>, q: QueryParts<V>) -> bool {
    &&& p.conditions.len() <= q.conditions.len()
    &&& forall|k: int| 0 <= k < p.conditions.len() ==> #[trigger] q.conditions[k] == p.conditions[k]
}

/// Whether `q` holds the columns of `p` in front, as they were.
pub open spec fn keeps_columns<V>(p: QueryParts<V>, q: QueryParts<V>) -> bool {
    &&& p.columns.len() <= q.columns.len()
    &&& forall|k: int| 0 <= k < p.columns.len() ==> #[trigger] q.columns[k] == p.columns[k]
}

/// Whether a filter that compares a value compares one that is not `NULL`.
pub open spec fn compares_value<T: AsSqlParam>(filter: &Option<QueryMethod<T>>) -> bool {
    match filter {
        Some(q) => !(q is NotNull) ==> !(q.param_of() is Null),
        None => true,
    }
}

/// A filter binds a value exactly when it compares one: a presence filter
/// (`NotNull`) gets an operator that binds nothing, so its `NULL` never
/// becomes a parameter.
pub proof fn law_presence_filter_binds_nothing<T: AsSqlParam>(q: &QueryMethod<T>, matching: PostgresCmp)
    requires
        matching.binds(),
    ensures
        q.operator(matching).binds() == !(q is NotNull),
{
}

/// An optional filter keeps the conditions before it, and binds only a
/// compared value.
pub proof fn lemma_optional_filter_binds_compared<'a, T: AsSqlParam>(
    parts: QueryParts<SqlParam<'a>>,
    column: Seq<char>,
    filter: &'a Option<QueryMethod<T>>,
    matching: PostgresCmp,
    n: int,
)
    requires
        binds_compared_values(parts, n),
        matching.binds(),
        compares_value(filter),
    ensures
        binds_compared_values(with_optional_filter(parts, column, filter, matching), n),
        keeps_conditions(parts, with_optional_filter(parts, column, filter, matching)),
{
    if let Some(q) = filter {
        let r = with_optional_filter(parts, column, filter, matching);
        assert forall|k: int| 0 <= k && n <= k < r.conditions.len() && (#[trigger] r.conditions[k]).1.binds() implies !(
        r.conditions[k].2 is Null) by {
            if k < parts.conditions.len() {
                assert(r.conditions[k] == parts.conditions[k]);
            } else {
                assert(r.conditions[k] == (column, q.operator(matching), q.param_of()));
            }
        }
    }
}

/// An optional column keeps the columns before it.
pub proof fn lemma_optional_column_keeps<'a>(
    parts: QueryParts<SqlParam<'a>>,
    column: Seq<char>,
    value: Option<SqlParam<'a>>,
)
    ensures
        keeps_columns(parts, with_optional_column(parts, column, value)),
{
}

/// Request bodies that fill in a statement.
pub trait AddToQuery<'a> {
    /// The builder after the body has been added.
    spec fn query_added(&'a self, parts: QueryParts<SqlParam<'a>>) -> QueryParts<SqlParam<'a>>;

    /// Whether the body can be added to a builder in this state.
    spec fn can_add(&'a self, parts: QueryParts<SqlParam<'a>>) -> bool;

    /// The body sets a named table, adds at most a few columns and
    /// conditions, and leaves the `HAVING` items as they are.
    proof fn lemma_query_added(&'a self, parts: QueryParts<SqlParam<'a>>)
        ensures
            self.query_added(parts).table.len() > 0,
            self.query_added(parts).columns.len() <= parts.columns.len() + 16,
            self.query_added(parts).conditions.len() <= parts.conditions.len() + 16,
            self.query_added(parts).having == parts.having,
    ;

    fn add_to_query(&'a self, builder: &mut SQLQueryBuilder<SqlParam<'a>>)
        requires
            self.can_add(old(builder)@),
        ensures
            final(builder)@ == self.query_added(old(builder)@),
    ;
}

/// Every comparison a query may ask for is a binary operator that binds its
/// value, so the builder can always render it.
pub proof fn law_compare_is_binary(c: Compare)
    ensures
        c.operator().is_basic(),
        c.operator().binds(),
{
}

/// An update that keeps the field (`Remove(false)`) writes no column; one
/// that clears it (`Remove(true)`) writes `NULL`.
pub proof fn law_keep_writes_nothing<'a, T: AsSqlParam>(
    parts: QueryParts<SqlParam<'a>>,
    column: Seq<char>,
    keep: &'a Option<UpdateMethod<T>>,
    clear: &'a Option<UpdateMethod<T>>,
)
    requires
        *keep == Some(UpdateMethod::<T>::Remove(false)),
        *clear == Some(UpdateMethod::<T>::Remove(true)),
    ensures
        with_optional_column(parts, column, update_param(keep)) == parts,
        with_optional_column(parts, column, update_param(clear)) == parts.with_column(column, SqlParam::Null),
{
}

/// How many columns an optional update writes: one when it sets or clears
/// the field, none when it keeps it or is absent.
pub open spec fn writes_count<T>(value: &Option<UpdateMethod<T>>) -> int {
    match value {
        Some(UpdateMethod::Change(_)) => 1,
        Some(UpdateMethod::Remove(true)) => 1,
        _ => 0,
    }
}

/// An optional column keeps the columns before it in place and the
/// conditions as they are, adds its column with its value when present, and
/// adds one column exactly when present.
pub proof fn lemma_column_added<'a>(parts: QueryParts<SqlParam<'a>>, column: Seq<char>, value: Option<SqlParam<'a>>)
    ensures
        keeps_columns(parts, with_optional_column(parts, column, value)),
        forall|x: (Seq<char>, SqlParam<'a>)|
            parts.columns.contains(x) ==> #[trigger] with_optional_column(parts, column, value).columns.contains(x),
        value matches Some(v) ==> with_optional_column(parts, column, value).columns.contains((column, v)),
        with_optional_column(parts, column, value).columns.len() == parts.columns.len() + if value is Some {
            1int
        } else {
            0
        },
        with_optional_column(parts, column, value).conditions == parts.conditions,
{
    let r = with_optional_column(parts, column, value);
    assert forall|x: (Seq<char>, SqlParam<'a>)| parts.columns.contains(x) implies #[trigger] r.columns.contains(x) by {
        let i = choose|i: int| 0 <= i < parts.columns.len() && parts.columns[i] == x;
        assert(r.columns[i] == parts.columns[i]);
    }
    if let Some(v) = value {
        assert(r.columns[parts.columns.len() as int] == (column, v));
    }
}

/// An optional filter keeps the conditions before it and the columns as
/// they are, adds its condition when present, and adds one condition
/// exactly when present.
pub proof fn lemma_filter_added<'a, T: AsSqlParam>(
    parts: QueryParts<SqlParam<'a>>,
    column: Seq<char>,
    filter: &'a Option<QueryMethod<T>>,
    matching: PostgresCmp,
)
    ensures
        forall|x: (Seq<char>, PostgresCmp, SqlParam<'a>)|
            parts.conditions.contains(x) ==> #[trigger] with_optional_filter(
                parts,
                column,
                filter,
                matching,
            ).conditions.contains(x),
        filter is Some ==> with_optional_filter(parts, column, filter, matching).conditions.contains(
            (column, filter.unwrap().operator(matching), filter.unwrap().param_of()),
        ),
        with_optional_filter(parts, column, filter, matching).conditions.len() == parts.conditions.len()
            + if filter is Some {
            1int
        } else {
            0
        },
        with_optional_filter(parts, column, filter, matching).columns == parts.columns,
{
    let r = with_optional_filter(parts, column, filter, matching);
    assert forall|x: (Seq<char>, PostgresCmp, SqlParam<'a>)| parts.conditions.contains(x) implies #[trigger] r.conditions.contains(
        x,
    ) by {
        let i = choose|i: int| 0 <= i < parts.conditions.len() && parts.conditions[i] == x;
        assert(r.conditions[i] == parts.conditions[i]);
    }
    if let Some(q) = filter {
        assert(r.conditions[parts.conditions.len() as int] == (column, q.operator(matching), q.param_of()));
    }
}

} // verus!
