//! Bodies of the area requests.

use vstd::prelude::*;
use crate::model::area::AreaModel;
use crate::schema::{
    lemma_column_added, lemma_filter_added, writes_count,
    AddToQuery, QueryMethod, UpdateMethod, add_optional_column, add_optional_filter,
    add_optional_update, optional_param, update_param, with_optional_column, with_optional_filter,
};
use crate::sql_builder::{PostgresCmp, QueryParts, SQLQueryBuilder};
use crate::values::SqlParam;

verus! {

/// The fields of a new area.
pub struct CreateAreaSchema {
    pub name: Option<String>,
    pub icon_url: Option<String>,
}

impl<'a> AddToQuery<'a> for CreateAreaSchema {
    open spec fn query_added(&'a self, parts: QueryParts<SqlParam<'a>>) -> QueryParts<SqlParam<'a>> {
        with_optional_column(
            with_optional_column(
                parts.with_table(AreaModel::TABLE@),
                AreaModel::NAME@,
                optional_param(&self.name),
            ),
            AreaModel::ICON_URL@,
            optional_param(&self.icon_url),
        )
    }

    open spec fn can_add(&'a self, parts: QueryParts<SqlParam<'a>>) -> bool {
        true
    }

    proof fn lemma_query_added(&'a self, parts: QueryParts<SqlParam<'a>>) {
        reveal_strlit("data.areas");
    }

    fn add_to_query(&'a self, builder: &mut SQLQueryBuilder<SqlParam<'a>>) {
        builder.set_table(AreaModel::TABLE);
        add_optional_column(builder, AreaModel::NAME, &self.name);
        add_optional_column(builder, AreaModel::ICON_URL, &self.icon_url);
    }
}

/// Changes to an area.
pub struct UpdateAreaSchema {
    pub name: Option<UpdateMethod<String>>,
    pub icon_url: Option<UpdateMethod<String>>,
}

impl<'a> AddToQuery<'a> for UpdateAreaSchema {
    open spec fn query_added(&'a self, parts: QueryParts<SqlParam<'a>>) -> QueryParts<SqlParam<'a>> {
        with_optional_column(
            with_optional_column(
                parts.with_table(AreaModel::TABLE@),
                AreaModel::NAME@,
                update_param(&self.name),
            ),
            AreaModel::ICON_URL@,
            update_param(&self.icon_url),
        )
    }

    open spec fn can_add(&'a self, parts: QueryParts<SqlParam<'a>>) -> bool {
        true
    }

    proof fn lemma_query_added(&'a self, parts: QueryParts<SqlParam<'a>>) {
        reveal_strlit("data.areas");
    }

    fn add_to_query(&'a self, builder: &mut SQLQueryBuilder<SqlParam<'a>>) {
        builder.set_table(AreaModel::TABLE);
        add_optional_update(builder, AreaModel::NAME, &self.name);
        add_optional_update(builder, AreaModel::ICON_URL, &self.icon_url);
    }
}

/// A search for areas.
pub struct QueryAreaSchema {
    pub name: Option<QueryMethod<String>>,
}

impl<'a> AddToQuery<'a> for QueryAreaSchema {
    open spec fn query_added(&'a self, parts: QueryParts<SqlParam<'a>>) -> QueryParts<SqlParam<'a>> {
        with_optional_filter(
            parts.with_table(AreaModel::TABLE@),
            AreaModel::NAME@,
            &self.name,
            PostgresCmp::Like,
        )
    }

    open spec fn can_add(&'a self, parts: QueryParts<SqlParam<'a>>) -> bool {
        true
    }

    proof fn lemma_query_added(&'a self, parts: QueryParts<SqlParam<'a>>) {
        reveal_strlit("data.areas");
    }

    fn add_to_query(&'a self, builder: &mut SQLQueryBuilder<SqlParam<'a>>) {
        builder.set_table(AreaModel::TABLE);
        add_optional_filter(builder, AreaModel::NAME, &self.name, PostgresCmp::Like);
    }
}

/// The body of a new area adds, to the columns already there, one column
/// for each field given, under that field's own column with its value, and
/// no other column; it adds no condition.
pub proof fn law_create_adds_every_field<'a>(s: &'a CreateAreaSchema, parts: QueryParts<SqlParam<'a>>)
    ensures
        s.query_added(parts).columns.len() == parts.columns.len() + (if s.name is Some { 1int } else { 0 }) + (if s.icon_url is Some { 1int } else { 0 }),
        forall|x: (Seq<char>, SqlParam<'a>)| parts.columns.contains(x) ==> #[trigger] s.query_added(parts).columns.contains(x),
        s.query_added(parts).conditions == parts.conditions,
        s.name matches Some(v) ==> s.query_added(parts).columns.contains((AreaModel::NAME@, SqlParam::Text(&v))),
        s.icon_url matches Some(v) ==> s.query_added(parts).columns.contains((AreaModel::ICON_URL@, SqlParam::Text(&v))),
{
    let p = parts.with_table(AreaModel::TABLE@);
    lemma_column_added(p, AreaModel::NAME@, optional_param(&s.name));
    let p = with_optional_column(p, AreaModel::NAME@, optional_param(&s.name));
    lemma_column_added(p, AreaModel::ICON_URL@, optional_param(&s.icon_url));
    let p = with_optional_column(p, AreaModel::ICON_URL@, optional_param(&s.icon_url));
    assert(s.query_added(parts) == p);
}

/// The body of a change to a area adds, to the columns already there, one
/// column for each field it sets or clears, under that field's own column:
/// the new value for a field set, `NULL` for a field cleared, and nothing
/// for a field kept; a flag set takes the value of the first column already
/// there, a flag cleared `NULL`. It adds no condition.
pub proof fn law_update_writes_every_change<'a>(s: &'a UpdateAreaSchema, parts: QueryParts<SqlParam<'a>>)
    ensures
        s.query_added(parts).columns.len() == parts.columns.len() + writes_count(&s.name) + writes_count(&s.icon_url),
        forall|x: (Seq<char>, SqlParam<'a>)| parts.columns.contains(x) ==> #[trigger] s.query_added(parts).columns.contains(x),
        s.query_added(parts).conditions == parts.conditions,
        s.name matches Some(UpdateMethod::Change(v)) ==> s.query_added(parts).columns.contains((AreaModel::NAME@, SqlParam::Text(&v))),
        s.name == Some(UpdateMethod::<String>::Remove(true)) ==> s.query_added(parts).columns.contains((AreaModel::NAME@, SqlParam::Null)),
        s.icon_url matches Some(UpdateMethod::Change(v)) ==> s.query_added(parts).columns.contains((AreaModel::ICON_URL@, SqlParam::Text(&v))),
        s.icon_url == Some(UpdateMethod::<String>::Remove(true)) ==> s.query_added(parts).columns.contains((AreaModel::ICON_URL@, SqlParam::Null)),
{
    let p = parts.with_table(AreaModel::TABLE@);
    lemma_column_added(p, AreaModel::NAME@, update_param(&s.name));
    let p = with_optional_column(p, AreaModel::NAME@, update_param(&s.name));
    lemma_column_added(p, AreaModel::ICON_URL@, update_param(&s.icon_url));
    let p = with_optional_column(p, AreaModel::ICON_URL@, update_param(&s.icon_url));
    assert(s.query_added(parts) == p);
}

/// A search for areas adds, to the conditions already there, one condition
/// for each filter given, on that field's own column: a match or a
/// comparison with the value given, or a test for a set or unset column;
/// and no other condition. It adds no column.
pub proof fn law_query_filters_every_field<'a>(s: &'a QueryAreaSchema, parts: QueryParts<SqlParam<'a>>)
    ensures
        s.query_added(parts).conditions.len() == parts.conditions.len() + (if s.name is Some { 1int } else { 0 }),
        forall|x: (Seq<char>, PostgresCmp, SqlParam<'a>)| parts.conditions.contains(x) ==> #[trigger] s.query_added(parts).conditions.contains(x),
        s.query_added(parts).columns == parts.columns,
        s.name matches Some(QueryMethod::Match(v)) ==> s.query_added(parts).conditions.contains((AreaModel::NAME@, PostgresCmp::Like, SqlParam::Text(&v))),
        s.name matches Some(QueryMethod::Compare(v, k)) ==> s.query_added(parts).conditions.contains((AreaModel::NAME@, k.operator(), SqlParam::Text(&v))),
        s.name == Some(QueryMethod::<String>::NotNull(true)) ==> s.query_added(parts).conditions.contains((AreaModel::NAME@, PostgresCmp::NotNull, SqlParam::Null)),
        s.name == Some(QueryMethod::<String>::NotNull(false)) ==> s.query_added(parts).conditions.contains((AreaModel::NAME@, PostgresCmp::IsNull, SqlParam::Null)),
{
    let p = parts.with_table(AreaModel::TABLE@);
    lemma_filter_added(p, AreaModel::NAME@, &s.name, PostgresCmp::Like);
    let p = with_optional_filter(p, AreaModel::NAME@, &s.name, PostgresCmp::Like);
    assert(s.query_added(parts) == p);
}

} // verus!
