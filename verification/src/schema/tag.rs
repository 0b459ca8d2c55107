//! Bodies of the tag requests.

use vstd::prelude::*;
use crate::model::tag::TagModel;
use crate::schema::{
    lemma_column_added, lemma_filter_added, writes_count,
    AddToQuery, QueryMethod, UpdateMethod, add_optional_column, add_optional_filter,
    add_optional_update, optional_param, update_param, with_optional_column, with_optional_filter,
};
use crate::sql_builder::{PostgresCmp, QueryParts, SQLQueryBuilder};
use crate::values::SqlParam;

verus! {

/// The fields of a new tag.
pub struct CreateTagSchema {
    pub label: Option<String>,
    pub category: Option<String>,
    pub color: Option<String>,
}

impl<'a> AddToQuery<'a> for CreateTagSchema {
    open spec fn query_added(&'a self, parts: QueryParts<SqlParam<'a>>) -> QueryParts<SqlParam<'a>> {
        let p = parts.with_table(TagModel::TABLE@);
        let p = with_optional_column(p, TagModel::LABEL@, optional_param(&self.label));
        let p = with_optional_column(p, TagModel::CATEGORY@, optional_param(&self.category));
        with_optional_column(p, TagModel::COLOR@, optional_param(&self.color))
    }

    open spec fn can_add(&'a self, parts: QueryParts<SqlParam<'a>>) -> bool {
        true
    }

    proof fn lemma_query_added(&'a self, parts: QueryParts<SqlParam<'a>>) {
        reveal_strlit("data.tags");
    }

    fn add_to_query(&'a self, builder: &mut SQLQueryBuilder<SqlParam<'a>>) {
        builder.set_table(TagModel::TABLE);
        add_optional_column(builder, TagModel::LABEL, &self.label);
        add_optional_column(builder, TagModel::CATEGORY, &self.category);
        add_optional_column(builder, TagModel::COLOR, &self.color);
    }
}

/// Changes to a tag.
pub struct UpdateTagSchema {
    pub label: Option<UpdateMethod<String>>,
    pub category: Option<UpdateMethod<String>>,
    pub color: Option<UpdateMethod<String>>,
}

impl<'a> AddToQuery<'a> for UpdateTagSchema {
    open spec fn query_added(&'a self, parts: QueryParts<SqlParam<'a>>) -> QueryParts<SqlParam<'a>> {
        let p = parts.with_table(TagModel::TABLE@);
        let p = with_optional_column(p, TagModel::LABEL@, update_param(&self.label));
        let p = with_optional_column(p, TagModel::CATEGORY@, update_param(&self.category));
        with_optional_column(p, TagModel::COLOR@, update_param(&self.color))
    }

    open spec fn can_add(&'a self, parts: QueryParts<SqlParam<'a>>) -> bool {
        true
    }

    proof fn lemma_query_added(&'a self, parts: QueryParts<SqlParam<'a>>) {
        reveal_strlit("data.tags");
    }

    fn add_to_query(&'a self, builder: &mut SQLQueryBuilder<SqlParam<'a>>) {
        builder.set_table(TagModel::TABLE);
        add_optional_update(builder, TagModel::LABEL, &self.label);
        add_optional_update(builder, TagModel::CATEGORY, &self.category);
        add_optional_update(builder, TagModel::COLOR, &self.color);
    }
}

/// A search for tags.
pub struct QueryTagSchema {
    pub label: Option<QueryMethod<String>>,
    pub category: Option<QueryMethod<String>>,
    pub color: Option<QueryMethod<String>>,
}

impl<'a> AddToQuery<'a> for QueryTagSchema {
    open spec fn query_added(&'a self, parts: QueryParts<SqlParam<'a>>) -> QueryParts<SqlParam<'a>> {
        let p = parts.with_table(TagModel::TABLE@);
        let p = with_optional_filter(p, TagModel::LABEL@, &self.label, PostgresCmp::Like);
        let p = with_optional_filter(p, TagModel::CATEGORY@, &self.category, PostgresCmp::Like);
        with_optional_filter(p, TagModel::COLOR@, &self.color, PostgresCmp::Like)
    }

    open spec fn can_add(&'a self, parts: QueryParts<SqlParam<'a>>) -> bool {
        true
    }

    proof fn lemma_query_added(&'a self, parts: QueryParts<SqlParam<'a>>) {
        reveal_strlit("data.tags");
    }

    fn add_to_query(&'a self, builder: &mut SQLQueryBuilder<SqlParam<'a>>) {
        builder.set_table(TagModel::TABLE);
        add_optional_filter(builder, TagModel::LABEL, &self.label, PostgresCmp::Like);
        add_optional_filter(builder, TagModel::CATEGORY, &self.category, PostgresCmp::Like);
        add_optional_filter(builder, TagModel::COLOR, &self.color, PostgresCmp::Like);
    }
}

/// The body of a new tag adds, to the columns already there, one column
/// for each field given, under that field's own column with its value, and
/// no other column; it adds no condition.
pub proof fn law_create_adds_every_field<'a>(s: &'a CreateTagSchema, parts: QueryParts<SqlParam<'a>>)
    ensures
        s.query_added(parts).columns.len() == parts.columns.len() + (if s.label is Some { 1int } else { 0 }) + (if s.category is Some { 1int } else { 0 }) + (if s.color is Some { 1int } else { 0 }),
        forall|x: (Seq<char>, SqlParam<'a>)| parts.columns.contains(x) ==> #[trigger] s.query_added(parts).columns.contains(x),
        s.query_added(parts).conditions == parts.conditions,
        s.label matches Some(v) ==> s.query_added(parts).columns.contains((TagModel::LABEL@, SqlParam::Text(&v))),
        s.category matches Some(v) ==> s.query_added(parts).columns.contains((TagModel::CATEGORY@, SqlParam::Text(&v))),
        s.color matches Some(v) ==> s.query_added(parts).columns.contains((TagModel::COLOR@, SqlParam::Text(&v))),
{
    let p = parts.with_table(TagModel::TABLE@);
    lemma_column_added(p, TagModel::LABEL@, optional_param(&s.label));
    let p = with_optional_column(p, TagModel::LABEL@, optional_param(&s.label));
    lemma_column_added(p, TagModel::CATEGORY@, optional_param(&s.category));
    let p = with_optional_column(p, TagModel::CATEGORY@, optional_param(&s.category));
    lemma_column_added(p, TagModel::COLOR@, optional_param(&s.color));
    let p = with_optional_column(p, TagModel::COLOR@, optional_param(&s.color));
    assert(s.query_added(parts) == p);
}

/// The body of a change to a tag adds, to the columns already there, one
/// column for each field it sets or clears, under that field's own column:
/// the new value for a field set, `NULL` for a field cleared, and nothing
/// for a field kept; a flag set takes the value of the first column already
/// there, a flag cleared `NULL`. It adds no condition.
pub proof fn law_update_writes_every_change<'a>(s: &'a UpdateTagSchema, parts: QueryParts<SqlParam<'a>>)
    ensures
        s.query_added(parts).columns.len() == parts.columns.len() + writes_count(&s.label) + writes_count(&s.category) + writes_count(&s.color),
        forall|x: (Seq<char>, SqlParam<'a>)| parts.columns.contains(x) ==> #[trigger] s.query_added(parts).columns.contains(x),
        s.query_added(parts).conditions == parts.conditions,
        s.label matches Some(UpdateMethod::Change(v)) ==> s.query_added(parts).columns.contains((TagModel::LABEL@, SqlParam::Text(&v))),
        s.label == Some(UpdateMethod::<String>::Remove(true)) ==> s.query_added(parts).columns.contains((TagModel::LABEL@, SqlParam::Null)),
        s.category matches Some(UpdateMethod::Change(v)) ==> s.query_added(parts).columns.contains((TagModel::CATEGORY@, SqlParam::Text(&v))),
        s.category == Some(UpdateMethod::<String>::Remove(true)) ==> s.query_added(parts).columns.contains((TagModel::CATEGORY@, SqlParam::Null)),
        s.color matches Some(UpdateMethod::Change(v)) ==> s.query_added(parts).columns.contains((TagModel::COLOR@, SqlParam::Text(&v))),
        s.color == Some(UpdateMethod::<String>::Remove(true)) ==> s.query_added(parts).columns.contains((TagModel::COLOR@, SqlParam::Null)),
{
    let p = parts.with_table(TagModel::TABLE@);
    lemma_column_added(p, TagModel::LABEL@, update_param(&s.label));
    let p = with_optional_column(p, TagModel::LABEL@, update_param(&s.label));
    lemma_column_added(p, TagModel::CATEGORY@, update_param(&s.category));
    let p = with_optional_column(p, TagModel::CATEGORY@, update_param(&s.category));
    lemma_column_added(p, TagModel::COLOR@, update_param(&s.color));
    let p = with_optional_column(p, TagModel::COLOR@, update_param(&s.color));
    assert(s.query_added(parts) == p);
}

/// A search for tags adds, to the conditions already there, one condition
/// for each filter given, on that field's own column: a match or a
/// comparison with the value given, or a test for a set or unset column;
/// and no other condition. It adds no column.
pub proof fn law_query_filters_every_field<'a>(s: &'a QueryTagSchema, parts: QueryParts<SqlParam<'a>>)
    ensures
        s.query_added(parts).conditions.len() == parts.conditions.len() + (if s.label is Some { 1int } else { 0 }) + (if s.category is Some { 1int } else { 0 }) + (if s.color is Some { 1int } else { 0 }),
        forall|x: (Seq<char>, PostgresCmp, SqlParam<'a>)| parts.conditions.contains(x) ==> #[trigger] s.query_added(parts).conditions.contains(x),
        s.query_added(parts).columns == parts.columns,
        s.label matches Some(QueryMethod::Match(v)) ==> s.query_added(parts).conditions.contains((TagModel::LABEL@, PostgresCmp::Like, SqlParam::Text(&v))),
        s.label matches Some(QueryMethod::Compare(v, k)) ==> s.query_added(parts).conditions.contains((TagModel::LABEL@, k.operator(), SqlParam::Text(&v))),
        s.label == Some(QueryMethod::<String>::NotNull(true)) ==> s.query_added(parts).conditions.contains((TagModel::LABEL@, PostgresCmp::NotNull, SqlParam::Null)),
        s.label == Some(QueryMethod::<String>::NotNull(false)) ==> s.query_added(parts).conditions.contains((TagModel::LABEL@, PostgresCmp::IsNull, SqlParam::Null)),
        s.category matches Some(QueryMethod::Match(v)) ==> s.query_added(parts).conditions.contains((TagModel::CATEGORY@, PostgresCmp::Like, SqlParam::Text(&v))),
        s.category matches Some(QueryMethod::Compare(v, k)) ==> s.query_added(parts).conditions.contains((TagModel::CATEGORY@, k.operator(), SqlParam::Text(&v))),
        s.category == Some(QueryMethod::<String>::NotNull(true)) ==> s.query_added(parts).conditions.contains((TagModel::CATEGORY@, PostgresCmp::NotNull, SqlParam::Null)),
        s.category == Some(QueryMethod::<String>::NotNull(false)) ==> s.query_added(parts).conditions.contains((TagModel::CATEGORY@, PostgresCmp::IsNull, SqlParam::Null)),
        s.color matches Some(QueryMethod::Match(v)) ==> s.query_added(parts).conditions.contains((TagModel::COLOR@, PostgresCmp::Like, SqlParam::Text(&v))),
        s.color matches Some(QueryMethod::Compare(v, k)) ==> s.query_added(parts).conditions.contains((TagModel::COLOR@, k.operator(), SqlParam::Text(&v))),
        s.color == Some(QueryMethod::<String>::NotNull(true)) ==> s.query_added(parts).conditions.contains((TagModel::COLOR@, PostgresCmp::NotNull, SqlParam::Null)),
        s.color == Some(QueryMethod::<String>::NotNull(false)) ==> s.query_added(parts).conditions.contains((TagModel::COLOR@, PostgresCmp::IsNull, SqlParam::Null)),
{
    let p = parts.with_table(TagModel::TABLE@);
    lemma_filter_added(p, TagModel::LABEL@, &s.label, PostgresCmp::Like);
    let p = with_optional_filter(p, TagModel::LABEL@, &s.label, PostgresCmp::Like);
    lemma_filter_added(p, TagModel::CATEGORY@, &s.category, PostgresCmp::Like);
    let p = with_optional_filter(p, TagModel::CATEGORY@, &s.category, PostgresCmp::Like);
    lemma_filter_added(p, TagModel::COLOR@, &s.color, PostgresCmp::Like);
    let p = with_optional_filter(p, TagModel::COLOR@, &s.color, PostgresCmp::Like);
    assert(s.query_added(parts) == p);
}

} // verus!
