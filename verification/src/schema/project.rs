//! Bodies of the project requests.

use vstd::prelude::*;
use crate::model::project::ProjectModel;
use crate::schema::{
    lemma_column_added, lemma_filter_added, writes_count,
    AddToQuery, lemma_optional_column_grows, lemma_optional_filter_grows, QueryMethod, UpdateMethod, add_optional_column, add_optional_filter,
    add_optional_update, optional_param, update_param, with_optional_column, with_optional_filter,
};
use crate::schema::task::{add_flag_column, with_flag_column, lemma_flag_column_added};
use crate::sql_builder::{PostgresCmp, QueryParts, SQLQueryBuilder};
use crate::values::{Date, SqlParam, Time, Uuid};

verus! {

/// The fields of a new project.
pub struct CreateProjectSchema {
    pub title: Option<String>,
    pub notes: Option<String>,
    pub start_date: Option<Date>,
    pub start_time: Option<Time>,
    pub deadline: Option<Date>,
    pub area_id: Option<Uuid>,
    pub tag_ids: Option<Vec<Uuid>>,
}

impl<'a> AddToQuery<'a> for CreateProjectSchema {
    open spec fn query_added(&'a self, parts: QueryParts<SqlParam<'a>>) -> QueryParts<SqlParam<'a>> {
        let p = parts.with_table(ProjectModel::TABLE@);
        let p = with_optional_column(p, ProjectModel::TITLE@, optional_param(&self.title));
        let p = with_optional_column(p, ProjectModel::NOTES@, optional_param(&self.notes));
        let p = with_optional_column(p, ProjectModel::START_DATE@, optional_param(&self.start_date));
        let p = with_optional_column(p, ProjectModel::START_TIME@, optional_param(&self.start_time));
        let p = with_optional_column(p, ProjectModel::DEADLINE@, optional_param(&self.deadline));
        with_optional_column(p, ProjectModel::AREA_ID@, optional_param(&self.area_id))
    }

    open spec fn can_add(&'a self, parts: QueryParts<SqlParam<'a>>) -> bool {
        true
    }

    proof fn lemma_query_added(&'a self, parts: QueryParts<SqlParam<'a>>) {
        reveal_strlit("data.projects");
    }

    fn add_to_query(&'a self, builder: &mut SQLQueryBuilder<SqlParam<'a>>) {
        builder.set_table(ProjectModel::TABLE);
        add_optional_column(builder, ProjectModel::TITLE, &self.title);
        add_optional_column(builder, ProjectModel::NOTES, &self.notes);
        add_optional_column(builder, ProjectModel::START_DATE, &self.start_date);
        add_optional_column(builder, ProjectModel::START_TIME, &self.start_time);
        add_optional_column(builder, ProjectModel::DEADLINE, &self.deadline);
        add_optional_column(builder, ProjectModel::AREA_ID, &self.area_id);
    }
}

/// Changes to a project.
pub struct UpdateProjectSchema {
    pub title: Option<UpdateMethod<String>>,
    pub notes: Option<UpdateMethod<String>>,
    pub start_date: Option<UpdateMethod<Date>>,
    pub start_time: Option<UpdateMethod<Time>>,
    pub deadline: Option<UpdateMethod<Date>>,
    pub completed: Option<bool>,
    pub logged: Option<bool>,
    pub trashed: Option<bool>,
    pub area_id: Option<UpdateMethod<Uuid>>,
    pub tag_ids: Option<Vec<Uuid>>,
}

impl UpdateProjectSchema {
    /// The builder after the fields before the flags.
    pub open spec fn fields_added<'a>(&'a self, parts: QueryParts<SqlParam<'a>>) -> QueryParts<SqlParam<'a>> {
        let p = parts.with_table(ProjectModel::TABLE@);
        let p = with_optional_column(p, ProjectModel::TITLE@, update_param(&self.title));
        let p = with_optional_column(p, ProjectModel::NOTES@, update_param(&self.notes));
        let p = with_optional_column(p, ProjectModel::START_DATE@, update_param(&self.start_date));
        let p = with_optional_column(p, ProjectModel::START_TIME@, update_param(&self.start_time));
        with_optional_column(p, ProjectModel::DEADLINE@, update_param(&self.deadline))
    }

    /// A builder that already holds a column can take the body.
    pub proof fn lemma_can_add<'a>(&'a self, parts: QueryParts<SqlParam<'a>>)
        requires
            parts.columns.len() > 0,
        ensures
            self.fields_added(parts).columns.len() > 0,
    {
        let p = parts.with_table(ProjectModel::TABLE@);
        lemma_optional_column_grows(p, ProjectModel::TITLE@, update_param(&self.title));
        let p = with_optional_column(p, ProjectModel::TITLE@, update_param(&self.title));
        lemma_optional_column_grows(p, ProjectModel::NOTES@, update_param(&self.notes));
        let p = with_optional_column(p, ProjectModel::NOTES@, update_param(&self.notes));
        lemma_optional_column_grows(p, ProjectModel::START_DATE@, update_param(&self.start_date));
        let p = with_optional_column(p, ProjectModel::START_DATE@, update_param(&self.start_date));
        lemma_optional_column_grows(p, ProjectModel::START_TIME@, update_param(&self.start_time));
        let p = with_optional_column(p, ProjectModel::START_TIME@, update_param(&self.start_time));
        lemma_optional_column_grows(p, ProjectModel::DEADLINE@, update_param(&self.deadline));
    }

    /// Whether a flag takes the value of the first column.
    pub open spec fn sets_flag(&self) -> bool {
        self.completed == Some(true) || self.logged == Some(true) || self.trashed == Some(true)
    }
}

impl<'a> AddToQuery<'a> for UpdateProjectSchema {
    open spec fn query_added(&'a self, parts: QueryParts<SqlParam<'a>>) -> QueryParts<SqlParam<'a>> {
        let p = self.fields_added(parts);
        let p = with_flag_column(p, ProjectModel::COMPLETED@, self.completed);
        let p = with_flag_column(p, ProjectModel::LOGGED@, self.logged);
        let p = with_flag_column(p, ProjectModel::TRASHED@, self.trashed);
        with_optional_column(p, ProjectModel::AREA_ID@, update_param(&self.area_id))
    }

    open spec fn can_add(&'a self, parts: QueryParts<SqlParam<'a>>) -> bool {
        self.sets_flag() ==> self.fields_added(parts).columns.len() > 0
    }

    proof fn lemma_query_added(&'a self, parts: QueryParts<SqlParam<'a>>) {
        reveal_strlit("data.projects");
    }

    fn add_to_query(&'a self, builder: &mut SQLQueryBuilder<SqlParam<'a>>) {
        builder.set_table(ProjectModel::TABLE);
        add_optional_update(builder, ProjectModel::TITLE, &self.title);
        add_optional_update(builder, ProjectModel::NOTES, &self.notes);
        add_optional_update(builder, ProjectModel::START_DATE, &self.start_date);
        add_optional_update(builder, ProjectModel::START_TIME, &self.start_time);
        add_optional_update(builder, ProjectModel::DEADLINE, &self.deadline);
        add_flag_column(builder, ProjectModel::COMPLETED, self.completed);
        add_flag_column(builder, ProjectModel::LOGGED, self.logged);
        add_flag_column(builder, ProjectModel::TRASHED, self.trashed);
        add_optional_update(builder, ProjectModel::AREA_ID, &self.area_id);
    }
}

/// A search for projects.
pub struct QueryProjectSchema {
    pub title: Option<QueryMethod<String>>,
    pub notes: Option<QueryMethod<String>>,
    pub start_date: Option<QueryMethod<Date>>,
    pub start_time: Option<QueryMethod<Time>>,
    pub deadline: Option<QueryMethod<Date>>,
    pub completed: Option<QueryMethod<Date>>,
    pub logged: Option<QueryMethod<Time>>,
    pub trashed: Option<QueryMethod<Date>>,
    pub area_id: Option<QueryMethod<Uuid>>,
    pub tag_ids: Option<Vec<Uuid>>,
}

impl<'a> AddToQuery<'a> for QueryProjectSchema {
    open spec fn query_added(&'a self, parts: QueryParts<SqlParam<'a>>) -> QueryParts<SqlParam<'a>> {
        let p = parts.with_table(ProjectModel::TABLE@);
        let p = with_optional_filter(p, ProjectModel::TITLE@, &self.title, PostgresCmp::Like);
        let p = with_optional_filter(p, ProjectModel::NOTES@, &self.notes, PostgresCmp::Like);
        let p = with_optional_filter(p, ProjectModel::START_DATE@, &self.start_date, PostgresCmp::Equal);
        let p = with_optional_filter(p, ProjectModel::START_TIME@, &self.start_time, PostgresCmp::Equal);
        let p = with_optional_filter(p, ProjectModel::DEADLINE@, &self.deadline, PostgresCmp::Equal);
        let p = with_optional_filter(p, ProjectModel::COMPLETED@, &self.completed, PostgresCmp::Equal);
        let p = with_optional_filter(p, ProjectModel::LOGGED@, &self.logged, PostgresCmp::Equal);
        let p = with_optional_filter(p, ProjectModel::TRASHED@, &self.trashed, PostgresCmp::Equal);
        with_optional_filter(p, ProjectModel::AREA_ID@, &self.area_id, PostgresCmp::Equal)
    }

    open spec fn can_add(&'a self, parts: QueryParts<SqlParam<'a>>) -> bool {
        true
    }

    proof fn lemma_query_added(&'a self, parts: QueryParts<SqlParam<'a>>) {
        reveal_strlit("data.projects");
        let p = parts.with_table(ProjectModel::TABLE@);
        lemma_optional_filter_grows(p, ProjectModel::TITLE@, &self.title, PostgresCmp::Like);
        let p = with_optional_filter(p, ProjectModel::TITLE@, &self.title, PostgresCmp::Like);
        lemma_optional_filter_grows(p, ProjectModel::NOTES@, &self.notes, PostgresCmp::Like);
        let p = with_optional_filter(p, ProjectModel::NOTES@, &self.notes, PostgresCmp::Like);
        lemma_optional_filter_grows(p, ProjectModel::START_DATE@, &self.start_date, PostgresCmp::Equal);
        let p = with_optional_filter(p, ProjectModel::START_DATE@, &self.start_date, PostgresCmp::Equal);
        lemma_optional_filter_grows(p, ProjectModel::START_TIME@, &self.start_time, PostgresCmp::Equal);
        let p = with_optional_filter(p, ProjectModel::START_TIME@, &self.start_time, PostgresCmp::Equal);
        lemma_optional_filter_grows(p, ProjectModel::DEADLINE@, &self.deadline, PostgresCmp::Equal);
        let p = with_optional_filter(p, ProjectModel::DEADLINE@, &self.deadline, PostgresCmp::Equal);
        lemma_optional_filter_grows(p, ProjectModel::COMPLETED@, &self.completed, PostgresCmp::Equal);
        let p = with_optional_filter(p, ProjectModel::COMPLETED@, &self.completed, PostgresCmp::Equal);
        lemma_optional_filter_grows(p, ProjectModel::LOGGED@, &self.logged, PostgresCmp::Equal);
        let p = with_optional_filter(p, ProjectModel::LOGGED@, &self.logged, PostgresCmp::Equal);
        lemma_optional_filter_grows(p, ProjectModel::TRASHED@, &self.trashed, PostgresCmp::Equal);
        let p = with_optional_filter(p, ProjectModel::TRASHED@, &self.trashed, PostgresCmp::Equal);
        lemma_optional_filter_grows(p, ProjectModel::AREA_ID@, &self.area_id, PostgresCmp::Equal);
    }

    fn add_to_query(&'a self, builder: &mut SQLQueryBuilder<SqlParam<'a>>) {
        builder.set_table(ProjectModel::TABLE);
        add_optional_filter(builder, ProjectModel::TITLE, &self.title, PostgresCmp::Like);
        add_optional_filter(builder, ProjectModel::NOTES, &self.notes, PostgresCmp::Like);
        add_optional_filter(builder, ProjectModel::START_DATE, &self.start_date, PostgresCmp::Equal);
        add_optional_filter(builder, ProjectModel::START_TIME, &self.start_time, PostgresCmp::Equal);
        add_optional_filter(builder, ProjectModel::DEADLINE, &self.deadline, PostgresCmp::Equal);
        add_optional_filter(builder, ProjectModel::COMPLETED, &self.completed, PostgresCmp::Equal);
        add_optional_filter(builder, ProjectModel::LOGGED, &self.logged, PostgresCmp::Equal);
        add_optional_filter(builder, ProjectModel::TRASHED, &self.trashed, PostgresCmp::Equal);
        add_optional_filter(builder, ProjectModel::AREA_ID, &self.area_id, PostgresCmp::Equal);
    }
}

/// The body of a new project adds, to the columns already there, one column
/// for each field given, under that field's own column with its value, and
/// no other column; it adds no condition.
pub proof fn law_create_adds_every_field<'a>(s: &'a CreateProjectSchema, parts: QueryParts<SqlParam<'a>>)
    ensures
        s.query_added(parts).columns.len() == parts.columns.len() + (if s.title is Some { 1int } else { 0 }) + (if s.notes is Some { 1int } else { 0 }) + (if s.start_date is Some { 1int } else { 0 }) + (if s.start_time is Some { 1int } else { 0 }) + (if s.deadline is Some { 1int } else { 0 }) + (if s.area_id is Some { 1int } else { 0 }),
        forall|x: (Seq<char>, SqlParam<'a>)| parts.columns.contains(x) ==> #[trigger] s.query_added(parts).columns.contains(x),
        s.query_added(parts).conditions == parts.conditions,
        s.title matches Some(v) ==> s.query_added(parts).columns.contains((ProjectModel::TITLE@, SqlParam::Text(&v))),
        s.notes matches Some(v) ==> s.query_added(parts).columns.contains((ProjectModel::NOTES@, SqlParam::Text(&v))),
        s.start_date matches Some(v) ==> s.query_added(parts).columns.contains((ProjectModel::START_DATE@, SqlParam::Date(&v))),
        s.start_time matches Some(v) ==> s.query_added(parts).columns.contains((ProjectModel::START_TIME@, SqlParam::Time(&v))),
        s.deadline matches Some(v) ==> s.query_added(parts).columns.contains((ProjectModel::DEADLINE@, SqlParam::Date(&v))),
        s.area_id matches Some(v) ==> s.query_added(parts).columns.contains((ProjectModel::AREA_ID@, SqlParam::Id(&v))),
{
    let p = parts.with_table(ProjectModel::TABLE@);
    lemma_column_added(p, ProjectModel::TITLE@, optional_param(&s.title));
    let p = with_optional_column(p, ProjectModel::TITLE@, optional_param(&s.title));
    lemma_column_added(p, ProjectModel::NOTES@, optional_param(&s.notes));
    let p = with_optional_column(p, ProjectModel::NOTES@, optional_param(&s.notes));
    lemma_column_added(p, ProjectModel::START_DATE@, optional_param(&s.start_date));
    let p = with_optional_column(p, ProjectModel::START_DATE@, optional_param(&s.start_date));
    lemma_column_added(p, ProjectModel::START_TIME@, optional_param(&s.start_time));
    let p = with_optional_column(p, ProjectModel::START_TIME@, optional_param(&s.start_time));
    lemma_column_added(p, ProjectModel::DEADLINE@, optional_param(&s.deadline));
    let p = with_optional_column(p, ProjectModel::DEADLINE@, optional_param(&s.deadline));
    lemma_column_added(p, ProjectModel::AREA_ID@, optional_param(&s.area_id));
    let p = with_optional_column(p, ProjectModel::AREA_ID@, optional_param(&s.area_id));
    assert(s.query_added(parts) == p);
}

/// The body of a change to a project adds, to the columns already there, one
/// column for each field it sets or clears, under that field's own column:
/// the new value for a field set, `NULL` for a field cleared, and nothing
/// for a field kept; a flag set takes the value of the first column already
/// there, a flag cleared `NULL`. It adds no condition.
pub proof fn law_update_writes_every_change<'a>(s: &'a UpdateProjectSchema, parts: QueryParts<SqlParam<'a>>)
    ensures
        s.query_added(parts).columns.len() == parts.columns.len() + writes_count(&s.title) + writes_count(&s.notes) + writes_count(&s.start_date) + writes_count(&s.start_time) + writes_count(&s.deadline) + (if s.completed is Some { 1int } else { 0 }) + (if s.logged is Some { 1int } else { 0 }) + (if s.trashed is Some { 1int } else { 0 }) + writes_count(&s.area_id),
        forall|x: (Seq<char>, SqlParam<'a>)| parts.columns.contains(x) ==> #[trigger] s.query_added(parts).columns.contains(x),
        s.query_added(parts).conditions == parts.conditions,
        s.title matches Some(UpdateMethod::Change(v)) ==> s.query_added(parts).columns.contains((ProjectModel::TITLE@, SqlParam::Text(&v))),
        s.title == Some(UpdateMethod::<String>::Remove(true)) ==> s.query_added(parts).columns.contains((ProjectModel::TITLE@, SqlParam::Null)),
        s.notes matches Some(UpdateMethod::Change(v)) ==> s.query_added(parts).columns.contains((ProjectModel::NOTES@, SqlParam::Text(&v))),
        s.notes == Some(UpdateMethod::<String>::Remove(true)) ==> s.query_added(parts).columns.contains((ProjectModel::NOTES@, SqlParam::Null)),
        s.start_date matches Some(UpdateMethod::Change(v)) ==> s.query_added(parts).columns.contains((ProjectModel::START_DATE@, SqlParam::Date(&v))),
        s.start_date == Some(UpdateMethod::<Date>::Remove(true)) ==> s.query_added(parts).columns.contains((ProjectModel::START_DATE@, SqlParam::Null)),
        s.start_time matches Some(UpdateMethod::Change(v)) ==> s.query_added(parts).columns.contains((ProjectModel::START_TIME@, SqlParam::Time(&v))),
        s.start_time == Some(UpdateMethod::<Time>::Remove(true)) ==> s.query_added(parts).columns.contains((ProjectModel::START_TIME@, SqlParam::Null)),
        s.deadline matches Some(UpdateMethod::Change(v)) ==> s.query_added(parts).columns.contains((ProjectModel::DEADLINE@, SqlParam::Date(&v))),
        s.deadline == Some(UpdateMethod::<Date>::Remove(true)) ==> s.query_added(parts).columns.contains((ProjectModel::DEADLINE@, SqlParam::Null)),
        s.completed == Some(true) && parts.columns.len() > 0 ==> s.query_added(parts).columns.contains((ProjectModel::COMPLETED@, parts.columns[0].1)),
        s.completed == Some(false) ==> s.query_added(parts).columns.contains((ProjectModel::COMPLETED@, SqlParam::Null)),
        s.logged == Some(true) && parts.columns.len() > 0 ==> s.query_added(parts).columns.contains((ProjectModel::LOGGED@, parts.columns[0].1)),
        s.logged == Some(false) ==> s.query_added(parts).columns.contains((ProjectModel::LOGGED@, SqlParam::Null)),
        s.trashed == Some(true) && parts.columns.len() > 0 ==> s.query_added(parts).columns.contains((ProjectModel::TRASHED@, parts.columns[0].1)),
        s.trashed == Some(false) ==> s.query_added(parts).columns.contains((ProjectModel::TRASHED@, SqlParam::Null)),
        s.area_id matches Some(UpdateMethod::Change(v)) ==> s.query_added(parts).columns.contains((ProjectModel::AREA_ID@, SqlParam::Id(&v))),
        s.area_id == Some(UpdateMethod::<Uuid>::Remove(true)) ==> s.query_added(parts).columns.contains((ProjectModel::AREA_ID@, SqlParam::Null)),
{
    let p = parts.with_table(ProjectModel::TABLE@);
    lemma_column_added(p, ProjectModel::TITLE@, update_param(&s.title));
    let p = with_optional_column(p, ProjectModel::TITLE@, update_param(&s.title));
    lemma_column_added(p, ProjectModel::NOTES@, update_param(&s.notes));
    let p = with_optional_column(p, ProjectModel::NOTES@, update_param(&s.notes));
    lemma_column_added(p, ProjectModel::START_DATE@, update_param(&s.start_date));
    let p = with_optional_column(p, ProjectModel::START_DATE@, update_param(&s.start_date));
    lemma_column_added(p, ProjectModel::START_TIME@, update_param(&s.start_time));
    let p = with_optional_column(p, ProjectModel::START_TIME@, update_param(&s.start_time));
    lemma_column_added(p, ProjectModel::DEADLINE@, update_param(&s.deadline));
    let p = with_optional_column(p, ProjectModel::DEADLINE@, update_param(&s.deadline));
    assert(parts.columns.len() > 0 ==> p.columns[0] == parts.columns[0]);
    lemma_flag_column_added(p, ProjectModel::COMPLETED@, s.completed);
    let p = with_flag_column(p, ProjectModel::COMPLETED@, s.completed);
    assert(parts.columns.len() > 0 ==> p.columns[0] == parts.columns[0]);
    lemma_flag_column_added(p, ProjectModel::LOGGED@, s.logged);
    let p = with_flag_column(p, ProjectModel::LOGGED@, s.logged);
    assert(parts.columns.len() > 0 ==> p.columns[0] == parts.columns[0]);
    lemma_flag_column_added(p, ProjectModel::TRASHED@, s.trashed);
    let p = with_flag_column(p, ProjectModel::TRASHED@, s.trashed);
    lemma_column_added(p, ProjectModel::AREA_ID@, update_param(&s.area_id));
    let p = with_optional_column(p, ProjectModel::AREA_ID@, update_param(&s.area_id));
    assert(s.query_added(parts) == p);
}

/// A search for projects adds, to the conditions already there, one condition
/// for each filter given, on that field's own column: a match or a
/// comparison with the value given, or a test for a set or unset column;
/// and no other condition. It adds no column.
#[verifier::rlimit(100)]
#[verifier::spinoff_prover]
pub proof fn law_query_filters_every_field<'a>(s: &'a QueryProjectSchema, parts: QueryParts<SqlParam<'a>>)
    ensures
        s.query_added(parts).conditions.len() == parts.conditions.len() + (if s.title is Some { 1int } else { 0 }) + (if s.notes is Some { 1int } else { 0 }) + (if s.start_date is Some { 1int } else { 0 }) + (if s.start_time is Some { 1int } else { 0 }) + (if s.deadline is Some { 1int } else { 0 }) + (if s.completed is Some { 1int } else { 0 }) + (if s.logged is Some { 1int } else { 0 }) + (if s.trashed is Some { 1int } else { 0 }) + (if s.area_id is Some { 1int } else { 0 }),
        forall|x: (Seq<char>, PostgresCmp, SqlParam<'a>)| parts.conditions.contains(x) ==> #[trigger] s.query_added(parts).conditions.contains(x),
        s.query_added(parts).columns == parts.columns,
        s.title matches Some(QueryMethod::Match(v)) ==> s.query_added(parts).conditions.contains((ProjectModel::TITLE@, PostgresCmp::Like, SqlParam::Text(&v))),
        s.title matches Some(QueryMethod::Compare(v, k)) ==> s.query_added(parts).conditions.contains((ProjectModel::TITLE@, k.operator(), SqlParam::Text(&v))),
        s.title == Some(QueryMethod::<String>::NotNull(true)) ==> s.query_added(parts).conditions.contains((ProjectModel::TITLE@, PostgresCmp::NotNull, SqlParam::Null)),
        s.title == Some(QueryMethod::<String>::NotNull(false)) ==> s.query_added(parts).conditions.contains((ProjectModel::TITLE@, PostgresCmp::IsNull, SqlParam::Null)),
        s.notes matches Some(QueryMethod::Match(v)) ==> s.query_added(parts).conditions.contains((ProjectModel::NOTES@, PostgresCmp::Like, SqlParam::Text(&v))),
        s.notes matches Some(QueryMethod::Compare(v, k)) ==> s.query_added(parts).conditions.contains((ProjectModel::NOTES@, k.operator(), SqlParam::Text(&v))),
        s.notes == Some(QueryMethod::<String>::NotNull(true)) ==> s.query_added(parts).conditions.contains((ProjectModel::NOTES@, PostgresCmp::NotNull, SqlParam::Null)),
        s.notes == Some(QueryMethod::<String>::NotNull(false)) ==> s.query_added(parts).conditions.contains((ProjectModel::NOTES@, PostgresCmp::IsNull, SqlParam::Null)),
        s.start_date matches Some(QueryMethod::Match(v)) ==> s.query_added(parts).conditions.contains((ProjectModel::START_DATE@, PostgresCmp::Equal, SqlParam::Date(&v))),
        s.start_date matches Some(QueryMethod::Compare(v, k)) ==> s.query_added(parts).conditions.contains((ProjectModel::START_DATE@, k.operator(), SqlParam::Date(&v))),
        s.start_date == Some(QueryMethod::<Date>::NotNull(true)) ==> s.query_added(parts).conditions.contains((ProjectModel::START_DATE@, PostgresCmp::NotNull, SqlParam::Null)),
        s.start_date == Some(QueryMethod::<Date>::NotNull(false)) ==> s.query_added(parts).conditions.contains((ProjectModel::START_DATE@, PostgresCmp::IsNull, SqlParam::Null)),
        s.start_time matches Some(QueryMethod::Match(v)) ==> s.query_added(parts).conditions.contains((ProjectModel::START_TIME@, PostgresCmp::Equal, SqlParam::Time(&v))),
        s.start_time matches Some(QueryMethod::Compare(v, k)) ==> s.query_added(parts).conditions.contains((ProjectModel::START_TIME@, k.operator(), SqlParam::Time(&v))),
        s.start_time == Some(QueryMethod::<Time>::NotNull(true)) ==> s.query_added(parts).conditions.contains((ProjectModel::START_TIME@, PostgresCmp::NotNull, SqlParam::Null)),
        s.start_time == Some(QueryMethod::<Time>::NotNull(false)) ==> s.query_added(parts).conditions.contains((ProjectModel::START_TIME@, PostgresCmp::IsNull, SqlParam::Null)),
        s.deadline matches Some(QueryMethod::Match(v)) ==> s.query_added(parts).conditions.contains((ProjectModel::DEADLINE@, PostgresCmp::Equal, SqlParam::Date(&v))),
        s.deadline matches Some(QueryMethod::Compare(v, k)) ==> s.query_added(parts).conditions.contains((ProjectModel::DEADLINE@, k.operator(), SqlParam::Date(&v))),
        s.deadline == Some(QueryMethod::<Date>::NotNull(true)) ==> s.query_added(parts).conditions.contains((ProjectModel::DEADLINE@, PostgresCmp::NotNull, SqlParam::Null)),
        s.deadline == Some(QueryMethod::<Date>::NotNull(false)) ==> s.query_added(parts).conditions.contains((ProjectModel::DEADLINE@, PostgresCmp::IsNull, SqlParam::Null)),
        s.completed matches Some(QueryMethod::Match(v)) ==> s.query_added(parts).conditions.contains((ProjectModel::COMPLETED@, PostgresCmp::Equal, SqlParam::Date(&v))),
        s.completed matches Some(QueryMethod::Compare(v, k)) ==> s.query_added(parts).conditions.contains((ProjectModel::COMPLETED@, k.operator(), SqlParam::Date(&v))),
        s.completed == Some(QueryMethod::<Date>::NotNull(true)) ==> s.query_added(parts).conditions.contains((ProjectModel::COMPLETED@, PostgresCmp::NotNull, SqlParam::Null)),
        s.completed == Some(QueryMethod::<Date>::NotNull(false)) ==> s.query_added(parts).conditions.contains((ProjectModel::COMPLETED@, PostgresCmp::IsNull, SqlParam::Null)),
        s.logged matches Some(QueryMethod::Match(v)) ==> s.query_added(parts).conditions.contains((ProjectModel::LOGGED@, PostgresCmp::Equal, SqlParam::Time(&v))),
        s.logged matches Some(QueryMethod::Compare(v, k)) ==> s.query_added(parts).conditions.contains((ProjectModel::LOGGED@, k.operator(), SqlParam::Time(&v))),
        s.logged == Some(QueryMethod::<Time>::NotNull(true)) ==> s.query_added(parts).conditions.contains((ProjectModel::LOGGED@, PostgresCmp::NotNull, SqlParam::Null)),
        s.logged == Some(QueryMethod::<Time>::NotNull(false)) ==> s.query_added(parts).conditions.contains((ProjectModel::LOGGED@, PostgresCmp::IsNull, SqlParam::Null)),
        s.trashed matches Some(QueryMethod::Match(v)) ==> s.query_added(parts).conditions.contains((ProjectModel::TRASHED@, PostgresCmp::Equal, SqlParam::Date(&v))),
        s.trashed matches Some(QueryMethod::Compare(v, k)) ==> s.query_added(parts).conditions.contains((ProjectModel::TRASHED@, k.operator(), SqlParam::Date(&v))),
        s.trashed == Some(QueryMethod::<Date>::NotNull(true)) ==> s.query_added(parts).conditions.contains((ProjectModel::TRASHED@, PostgresCmp::NotNull, SqlParam::Null)),
        s.trashed == Some(QueryMethod::<Date>::NotNull(false)) ==> s.query_added(parts).conditions.contains((ProjectModel::TRASHED@, PostgresCmp::IsNull, SqlParam::Null)),
        s.area_id matches Some(QueryMethod::Match(v)) ==> s.query_added(parts).conditions.contains((ProjectModel::AREA_ID@, PostgresCmp::Equal, SqlParam::Id(&v))),
        s.area_id matches Some(QueryMethod::Compare(v, k)) ==> s.query_added(parts).conditions.contains((ProjectModel::AREA_ID@, k.operator(), SqlParam::Id(&v))),
        s.area_id == Some(QueryMethod::<Uuid>::NotNull(true)) ==> s.query_added(parts).conditions.contains((ProjectModel::AREA_ID@, PostgresCmp::NotNull, SqlParam::Null)),
        s.area_id == Some(QueryMethod::<Uuid>::NotNull(false)) ==> s.query_added(parts).conditions.contains((ProjectModel::AREA_ID@, PostgresCmp::IsNull, SqlParam::Null)),
{
    let p = parts.with_table(ProjectModel::TABLE@);
    lemma_filter_added(p, ProjectModel::TITLE@, &s.title, PostgresCmp::Like);
    let p = with_optional_filter(p, ProjectModel::TITLE@, &s.title, PostgresCmp::Like);
    lemma_filter_added(p, ProjectModel::NOTES@, &s.notes, PostgresCmp::Like);
    let p = with_optional_filter(p, ProjectModel::NOTES@, &s.notes, PostgresCmp::Like);
    lemma_filter_added(p, ProjectModel::START_DATE@, &s.start_date, PostgresCmp::Equal);
    let p = with_optional_filter(p, ProjectModel::START_DATE@, &s.start_date, PostgresCmp::Equal);
    lemma_filter_added(p, ProjectModel::START_TIME@, &s.start_time, PostgresCmp::Equal);
    let p = with_optional_filter(p, ProjectModel::START_TIME@, &s.start_time, PostgresCmp::Equal);
    lemma_filter_added(p, ProjectModel::DEADLINE@, &s.deadline, PostgresCmp::Equal);
    let p = with_optional_filter(p, ProjectModel::DEADLINE@, &s.deadline, PostgresCmp::Equal);
    lemma_filter_added(p, ProjectModel::COMPLETED@, &s.completed, PostgresCmp::Equal);
    let p = with_optional_filter(p, ProjectModel::COMPLETED@, &s.completed, PostgresCmp::Equal);
    lemma_filter_added(p, ProjectModel::LOGGED@, &s.logged, PostgresCmp::Equal);
    let p = with_optional_filter(p, ProjectModel::LOGGED@, &s.logged, PostgresCmp::Equal);
    lemma_filter_added(p, ProjectModel::TRASHED@, &s.trashed, PostgresCmp::Equal);
    let p = with_optional_filter(p, ProjectModel::TRASHED@, &s.trashed, PostgresCmp::Equal);
    lemma_filter_added(p, ProjectModel::AREA_ID@, &s.area_id, PostgresCmp::Equal);
    let p = with_optional_filter(p, ProjectModel::AREA_ID@, &s.area_id, PostgresCmp::Equal);
    assert(s.query_added(parts) == p);
}

} // verus!
