//! Bodies of the task requests.

use vstd::prelude::*;
use crate::model::task::TaskModel;
use crate::schema::{
    lemma_column_added, lemma_filter_added, writes_count,
    AddToQuery, binds_compared_values, keeps_columns, keeps_conditions, lemma_optional_column_keeps, lemma_optional_filter_binds_compared, grows_by, lemma_optional_column_grows, lemma_optional_filter_grows, QueryMethod, UpdateMethod, add_optional_column, add_optional_filter,
    add_optional_update, optional_param, update_param, with_optional_column, with_optional_filter,
};
use crate::sql_builder::{PostgresCmp, QueryParts, SQLQueryBuilder};
use crate::values::{Date, SqlParam, Time, Uuid};

verus! {

/// The fields of a new task.
pub struct CreateTaskSchema {
    pub title: Option<String>,
    pub notes: Option<String>,
    pub start_date: Option<Date>,
    pub start_time: Option<Time>,
    pub deadline: Option<Date>,
    pub area_id: Option<Uuid>,
    pub project_id: Option<Uuid>,
    pub tag_ids: Option<Vec<Uuid>>,
}

impl<'a> AddToQuery<'a> for CreateTaskSchema {
    open spec fn query_added(&'a self, parts: QueryParts<SqlParam<'a>>) -> QueryParts<SqlParam<'a>> {
        let p = parts.with_table(TaskModel::TABLE@);
        let p = with_optional_column(p, TaskModel::TITLE@, optional_param(&self.title));
        let p = with_optional_column(p, TaskModel::NOTES@, optional_param(&self.notes));
        let p = with_optional_column(p, TaskModel::START_DATE@, optional_param(&self.start_date));
        let p = with_optional_column(p, TaskModel::START_TIME@, optional_param(&self.start_time));
        let p = with_optional_column(p, TaskModel::DEADLINE@, optional_param(&self.deadline));
        let p = with_optional_column(p, TaskModel::AREA_ID@, optional_param(&self.area_id));
        with_optional_column(p, TaskModel::PROJECT_ID@, optional_param(&self.project_id))
    }

    open spec fn can_add(&'a self, parts: QueryParts<SqlParam<'a>>) -> bool {
        true
    }

    proof fn lemma_query_added(&'a self, parts: QueryParts<SqlParam<'a>>) {
        reveal_strlit("data.tasks");
    }

    fn add_to_query(&'a self, builder: &mut SQLQueryBuilder<SqlParam<'a>>) {
        builder.set_table(TaskModel::TABLE);
        add_optional_column(builder, TaskModel::TITLE, &self.title);
        add_optional_column(builder, TaskModel::NOTES, &self.notes);
        add_optional_column(builder, TaskModel::START_DATE, &self.start_date);
        add_optional_column(builder, TaskModel::START_TIME, &self.start_time);
        add_optional_column(builder, TaskModel::DEADLINE, &self.deadline);
        add_optional_column(builder, TaskModel::AREA_ID, &self.area_id);
        add_optional_column(builder, TaskModel::PROJECT_ID, &self.project_id);
    }
}

/// The builder after a flag column: `Some(true)` writes the value of the
/// first column, `Some(false)` writes `NULL`.
pub open spec fn with_flag_column<'a>(
    parts: QueryParts<SqlParam<'a>>,
    column: Seq<char>,
    flag: Option<bool>,
) -> QueryParts<SqlParam<'a>> {
    match flag {
        Some(true) => parts.with_column(column, parts.columns[0].1),
        Some(false) => parts.with_column(column, SqlParam::Null),
        None => parts,
    }
}

/// The builder after a flag filter: `Some(true)` asks for a set column,
/// `Some(false)` for an unset one.
pub open spec fn with_flag_filter<'a>(
    parts: QueryParts<SqlParam<'a>>,
    column: Seq<char>,
    flag: Option<bool>,
) -> QueryParts<SqlParam<'a>> {
    match flag {
        Some(true) => parts.with_condition(column, PostgresCmp::NotNull, SqlParam::Null),
        Some(false) => parts.with_condition(column, PostgresCmp::IsNull, SqlParam::Null),
        None => parts,
    }
}

/// A flag filter adds at most one condition.
pub proof fn lemma_flag_filter_grows<'a>(parts: QueryParts<SqlParam<'a>>, column: Seq<char>, flag: Option<bool>)
    ensures
        grows_by(parts, with_flag_filter(parts, column, flag), 1),
{
}

/// A flag filter keeps the conditions before it and binds nothing.
pub proof fn lemma_flag_filter_binds_nothing<'a>(
    parts: QueryParts<SqlParam<'a>>,
    column: Seq<char>,
    flag: Option<bool>,
    n: int,
)
    requires
        binds_compared_values(parts, n),
    ensures
        binds_compared_values(with_flag_filter(parts, column, flag), n),
        keeps_conditions(parts, with_flag_filter(parts, column, flag)),
{
    let r = with_flag_filter(parts, column, flag);
    assert forall|k: int| 0 <= k && n <= k < r.conditions.len() && (#[trigger] r.conditions[k]).1.binds() implies !(
    r.conditions[k].2 is Null) by {
        if k < parts.conditions.len() {
            assert(r.conditions[k] == parts.conditions[k]);
        }
    }
}

/// A flag column keeps the columns before it.
pub proof fn lemma_flag_column_keeps<'a>(parts: QueryParts<SqlParam<'a>>, column: Seq<char>, flag: Option<bool>)
    requires
        flag == Some(true) ==> parts.columns.len() > 0,
    ensures
        keeps_columns(parts, with_flag_column(parts, column, flag)),
{
}

/// Adds a flag column: `Some(true)` writes the value of the first column, `Some(false)` writes `NULL`.
pub fn add_flag_column<'a>(builder: &mut SQLQueryBuilder<SqlParam<'a>>, column: &str, flag: Option<bool>)
    requires
        flag == Some(true) ==> old(builder)@.columns.len() > 0,
    ensures
        final(builder)@ == with_flag_column(old(builder)@, column@, flag),
{
    if let Some(b) = flag {
        if b {
            let first = builder.get_column(0).unwrap();
            builder.add_column(column, first);
        } else {
            builder.add_column(column, SqlParam::Null);
        }
    }
}

/// Adds a flag filter: `Some(true)` asks for a set column, `Some(false)` for an unset one.
pub fn add_flag_filter<'a>(builder: &mut SQLQueryBuilder<SqlParam<'a>>, column: &str, flag: Option<bool>)
    ensures
        final(builder)@ == with_flag_filter(old(builder)@, column@, flag),
{
    if let Some(b) = flag {
        if b {
            builder.add_condition(column, PostgresCmp::NotNull, SqlParam::Null);
        } else {
            builder.add_condition(column, PostgresCmp::IsNull, SqlParam::Null);
        }
    }
}

/// Changes to a task.
pub struct UpdateTaskSchema {
    pub title: Option<UpdateMethod<String>>,
    pub notes: Option<UpdateMethod<String>>,
    pub start_date: Option<UpdateMethod<Date>>,
    pub start_time: Option<UpdateMethod<Time>>,
    pub deadline: Option<UpdateMethod<Date>>,
    pub completed: Option<bool>,
    pub logged: Option<bool>,
    pub trashed: Option<bool>,
    pub area_id: Option<UpdateMethod<Uuid>>,
    pub project_id: Option<UpdateMethod<Uuid>>,
    pub tag_ids: Option<Vec<Uuid>>,
}

impl UpdateTaskSchema {
    /// The builder after the fields before the flags.
    pub open spec fn fields_added<'a>(&'a self, parts: QueryParts<SqlParam<'a>>) -> QueryParts<SqlParam<'a>> {
        let p = parts.with_table(TaskModel::TABLE@);
        let p = with_optional_column(p, TaskModel::TITLE@, update_param(&self.title));
        let p = with_optional_column(p, TaskModel::NOTES@, update_param(&self.notes));
        let p = with_optional_column(p, TaskModel::START_DATE@, update_param(&self.start_date));
        let p = with_optional_column(p, TaskModel::START_TIME@, update_param(&self.start_time));
        with_optional_column(p, TaskModel::DEADLINE@, update_param(&self.deadline))
    }

    /// A builder that already holds a column can take the body.
    pub proof fn lemma_can_add<'a>(&'a self, parts: QueryParts<SqlParam<'a>>)
        requires
            parts.columns.len() > 0,
        ensures
            self.fields_added(parts).columns.len() > 0,
    {
        let p = parts.with_table(TaskModel::TABLE@);
        lemma_optional_column_grows(p, TaskModel::TITLE@, update_param(&self.title));
        let p = with_optional_column(p, TaskModel::TITLE@, update_param(&self.title));
        lemma_optional_column_grows(p, TaskModel::NOTES@, update_param(&self.notes));
        let p = with_optional_column(p, TaskModel::NOTES@, update_param(&self.notes));
        lemma_optional_column_grows(p, TaskModel::START_DATE@, update_param(&self.start_date));
        let p = with_optional_column(p, TaskModel::START_DATE@, update_param(&self.start_date));
        lemma_optional_column_grows(p, TaskModel::START_TIME@, update_param(&self.start_time));
        let p = with_optional_column(p, TaskModel::START_TIME@, update_param(&self.start_time));
        lemma_optional_column_grows(p, TaskModel::DEADLINE@, update_param(&self.deadline));
    }

    /// Whether a flag takes the value of the first column.
    pub open spec fn sets_flag(&self) -> bool {
        self.completed == Some(true) || self.logged == Some(true) || self.trashed == Some(true)
    }
}

impl<'a> AddToQuery<'a> for UpdateTaskSchema {
    open spec fn query_added(&'a self, parts: QueryParts<SqlParam<'a>>) -> QueryParts<SqlParam<'a>> {
        let p = self.fields_added(parts);
        let p = with_flag_column(p, TaskModel::COMPLETED@, self.completed);
        let p = with_flag_column(p, TaskModel::LOGGED@, self.logged);
        let p = with_flag_column(p, TaskModel::TRASHED@, self.trashed);
        let p = with_optional_column(p, TaskModel::AREA_ID@, update_param(&self.area_id));
        with_optional_column(p, TaskModel::PROJECT_ID@, update_param(&self.project_id))
    }

    open spec fn can_add(&'a self, parts: QueryParts<SqlParam<'a>>) -> bool {
        self.sets_flag() ==> self.fields_added(parts).columns.len() > 0
    }

    proof fn lemma_query_added(&'a self, parts: QueryParts<SqlParam<'a>>) {
        reveal_strlit("data.tasks");
    }

    fn add_to_query(&'a self, builder: &mut SQLQueryBuilder<SqlParam<'a>>) {
        builder.set_table(TaskModel::TABLE);
        add_optional_update(builder, TaskModel::TITLE, &self.title);
        add_optional_update(builder, TaskModel::NOTES, &self.notes);
        add_optional_update(builder, TaskModel::START_DATE, &self.start_date);
        add_optional_update(builder, TaskModel::START_TIME, &self.start_time);
        add_optional_update(builder, TaskModel::DEADLINE, &self.deadline);
        add_flag_column(builder, TaskModel::COMPLETED, self.completed);
        add_flag_column(builder, TaskModel::LOGGED, self.logged);
        add_flag_column(builder, TaskModel::TRASHED, self.trashed);
        add_optional_update(builder, TaskModel::AREA_ID, &self.area_id);
        add_optional_update(builder, TaskModel::PROJECT_ID, &self.project_id);
    }
}

/// A search for tasks.
pub struct QueryTaskSchema {
    pub title: Option<QueryMethod<String>>,
    pub notes: Option<QueryMethod<String>>,
    pub start_date: Option<QueryMethod<Date>>,
    pub start_time: Option<QueryMethod<Time>>,
    pub deadline: Option<QueryMethod<Date>>,
    pub completed: Option<bool>,
    pub logged: Option<bool>,
    pub trashed: Option<bool>,
    pub area_id: Option<QueryMethod<Uuid>>,
    pub project_id: Option<QueryMethod<Uuid>>,
    pub tag_ids: Option<Vec<Uuid>>,
}

impl<'a> AddToQuery<'a> for QueryTaskSchema {
    open spec fn query_added(&'a self, parts: QueryParts<SqlParam<'a>>) -> QueryParts<SqlParam<'a>> {
        let p = parts.with_table(TaskModel::TABLE@);
        let p = with_optional_filter(p, TaskModel::TITLE@, &self.title, PostgresCmp::Like);
        let p = with_optional_filter(p, TaskModel::NOTES@, &self.notes, PostgresCmp::Like);
        let p = with_optional_filter(p, TaskModel::START_DATE@, &self.start_date, PostgresCmp::Equal);
        let p = with_optional_filter(p, TaskModel::START_TIME@, &self.start_time, PostgresCmp::Equal);
        let p = with_optional_filter(p, TaskModel::DEADLINE@, &self.deadline, PostgresCmp::Equal);
        let p = with_flag_filter(p, TaskModel::COMPLETED@, self.completed);
        let p = with_flag_filter(p, TaskModel::LOGGED@, self.logged);
        let p = with_flag_filter(p, TaskModel::TRASHED@, self.trashed);
        let p = with_optional_filter(p, TaskModel::AREA_ID@, &self.area_id, PostgresCmp::Equal);
        with_optional_filter(p, TaskModel::PROJECT_ID@, &self.project_id, PostgresCmp::Equal)
    }

    open spec fn can_add(&'a self, parts: QueryParts<SqlParam<'a>>) -> bool {
        true
    }

    proof fn lemma_query_added(&'a self, parts: QueryParts<SqlParam<'a>>) {
        reveal_strlit("data.tasks");
        let p = parts.with_table(TaskModel::TABLE@);
        lemma_optional_filter_grows(p, TaskModel::TITLE@, &self.title, PostgresCmp::Like);
        let p = with_optional_filter(p, TaskModel::TITLE@, &self.title, PostgresCmp::Like);
        lemma_optional_filter_grows(p, TaskModel::NOTES@, &self.notes, PostgresCmp::Like);
        let p = with_optional_filter(p, TaskModel::NOTES@, &self.notes, PostgresCmp::Like);
        lemma_optional_filter_grows(p, TaskModel::START_DATE@, &self.start_date, PostgresCmp::Equal);
        let p = with_optional_filter(p, TaskModel::START_DATE@, &self.start_date, PostgresCmp::Equal);
        lemma_optional_filter_grows(p, TaskModel::START_TIME@, &self.start_time, PostgresCmp::Equal);
        let p = with_optional_filter(p, TaskModel::START_TIME@, &self.start_time, PostgresCmp::Equal);
        lemma_optional_filter_grows(p, TaskModel::DEADLINE@, &self.deadline, PostgresCmp::Equal);
        let p = with_optional_filter(p, TaskModel::DEADLINE@, &self.deadline, PostgresCmp::Equal);
        lemma_flag_filter_grows(p, TaskModel::COMPLETED@, self.completed);
        let p = with_flag_filter(p, TaskModel::COMPLETED@, self.completed);
        lemma_flag_filter_grows(p, TaskModel::LOGGED@, self.logged);
        let p = with_flag_filter(p, TaskModel::LOGGED@, self.logged);
        lemma_flag_filter_grows(p, TaskModel::TRASHED@, self.trashed);
        let p = with_flag_filter(p, TaskModel::TRASHED@, self.trashed);
        lemma_optional_filter_grows(p, TaskModel::AREA_ID@, &self.area_id, PostgresCmp::Equal);
        let p = with_optional_filter(p, TaskModel::AREA_ID@, &self.area_id, PostgresCmp::Equal);
        lemma_optional_filter_grows(p, TaskModel::PROJECT_ID@, &self.project_id, PostgresCmp::Equal);
    }

    fn add_to_query(&'a self, builder: &mut SQLQueryBuilder<SqlParam<'a>>) {
        builder.set_table(TaskModel::TABLE);
        add_optional_filter(builder, TaskModel::TITLE, &self.title, PostgresCmp::Like);
        add_optional_filter(builder, TaskModel::NOTES, &self.notes, PostgresCmp::Like);
        add_optional_filter(builder, TaskModel::START_DATE, &self.start_date, PostgresCmp::Equal);
        add_optional_filter(builder, TaskModel::START_TIME, &self.start_time, PostgresCmp::Equal);
        add_optional_filter(builder, TaskModel::DEADLINE, &self.deadline, PostgresCmp::Equal);
        add_flag_filter(builder, TaskModel::COMPLETED, self.completed);
        add_flag_filter(builder, TaskModel::LOGGED, self.logged);
        add_flag_filter(builder, TaskModel::TRASHED, self.trashed);
        add_optional_filter(builder, TaskModel::AREA_ID, &self.area_id, PostgresCmp::Equal);
        add_optional_filter(builder, TaskModel::PROJECT_ID, &self.project_id, PostgresCmp::Equal);
    }
}

/// A change that sets a flag writes the value of the builder's first column
/// (the caller's change time) into it: with that column in place the body
/// can always be added, and each flag set to `true` writes its column with
/// that value.
pub proof fn law_set_flags_copy_first_column<'a>(schema: &'a UpdateTaskSchema, parts: QueryParts<SqlParam<'a>>)
    requires
        parts.columns.len() > 0,
    ensures
        schema.can_add(parts),
        schema.completed == Some(true) ==> schema.query_added(parts).columns.contains(
            (TaskModel::COMPLETED@, parts.columns[0].1),
        ),
        schema.logged == Some(true) ==> schema.query_added(parts).columns.contains(
            (TaskModel::LOGGED@, parts.columns[0].1),
        ),
        schema.trashed == Some(true) ==> schema.query_added(parts).columns.contains(
            (TaskModel::TRASHED@, parts.columns[0].1),
        ),
{
    schema.lemma_can_add(parts);
    let p = parts.with_table(TaskModel::TABLE@);
    lemma_optional_column_keeps(p, TaskModel::TITLE@, update_param(&schema.title));
    let p1 = with_optional_column(p, TaskModel::TITLE@, update_param(&schema.title));
    lemma_optional_column_keeps(p1, TaskModel::NOTES@, update_param(&schema.notes));
    let p2 = with_optional_column(p1, TaskModel::NOTES@, update_param(&schema.notes));
    lemma_optional_column_keeps(p2, TaskModel::START_DATE@, update_param(&schema.start_date));
    let p3 = with_optional_column(p2, TaskModel::START_DATE@, update_param(&schema.start_date));
    lemma_optional_column_keeps(p3, TaskModel::START_TIME@, update_param(&schema.start_time));
    let p4 = with_optional_column(p3, TaskModel::START_TIME@, update_param(&schema.start_time));
    lemma_optional_column_keeps(p4, TaskModel::DEADLINE@, update_param(&schema.deadline));
    let f = schema.fields_added(parts);
    assert(f.columns[0] == parts.columns[0]);
    lemma_flag_column_keeps(f, TaskModel::COMPLETED@, schema.completed);
    let c = with_flag_column(f, TaskModel::COMPLETED@, schema.completed);
    lemma_flag_column_keeps(c, TaskModel::LOGGED@, schema.logged);
    let l = with_flag_column(c, TaskModel::LOGGED@, schema.logged);
    lemma_flag_column_keeps(l, TaskModel::TRASHED@, schema.trashed);
    let t = with_flag_column(l, TaskModel::TRASHED@, schema.trashed);
    lemma_optional_column_keeps(t, TaskModel::AREA_ID@, update_param(&schema.area_id));
    let a = with_optional_column(t, TaskModel::AREA_ID@, update_param(&schema.area_id));
    lemma_optional_column_keeps(a, TaskModel::PROJECT_ID@, update_param(&schema.project_id));
    let r = schema.query_added(parts);
    assert(c.columns[0] == parts.columns[0]);
    assert(l.columns[0] == parts.columns[0]);
    if schema.completed == Some(true) {
        assert(r.columns[f.columns.len() as int] == (TaskModel::COMPLETED@, parts.columns[0].1));
    }
    if schema.logged == Some(true) {
        assert(r.columns[c.columns.len() as int] == (TaskModel::LOGGED@, parts.columns[0].1));
    }
    if schema.trashed == Some(true) {
        assert(r.columns[l.columns.len() as int] == (TaskModel::TRASHED@, parts.columns[0].1));
    }
}

/// A search binds only compared values: every condition it adds whose
/// operator binds a value carries the value of a `Match` or `Compare`
/// filter, never the `NULL` of a presence filter or of a flag, and the
/// conditions already in the builder stay as they were.
pub proof fn law_query_binds_only_compared_values<'a>(schema: &'a QueryTaskSchema, parts: QueryParts<SqlParam<'a>>)
    ensures
        keeps_conditions(parts, schema.query_added(parts)),
        binds_compared_values(schema.query_added(parts), parts.conditions.len() as int),
{
    let n = parts.conditions.len() as int;
    let p = parts.with_table(TaskModel::TABLE@);
    lemma_optional_filter_binds_compared(p, TaskModel::TITLE@, &schema.title, PostgresCmp::Like, n);
    let p1 = with_optional_filter(p, TaskModel::TITLE@, &schema.title, PostgresCmp::Like);
    lemma_optional_filter_binds_compared(p1, TaskModel::NOTES@, &schema.notes, PostgresCmp::Like, n);
    let p2 = with_optional_filter(p1, TaskModel::NOTES@, &schema.notes, PostgresCmp::Like);
    lemma_optional_filter_binds_compared(p2, TaskModel::START_DATE@, &schema.start_date, PostgresCmp::Equal, n);
    let p3 = with_optional_filter(p2, TaskModel::START_DATE@, &schema.start_date, PostgresCmp::Equal);
    lemma_optional_filter_binds_compared(p3, TaskModel::START_TIME@, &schema.start_time, PostgresCmp::Equal, n);
    let p4 = with_optional_filter(p3, TaskModel::START_TIME@, &schema.start_time, PostgresCmp::Equal);
    lemma_optional_filter_binds_compared(p4, TaskModel::DEADLINE@, &schema.deadline, PostgresCmp::Equal, n);
    let p5 = with_optional_filter(p4, TaskModel::DEADLINE@, &schema.deadline, PostgresCmp::Equal);
    lemma_flag_filter_binds_nothing(p5, TaskModel::COMPLETED@, schema.completed, n);
    let p6 = with_flag_filter(p5, TaskModel::COMPLETED@, schema.completed);
    lemma_flag_filter_binds_nothing(p6, TaskModel::LOGGED@, schema.logged, n);
    let p7 = with_flag_filter(p6, TaskModel::LOGGED@, schema.logged);
    lemma_flag_filter_binds_nothing(p7, TaskModel::TRASHED@, schema.trashed, n);
    let p8 = with_flag_filter(p7, TaskModel::TRASHED@, schema.trashed);
    lemma_optional_filter_binds_compared(p8, TaskModel::AREA_ID@, &schema.area_id, PostgresCmp::Equal, n);
    let p9 = with_optional_filter(p8, TaskModel::AREA_ID@, &schema.area_id, PostgresCmp::Equal);
    lemma_optional_filter_binds_compared(p9, TaskModel::PROJECT_ID@, &schema.project_id, PostgresCmp::Equal, n);
}

/// A flag column keeps the columns before it in place and the conditions
/// as they are, adds its column when present (with the first column's value
/// when set, `NULL` when cleared), and adds one column exactly when present.
pub proof fn lemma_flag_column_added<'a>(parts: QueryParts<SqlParam<'a>>, column: Seq<char>, flag: Option<bool>)
    ensures
        keeps_columns(parts, with_flag_column(parts, column, flag)),
        forall|x: (Seq<char>, SqlParam<'a>)|
            parts.columns.contains(x) ==> #[trigger] with_flag_column(parts, column, flag).columns.contains(x),
        flag == Some(true) && parts.columns.len() > 0 ==> with_flag_column(parts, column, flag).columns.contains(
            (column, parts.columns[0].1),
        ),
        flag == Some(false) ==> with_flag_column(parts, column, flag).columns.contains((column, SqlParam::Null)),
        with_flag_column(parts, column, flag).columns.len() == parts.columns.len() + if flag is Some {
            1int
        } else {
            0
        },
        with_flag_column(parts, column, flag).conditions == parts.conditions,
{
    let r = with_flag_column(parts, column, flag);
    assert forall|x: (Seq<char>, SqlParam<'a>)| parts.columns.contains(x) implies #[trigger] r.columns.contains(x) by {
        let i = choose|i: int| 0 <= i < parts.columns.len() && parts.columns[i] == x;
        assert(r.columns[i] == parts.columns[i]);
    }
    if flag is Some {
        assert(r.columns[parts.columns.len() as int] == r.columns.last());
    }
}

/// A flag filter keeps the conditions before it and the columns as they
/// are, asks for a set column when `true` and an unset one when `false`,
/// and adds one condition exactly when present.
pub proof fn lemma_flag_filter_added<'a>(parts: QueryParts<SqlParam<'a>>, column: Seq<char>, flag: Option<bool>)
    ensures
        forall|x: (Seq<char>, PostgresCmp, SqlParam<'a>)|
            parts.conditions.contains(x) ==> #[trigger] with_flag_filter(parts, column, flag).conditions.contains(x),
        flag == Some(true) ==> with_flag_filter(parts, column, flag).conditions.contains(
            (column, PostgresCmp::NotNull, SqlParam::Null),
        ),
        flag == Some(false) ==> with_flag_filter(parts, column, flag).conditions.contains(
            (column, PostgresCmp::IsNull, SqlParam::Null),
        ),
        with_flag_filter(parts, column, flag).conditions.len() == parts.conditions.len() + if flag is Some {
            1int
        } else {
            0
        },
        with_flag_filter(parts, column, flag).columns == parts.columns,
{
    let r = with_flag_filter(parts, column, flag);
    assert forall|x: (Seq<char>, PostgresCmp, SqlParam<'a>)| parts.conditions.contains(x) implies #[trigger] r.conditions.contains(
        x,
    ) by {
        let i = choose|i: int| 0 <= i < parts.conditions.len() && parts.conditions[i] == x;
        assert(r.conditions[i] == parts.conditions[i]);
    }
    if flag is Some {
        assert(r.conditions[parts.conditions.len() as int] == r.conditions.last());
    }
}

/// The body of a new task adds, to the columns already there, one column
/// for each field given, under that field's own column with its value, and
/// no other column; it adds no condition.
pub proof fn law_create_adds_every_field<'a>(s: &'a CreateTaskSchema, parts: QueryParts<SqlParam<'a>>)
    ensures
        s.query_added(parts).columns.len() == parts.columns.len() + (if s.title is Some { 1int } else { 0 }) + (if s.notes is Some { 1int } else { 0 }) + (if s.start_date is Some { 1int } else { 0 }) + (if s.start_time is Some { 1int } else { 0 }) + (if s.deadline is Some { 1int } else { 0 }) + (if s.area_id is Some { 1int } else { 0 }) + (if s.project_id is Some { 1int } else { 0 }),
        forall|x: (Seq<char>, SqlParam<'a>)| parts.columns.contains(x) ==> #[trigger] s.query_added(parts).columns.contains(x),
        s.query_added(parts).conditions == parts.conditions,
        s.title matches Some(v) ==> s.query_added(parts).columns.contains((TaskModel::TITLE@, SqlParam::Text(&v))),
        s.notes matches Some(v) ==> s.query_added(parts).columns.contains((TaskModel::NOTES@, SqlParam::Text(&v))),
        s.start_date matches Some(v) ==> s.query_added(parts).columns.contains((TaskModel::START_DATE@, SqlParam::Date(&v))),
        s.start_time matches Some(v) ==> s.query_added(parts).columns.contains((TaskModel::START_TIME@, SqlParam::Time(&v))),
        s.deadline matches Some(v) ==> s.query_added(parts).columns.contains((TaskModel::DEADLINE@, SqlParam::Date(&v))),
        s.area_id matches Some(v) ==> s.query_added(parts).columns.contains((TaskModel::AREA_ID@, SqlParam::Id(&v))),
        s.project_id matches Some(v) ==> s.query_added(parts).columns.contains((TaskModel::PROJECT_ID@, SqlParam::Id(&v))),
{
    let p = parts.with_table(TaskModel::TABLE@);
    lemma_column_added(p, TaskModel::TITLE@, optional_param(&s.title));
    let p = with_optional_column(p, TaskModel::TITLE@, optional_param(&s.title));
    lemma_column_added(p, TaskModel::NOTES@, optional_param(&s.notes));
    let p = with_optional_column(p, TaskModel::NOTES@, optional_param(&s.notes));
    lemma_column_added(p, TaskModel::START_DATE@, optional_param(&s.start_date));
    let p = with_optional_column(p, TaskModel::START_DATE@, optional_param(&s.start_date));
    lemma_column_added(p, TaskModel::START_TIME@, optional_param(&s.start_time));
    let p = with_optional_column(p, TaskModel::START_TIME@, optional_param(&s.start_time));
    lemma_column_added(p, TaskModel::DEADLINE@, optional_param(&s.deadline));
    let p = with_optional_column(p, TaskModel::DEADLINE@, optional_param(&s.deadline));
    lemma_column_added(p, TaskModel::AREA_ID@, optional_param(&s.area_id));
    let p = with_optional_column(p, TaskModel::AREA_ID@, optional_param(&s.area_id));
    lemma_column_added(p, TaskModel::PROJECT_ID@, optional_param(&s.project_id));
    let p = with_optional_column(p, TaskModel::PROJECT_ID@, optional_param(&s.project_id));
    assert(s.query_added(parts) == p);
}

/// The body of a change to a task adds, to the columns already there, one
/// column for each field it sets or clears, under that field's own column:
/// the new value for a field set, `NULL` for a field cleared, and nothing
/// for a field kept; a flag set takes the value of the first column already
/// there, a flag cleared `NULL`. It adds no condition.
pub proof fn law_update_writes_every_change<'a>(s: &'a UpdateTaskSchema, parts: QueryParts<SqlParam<'a>>)
    ensures
        s.query_added(parts).columns.len() == parts.columns.len() + writes_count(&s.title) + writes_count(&s.notes) + writes_count(&s.start_date) + writes_count(&s.start_time) + writes_count(&s.deadline) + (if s.completed is Some { 1int } else { 0 }) + (if s.logged is Some { 1int } else { 0 }) + (if s.trashed is Some { 1int } else { 0 }) + writes_count(&s.area_id) + writes_count(&s.project_id),
        forall|x: (Seq<char>, SqlParam<'a>)| parts.columns.contains(x) ==> #[trigger] s.query_added(parts).columns.contains(x),
        s.query_added(parts).conditions == parts.conditions,
        s.title matches Some(UpdateMethod::Change(v)) ==> s.query_added(parts).columns.contains((TaskModel::TITLE@, SqlParam::Text(&v))),
        s.title == Some(UpdateMethod::<String>::Remove(true)) ==> s.query_added(parts).columns.contains((TaskModel::TITLE@, SqlParam::Null)),
        s.notes matches Some(UpdateMethod::Change(v)) ==> s.query_added(parts).columns.contains((TaskModel::NOTES@, SqlParam::Text(&v))),
        s.notes == Some(UpdateMethod::<String>::Remove(true)) ==> s.query_added(parts).columns.contains((TaskModel::NOTES@, SqlParam::Null)),
        s.start_date matches Some(UpdateMethod::Change(v)) ==> s.query_added(parts).columns.contains((TaskModel::START_DATE@, SqlParam::Date(&v))),
        s.start_date == Some(UpdateMethod::<Date>::Remove(true)) ==> s.query_added(parts).columns.contains((TaskModel::START_DATE@, SqlParam::Null)),
        s.start_time matches Some(UpdateMethod::Change(v)) ==> s.query_added(parts).columns.contains((TaskModel::START_TIME@, SqlParam::Time(&v))),
        s.start_time == Some(UpdateMethod::<Time>::Remove(true)) ==> s.query_added(parts).columns.contains((TaskModel::START_TIME@, SqlParam::Null)),
        s.deadline matches Some(UpdateMethod::Change(v)) ==> s.query_added(parts).columns.contains((TaskModel::DEADLINE@, SqlParam::Date(&v))),
        s.deadline == Some(UpdateMethod::<Date>::Remove(true)) ==> s.query_added(parts).columns.contains((TaskModel::DEADLINE@, SqlParam::Null)),
        s.completed == Some(true) && parts.columns.len() > 0 ==> s.query_added(parts).columns.contains((TaskModel::COMPLETED@, parts.columns[0].1)),
        s.completed == Some(false) ==> s.query_added(parts).columns.contains((TaskModel::COMPLETED@, SqlParam::Null)),
        s.logged == Some(true) && parts.columns.len() > 0 ==> s.query_added(parts).columns.contains((TaskModel::LOGGED@, parts.columns[0].1)),
        s.logged == Some(false) ==> s.query_added(parts).columns.contains((TaskModel::LOGGED@, SqlParam::Null)),
        s.trashed == Some(true) && parts.columns.len() > 0 ==> s.query_added(parts).columns.contains((TaskModel::TRASHED@, parts.columns[0].1)),
        s.trashed == Some(false) ==> s.query_added(parts).columns.contains((TaskModel::TRASHED@, SqlParam::Null)),
        s.area_id matches Some(UpdateMethod::Change(v)) ==> s.query_added(parts).columns.contains((TaskModel::AREA_ID@, SqlParam::Id(&v))),
        s.area_id == Some(UpdateMethod::<Uuid>::Remove(true)) ==> s.query_added(parts).columns.contains((TaskModel::AREA_ID@, SqlParam::Null)),
        s.project_id matches Some(UpdateMethod::Change(v)) ==> s.query_added(parts).columns.contains((TaskModel::PROJECT_ID@, SqlParam::Id(&v))),
        s.project_id == Some(UpdateMethod::<Uuid>::Remove(true)) ==> s.query_added(parts).columns.contains((TaskModel::PROJECT_ID@, SqlParam::Null)),
{
    let p = parts.with_table(TaskModel::TABLE@);
    lemma_column_added(p, TaskModel::TITLE@, update_param(&s.title));
    let p = with_optional_column(p, TaskModel::TITLE@, update_param(&s.title));
    lemma_column_added(p, TaskModel::NOTES@, update_param(&s.notes));
    let p = with_optional_column(p, TaskModel::NOTES@, update_param(&s.notes));
    lemma_column_added(p, TaskModel::START_DATE@, update_param(&s.start_date));
    let p = with_optional_column(p, TaskModel::START_DATE@, update_param(&s.start_date));
    lemma_column_added(p, TaskModel::START_TIME@, update_param(&s.start_time));
    let p = with_optional_column(p, TaskModel::START_TIME@, update_param(&s.start_time));
    lemma_column_added(p, TaskModel::DEADLINE@, update_param(&s.deadline));
    let p = with_optional_column(p, TaskModel::DEADLINE@, update_param(&s.deadline));
    assert(parts.columns.len() > 0 ==> p.columns[0] == parts.columns[0]);
    lemma_flag_column_added(p, TaskModel::COMPLETED@, s.completed);
    let p = with_flag_column(p, TaskModel::COMPLETED@, s.completed);
    assert(parts.columns.len() > 0 ==> p.columns[0] == parts.columns[0]);
    lemma_flag_column_added(p, TaskModel::LOGGED@, s.logged);
    let p = with_flag_column(p, TaskModel::LOGGED@, s.logged);
    assert(parts.columns.len() > 0 ==> p.columns[0] == parts.columns[0]);
    lemma_flag_column_added(p, TaskModel::TRASHED@, s.trashed);
    let p = with_flag_column(p, TaskModel::TRASHED@, s.trashed);
    lemma_column_added(p, TaskModel::AREA_ID@, update_param(&s.area_id));
    let p = with_optional_column(p, TaskModel::AREA_ID@, update_param(&s.area_id));
    lemma_column_added(p, TaskModel::PROJECT_ID@, update_param(&s.project_id));
    let p = with_optional_column(p, TaskModel::PROJECT_ID@, update_param(&s.project_id));
    assert(s.query_added(parts) == p);
}

/// A search for tasks adds, to the conditions already there, one condition
/// for each filter given, on that field's own column: a match or a
/// comparison with the value given, or a test for a set or unset column;
/// and no other condition. It adds no column.
pub proof fn law_query_filters_every_field<'a>(s: &'a QueryTaskSchema, parts: QueryParts<SqlParam<'a>>)
    ensures
        s.query_added(parts).conditions.len() == parts.conditions.len() + (if s.title is Some { 1int } else { 0 }) + (if s.notes is Some { 1int } else { 0 }) + (if s.start_date is Some { 1int } else { 0 }) + (if s.start_time is Some { 1int } else { 0 }) + (if s.deadline is Some { 1int } else { 0 }) + (if s.completed is Some { 1int } else { 0 }) + (if s.logged is Some { 1int } else { 0 }) + (if s.trashed is Some { 1int } else { 0 }) + (if s.area_id is Some { 1int } else { 0 }) + (if s.project_id is Some { 1int } else { 0 }),
        forall|x: (Seq<char>, PostgresCmp, SqlParam<'a>)| parts.conditions.contains(x) ==> #[trigger] s.query_added(parts).conditions.contains(x),
        s.query_added(parts).columns == parts.columns,
        s.title matches Some(QueryMethod::Match(v)) ==> s.query_added(parts).conditions.contains((TaskModel::TITLE@, PostgresCmp::Like, SqlParam::Text(&v))),
        s.title matches Some(QueryMethod::Compare(v, k)) ==> s.query_added(parts).conditions.contains((TaskModel::TITLE@, k.operator(), SqlParam::Text(&v))),
        s.title == Some(QueryMethod::<String>::NotNull(true)) ==> s.query_added(parts).conditions.contains((TaskModel::TITLE@, PostgresCmp::NotNull, SqlParam::Null)),
        s.title == Some(QueryMethod::<String>::NotNull(false)) ==> s.query_added(parts).conditions.contains((TaskModel::TITLE@, PostgresCmp::IsNull, SqlParam::Null)),
        s.notes matches Some(QueryMethod::Match(v)) ==> s.query_added(parts).conditions.contains((TaskModel::NOTES@, PostgresCmp::Like, SqlParam::Text(&v))),
        s.notes matches Some(QueryMethod::Compare(v, k)) ==> s.query_added(parts).conditions.contains((TaskModel::NOTES@, k.operator(), SqlParam::Text(&v))),
        s.notes == Some(QueryMethod::<String>::NotNull(true)) ==> s.query_added(parts).conditions.contains((TaskModel::NOTES@, PostgresCmp::NotNull, SqlParam::Null)),
        s.notes == Some(QueryMethod::<String>::NotNull(false)) ==> s.query_added(parts).conditions.contains((TaskModel::NOTES@, PostgresCmp::IsNull, SqlParam::Null)),
        s.start_date matches Some(QueryMethod::Match(v)) ==> s.query_added(parts).conditions.contains((TaskModel::START_DATE@, PostgresCmp::Equal, SqlParam::Date(&v))),
        s.start_date matches Some(QueryMethod::Compare(v, k)) ==> s.query_added(parts).conditions.contains((TaskModel::START_DATE@, k.operator(), SqlParam::Date(&v))),
        s.start_date == Some(QueryMethod::<Date>::NotNull(true)) ==> s.query_added(parts).conditions.contains((TaskModel::START_DATE@, PostgresCmp::NotNull, SqlParam::Null)),
        s.start_date == Some(QueryMethod::<Date>::NotNull(false)) ==> s.query_added(parts).conditions.contains((TaskModel::START_DATE@, PostgresCmp::IsNull, SqlParam::Null)),
        s.start_time matches Some(QueryMethod::Match(v)) ==> s.query_added(parts).conditions.contains((TaskModel::START_TIME@, PostgresCmp::Equal, SqlParam::Time(&v))),
        s.start_time matches Some(QueryMethod::Compare(v, k)) ==> s.query_added(parts).conditions.contains((TaskModel::START_TIME@, k.operator(), SqlParam::Time(&v))),
        s.start_time == Some(QueryMethod::<Time>::NotNull(true)) ==> s.query_added(parts).conditions.contains((TaskModel::START_TIME@, PostgresCmp::NotNull, SqlParam::Null)),
        s.start_time == Some(QueryMethod::<Time>::NotNull(false)) ==> s.query_added(parts).conditions.contains((TaskModel::START_TIME@, PostgresCmp::IsNull, SqlParam::Null)),
        s.deadline matches Some(QueryMethod::Match(v)) ==> s.query_added(parts).conditions.contains((TaskModel::DEADLINE@, PostgresCmp::Equal, SqlParam::Date(&v))),
        s.deadline matches Some(QueryMethod::Compare(v, k)) ==> s.query_added(parts).conditions.contains((TaskModel::DEADLINE@, k.operator(), SqlParam::Date(&v))),
        s.deadline == Some(QueryMethod::<Date>::NotNull(true)) ==> s.query_added(parts).conditions.contains((TaskModel::DEADLINE@, PostgresCmp::NotNull, SqlParam::Null)),
        s.deadline == Some(QueryMethod::<Date>::NotNull(false)) ==> s.query_added(parts).conditions.contains((TaskModel::DEADLINE@, PostgresCmp::IsNull, SqlParam::Null)),
{
    let p = parts.with_table(TaskModel::TABLE@);
    lemma_filter_added(p, TaskModel::TITLE@, &s.title, PostgresCmp::Like);
    let p = with_optional_filter(p, TaskModel::TITLE@, &s.title, PostgresCmp::Like);
    lemma_filter_added(p, TaskModel::NOTES@, &s.notes, PostgresCmp::Like);
    let p = with_optional_filter(p, TaskModel::NOTES@, &s.notes, PostgresCmp::Like);
    lemma_filter_added(p, TaskModel::START_DATE@, &s.start_date, PostgresCmp::Equal);
    let p = with_optional_filter(p, TaskModel::START_DATE@, &s.start_date, PostgresCmp::Equal);
    lemma_filter_added(p, TaskModel::START_TIME@, &s.start_time, PostgresCmp::Equal);
    let p = with_optional_filter(p, TaskModel::START_TIME@, &s.start_time, PostgresCmp::Equal);
    lemma_filter_added(p, TaskModel::DEADLINE@, &s.deadline, PostgresCmp::Equal);
    let p = with_optional_filter(p, TaskModel::DEADLINE@, &s.deadline, PostgresCmp::Equal);
    lemma_flag_filter_added(p, TaskModel::COMPLETED@, s.completed);
    let p = with_flag_filter(p, TaskModel::COMPLETED@, s.completed);
    lemma_flag_filter_added(p, TaskModel::LOGGED@, s.logged);
    let p = with_flag_filter(p, TaskModel::LOGGED@, s.logged);
    lemma_flag_filter_added(p, TaskModel::TRASHED@, s.trashed);
    let p = with_flag_filter(p, TaskModel::TRASHED@, s.trashed);
    lemma_filter_added(p, TaskModel::AREA_ID@, &s.area_id, PostgresCmp::Equal);
    let p = with_optional_filter(p, TaskModel::AREA_ID@, &s.area_id, PostgresCmp::Equal);
    lemma_filter_added(p, TaskModel::PROJECT_ID@, &s.project_id, PostgresCmp::Equal);
    let p = with_optional_filter(p, TaskModel::PROJECT_ID@, &s.project_id, PostgresCmp::Equal);
    assert(s.query_added(parts) == p);
}

/// A search for tasks tests each flag given on its own column, for a set
/// column when `true` and an unset one when `false`, and matches or
/// compares each project and area given on its own column with the value
/// given.
pub proof fn law_query_filters_flags_and_links<'a>(s: &'a QueryTaskSchema, parts: QueryParts<SqlParam<'a>>)
    ensures
        s.completed == Some(true) ==> s.query_added(parts).conditions.contains((TaskModel::COMPLETED@, PostgresCmp::NotNull, SqlParam::Null)),
        s.completed == Some(false) ==> s.query_added(parts).conditions.contains((TaskModel::COMPLETED@, PostgresCmp::IsNull, SqlParam::Null)),
        s.logged == Some(true) ==> s.query_added(parts).conditions.contains((TaskModel::LOGGED@, PostgresCmp::NotNull, SqlParam::Null)),
        s.logged == Some(false) ==> s.query_added(parts).conditions.contains((TaskModel::LOGGED@, PostgresCmp::IsNull, SqlParam::Null)),
        s.trashed == Some(true) ==> s.query_added(parts).conditions.contains((TaskModel::TRASHED@, PostgresCmp::NotNull, SqlParam::Null)),
        s.trashed == Some(false) ==> s.query_added(parts).conditions.contains((TaskModel::TRASHED@, PostgresCmp::IsNull, SqlParam::Null)),
        s.area_id matches Some(QueryMethod::Match(v)) ==> s.query_added(parts).conditions.contains((TaskModel::AREA_ID@, PostgresCmp::Equal, SqlParam::Id(&v))),
        s.area_id matches Some(QueryMethod::Compare(v, k)) ==> s.query_added(parts).conditions.contains((TaskModel::AREA_ID@, k.operator(), SqlParam::Id(&v))),
        s.area_id == Some(QueryMethod::<Uuid>::NotNull(true)) ==> s.query_added(parts).conditions.contains((TaskModel::AREA_ID@, PostgresCmp::NotNull, SqlParam::Null)),
        s.area_id == Some(QueryMethod::<Uuid>::NotNull(false)) ==> s.query_added(parts).conditions.contains((TaskModel::AREA_ID@, PostgresCmp::IsNull, SqlParam::Null)),
        s.project_id matches Some(QueryMethod::Match(v)) ==> s.query_added(parts).conditions.contains((TaskModel::PROJECT_ID@, PostgresCmp::Equal, SqlParam::Id(&v))),
        s.project_id matches Some(QueryMethod::Compare(v, k)) ==> s.query_added(parts).conditions.contains((TaskModel::PROJECT_ID@, k.operator(), SqlParam::Id(&v))),
        s.project_id == Some(QueryMethod::<Uuid>::NotNull(true)) ==> s.query_added(parts).conditions.contains((TaskModel::PROJECT_ID@, PostgresCmp::NotNull, SqlParam::Null)),
        s.project_id == Some(QueryMethod::<Uuid>::NotNull(false)) ==> s.query_added(parts).conditions.contains((TaskModel::PROJECT_ID@, PostgresCmp::IsNull, SqlParam::Null)),
{
    let p = parts.with_table(TaskModel::TABLE@);
    lemma_filter_added(p, TaskModel::TITLE@, &s.title, PostgresCmp::Like);
    let p = with_optional_filter(p, TaskModel::TITLE@, &s.title, PostgresCmp::Like);
    lemma_filter_added(p, TaskModel::NOTES@, &s.notes, PostgresCmp::Like);
    let p = with_optional_filter(p, TaskModel::NOTES@, &s.notes, PostgresCmp::Like);
    lemma_filter_added(p, TaskModel::START_DATE@, &s.start_date, PostgresCmp::Equal);
    let p = with_optional_filter(p, TaskModel::START_DATE@, &s.start_date, PostgresCmp::Equal);
    lemma_filter_added(p, TaskModel::START_TIME@, &s.start_time, PostgresCmp::Equal);
    let p = with_optional_filter(p, TaskModel::START_TIME@, &s.start_time, PostgresCmp::Equal);
    lemma_filter_added(p, TaskModel::DEADLINE@, &s.deadline, PostgresCmp::Equal);
    let p = with_optional_filter(p, TaskModel::DEADLINE@, &s.deadline, PostgresCmp::Equal);
    lemma_flag_filter_added(p, TaskModel::COMPLETED@, s.completed);
    let p = with_flag_filter(p, TaskModel::COMPLETED@, s.completed);
    lemma_flag_filter_added(p, TaskModel::LOGGED@, s.logged);
    let p = with_flag_filter(p, TaskModel::LOGGED@, s.logged);
    lemma_flag_filter_added(p, TaskModel::TRASHED@, s.trashed);
    let p = with_flag_filter(p, TaskModel::TRASHED@, s.trashed);
    lemma_filter_added(p, TaskModel::AREA_ID@, &s.area_id, PostgresCmp::Equal);
    let p = with_optional_filter(p, TaskModel::AREA_ID@, &s.area_id, PostgresCmp::Equal);
    lemma_filter_added(p, TaskModel::PROJECT_ID@, &s.project_id, PostgresCmp::Equal);
    let p = with_optional_filter(p, TaskModel::PROJECT_ID@, &s.project_id, PostgresCmp::Equal);
    assert(s.query_added(parts) == p);
}

} // verus!
