//! Task requests and the statements they render.

use vstd::prelude::*;
use crate::models::db::{TaskModel, TaskTagModel};
use crate::models::request::{
    law_present_keeps_pairs,
    Assembly, QueryMethod, UpdateMethod, assembly_of, assignment, by_ids, by_ids_text, filter_of,
    flag_filter_of, insert_returning, insert_returning_text, like_condition, like_pattern,
    optional_filter_renders, present_param, push_filter, push_flag_filter, push_present,
    push_update, select_where, select_where_text, update_of, update_returning,
    update_returning_text, with_filter, with_present, with_update, names_column, on_column,
    lemma_on_own_column, lemma_on_column_extends, lemma_names_after_push, lemma_filter_names,
    lemma_update_names, binds_at, pairs, lemma_present_pairs,
};
use crate::storage::db::{DBQuery, DBSubquery};
use crate::text::{decimal, push_decimal, views};
use crate::values::{Date, SqlParam, Time, Timestamp, Uuid};

verus! {

/// A new task.
pub struct TaskCreateRequest {
    pub title: Option<String>,
    pub notes: Option<String>,
    pub start_date: Option<Date>,
    pub start_time: Option<Time>,
    pub deadline: Option<Date>,
    pub area_id: Option<Uuid>,
    pub project_id: Option<Uuid>,
    pub user_id: Option<Uuid>,
    pub tag_ids: Option<Vec<Uuid>>,
}

impl TaskCreateRequest {
    pub fn set_user_id(&mut self, id: Uuid) -> (r: &mut Self)
        ensures
            *r == (Self { user_id: Some(id), ..*old(self) }),
            *final(self) == *final(r),
    {
        self.user_id = Some(id);
        self
    }

    /// The columns and parameters of the insert.
    pub open spec fn assembly(&self) -> Assembly<'_> {
        let a = Assembly {
            pieces: seq![TaskModel::USER_ID@],
            params: seq![SqlParam::Id(&self.user_id->0)],
            next: 0,
        };
        let a = with_present(a, TaskModel::TITLE@, present_param(&self.title));
        let a = with_present(a, TaskModel::NOTES@, present_param(&self.notes));
        let a = with_present(a, TaskModel::START_DATE@, present_param(&self.start_date));
        let a = with_present(a, TaskModel::START_TIME@, present_param(&self.start_time));
        let a = with_present(a, TaskModel::DEADLINE@, present_param(&self.deadline));
        let a = with_present(a, TaskModel::AREA_ID@, present_param(&self.area_id));
        with_present(a, TaskModel::PROJECT_ID@, present_param(&self.project_id))
    }
}

impl DBQuery for TaskCreateRequest {
    open spec fn query_ready(&self) -> bool {
        self.user_id is Some
    }

    open spec fn query_text(&self) -> Seq<char> {
        insert_returning_text(
            TaskModel::TABLE@,
            self.assembly().pieces,
            self.assembly().params.len(),
            TaskModel::ID@,
        )
    }

    open spec fn query_params(&self) -> Seq<SqlParam<'_>> {
        self.assembly().params
    }

    fn get_query(&self) -> (r: (String, Vec<SqlParam<'_>>)) {
        let mut columns: Vec<String> = Vec::new();
        columns.push(TaskModel::USER_ID.to_owned());
        let mut params: Vec<SqlParam<'_>> = Vec::new();
        params.push(SqlParam::Id(self.user_id.as_ref().unwrap()));
        assert(assembly_of(columns@, params@, 0) =~= Assembly {
            pieces: seq![TaskModel::USER_ID@],
            params: seq![SqlParam::Id(&self.user_id->0)],
            next: 0,
        });
        push_present(&mut columns, &mut params, TaskModel::TITLE, &self.title);
        push_present(&mut columns, &mut params, TaskModel::NOTES, &self.notes);
        push_present(&mut columns, &mut params, TaskModel::START_DATE, &self.start_date);
        push_present(&mut columns, &mut params, TaskModel::START_TIME, &self.start_time);
        push_present(&mut columns, &mut params, TaskModel::DEADLINE, &self.deadline);
        push_present(&mut columns, &mut params, TaskModel::AREA_ID, &self.area_id);
        push_present(&mut columns, &mut params, TaskModel::PROJECT_ID, &self.project_id);
        let statement = insert_returning(TaskModel::TABLE, &columns, params.len(), TaskModel::ID);
        (statement, params)
    }
}

/// `INSERT INTO link_table (owner_column,tag_column) SELECT ...`: links the
/// row `$1` to every tag of the list `$2`.
pub open spec fn link_tags_text(table: Seq<char>, owner: Seq<char>, tag: Seq<char>) -> Seq<char> {
    "INSERT INTO "@ + table + " ("@ + owner + ","@ + tag
        + ") SELECT T.id, R.id FROM (SELECT $1::uuid AS id) T CROSS JOIN (SELECT UNNEST($2::uuid[]) AS id) R"@
}

/// Renders the statement that links a row to a list of tags.
pub fn link_tags(table: &str, owner: &str, tag: &str) -> (r: String)
    ensures
        r@ == link_tags_text(table@, owner@, tag@),
{
    let mut s = String::new();
    s.append("INSERT INTO ");
    s.append(table);
    s.append(" (");
    s.append(owner);
    s.append(",");
    s.append(tag);
    s.append(
        ") SELECT T.id, R.id FROM (SELECT $1::uuid AS id) T CROSS JOIN (SELECT UNNEST($2::uuid[]) AS id) R",
    );
    s
}

impl DBSubquery for TaskCreateRequest {
    open spec fn subquery_ready(&self) -> bool {
        self.tag_ids is Some
    }

    open spec fn subquery_text(&self) -> Seq<char> {
        link_tags_text(TaskTagModel::TABLE@, TaskTagModel::TASK_ID@, TaskTagModel::TAG_ID@)
    }

    open spec fn subquery_params<'a>(&'a self, uuid: &'a Uuid) -> Seq<SqlParam<'a>> {
        seq![SqlParam::Id(uuid), SqlParam::Ids(&self.tag_ids->0)]
    }

    fn get_subquery<'a>(&'a self, uuid: &'a Uuid) -> (r: (String, Vec<SqlParam<'a>>)) {
        let mut params: Vec<SqlParam<'a>> = Vec::new();
        params.push(SqlParam::Id(uuid));
        params.push(SqlParam::Ids(self.tag_ids.as_ref().unwrap()));
        let statement = link_tags(TaskTagModel::TABLE, TaskTagModel::TASK_ID, TaskTagModel::TAG_ID);
        assert(params@ =~= self.subquery_params(uuid));
        (statement, params)
    }
}

/// The task with the given identifier, of the given owner.
pub struct TaskRetrieveRequest {
    pub task_id: Option<Uuid>,
    pub user_id: Option<Uuid>,
}

impl Default for TaskRetrieveRequest {
    fn default() -> (r: Self)
        ensures
            r.task_id is None,
            r.user_id is None,
    {
        Self { task_id: None, user_id: None }
    }
}

impl TaskRetrieveRequest {
    pub fn set_task_id(&mut self, id: Uuid) -> (r: &mut Self)
        ensures
            *r == (Self { task_id: Some(id), ..*old(self) }),
            *final(self) == *final(r),
    {
        self.task_id = Some(id);
        self
    }

    pub fn set_user_id(&mut self, id: Uuid) -> (r: &mut Self)
        ensures
            *r == (Self { user_id: Some(id), ..*old(self) }),
            *final(self) == *final(r),
    {
        self.user_id = Some(id);
        self
    }
}

impl DBQuery for TaskRetrieveRequest {
    open spec fn query_ready(&self) -> bool {
        self.task_id is Some && self.user_id is Some
    }

    open spec fn query_text(&self) -> Seq<char> {
        by_ids_text("SELECT * FROM "@, TaskModel::TABLE@, TaskModel::ID@, TaskModel::USER_ID@)
    }

    open spec fn query_params(&self) -> Seq<SqlParam<'_>> {
        seq![SqlParam::Id(&self.task_id->0), SqlParam::Id(&self.user_id->0)]
    }

    fn get_query(&self) -> (r: (String, Vec<SqlParam<'_>>)) {
        let mut params: Vec<SqlParam<'_>> = Vec::new();
        params.push(SqlParam::Id(self.task_id.as_ref().unwrap()));
        params.push(SqlParam::Id(self.user_id.as_ref().unwrap()));
        let statement = by_ids("SELECT * FROM ", TaskModel::TABLE, TaskModel::ID, TaskModel::USER_ID);
        assert(params@ =~= self.query_params());
        (statement, params)
    }
}

/// Changes to a task.
pub struct TaskUpdateRequest {
    pub task_id: Option<Uuid>,
    pub title: Option<UpdateMethod<String>>,
    pub notes: Option<UpdateMethod<String>>,
    pub start_date: Option<UpdateMethod<Date>>,
    pub start_time: Option<UpdateMethod<Time>>,
    pub deadline: Option<UpdateMethod<Date>>,
    pub completed: Option<bool>,
    pub logged: Option<bool>,
    pub trashed: Option<bool>,
    pub area_id: Option<UpdateMethod<Uuid>>,
    pub project_id: Option<UpdateMethod<Uuid>>,
    pub user_id: Option<Uuid>,
    pub tag_ids: Option<UpdateMethod<Vec<Uuid>>>,
    pub timestamp: Timestamp,
}

/// After a flag of a task update: `Some(true)` sets the column to the
/// request's time (`$3`), `Some(false)` renders `column IS NULL`.
pub open spec fn with_flag<'a>(a: Assembly<'a>, column: Seq<char>, flag: Option<bool>) -> Assembly<'a> {
    match flag {
        Some(true) => Assembly { pieces: a.pieces.push(column + "=$"@ + decimal(3)), ..a },
        Some(false) => Assembly { pieces: a.pieces.push(column + " IS NULL"@), ..a },
        None => a,
    }
}

fn push_flag(updates: &mut Vec<String>, column: &str, flag: Option<bool>)
    ensures
        views(final(updates)@) == with_flag(
            Assembly { pieces: views(old(updates)@), params: Seq::empty(), next: 0 },
            column@,
            flag,
        ).pieces,
{
    if let Some(b) = flag {
        if b {
            updates.push(assignment(column, 3));
        } else {
            let mut s = String::new();
            s.append(column);
            s.append(" IS NULL");
            updates.push(s);
        }
    }
    assert(views(updates@) =~= with_flag(
        Assembly { pieces: views(old(updates)@), params: Seq::empty(), next: 0 },
        column@,
        flag,
    ).pieces);
}

impl TaskUpdateRequest {
    pub fn set_task_id(&mut self, id: Uuid) -> (r: &mut Self)
        ensures
            *r == (Self { task_id: Some(id), ..*old(self) }),
            *final(self) == *final(r),
    {
        self.task_id = Some(id);
        self
    }

    pub fn set_user_id(&mut self, id: Uuid) -> (r: &mut Self)
        ensures
            *r == (Self { user_id: Some(id), ..*old(self) }),
            *final(self) == *final(r),
    {
        self.user_id = Some(id);
        self
    }

    /// The assignments and parameters of the update.
    pub open spec fn assembly(&self) -> Assembly<'_> {
        let a = Assembly {
            pieces: seq![TaskModel::UPDATED@ + "=$"@ + decimal(3)],
            params: seq![
                SqlParam::Id(&self.task_id->0),
                SqlParam::Id(&self.user_id->0),
                SqlParam::Timestamp(&self.timestamp),
            ],
            next: 4,
        };
        let a = with_update(a, TaskModel::TITLE@, update_of(&self.title));
        let a = with_update(a, TaskModel::NOTES@, update_of(&self.notes));
        let a = with_update(a, TaskModel::START_DATE@, update_of(&self.start_date));
        let a = with_update(a, TaskModel::START_TIME@, update_of(&self.start_time));
        let a = with_update(a, TaskModel::DEADLINE@, update_of(&self.deadline));
        let a = with_flag(a, TaskModel::COMPLETED@, self.completed);
        let a = with_flag(a, TaskModel::LOGGED@, self.logged);
        let a = with_flag(a, TaskModel::TRASHED@, self.trashed);
        let a = with_update(a, TaskModel::AREA_ID@, update_of(&self.area_id));
        with_update(a, TaskModel::PROJECT_ID@, update_of(&self.project_id))
    }
}

impl DBQuery for TaskUpdateRequest {
    open spec fn query_ready(&self) -> bool {
        self.task_id is Some && self.user_id is Some
    }

    open spec fn query_text(&self) -> Seq<char> {
        update_returning_text(TaskModel::TABLE@, self.assembly().pieces, TaskModel::ID@, TaskModel::USER_ID@)
    }

    open spec fn query_params(&self) -> Seq<SqlParam<'_>> {
        self.assembly().params
    }

    fn get_query(&self) -> (r: (String, Vec<SqlParam<'_>>)) {
        let mut updates: Vec<String> = Vec::new();
        updates.push(assignment(TaskModel::UPDATED, 3));
        let mut params: Vec<SqlParam<'_>> = Vec::new();
        params.push(SqlParam::Id(self.task_id.as_ref().unwrap()));
        params.push(SqlParam::Id(self.user_id.as_ref().unwrap()));
        params.push(SqlParam::Timestamp(&self.timestamp));
        let n = params.len() + 1;
        assert(assembly_of(updates@, params@, n) =~= Assembly {
            pieces: seq![TaskModel::UPDATED@ + "=$"@ + decimal(3)],
            params: seq![
                SqlParam::Id(&self.task_id->0),
                SqlParam::Id(&self.user_id->0),
                SqlParam::Timestamp(&self.timestamp),
            ],
            next: 4,
        });
        let n = push_update(&mut updates, &mut params, TaskModel::TITLE, &self.title, n);
        let n = push_update(&mut updates, &mut params, TaskModel::NOTES, &self.notes, n);
        let n = push_update(&mut updates, &mut params, TaskModel::START_DATE, &self.start_date, n);
        let n = push_update(&mut updates, &mut params, TaskModel::START_TIME, &self.start_time, n);
        let n = push_update(&mut updates, &mut params, TaskModel::DEADLINE, &self.deadline, n);
        let ghost a5 = assembly_of(updates@, params@, n);
        push_flag(&mut updates, TaskModel::COMPLETED, self.completed);
        push_flag(&mut updates, TaskModel::LOGGED, self.logged);
        push_flag(&mut updates, TaskModel::TRASHED, self.trashed);
        proof {
            let a = with_flag(a5, TaskModel::COMPLETED@, self.completed);
            let a = with_flag(a, TaskModel::LOGGED@, self.logged);
            let a = with_flag(a, TaskModel::TRASHED@, self.trashed);
            assert(assembly_of(updates@, params@, n) =~= a);
        }
        let n = push_update(&mut updates, &mut params, TaskModel::AREA_ID, &self.area_id, n);
        let _ = push_update(&mut updates, &mut params, TaskModel::PROJECT_ID, &self.project_id, n);
        let statement = update_returning(TaskModel::TABLE, &updates, TaskModel::ID, TaskModel::USER_ID);
        (statement, params)
    }
}

/// Removes the tags of the row `$1`, returning its identifier as `id`.
pub open spec fn unlink_tags_text(table: Seq<char>, owner: Seq<char>, returned: Seq<char>) -> Seq<char> {
    "DELETE FROM "@ + table + " WHERE "@ + owner + "=$1 RETURNING "@ + returned
}

/// Replaces the tags of the row `$1` with the list `$2`.
pub open spec fn relink_tags_text(deleted: Seq<char>, table: Seq<char>, owner: Seq<char>, tag: Seq<char>) -> Seq<char> {
    "WITH deleted AS ("@ + deleted + ") INSERT INTO "@ + table + " ("@ + owner + ","@ + tag
        + ") SELECT T.id, R.id FROM (SELECT DISTINCT id FROM deleted) T CROSS JOIN (SELECT UNNEST($2::uuid[]) AS id) R"@
}

/// Renders the statement that removes a row's tags.
pub fn unlink_tags(table: &str, owner: &str, returned: &str) -> (r: String)
    ensures
        r@ == unlink_tags_text(table@, owner@, returned@),
{
    let mut s = String::new();
    s.append("DELETE FROM ");
    s.append(table);
    s.append(" WHERE ");
    s.append(owner);
    s.append("=$1 RETURNING ");
    s.append(returned);
    s
}

/// Renders the statement that replaces a row's tags.
pub fn relink_tags(deleted: &String, table: &str, owner: &str, tag: &str) -> (r: String)
    ensures
        r@ == relink_tags_text(deleted@, table@, owner@, tag@),
{
    let mut s = String::new();
    s.append("WITH deleted AS (");
    s.append(deleted.as_str());
    s.append(") INSERT INTO ");
    s.append(table);
    s.append(" (");
    s.append(owner);
    s.append(",");
    s.append(tag);
    s.append(
        ") SELECT T.id, R.id FROM (SELECT DISTINCT id FROM deleted) T CROSS JOIN (SELECT UNNEST($2::uuid[]) AS id) R",
    );
    s
}

impl DBSubquery for TaskUpdateRequest {
    open spec fn subquery_ready(&self) -> bool {
        self.tag_ids is Some
    }

    open spec fn subquery_text(&self) -> Seq<char> {
        let deleted = unlink_tags_text(
            TaskTagModel::TABLE@,
            TaskTagModel::TASK_ID@,
            TaskTagModel::TASK_ID@ + " AS id"@,
        );
        match self.tag_ids {
            Some(UpdateMethod::Change(_)) => relink_tags_text(
                deleted,
                TaskTagModel::TABLE@,
                TaskTagModel::TASK_ID@,
                TaskTagModel::TAG_ID@,
            ),
            _ => deleted,
        }
    }

    open spec fn subquery_params<'a>(&'a self, uuid: &'a Uuid) -> Seq<SqlParam<'a>> {
        match self.tag_ids {
            Some(UpdateMethod::Change(ids)) => seq![SqlParam::Id(uuid), SqlParam::Ids(&ids)],
            _ => seq![SqlParam::Id(uuid)],
        }
    }

    fn get_subquery<'a>(&'a self, uuid: &'a Uuid) -> (r: (String, Vec<SqlParam<'a>>)) {
        let tag_update: &UpdateMethod<Vec<Uuid>> = self.tag_ids.as_ref().unwrap();
        let mut params: Vec<SqlParam<'a>> = Vec::new();
        params.push(SqlParam::Id(uuid));
        let mut returned = String::new();
        returned.append(TaskTagModel::TASK_ID);
        returned.append(" AS id");
        let mut statement = unlink_tags(TaskTagModel::TABLE, TaskTagModel::TASK_ID, returned.as_str());
        if let UpdateMethod::Change(tag_ids) = tag_update {
            params.push(SqlParam::Ids(tag_ids));
            statement = relink_tags(&statement, TaskTagModel::TABLE, TaskTagModel::TASK_ID, TaskTagModel::TAG_ID);
        }
        assert(params@ =~= self.subquery_params(uuid));
        (statement, params)
    }
}

/// The task to delete, of the given owner.
pub struct TaskDeleteRequest {
    pub task_id: Option<Uuid>,
    pub user_id: Option<Uuid>,
}

impl Default for TaskDeleteRequest {
    fn default() -> (r: Self)
        ensures
            r.task_id is None,
            r.user_id is None,
    {
        Self { task_id: None, user_id: None }
    }
}

impl TaskDeleteRequest {
    pub fn set_task_id(&mut self, id: Uuid) -> (r: &mut Self)
        ensures
            *r == (Self { task_id: Some(id), ..*old(self) }),
            *final(self) == *final(r),
    {
        self.task_id = Some(id);
        self
    }

    pub fn set_user_id(&mut self, id: Uuid) -> (r: &mut Self)
        ensures
            *r == (Self { user_id: Some(id), ..*old(self) }),
            *final(self) == *final(r),
    {
        self.user_id = Some(id);
        self
    }
}

impl DBQuery for TaskDeleteRequest {
    open spec fn query_ready(&self) -> bool {
        self.task_id is Some && self.user_id is Some
    }

    open spec fn query_text(&self) -> Seq<char> {
        by_ids_text("DELETE FROM "@, TaskModel::TABLE@, TaskModel::ID@, TaskModel::USER_ID@)
    }

    open spec fn query_params(&self) -> Seq<SqlParam<'_>> {
        seq![SqlParam::Id(&self.task_id->0), SqlParam::Id(&self.user_id->0)]
    }

    fn get_query(&self) -> (r: (String, Vec<SqlParam<'_>>)) {
        let mut params: Vec<SqlParam<'_>> = Vec::new();
        params.push(SqlParam::Id(self.task_id.as_ref().unwrap()));
        params.push(SqlParam::Id(self.user_id.as_ref().unwrap()));
        let statement = by_ids("DELETE FROM ", TaskModel::TABLE, TaskModel::ID, TaskModel::USER_ID);
        assert(params@ =~= self.query_params());
        (statement, params)
    }
}

/// A search for the tasks of an owner.
pub struct TaskQueryRequest {
    pub search_query: Option<String>,
    pub start_date: Option<QueryMethod<Date>>,
    pub deadline: Option<QueryMethod<Date>>,
    pub completed: Option<QueryMethod<bool>>,
    pub logged: Option<QueryMethod<bool>>,
    pub trashed: Option<QueryMethod<bool>>,
    pub area_id: Option<QueryMethod<Uuid>>,
    pub project_id: Option<QueryMethod<Uuid>>,
    pub user_id: Option<Uuid>,
    pub tag_ids: Option<QueryMethod<Vec<Uuid>>>,
}

/// After the optional title search of a query request.
pub open spec fn with_search<'a>(a: Assembly<'a>, column: Seq<char>, search: &'a Option<String>) -> Assembly<'a> {
    match search {
        Some(s) => Assembly {
            pieces: a.pieces.push(column + " LIKE $"@ + decimal(a.next)),
            params: a.params.push(SqlParam::Text(s)),
            next: a.next + 1,
        },
        None => a,
    }
}

impl TaskQueryRequest {
    /// Searches for titles that hold the query.
    pub fn set_search_query(&mut self, query: String) -> (r: &mut Self)
        ensures
            r.search_query is Some,
            r.search_query->0@ == "%"@ + query@ + "%"@,
            r.user_id == old(self).user_id,
            *final(self) == *final(r),
    {
        self.search_query = Some(like_pattern(&query));
        self
    }

    pub fn set_user_id(&mut self, id: Uuid) -> (r: &mut Self)
        ensures
            *r == (Self { user_id: Some(id), ..*old(self) }),
            *final(self) == *final(r),
    {
        self.user_id = Some(id);
        self
    }

    /// The conditions and parameters of the search.
    pub open spec fn assembly(&self) -> Assembly<'_> {
        let a = Assembly {
            pieces: seq![TaskModel::USER_ID@ + "=$"@ + decimal(1)],
            params: seq![SqlParam::Id(&self.user_id->0)],
            next: 2,
        };
        let a = with_search(a, TaskModel::TITLE@, &self.search_query);
        let a = with_filter(a, TaskModel::START_DATE@, filter_of(&self.start_date), true);
        let a = with_filter(a, TaskModel::DEADLINE@, filter_of(&self.deadline), true);
        let a = with_filter(a, TaskModel::COMPLETED@, flag_filter_of(&self.completed), false);
        let a = with_filter(a, TaskModel::LOGGED@, flag_filter_of(&self.logged), false);
        let a = with_filter(a, TaskModel::TRASHED@, flag_filter_of(&self.trashed), false);
        let a = with_filter(a, TaskModel::AREA_ID@, filter_of(&self.area_id), true);
        with_filter(a, TaskModel::PROJECT_ID@, filter_of(&self.project_id), true)
    }

    /// Every comparison of the search uses a named flag.
    pub open spec fn filters_render(&self) -> bool {
        &&& optional_filter_renders(self.start_date)
        &&& optional_filter_renders(self.deadline)
        &&& optional_filter_renders(self.completed)
        &&& optional_filter_renders(self.logged)
        &&& optional_filter_renders(self.trashed)
        &&& optional_filter_renders(self.area_id)
        &&& optional_filter_renders(self.project_id)
    }
}

impl DBQuery for TaskQueryRequest {
    open spec fn query_ready(&self) -> bool {
        self.user_id is Some && self.filters_render()
    }

    open spec fn query_text(&self) -> Seq<char> {
        select_where_text(TaskModel::TABLE@, self.assembly().pieces)
    }

    open spec fn query_params(&self) -> Seq<SqlParam<'_>> {
        self.assembly().params
    }

    fn get_query(&self) -> (r: (String, Vec<SqlParam<'_>>)) {
        let mut conditions: Vec<String> = Vec::new();
        conditions.push(assignment(TaskModel::USER_ID, 1));
        let mut params: Vec<SqlParam<'_>> = Vec::new();
        params.push(SqlParam::Id(self.user_id.as_ref().unwrap()));
        let mut n = conditions.len() + 1;
        let ghost a0 = assembly_of(conditions@, params@, n);
        assert(a0 =~= Assembly {
            pieces: seq![TaskModel::USER_ID@ + "=$"@ + decimal(1)],
            params: seq![SqlParam::Id(&self.user_id->0)],
            next: 2,
        });
        if let Some(s) = &self.search_query {
            conditions.push(like_condition(TaskModel::TITLE, n));
            params.push(SqlParam::Text(s));
            n = n + 1;
        }
        assert(assembly_of(conditions@, params@, n) =~= with_search(a0, TaskModel::TITLE@, &self.search_query));
        let n = push_filter(&mut conditions, &mut params, TaskModel::START_DATE, &self.start_date, n, true);
        let n = push_filter(&mut conditions, &mut params, TaskModel::DEADLINE, &self.deadline, n, true);
        let n = push_flag_filter(&mut conditions, &params, TaskModel::COMPLETED, &self.completed, n);
        let n = push_flag_filter(&mut conditions, &params, TaskModel::LOGGED, &self.logged, n);
        let n = push_flag_filter(&mut conditions, &params, TaskModel::TRASHED, &self.trashed, n);
        let n = push_filter(&mut conditions, &mut params, TaskModel::AREA_ID, &self.area_id, n, true);
        let _ = push_filter(&mut conditions, &mut params, TaskModel::PROJECT_ID, &self.project_id, n, true);
        let statement = select_where(TaskModel::TABLE, &conditions);
        (statement, params)
    }
}

/// Finds the rows linked to at least `count` of the tags in the list `$1`.
pub open spec fn tagged_text(owner: Seq<char>, table: Seq<char>, tag: Seq<char>, group: Seq<char>, count: nat) -> Seq<char> {
    "SELECT DISTINCT "@ + owner + " FROM "@ + table + " WHERE "@ + tag
        + " IN (SELECT UNNEST($1::uuid[])) GROUP BY "@ + group + "HAVING COUNT(DISTINCT tag_id) >= "@
        + decimal(count)
}

/// Renders the statement that finds the rows linked to the given tags.
pub fn tagged(owner: &str, table: &str, tag: &str, group: &str, count: usize) -> (r: String)
    ensures
        r@ == tagged_text(owner@, table@, tag@, group@, count as nat),
{
    let mut s = String::new();
    s.append("SELECT DISTINCT ");
    s.append(owner);
    s.append(" FROM ");
    s.append(table);
    s.append(" WHERE ");
    s.append(tag);
    s.append(" IN (SELECT UNNEST($1::uuid[])) GROUP BY ");
    s.append(group);
    s.append("HAVING COUNT(DISTINCT tag_id) >= ");
    push_decimal(&mut s, count);
    s
}

impl DBSubquery for TaskQueryRequest {
    open spec fn subquery_ready(&self) -> bool {
        self.tag_ids is Some
    }

    open spec fn subquery_text(&self) -> Seq<char> {
        match self.tag_ids {
            Some(QueryMethod::Match(ids)) => tagged_text(
                TaskTagModel::TASK_ID@,
                TaskTagModel::TABLE@,
                TaskTagModel::TAG_ID@,
                "task_id "@,
                ids@.len(),
            ),
            _ => Seq::empty(),
        }
    }

    open spec fn subquery_params<'a>(&'a self, uuid: &'a Uuid) -> Seq<SqlParam<'a>> {
        match self.tag_ids {
            Some(QueryMethod::Match(ids)) => seq![SqlParam::Ids(&ids)],
            _ => Seq::empty(),
        }
    }

    fn get_subquery<'a>(&'a self, uuid: &'a Uuid) -> (r: (String, Vec<SqlParam<'a>>)) {
        let tag_query = self.tag_ids.as_ref().unwrap();
        let mut params: Vec<SqlParam<'a>> = Vec::new();
        let statement;
        if let QueryMethod::Match(tag_ids) = tag_query {
            params.push(SqlParam::Ids(tag_ids));
            statement = tagged(
                TaskTagModel::TASK_ID,
                TaskTagModel::TABLE,
                TaskTagModel::TAG_ID,
                "task_id ",
                tag_ids.len(),
            );
        } else {
            statement = String::new();
        }
        assert(params@ =~= self.subquery_params(uuid));
        (statement, params)
    }
}

/// The insert of a new row lists one placeholder for each column: the
/// statement names as many columns as it binds parameters.
pub proof fn law_create_pairs_columns_and_params(request: TaskCreateRequest)
    ensures
        request.assembly().pieces.len() == request.assembly().params.len(),
{
    let a = Assembly {
        pieces: seq![TaskModel::USER_ID@],
        params: seq![SqlParam::Id(&request.user_id->0)],
        next: 0,
    };
    law_present_keeps_pairs(a, TaskModel::TITLE@, present_param(&request.title));
    let a = with_present(a, TaskModel::TITLE@, present_param(&request.title));
    law_present_keeps_pairs(a, TaskModel::NOTES@, present_param(&request.notes));
    let a = with_present(a, TaskModel::NOTES@, present_param(&request.notes));
    law_present_keeps_pairs(a, TaskModel::START_DATE@, present_param(&request.start_date));
    let a = with_present(a, TaskModel::START_DATE@, present_param(&request.start_date));
    law_present_keeps_pairs(a, TaskModel::START_TIME@, present_param(&request.start_time));
    let a = with_present(a, TaskModel::START_TIME@, present_param(&request.start_time));
    law_present_keeps_pairs(a, TaskModel::DEADLINE@, present_param(&request.deadline));
    let a = with_present(a, TaskModel::DEADLINE@, present_param(&request.deadline));
    law_present_keeps_pairs(a, TaskModel::AREA_ID@, present_param(&request.area_id));
    let a = with_present(a, TaskModel::AREA_ID@, present_param(&request.area_id));
    law_present_keeps_pairs(a, TaskModel::PROJECT_ID@, present_param(&request.project_id));
    let a = with_present(a, TaskModel::PROJECT_ID@, present_param(&request.project_id));
}

/// How many filters a search carries, the title search included.
pub open spec fn search_filters(r: &TaskQueryRequest) -> int {
    (if r.search_query is Some { 1int } else { 0 }) + (if r.start_date is Some { 1int } else { 0 }) + (if r.deadline is Some {
        1int
    } else {
        0
    }) + (if r.completed is Some { 1int } else { 0 }) + (if r.logged is Some { 1int } else { 0 }) + (if r.trashed is Some {
        1int
    } else {
        0
    }) + (if r.area_id is Some { 1int } else { 0 }) + (if r.project_id is Some { 1int } else { 0 })
}

/// A text search keeps the columns named before and the values bound, names
/// its column and binds the text when present, and adds one condition
/// exactly when present.
pub proof fn lemma_search_names<'a>(a: Assembly<'a>, column: Seq<char>, search: &'a Option<String>)
    ensures
        forall|c: Seq<char>|
            names_column(a.pieces, c) ==> #[trigger] names_column(with_search(a, column, search).pieces, c),
        search is Some ==> names_column(with_search(a, column, search).pieces, column),
        with_search(a, column, search).pieces.len() == a.pieces.len() + if search is Some {
            1int
        } else {
            0
        },
        forall|x: SqlParam<'a>|
            a.params.contains(x) ==> #[trigger] with_search(a, column, search).params.contains(x),
        search matches Some(s) ==> with_search(a, column, search).params.contains(SqlParam::Text(s)),
{
    lemma_on_own_column(column);
    lemma_on_column_extends(column, column, " LIKE $"@);
    lemma_on_column_extends(column + " LIKE $"@, column, decimal(a.next));
    lemma_names_after_push(a.pieces, column + " LIKE $"@ + decimal(a.next), column);
    let r = with_search(a, column, search);
    assert forall|x: SqlParam<'a>| a.params.contains(x) implies #[trigger] r.params.contains(x) by {
        let i = choose|i: int| 0 <= i < a.params.len() && a.params[i] == x;
        assert(r.params[i] == a.params[i]);
    }
    if let Some(s) = search {
        assert(r.params[a.params.len() as int] == SqlParam::Text(s));
    }
}

/// Each filter of a search is a condition on its own column: the owner's
/// condition names `user_id`, the title search names the title, and each
/// filter given names the column of its field; and there is no condition
/// besides the owner's and one for each filter given.
pub proof fn law_search_filters_name_their_columns(r: &TaskQueryRequest)
    ensures
        r.assembly().pieces.len() == 1 + search_filters(r),
        names_column(r.assembly().pieces, TaskModel::USER_ID@),
        r.search_query is Some ==> names_column(r.assembly().pieces, TaskModel::TITLE@),
        r.start_date is Some ==> names_column(r.assembly().pieces, TaskModel::START_DATE@),
        r.deadline is Some ==> names_column(r.assembly().pieces, TaskModel::DEADLINE@),
        r.completed is Some ==> names_column(r.assembly().pieces, TaskModel::COMPLETED@),
        r.logged is Some ==> names_column(r.assembly().pieces, TaskModel::LOGGED@),
        r.trashed is Some ==> names_column(r.assembly().pieces, TaskModel::TRASHED@),
        r.area_id is Some ==> names_column(r.assembly().pieces, TaskModel::AREA_ID@),
        r.project_id is Some ==> names_column(r.assembly().pieces, TaskModel::PROJECT_ID@),
        r.assembly().params.contains(SqlParam::Id(&r.user_id->0)),
        r.search_query matches Some(s) ==> r.assembly().params.contains(SqlParam::Text(&s)),
        r.start_date matches Some(QueryMethod::Match(d)) ==> r.assembly().params.contains(SqlParam::Date(&d)),
        r.start_date matches Some(QueryMethod::Compare(d, _)) ==> r.assembly().params.contains(SqlParam::Date(&d)),
        r.deadline matches Some(QueryMethod::Match(d)) ==> r.assembly().params.contains(SqlParam::Date(&d)),
        r.deadline matches Some(QueryMethod::Compare(d, _)) ==> r.assembly().params.contains(SqlParam::Date(&d)),
        r.area_id matches Some(QueryMethod::Match(i)) ==> r.assembly().params.contains(SqlParam::Id(&i)),
        r.area_id matches Some(QueryMethod::Compare(i, _)) ==> r.assembly().params.contains(SqlParam::Id(&i)),
        r.project_id matches Some(QueryMethod::Match(i)) ==> r.assembly().params.contains(SqlParam::Id(&i)),
        r.project_id matches Some(QueryMethod::Compare(i, _)) ==> r.assembly().params.contains(SqlParam::Id(&i)),
{
    let a0 = Assembly {
        pieces: seq![TaskModel::USER_ID@ + "=$"@ + decimal(1)],
        params: seq![SqlParam::Id(&r.user_id->0)],
        next: 2,
    };
    lemma_on_own_column(TaskModel::USER_ID@);
    lemma_on_column_extends(TaskModel::USER_ID@, TaskModel::USER_ID@, "=$"@);
    lemma_on_column_extends(TaskModel::USER_ID@ + "=$"@, TaskModel::USER_ID@, decimal(1));
    assert(a0.pieces[0] == TaskModel::USER_ID@ + "=$"@ + decimal(1));
    assert(names_column(a0.pieces, TaskModel::USER_ID@));
    assert(a0.params[0] == SqlParam::Id(&r.user_id->0));
    lemma_search_names(a0, TaskModel::TITLE@, &r.search_query);
    let a1 = with_search(a0, TaskModel::TITLE@, &r.search_query);
    lemma_filter_names(a1, TaskModel::START_DATE@, filter_of(&r.start_date), true);
    let a2 = with_filter(a1, TaskModel::START_DATE@, filter_of(&r.start_date), true);
    lemma_filter_names(a2, TaskModel::DEADLINE@, filter_of(&r.deadline), true);
    let a3 = with_filter(a2, TaskModel::DEADLINE@, filter_of(&r.deadline), true);
    lemma_filter_names(a3, TaskModel::COMPLETED@, flag_filter_of(&r.completed), false);
    let a4 = with_filter(a3, TaskModel::COMPLETED@, flag_filter_of(&r.completed), false);
    lemma_filter_names(a4, TaskModel::LOGGED@, flag_filter_of(&r.logged), false);
    let a5 = with_filter(a4, TaskModel::LOGGED@, flag_filter_of(&r.logged), false);
    lemma_filter_names(a5, TaskModel::TRASHED@, flag_filter_of(&r.trashed), false);
    let a6 = with_filter(a5, TaskModel::TRASHED@, flag_filter_of(&r.trashed), false);
    lemma_filter_names(a6, TaskModel::AREA_ID@, filter_of(&r.area_id), true);
    let a7 = with_filter(a6, TaskModel::AREA_ID@, filter_of(&r.area_id), true);
    lemma_filter_names(a7, TaskModel::PROJECT_ID@, filter_of(&r.project_id), true);
    let a8 = with_filter(a7, TaskModel::PROJECT_ID@, filter_of(&r.project_id), true);
    assert(r.assembly() == a8);
}

/// How many fields a task update changes.
pub open spec fn changed_fields(r: &TaskUpdateRequest) -> int {
    (if r.title is Some { 1int } else { 0 }) + (if r.notes is Some { 1int } else { 0 }) + (if r.start_date is Some {
        1int
    } else {
        0
    }) + (if r.start_time is Some { 1int } else { 0 }) + (if r.deadline is Some { 1int } else { 0 }) + (if r.completed is Some {
        1int
    } else {
        0
    }) + (if r.logged is Some { 1int } else { 0 }) + (if r.trashed is Some { 1int } else { 0 }) + (if r.area_id is Some {
        1int
    } else {
        0
    }) + (if r.project_id is Some { 1int } else { 0 })
}

/// A flag of a task update keeps the columns named and the values bound
/// before, names its own column when present, and adds one assignment
/// exactly when present.
proof fn lemma_flag_names<'a>(a: Assembly<'a>, column: Seq<char>, flag: Option<bool>)
    ensures
        forall|c: Seq<char>|
            names_column(a.pieces, c) ==> #[trigger] names_column(with_flag(a, column, flag).pieces, c),
        forall|c: Seq<char>, p: SqlParam<'a>| binds_at(a, c, p) ==> #[trigger] binds_at(with_flag(a, column, flag), c, p),
        flag is Some ==> names_column(with_flag(a, column, flag).pieces, column),
        with_flag(a, column, flag).pieces.len() == a.pieces.len() + if flag is Some { 1int } else { 0 },
        with_flag(a, column, flag).params == a.params,
        with_flag(a, column, flag).next == a.next,
{
    let r = with_flag(a, column, flag);
    lemma_on_own_column(column);
    assert forall|c: Seq<char>, p: SqlParam<'a>| binds_at(a, c, p) implies #[trigger] binds_at(r, c, p) by {
        let k = choose|k: nat| 1 <= k <= a.params.len() && a.pieces.contains(#[trigger] (c + "=$"@ + decimal(k)))
            && a.params[k - 1] == p;
        let i = choose|i: int| 0 <= i < a.pieces.len() && a.pieces[i] == c + "=$"@ + decimal(k);
        assert(r.pieces[i] == a.pieces[i]);
    }
    match flag {
        Some(true) => {
            lemma_on_column_extends(column, column, "=$"@);
            lemma_on_column_extends(column + "=$"@, column, decimal(3));
            lemma_names_after_push(a.pieces, column + "=$"@ + decimal(3), column);
        },
        Some(false) => {
            lemma_on_column_extends(column, column, " IS NULL"@);
            lemma_names_after_push(a.pieces, column + " IS NULL"@, column);
        },
        None => {},
    }
}

/// Each change of a task update assigns its own column: the change time
/// names `updated_on`, each field given names the column of that field, and
/// there is no assignment besides the change time's and one for each field
/// given. A field set to a new value is assigned from a parameter that
/// holds that value.
pub proof fn law_update_assigns_own_columns(r: &TaskUpdateRequest)
    ensures
        r.assembly().pieces.len() == 1 + changed_fields(r),
        names_column(r.assembly().pieces, TaskModel::UPDATED@),
        r.title is Some ==> names_column(r.assembly().pieces, TaskModel::TITLE@),
        r.notes is Some ==> names_column(r.assembly().pieces, TaskModel::NOTES@),
        r.start_date is Some ==> names_column(r.assembly().pieces, TaskModel::START_DATE@),
        r.start_time is Some ==> names_column(r.assembly().pieces, TaskModel::START_TIME@),
        r.deadline is Some ==> names_column(r.assembly().pieces, TaskModel::DEADLINE@),
        r.completed is Some ==> names_column(r.assembly().pieces, TaskModel::COMPLETED@),
        r.logged is Some ==> names_column(r.assembly().pieces, TaskModel::LOGGED@),
        r.trashed is Some ==> names_column(r.assembly().pieces, TaskModel::TRASHED@),
        r.area_id is Some ==> names_column(r.assembly().pieces, TaskModel::AREA_ID@),
        r.project_id is Some ==> names_column(r.assembly().pieces, TaskModel::PROJECT_ID@),
        r.title matches Some(UpdateMethod::Change(v)) ==> binds_at(r.assembly(), TaskModel::TITLE@, SqlParam::Text(&v)),
        r.notes matches Some(UpdateMethod::Change(v)) ==> binds_at(r.assembly(), TaskModel::NOTES@, SqlParam::Text(&v)),
        r.start_date matches Some(UpdateMethod::Change(v)) ==> binds_at(
            r.assembly(),
            TaskModel::START_DATE@,
            SqlParam::Date(&v),
        ),
        r.start_time matches Some(UpdateMethod::Change(v)) ==> binds_at(
            r.assembly(),
            TaskModel::START_TIME@,
            SqlParam::Time(&v),
        ),
        r.deadline matches Some(UpdateMethod::Change(v)) ==> binds_at(
            r.assembly(),
            TaskModel::DEADLINE@,
            SqlParam::Date(&v),
        ),
        r.area_id matches Some(UpdateMethod::Change(v)) ==> binds_at(r.assembly(), TaskModel::AREA_ID@, SqlParam::Id(&v)),
        r.project_id matches Some(UpdateMethod::Change(v)) ==> binds_at(
            r.assembly(),
            TaskModel::PROJECT_ID@,
            SqlParam::Id(&v),
        ),
{
    let a0 = Assembly {
        pieces: seq![TaskModel::UPDATED@ + "=$"@ + decimal(3)],
        params: seq![
            SqlParam::Id(&r.task_id->0),
            SqlParam::Id(&r.user_id->0),
            SqlParam::Timestamp(&r.timestamp),
        ],
        next: 4,
    };
    lemma_on_own_column(TaskModel::UPDATED@);
    lemma_on_column_extends(TaskModel::UPDATED@, TaskModel::UPDATED@, "=$"@);
    lemma_on_column_extends(TaskModel::UPDATED@ + "=$"@, TaskModel::UPDATED@, decimal(3));
    assert(a0.pieces[0] == TaskModel::UPDATED@ + "=$"@ + decimal(3));
    assert(names_column(a0.pieces, TaskModel::UPDATED@));
    lemma_update_names(a0, TaskModel::TITLE@, update_of(&r.title));
    let a1 = with_update(a0, TaskModel::TITLE@, update_of(&r.title));
    lemma_update_names(a1, TaskModel::NOTES@, update_of(&r.notes));
    let a2 = with_update(a1, TaskModel::NOTES@, update_of(&r.notes));
    lemma_update_names(a2, TaskModel::START_DATE@, update_of(&r.start_date));
    let a3 = with_update(a2, TaskModel::START_DATE@, update_of(&r.start_date));
    lemma_update_names(a3, TaskModel::START_TIME@, update_of(&r.start_time));
    let a4 = with_update(a3, TaskModel::START_TIME@, update_of(&r.start_time));
    lemma_update_names(a4, TaskModel::DEADLINE@, update_of(&r.deadline));
    let a5 = with_update(a4, TaskModel::DEADLINE@, update_of(&r.deadline));
    lemma_flag_names(a5, TaskModel::COMPLETED@, r.completed);
    let a6 = with_flag(a5, TaskModel::COMPLETED@, r.completed);
    lemma_flag_names(a6, TaskModel::LOGGED@, r.logged);
    let a7 = with_flag(a6, TaskModel::LOGGED@, r.logged);
    lemma_flag_names(a7, TaskModel::TRASHED@, r.trashed);
    let a8 = with_flag(a7, TaskModel::TRASHED@, r.trashed);
    lemma_update_names(a8, TaskModel::AREA_ID@, update_of(&r.area_id));
    let a9 = with_update(a8, TaskModel::AREA_ID@, update_of(&r.area_id));
    lemma_update_names(a9, TaskModel::PROJECT_ID@, update_of(&r.project_id));
    let a10 = with_update(a9, TaskModel::PROJECT_ID@, update_of(&r.project_id));
    assert(r.assembly() == a10);
}

/// A new task lists the owner's column first, then one column for each
/// field given, and no other: each field given is listed under its own
/// column, with its value at the same place among the parameters.
pub proof fn law_create_lists_every_field(r: &TaskCreateRequest)
    ensures
        r.assembly().pieces.len() == 1 + (if r.title is Some { 1int } else { 0 }) + (if r.notes is Some { 1int } else { 0 }) + (if r.start_date is Some { 1int } else { 0 }) + (if r.start_time is Some { 1int } else { 0 }) + (if r.deadline is Some { 1int } else { 0 }) + (if r.area_id is Some { 1int } else { 0 }) + (if r.project_id is Some { 1int } else { 0 }),
        r.assembly().pieces[0] == TaskModel::USER_ID@,
        r.assembly().params[0] == SqlParam::Id(&r.user_id->0),
        r.title matches Some(v) ==> pairs(r.assembly(), TaskModel::TITLE@, SqlParam::Text(&v)),
        r.notes matches Some(v) ==> pairs(r.assembly(), TaskModel::NOTES@, SqlParam::Text(&v)),
        r.start_date matches Some(v) ==> pairs(r.assembly(), TaskModel::START_DATE@, SqlParam::Date(&v)),
        r.start_time matches Some(v) ==> pairs(r.assembly(), TaskModel::START_TIME@, SqlParam::Time(&v)),
        r.deadline matches Some(v) ==> pairs(r.assembly(), TaskModel::DEADLINE@, SqlParam::Date(&v)),
        r.area_id matches Some(v) ==> pairs(r.assembly(), TaskModel::AREA_ID@, SqlParam::Id(&v)),
        r.project_id matches Some(v) ==> pairs(r.assembly(), TaskModel::PROJECT_ID@, SqlParam::Id(&v)),
{
    let a = Assembly {
        pieces: seq![TaskModel::USER_ID@],
        params: seq![SqlParam::Id(&r.user_id->0)],
        next: 0,
    };
    let a0 = a;
    lemma_present_pairs(a, TaskModel::TITLE@, present_param(&r.title));
    let a = with_present(a, TaskModel::TITLE@, present_param(&r.title));
    lemma_present_pairs(a, TaskModel::NOTES@, present_param(&r.notes));
    let a = with_present(a, TaskModel::NOTES@, present_param(&r.notes));
    lemma_present_pairs(a, TaskModel::START_DATE@, present_param(&r.start_date));
    let a = with_present(a, TaskModel::START_DATE@, present_param(&r.start_date));
    lemma_present_pairs(a, TaskModel::START_TIME@, present_param(&r.start_time));
    let a = with_present(a, TaskModel::START_TIME@, present_param(&r.start_time));
    lemma_present_pairs(a, TaskModel::DEADLINE@, present_param(&r.deadline));
    let a = with_present(a, TaskModel::DEADLINE@, present_param(&r.deadline));
    lemma_present_pairs(a, TaskModel::AREA_ID@, present_param(&r.area_id));
    let a = with_present(a, TaskModel::AREA_ID@, present_param(&r.area_id));
    lemma_present_pairs(a, TaskModel::PROJECT_ID@, present_param(&r.project_id));
    let a = with_present(a, TaskModel::PROJECT_ID@, present_param(&r.project_id));
    assert(r.assembly() == a);
    assert(a.pieces[0] == a0.pieces[0]);
    assert(a.params[0] == a0.params[0]);
}

} // verus!
