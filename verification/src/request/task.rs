//! Task requests that render a statement and its parameters separately.

use vstd::prelude::*;
use crate::models::db::{TaskModel, TaskTagModel, parameter_values, placeholder_texts, range_placeholders};
use crate::models::request::{
    Assembly, QueryMethod, UpdateMethod, assembly_of, by_ids, by_ids_text, filter_of,
    optional_filter_renders,
    flag_filter_of, like_condition, push_filter, push_flag_filter, select_where, select_where_text,
    with_filter, names_column, lemma_on_own_column, lemma_on_column_extends, lemma_filter_names,
};
use crate::models::request::task::{with_search, lemma_search_names};
use crate::request::{
    filter_param, flag_param, listed_if, push_column_if, push_filter_param, push_flag_param,
    push_update_value, push_value_param, pushed_if, update_value_param, value_param, listed_with,
    lemma_listed_pair,
};
use crate::request::query::{ToQuery, parameter_string};
use crate::text::{decimal, joined, push_decimal, push_joined, views};
use crate::values::{Date, SqlParam, Time, Timestamp, Uuid};

verus! {

/// A new task.
pub struct TaskPostRequest {
    pub title: Option<String>,
    pub notes: Option<String>,
    pub start_date: Option<Date>,
    pub start_time: Option<Time>,
    pub deadline: Option<Date>,
    pub area_id: Option<Uuid>,
    pub project_id: Option<Uuid>,
    pub user_id: Option<Uuid>,
    pub tag_ids: Option<Vec<Uuid>>,
}

impl TaskPostRequest {
    pub fn user_id(&mut self, id: Uuid) -> (r: &mut Self)
        ensures
            *r == (Self { user_id: Some(id), ..*old(self) }),
            *final(self) == *final(r),
    {
        self.user_id = Some(id);
        self
    }

    /// The columns of the insert: the owner, then each field that is present.
    pub open spec fn columns(&self) -> Seq<Seq<char>> {
        let c = seq![TaskModel::USER_ID@];
        let c = listed_if(c, TaskModel::TITLE@, self.title is Some);
        let c = listed_if(c, TaskModel::NOTES@, self.notes is Some);
        let c = listed_if(c, TaskModel::START_DATE@, self.start_date is Some);
        let c = listed_if(c, TaskModel::START_TIME@, self.start_time is Some);
        let c = listed_if(c, TaskModel::DEADLINE@, self.deadline is Some);
        let c = listed_if(c, TaskModel::AREA_ID@, self.area_id is Some);
        listed_if(c, TaskModel::PROJECT_ID@, self.project_id is Some)
    }
}

/// `INSERT INTO table (columns) VALUES ($1,...,$n) RETURNING id`, the columns joined by `", "`.
pub open spec fn post_text(table: Seq<char>, columns: Seq<Seq<char>>, id: Seq<char>) -> Seq<char> {
    "INSERT INTO "@ + table + " ("@ + joined(columns, ", "@) + ") VALUES ("@ + joined(
        placeholder_texts(1, columns.len()),
        ","@,
    ) + ") RETURNING "@ + id
}

impl ToQuery for TaskPostRequest {
    open spec fn statement_ready(&self) -> bool {
        true
    }

    open spec fn params_ready(&self) -> bool {
        self.user_id is Some
    }

    open spec fn statement_text(&self) -> Seq<char> {
        post_text(TaskModel::TABLE@, self.columns(), TaskModel::ID@)
    }

    open spec fn params_of(&self) -> Seq<SqlParam<'_>> {
        let p = seq![SqlParam::Id(&self.user_id->0)];
        let p = pushed_if(p, value_param(&self.title));
        let p = pushed_if(p, value_param(&self.notes));
        let p = pushed_if(p, value_param(&self.start_date));
        let p = pushed_if(p, value_param(&self.start_time));
        let p = pushed_if(p, value_param(&self.deadline));
        let p = pushed_if(p, value_param(&self.area_id));
        pushed_if(p, value_param(&self.project_id))
    }

    fn statement(&self) -> (r: String) {
        let mut columns: Vec<String> = Vec::new();
        columns.push(TaskModel::USER_ID.to_owned());
        assert(views(columns@) =~= seq![TaskModel::USER_ID@]);
        push_column_if(&mut columns, TaskModel::TITLE, self.title.is_some());
        push_column_if(&mut columns, TaskModel::NOTES, self.notes.is_some());
        push_column_if(&mut columns, TaskModel::START_DATE, self.start_date.is_some());
        push_column_if(&mut columns, TaskModel::START_TIME, self.start_time.is_some());
        push_column_if(&mut columns, TaskModel::DEADLINE, self.deadline.is_some());
        push_column_if(&mut columns, TaskModel::AREA_ID, self.area_id.is_some());
        push_column_if(&mut columns, TaskModel::PROJECT_ID, self.project_id.is_some());
        let mut s = String::new();
        s.append("INSERT INTO ");
        s.append(TaskModel::TABLE);
        s.append(" (");
        push_joined(&mut s, &columns, ", ");
        s.append(") VALUES (");
        let range = 1..=columns.len();
        assert(range_placeholders(range) =~= placeholder_texts(1, columns@.len()));
        let values = parameter_string(range);
        s.append(values.as_str());
        s.append(") RETURNING ");
        s.append(TaskModel::ID);
        s
    }

    fn params(&self) -> (r: Vec<SqlParam<'_>>) {
        let mut params: Vec<SqlParam<'_>> = Vec::new();
        params.push(SqlParam::Id(self.user_id.as_ref().unwrap()));
        push_value_param(&mut params, &self.title);
        push_value_param(&mut params, &self.notes);
        push_value_param(&mut params, &self.start_date);
        push_value_param(&mut params, &self.start_time);
        push_value_param(&mut params, &self.deadline);
        push_value_param(&mut params, &self.area_id);
        push_value_param(&mut params, &self.project_id);
        params
    }
}

/// The tuples `($1, $2), ($1, $3), ...` that link row `$1` to `count` tags.
pub open spec fn tag_tuples(count: nat) -> Seq<Seq<char>> {
    Seq::new(count, |i: int| "($1, $"@ + decimal((i + 2) as nat) + ")"@)
}

/// `INSERT INTO table (owner, tag) VALUES ($1, $2), ..., ($1, $(count+1))`.
pub open spec fn tag_links_text(table: Seq<char>, owner: Seq<char>, tag: Seq<char>, count: nat) -> Seq<char> {
    "INSERT INTO "@ + table + " ("@ + owner + ", "@ + tag + ") VALUES "@ + joined(tag_tuples(count), ", "@)
}

/// Renders the statement that links the row `$1` to the tags `$2`, ..., `$(count+1)`.
pub fn tag_links(table: &str, owner: &str, tag: &str, count: usize) -> (r: String)
    requires
        count + 2 <= usize::MAX,
    ensures
        r@ == tag_links_text(table@, owner@, tag@, count as nat),
{
    let mut tuples: Vec<String> = Vec::new();
    let mut i: usize = 0;
    while i < count
        invariant
            i <= count,
            count + 2 <= usize::MAX,
            tuples@.len() == i,
            views(tuples@) == tag_tuples(i as nat),
        decreases count - i,
    {
        let ghost before = tuples@;
        let mut t = String::new();
        t.append("($1, $");
        push_decimal(&mut t, i + 2);
        t.append(")");
        tuples.push(t);
        assert(views(tuples@) =~= tag_tuples((i + 1) as nat)) by {
            assert forall|k: int| 0 <= k < i implies views(tuples@)[k] == tag_tuples((i + 1) as nat)[k] by {
                assert(tuples@[k] == before[k]);
                assert(views(before)[k] == tag_tuples(i as nat)[k]);
            }
        }
        i = i + 1;
    }
    let mut s = String::new();
    s.append("INSERT INTO ");
    s.append(table);
    s.append(" (");
    s.append(owner);
    s.append(", ");
    s.append(tag);
    s.append(") VALUES ");
    push_joined(&mut s, &tuples, ", ");
    s
}

/// The task with the given identifier, of the given owner.
pub struct TaskGetRequest {
    pub task_id: Option<Uuid>,
    pub user_id: Option<Uuid>,
}

impl TaskGetRequest {
    pub fn task_id(&mut self, id: Uuid) -> (r: &mut Self)
        ensures
            *r == (Self { task_id: Some(id), ..*old(self) }),
            *final(self) == *final(r),
    {
        self.task_id = Some(id);
        self
    }

    pub fn user_id(&mut self, id: Uuid) -> (r: &mut Self)
        ensures
            *r == (Self { user_id: Some(id), ..*old(self) }),
            *final(self) == *final(r),
    {
        self.user_id = Some(id);
        self
    }
}

impl Default for TaskGetRequest {
    fn default() -> (r: Self)
        ensures
            r.task_id is None,
            r.user_id is None,
    {
        Self { task_id: None, user_id: None }
    }
}

impl ToQuery for TaskGetRequest {
    open spec fn statement_ready(&self) -> bool {
        true
    }

    open spec fn params_ready(&self) -> bool {
        self.task_id is Some && self.user_id is Some
    }

    open spec fn statement_text(&self) -> Seq<char> {
        by_ids_text("SELECT * FROM "@, TaskModel::TABLE@, TaskModel::ID@, TaskModel::USER_ID@)
    }

    open spec fn params_of(&self) -> Seq<SqlParam<'_>> {
        seq![SqlParam::Id(&self.task_id->0), SqlParam::Id(&self.user_id->0)]
    }

    fn statement(&self) -> (r: String) {
        by_ids("SELECT * FROM ", TaskModel::TABLE, TaskModel::ID, TaskModel::USER_ID)
    }

    fn params(&self) -> (r: Vec<SqlParam<'_>>) {
        let mut params: Vec<SqlParam<'_>> = Vec::new();
        params.push(SqlParam::Id(self.task_id.as_ref().unwrap()));
        params.push(SqlParam::Id(self.user_id.as_ref().unwrap()));
        assert(params@ =~= self.params_of());
        params
    }
}

/// Changes to a task.
pub struct TaskPutRequest {
    pub task_id: Option<Uuid>,
    pub title: Option<UpdateMethod<String>>,
    pub notes: Option<UpdateMethod<String>>,
    pub start_date: Option<UpdateMethod<Date>>,
    pub start_time: Option<UpdateMethod<Time>>,
    pub deadline: Option<UpdateMethod<Date>>,
    pub completed: Option<bool>,
    pub logged: Option<bool>,
    pub trashed: Option<bool>,
    pub area_id: Option<UpdateMethod<Uuid>>,
    pub project_id: Option<UpdateMethod<Uuid>>,
    pub user_id: Option<Uuid>,
    pub timestamp: Timestamp,
    pub tag_ids: Option<UpdateMethod<Vec<Uuid>>>,
}

impl TaskPutRequest {
    pub fn task_id(&mut self, id: Uuid) -> (r: &mut Self)
        ensures
            *r == (Self { task_id: Some(id), ..*old(self) }),
            *final(self) == *final(r),
    {
        self.task_id = Some(id);
        self
    }

    pub fn user_id(&mut self, id: Uuid) -> (r: &mut Self)
        ensures
            *r == (Self { user_id: Some(id), ..*old(self) }),
            *final(self) == *final(r),
    {
        self.user_id = Some(id);
        self
    }

    /// The columns of the update: the change time, then each field that is present.
    #[verifier::opaque]
    pub open spec fn columns(&self) -> Seq<Seq<char>> {
        let c = seq![TaskModel::UPDATED@];
        let c = listed_if(c, TaskModel::TITLE@, self.title is Some);
        let c = listed_if(c, TaskModel::NOTES@, self.notes is Some);
        let c = listed_if(c, TaskModel::START_DATE@, self.start_date is Some);
        let c = listed_if(c, TaskModel::START_TIME@, self.start_time is Some);
        let c = listed_if(c, TaskModel::DEADLINE@, self.deadline is Some);
        let c = listed_if(c, TaskModel::COMPLETED@, self.completed is Some);
        let c = listed_if(c, TaskModel::LOGGED@, self.logged is Some);
        let c = listed_if(c, TaskModel::TRASHED@, self.trashed is Some);
        let c = listed_if(c, TaskModel::AREA_ID@, self.area_id is Some);
        listed_if(c, TaskModel::PROJECT_ID@, self.project_id is Some)
    }
}

/// `UPDATE table SET (columns)=($3, ...) WHERE user=$1 AND id=$2 RETURNING *`,
/// one placeholder per column, both lists joined by `", "`.
pub open spec fn put_text(table: Seq<char>, columns: Seq<Seq<char>>, user: Seq<char>, id: Seq<char>) -> Seq<char> {
    "UPDATE "@ + table + " SET ("@ + joined(columns, ", "@) + ")=("@ + joined(
        placeholder_texts(3, columns.len()),
        ", "@,
    ) + ") WHERE "@ + user + "=$1 AND "@ + id + "=$2 RETURNING *"@
}

impl ToQuery for TaskPutRequest {
    open spec fn statement_ready(&self) -> bool {
        true
    }

    open spec fn params_ready(&self) -> bool {
        self.task_id is Some && self.user_id is Some
    }

    open spec fn statement_text(&self) -> Seq<char> {
        put_text(TaskModel::TABLE@, self.columns(), TaskModel::USER_ID@, TaskModel::ID@)
    }

    open spec fn params_of(&self) -> Seq<SqlParam<'_>> {
        let stamp = SqlParam::Timestamp(&self.timestamp);
        let p = seq![SqlParam::Id(&self.user_id->0), SqlParam::Id(&self.task_id->0), stamp];
        let p = pushed_if(p, update_value_param(&self.title));
        let p = pushed_if(p, update_value_param(&self.notes));
        let p = pushed_if(p, update_value_param(&self.start_date));
        let p = pushed_if(p, update_value_param(&self.start_time));
        let p = pushed_if(p, update_value_param(&self.deadline));
        let p = pushed_if(p, flag_param(self.completed, stamp));
        let p = pushed_if(p, flag_param(self.logged, stamp));
        let p = pushed_if(p, flag_param(self.trashed, stamp));
        let p = pushed_if(p, update_value_param(&self.area_id));
        pushed_if(p, update_value_param(&self.project_id))
    }

    fn statement(&self) -> (r: String) {
        proof { reveal(TaskPutRequest::columns); }
        let mut columns: Vec<String> = Vec::new();
        columns.push(TaskModel::UPDATED.to_owned());
        assert(views(columns@) =~= seq![TaskModel::UPDATED@]);
        push_column_if(&mut columns, TaskModel::TITLE, self.title.is_some());
        push_column_if(&mut columns, TaskModel::NOTES, self.notes.is_some());
        push_column_if(&mut columns, TaskModel::START_DATE, self.start_date.is_some());
        push_column_if(&mut columns, TaskModel::START_TIME, self.start_time.is_some());
        push_column_if(&mut columns, TaskModel::DEADLINE, self.deadline.is_some());
        push_column_if(&mut columns, TaskModel::COMPLETED, self.completed.is_some());
        push_column_if(&mut columns, TaskModel::LOGGED, self.logged.is_some());
        push_column_if(&mut columns, TaskModel::TRASHED, self.trashed.is_some());
        push_column_if(&mut columns, TaskModel::AREA_ID, self.area_id.is_some());
        push_column_if(&mut columns, TaskModel::PROJECT_ID, self.project_id.is_some());
        let mut s = String::new();
        s.append("UPDATE ");
        s.append(TaskModel::TABLE);
        s.append(" SET (");
        push_joined(&mut s, &columns, ", ");
        s.append(")=(");
        assert(columns@.len() <= 11);
        let range = 3..=columns.len() + 2;
        assert(range_placeholders(range) =~= placeholder_texts(3, columns@.len()));
        let values = parameter_values(range);
        push_joined(&mut s, &values, ", ");
        s.append(") WHERE ");
        s.append(TaskModel::USER_ID);
        s.append("=$1 AND ");
        s.append(TaskModel::ID);
        s.append("=$2 RETURNING *");
        s
    }

    fn params(&self) -> (r: Vec<SqlParam<'_>>) {
        let stamp = SqlParam::Timestamp(&self.timestamp);
        let mut params: Vec<SqlParam<'_>> = Vec::new();
        params.push(SqlParam::Id(self.user_id.as_ref().unwrap()));
        params.push(SqlParam::Id(self.task_id.as_ref().unwrap()));
        params.push(stamp);
        assert(params@ =~= seq![SqlParam::Id(&self.user_id->0), SqlParam::Id(&self.task_id->0), stamp]);
        push_update_value(&mut params, &self.title);
        push_update_value(&mut params, &self.notes);
        push_update_value(&mut params, &self.start_date);
        push_update_value(&mut params, &self.start_time);
        push_update_value(&mut params, &self.deadline);
        push_flag_param(&mut params, self.completed, stamp);
        push_flag_param(&mut params, self.logged, stamp);
        push_flag_param(&mut params, self.trashed, stamp);
        push_update_value(&mut params, &self.area_id);
        push_update_value(&mut params, &self.project_id);
        params
    }
}

/// `DELETE FROM table WHERE owner=$1`: removes the tags of a row.
pub open spec fn untag_text(table: Seq<char>, owner: Seq<char>) -> Seq<char> {
    "DELETE FROM "@ + table + " WHERE "@ + owner + "=$1"@
}

/// Renders the statement that removes the tags of the row `$1`.
pub fn untag(table: &str, owner: &str) -> (r: String)
    ensures
        r@ == untag_text(table@, owner@),
{
    let mut s = String::new();
    s.append("DELETE FROM ");
    s.append(table);
    s.append(" WHERE ");
    s.append(owner);
    s.append("=$1");
    s
}

/// The task to delete, of the given owner.
pub struct TaskDeleteRequest {
    pub task_id: Option<Uuid>,
    pub user_id: Option<Uuid>,
}

impl TaskDeleteRequest {
    pub fn task_id(&mut self, id: Uuid) -> (r: &mut Self)
        ensures
            *r == (Self { task_id: Some(id), ..*old(self) }),
            *final(self) == *final(r),
    {
        self.task_id = Some(id);
        self
    }

    pub fn user_id(&mut self, id: Uuid) -> (r: &mut Self)
        ensures
            *r == (Self { user_id: Some(id), ..*old(self) }),
            *final(self) == *final(r),
    {
        self.user_id = Some(id);
        self
    }
}

impl Default for TaskDeleteRequest {
    fn default() -> (r: Self)
        ensures
            r.task_id is None,
            r.user_id is None,
    {
        Self { task_id: None, user_id: None }
    }
}

/// `WITH deleted AS (DELETE FROM links WHERE id=$1) DELETE FROM table WHERE id=$1 AND user=$2`.
pub open spec fn delete_with_links_text(links: Seq<char>, table: Seq<char>, id: Seq<char>, user: Seq<char>) -> Seq<char> {
    "WITH deleted AS (DELETE FROM "@ + links + " WHERE "@ + id + "=$1) DELETE FROM "@ + table + " WHERE "@
        + id + "=$1 AND "@ + user + "=$2"@
}

impl ToQuery for TaskDeleteRequest {
    open spec fn statement_ready(&self) -> bool {
        true
    }

    open spec fn params_ready(&self) -> bool {
        self.task_id is Some && self.user_id is Some
    }

    open spec fn statement_text(&self) -> Seq<char> {
        delete_with_links_text(TaskTagModel::TABLE@, TaskModel::TABLE@, TaskModel::ID@, TaskModel::USER_ID@)
    }

    open spec fn params_of(&self) -> Seq<SqlParam<'_>> {
        seq![SqlParam::Id(&self.task_id->0), SqlParam::Id(&self.user_id->0)]
    }

    fn statement(&self) -> (r: String) {
        let mut s = String::new();
        s.append("WITH deleted AS (DELETE FROM ");
        s.append(TaskTagModel::TABLE);
        s.append(" WHERE ");
        s.append(TaskModel::ID);
        s.append("=$1) DELETE FROM ");
        s.append(TaskModel::TABLE);
        s.append(" WHERE ");
        s.append(TaskModel::ID);
        s.append("=$1 AND ");
        s.append(TaskModel::USER_ID);
        s.append("=$2");
        s
    }

    fn params(&self) -> (r: Vec<SqlParam<'_>>) {
        let mut params: Vec<SqlParam<'_>> = Vec::new();
        params.push(SqlParam::Id(self.task_id.as_ref().unwrap()));
        params.push(SqlParam::Id(self.user_id.as_ref().unwrap()));
        assert(params@ =~= self.params_of());
        params
    }
}

/// What deleting a task reports, given how many rows went: whether the
/// task was there, or the message when more than one went.
pub fn deletion_outcome(deleted: u64) -> (r: Result<bool, String>)
    ensures
        deleted == 0 ==> r == Ok::<bool, String>(false),
        deleted == 1 ==> r == Ok::<bool, String>(true),
        deleted > 1 ==> (r matches Err(m) && m@ == "More than one task deleted"@),
{
    match deleted {
        0 => Ok(false),
        1 => Ok(true),
        _ => Err("More than one task deleted".to_owned()),
    }
}

/// A search for tasks.
pub struct TaskQueryRequest {
    pub search_query: Option<String>,
    pub start_date: Option<QueryMethod<Date>>,
    pub deadline: Option<QueryMethod<Date>>,
    pub completed: Option<QueryMethod<bool>>,
    pub logged: Option<QueryMethod<bool>>,
    pub trashed: Option<QueryMethod<bool>>,
    pub area_id: Option<QueryMethod<Uuid>>,
    pub project_id: Option<QueryMethod<Uuid>>,
    pub user_id: Option<Uuid>,
    pub tag_ids: Option<QueryMethod<Vec<Uuid>>>,
}

impl TaskQueryRequest {
    /// Searches for titles like the query, taken as it is.
    pub fn search_query(&mut self, query: String) -> (r: &mut Self)
        ensures
            r.search_query == Some(query),
            r.start_date == old(self).start_date,
            r.deadline == old(self).deadline,
            r.completed == old(self).completed,
            r.logged == old(self).logged,
            r.trashed == old(self).trashed,
            r.area_id == old(self).area_id,
            r.project_id == old(self).project_id,
            r.user_id == old(self).user_id,
            r.tag_ids == old(self).tag_ids,
            *final(self) == *final(r),
    {
        self.search_query = Some(query);
        self
    }

    pub fn user_id(&mut self, id: Uuid) -> (r: &mut Self)
        ensures
            *r == (Self { user_id: Some(id), ..*old(self) }),
            *final(self) == *final(r),
    {
        self.user_id = Some(id);
        self
    }

    /// The conditions of the search; of the parameters only the numbering counts.
    pub open spec fn assembly(&self) -> Assembly<'_> {
        let a = Assembly {
            pieces: seq![TaskModel::USER_ID@ + "=$"@ + decimal(1)],
            params: Seq::empty(),
            next: 2,
        };
        let a = with_search(a, TaskModel::TITLE@, &self.search_query);
        let a = with_filter(a, TaskModel::START_DATE@, filter_of(&self.start_date), false);
        let a = with_filter(a, TaskModel::DEADLINE@, filter_of(&self.deadline), false);
        let a = with_filter(a, TaskModel::COMPLETED@, flag_filter_of(&self.completed), false);
        let a = with_filter(a, TaskModel::LOGGED@, flag_filter_of(&self.logged), false);
        let a = with_filter(a, TaskModel::TRASHED@, flag_filter_of(&self.trashed), false);
        let a = with_filter(a, TaskModel::AREA_ID@, filter_of(&self.area_id), false);
        with_filter(a, TaskModel::PROJECT_ID@, filter_of(&self.project_id), false)
    }

    /// Every comparison of the search uses a named flag.
    pub open spec fn filters_render(&self) -> bool {
        &&& optional_filter_renders(self.start_date)
        &&& optional_filter_renders(self.deadline)
        &&& optional_filter_renders(self.completed)
        &&& optional_filter_renders(self.logged)
        &&& optional_filter_renders(self.trashed)
        &&& optional_filter_renders(self.area_id)
        &&& optional_filter_renders(self.project_id)
    }
}

/// `SELECT owner FROM table WHERE tag IN ($1,...,$count) GROUP BY owner HAVING COUNT(DISTINCT tag) >= count`.
pub open spec fn matched_text(table: Seq<char>, owner: Seq<char>, tag: Seq<char>, count: nat) -> Seq<char> {
    "SELECT "@ + owner + " FROM "@ + table + " WHERE "@ + tag + " IN ("@ + joined(placeholder_texts(1, count), ","@)
        + ") GROUP BY "@ + owner + " HAVING COUNT(DISTINCT "@ + tag + ") >= "@ + decimal(count)
}

/// Renders the statement that finds the rows linked to all of `count` tags,
/// the tags given as the parameters `$1`, ..., `$count`.
pub fn matched(table: &str, owner: &str, tag: &str, count: usize) -> (r: String)
    ensures
        r@ == matched_text(table@, owner@, tag@, count as nat),
{
    let mut s = String::new();
    s.append("SELECT ");
    s.append(owner);
    s.append(" FROM ");
    s.append(table);
    s.append(" WHERE ");
    s.append(tag);
    s.append(" IN (");
    let range = 1..=count;
    assert(range_placeholders(range) =~= placeholder_texts(1, count as nat));
    let values = parameter_string(range);
    s.append(values.as_str());
    s.append(") GROUP BY ");
    s.append(owner);
    s.append(" HAVING COUNT(DISTINCT ");
    s.append(tag);
    s.append(") >= ");
    push_decimal(&mut s, count);
    s
}

impl ToQuery for TaskQueryRequest {
    open spec fn statement_ready(&self) -> bool {
        self.filters_render()
    }

    open spec fn params_ready(&self) -> bool {
        self.user_id is Some
    }

    open spec fn statement_text(&self) -> Seq<char> {
        select_where_text(TaskModel::TABLE@, self.assembly().pieces)
    }

    /// The owner, the search, then the values of the date and identifier
    /// filters; the flag filters bind none.
    open spec fn params_of(&self) -> Seq<SqlParam<'_>> {
        let p = seq![SqlParam::Id(&self.user_id->0)];
        let p = pushed_if(p, value_param(&self.search_query));
        let p = pushed_if(p, filter_param(&self.start_date));
        let p = pushed_if(p, filter_param(&self.deadline));
        let p = pushed_if(p, filter_param(&self.area_id));
        pushed_if(p, filter_param(&self.project_id))
    }

    fn statement(&self) -> (r: String) {
        let mut conditions: Vec<String> = Vec::new();
        conditions.push(crate::models::request::assignment(TaskModel::USER_ID, 1));
        let mut scratch: Vec<SqlParam<'_>> = Vec::new();
        let mut n = conditions.len() + 1;
        let ghost a0 = assembly_of(conditions@, scratch@, n);
        assert(a0 =~= Assembly {
            pieces: seq![TaskModel::USER_ID@ + "=$"@ + decimal(1)],
            params: Seq::empty(),
            next: 2,
        });
        if let Some(s) = &self.search_query {
            conditions.push(like_condition(TaskModel::TITLE, n));
            scratch.push(SqlParam::Text(s));
            n = n + 1;
        }
        assert(assembly_of(conditions@, scratch@, n) =~= with_search(a0, TaskModel::TITLE@, &self.search_query));
        let n = push_filter(&mut conditions, &mut scratch, TaskModel::START_DATE, &self.start_date, n, false);
        let n = push_filter(&mut conditions, &mut scratch, TaskModel::DEADLINE, &self.deadline, n, false);
        let n = push_flag_filter(&mut conditions, &scratch, TaskModel::COMPLETED, &self.completed, n);
        let n = push_flag_filter(&mut conditions, &scratch, TaskModel::LOGGED, &self.logged, n);
        let n = push_flag_filter(&mut conditions, &scratch, TaskModel::TRASHED, &self.trashed, n);
        let n = push_filter(&mut conditions, &mut scratch, TaskModel::AREA_ID, &self.area_id, n, false);
        let _ = push_filter(&mut conditions, &mut scratch, TaskModel::PROJECT_ID, &self.project_id, n, false);
        select_where(TaskModel::TABLE, &conditions)
    }

    fn params(&self) -> (r: Vec<SqlParam<'_>>) {
        let mut params: Vec<SqlParam<'_>> = Vec::new();
        params.push(SqlParam::Id(self.user_id.as_ref().unwrap()));
        push_value_param(&mut params, &self.search_query);
        push_filter_param(&mut params, &self.start_date);
        push_filter_param(&mut params, &self.deadline);
        push_filter_param(&mut params, &self.area_id);
        push_filter_param(&mut params, &self.project_id);
        params
    }
}

/// How many of the optional fields of a change are present.
pub open spec fn present_fields(r: &TaskPutRequest) -> int {
    (if r.title is Some { 1int } else { 0 }) + (if r.notes is Some { 1int } else { 0 }) + (if r.start_date is Some {
        1int
    } else {
        0
    }) + (if r.start_time is Some { 1int } else { 0 }) + (if r.deadline is Some { 1int } else { 0 }) + (if r.completed is Some {
        1int
    } else {
        0
    }) + (if r.logged is Some { 1int } else { 0 }) + (if r.trashed is Some { 1int } else { 0 }) + (if r.area_id is Some {
        1int
    } else {
        0
    }) + (if r.project_id is Some { 1int } else { 0 })
}

proof fn lemma_listed_keeps_front(columns: Seq<Seq<char>>, column: Seq<char>, present: bool)
    requires
        columns.len() >= 1,
    ensures
        listed_if(columns, column, present).len() == columns.len() + if present { 1int } else { 0 },
        listed_if(columns, column, present)[0] == columns[0],
{
}

#[verifier::rlimit(100)]
#[verifier::spinoff_prover]
proof fn lemma_put_columns(r: &TaskPutRequest)
    ensures
        r.columns().len() == 1 + present_fields(r),
        r.columns()[0] == TaskModel::UPDATED@,
{
    reveal(TaskPutRequest::columns);
    let c = seq![TaskModel::UPDATED@];
    lemma_listed_keeps_front(c, TaskModel::TITLE@, r.title is Some);
    let c = listed_if(c, TaskModel::TITLE@, r.title is Some);
    lemma_listed_keeps_front(c, TaskModel::NOTES@, r.notes is Some);
    let c = listed_if(c, TaskModel::NOTES@, r.notes is Some);
    lemma_listed_keeps_front(c, TaskModel::START_DATE@, r.start_date is Some);
    let c = listed_if(c, TaskModel::START_DATE@, r.start_date is Some);
    lemma_listed_keeps_front(c, TaskModel::START_TIME@, r.start_time is Some);
    let c = listed_if(c, TaskModel::START_TIME@, r.start_time is Some);
    lemma_listed_keeps_front(c, TaskModel::DEADLINE@, r.deadline is Some);
    let c = listed_if(c, TaskModel::DEADLINE@, r.deadline is Some);
    lemma_listed_keeps_front(c, TaskModel::COMPLETED@, r.completed is Some);
    let c = listed_if(c, TaskModel::COMPLETED@, r.completed is Some);
    lemma_listed_keeps_front(c, TaskModel::LOGGED@, r.logged is Some);
    let c = listed_if(c, TaskModel::LOGGED@, r.logged is Some);
    lemma_listed_keeps_front(c, TaskModel::TRASHED@, r.trashed is Some);
    let c = listed_if(c, TaskModel::TRASHED@, r.trashed is Some);
    lemma_listed_keeps_front(c, TaskModel::AREA_ID@, r.area_id is Some);
    let c = listed_if(c, TaskModel::AREA_ID@, r.area_id is Some);
    lemma_listed_keeps_front(c, TaskModel::PROJECT_ID@, r.project_id is Some);
}

proof fn lemma_pushed_keeps_front<'a>(params: Seq<SqlParam<'a>>, param: Option<SqlParam<'a>>)
    requires
        params.len() >= 3,
    ensures
        pushed_if(params, param).len() == params.len() + if param is Some { 1int } else { 0 },
        pushed_if(params, param).take(3) == params.take(3),
{
    if let Some(x) = param {
        assert(params.push(x).take(3) =~= params.take(3));
    }
}

#[verifier::spinoff_prover]
proof fn lemma_put_params(r: &TaskPutRequest)
    ensures
        r.params_of().len() == 3 + present_fields(r),
        r.params_of().take(3) == seq![
            SqlParam::Id(&r.user_id->0),
            SqlParam::Id(&r.task_id->0),
            SqlParam::Timestamp(&r.timestamp),
        ],
{
    let stamp = SqlParam::Timestamp(&r.timestamp);
    let p = seq![SqlParam::Id(&r.user_id->0), SqlParam::Id(&r.task_id->0), stamp];
    assert(p.take(3) =~= p);
    lemma_pushed_keeps_front(p, update_value_param(&r.title));
    let p = pushed_if(p, update_value_param(&r.title));
    lemma_pushed_keeps_front(p, update_value_param(&r.notes));
    let p = pushed_if(p, update_value_param(&r.notes));
    lemma_pushed_keeps_front(p, update_value_param(&r.start_date));
    let p = pushed_if(p, update_value_param(&r.start_date));
    lemma_pushed_keeps_front(p, update_value_param(&r.start_time));
    let p = pushed_if(p, update_value_param(&r.start_time));
    lemma_pushed_keeps_front(p, update_value_param(&r.deadline));
    let p = pushed_if(p, update_value_param(&r.deadline));
    lemma_pushed_keeps_front(p, flag_param(r.completed, stamp));
    let p = pushed_if(p, flag_param(r.completed, stamp));
    lemma_pushed_keeps_front(p, flag_param(r.logged, stamp));
    let p = pushed_if(p, flag_param(r.logged, stamp));
    lemma_pushed_keeps_front(p, flag_param(r.trashed, stamp));
    let p = pushed_if(p, flag_param(r.trashed, stamp));
    lemma_pushed_keeps_front(p, update_value_param(&r.area_id));
    let p = pushed_if(p, update_value_param(&r.area_id));
    lemma_pushed_keeps_front(p, update_value_param(&r.project_id));
}

/// A change binds one value for each column it names, after two values: the
/// owner (`$1`) and the task (`$2`); the change time, bound to `$3`, is the
/// value of the first column.
pub proof fn law_put_binds_one_value_per_column(r: &TaskPutRequest)
    ensures
        r.params_of().len() == r.columns().len() + 2,
        r.params_of().take(3) == seq![
            SqlParam::Id(&r.user_id->0),
            SqlParam::Id(&r.task_id->0),
            SqlParam::Timestamp(&r.timestamp),
        ],
        r.columns()[0] == TaskModel::UPDATED@,
{
    lemma_put_columns(r);
    lemma_put_params(r);
}

/// A new task lists the owner's column first, then one column for each
/// field given, and no other; each field given is listed under its own
/// column with its value at the same place among the parameters.
pub proof fn law_post_lists_every_field(r: &TaskPostRequest)
    ensures
        r.params_of().len() == r.columns().len(),
        r.columns().len() == 1 + (if r.title is Some { 1int } else { 0 }) + (if r.notes is Some { 1int } else { 0 }) + (if r.start_date is Some { 1int } else { 0 }) + (if r.start_time is Some { 1int } else { 0 }) + (if r.deadline is Some { 1int } else { 0 }) + (if r.area_id is Some { 1int } else { 0 }) + (if r.project_id is Some { 1int } else { 0 }),
        r.columns()[0] == TaskModel::USER_ID@,
        r.params_of()[0] == SqlParam::Id(&r.user_id->0),
        r.title matches Some(v) ==> listed_with(r.columns(), r.params_of(), 0, TaskModel::TITLE@, SqlParam::Text(&v)),
        r.notes matches Some(v) ==> listed_with(r.columns(), r.params_of(), 0, TaskModel::NOTES@, SqlParam::Text(&v)),
        r.start_date matches Some(v) ==> listed_with(r.columns(), r.params_of(), 0, TaskModel::START_DATE@, SqlParam::Date(&v)),
        r.start_time matches Some(v) ==> listed_with(r.columns(), r.params_of(), 0, TaskModel::START_TIME@, SqlParam::Time(&v)),
        r.deadline matches Some(v) ==> listed_with(r.columns(), r.params_of(), 0, TaskModel::DEADLINE@, SqlParam::Date(&v)),
        r.area_id matches Some(v) ==> listed_with(r.columns(), r.params_of(), 0, TaskModel::AREA_ID@, SqlParam::Id(&v)),
        r.project_id matches Some(v) ==> listed_with(r.columns(), r.params_of(), 0, TaskModel::PROJECT_ID@, SqlParam::Id(&v)),
{
    let c = seq![TaskModel::USER_ID@];
    let p = seq![SqlParam::Id(&r.user_id->0)];
    lemma_listed_pair(c, p, 0, TaskModel::TITLE@, value_param(&r.title), r.title is Some);
    let c = listed_if(c, TaskModel::TITLE@, r.title is Some);
    let p = pushed_if(p, value_param(&r.title));
    lemma_listed_pair(c, p, 0, TaskModel::NOTES@, value_param(&r.notes), r.notes is Some);
    let c = listed_if(c, TaskModel::NOTES@, r.notes is Some);
    let p = pushed_if(p, value_param(&r.notes));
    lemma_listed_pair(c, p, 0, TaskModel::START_DATE@, value_param(&r.start_date), r.start_date is Some);
    let c = listed_if(c, TaskModel::START_DATE@, r.start_date is Some);
    let p = pushed_if(p, value_param(&r.start_date));
    lemma_listed_pair(c, p, 0, TaskModel::START_TIME@, value_param(&r.start_time), r.start_time is Some);
    let c = listed_if(c, TaskModel::START_TIME@, r.start_time is Some);
    let p = pushed_if(p, value_param(&r.start_time));
    lemma_listed_pair(c, p, 0, TaskModel::DEADLINE@, value_param(&r.deadline), r.deadline is Some);
    let c = listed_if(c, TaskModel::DEADLINE@, r.deadline is Some);
    let p = pushed_if(p, value_param(&r.deadline));
    lemma_listed_pair(c, p, 0, TaskModel::AREA_ID@, value_param(&r.area_id), r.area_id is Some);
    let c = listed_if(c, TaskModel::AREA_ID@, r.area_id is Some);
    let p = pushed_if(p, value_param(&r.area_id));
    lemma_listed_pair(c, p, 0, TaskModel::PROJECT_ID@, value_param(&r.project_id), r.project_id is Some);
    let c = listed_if(c, TaskModel::PROJECT_ID@, r.project_id is Some);
    let p = pushed_if(p, value_param(&r.project_id));
    assert(r.columns() == c);
    assert(r.params_of() == p);
}

/// A change lists each column with its value at the same place, two
/// places ahead among the parameters (after the owner and the task): the
/// change time with the request's time, each field changed under its own
/// column with its new value or `NULL` when cleared, and each flag with the
/// request's time when set or `NULL` when cleared.
#[verifier::rlimit(100)]
#[verifier::spinoff_prover]
pub proof fn law_put_pairs_columns_and_values(r: &TaskPutRequest)
    ensures
        listed_with(r.columns(), r.params_of(), 2, TaskModel::UPDATED@, SqlParam::Timestamp(&r.timestamp)),
        r.title matches Some(UpdateMethod::Change(v)) ==> listed_with(r.columns(), r.params_of(), 2, TaskModel::TITLE@, SqlParam::Text(&v)),
        r.title matches Some(UpdateMethod::Remove) ==> listed_with(r.columns(), r.params_of(), 2, TaskModel::TITLE@, SqlParam::Null),
        r.notes matches Some(UpdateMethod::Change(v)) ==> listed_with(r.columns(), r.params_of(), 2, TaskModel::NOTES@, SqlParam::Text(&v)),
        r.notes matches Some(UpdateMethod::Remove) ==> listed_with(r.columns(), r.params_of(), 2, TaskModel::NOTES@, SqlParam::Null),
        r.start_date matches Some(UpdateMethod::Change(v)) ==> listed_with(r.columns(), r.params_of(), 2, TaskModel::START_DATE@, SqlParam::Date(&v)),
        r.start_date matches Some(UpdateMethod::Remove) ==> listed_with(r.columns(), r.params_of(), 2, TaskModel::START_DATE@, SqlParam::Null),
        r.start_time matches Some(UpdateMethod::Change(v)) ==> listed_with(r.columns(), r.params_of(), 2, TaskModel::START_TIME@, SqlParam::Time(&v)),
        r.start_time matches Some(UpdateMethod::Remove) ==> listed_with(r.columns(), r.params_of(), 2, TaskModel::START_TIME@, SqlParam::Null),
        r.deadline matches Some(UpdateMethod::Change(v)) ==> listed_with(r.columns(), r.params_of(), 2, TaskModel::DEADLINE@, SqlParam::Date(&v)),
        r.deadline matches Some(UpdateMethod::Remove) ==> listed_with(r.columns(), r.params_of(), 2, TaskModel::DEADLINE@, SqlParam::Null),
        r.completed == Some(true) ==> listed_with(r.columns(), r.params_of(), 2, TaskModel::COMPLETED@, SqlParam::Timestamp(&r.timestamp)),
        r.completed == Some(false) ==> listed_with(r.columns(), r.params_of(), 2, TaskModel::COMPLETED@, SqlParam::Null),
        r.logged == Some(true) ==> listed_with(r.columns(), r.params_of(), 2, TaskModel::LOGGED@, SqlParam::Timestamp(&r.timestamp)),
        r.logged == Some(false) ==> listed_with(r.columns(), r.params_of(), 2, TaskModel::LOGGED@, SqlParam::Null),
        r.trashed == Some(true) ==> listed_with(r.columns(), r.params_of(), 2, TaskModel::TRASHED@, SqlParam::Timestamp(&r.timestamp)),
        r.trashed == Some(false) ==> listed_with(r.columns(), r.params_of(), 2, TaskModel::TRASHED@, SqlParam::Null),
        r.area_id matches Some(UpdateMethod::Change(v)) ==> listed_with(r.columns(), r.params_of(), 2, TaskModel::AREA_ID@, SqlParam::Id(&v)),
        r.area_id matches Some(UpdateMethod::Remove) ==> listed_with(r.columns(), r.params_of(), 2, TaskModel::AREA_ID@, SqlParam::Null),
        r.project_id matches Some(UpdateMethod::Change(v)) ==> listed_with(r.columns(), r.params_of(), 2, TaskModel::PROJECT_ID@, SqlParam::Id(&v)),
        r.project_id matches Some(UpdateMethod::Remove) ==> listed_with(r.columns(), r.params_of(), 2, TaskModel::PROJECT_ID@, SqlParam::Null),
{
    reveal(TaskPutRequest::columns);
    let stamp = SqlParam::Timestamp(&r.timestamp);
    let c = seq![TaskModel::UPDATED@];
    let p = seq![SqlParam::Id(&r.user_id->0), SqlParam::Id(&r.task_id->0), stamp];
    assert(c[0] == TaskModel::UPDATED@ && p[2] == stamp);
    assert(listed_with(c, p, 2, TaskModel::UPDATED@, stamp));
    lemma_listed_pair(c, p, 2, TaskModel::TITLE@, update_value_param(&r.title), r.title is Some);
    let c = listed_if(c, TaskModel::TITLE@, r.title is Some);
    let p = pushed_if(p, update_value_param(&r.title));
    lemma_listed_pair(c, p, 2, TaskModel::NOTES@, update_value_param(&r.notes), r.notes is Some);
    let c = listed_if(c, TaskModel::NOTES@, r.notes is Some);
    let p = pushed_if(p, update_value_param(&r.notes));
    lemma_listed_pair(c, p, 2, TaskModel::START_DATE@, update_value_param(&r.start_date), r.start_date is Some);
    let c = listed_if(c, TaskModel::START_DATE@, r.start_date is Some);
    let p = pushed_if(p, update_value_param(&r.start_date));
    lemma_listed_pair(c, p, 2, TaskModel::START_TIME@, update_value_param(&r.start_time), r.start_time is Some);
    let c = listed_if(c, TaskModel::START_TIME@, r.start_time is Some);
    let p = pushed_if(p, update_value_param(&r.start_time));
    lemma_listed_pair(c, p, 2, TaskModel::DEADLINE@, update_value_param(&r.deadline), r.deadline is Some);
    let c = listed_if(c, TaskModel::DEADLINE@, r.deadline is Some);
    let p = pushed_if(p, update_value_param(&r.deadline));
    lemma_listed_pair(c, p, 2, TaskModel::COMPLETED@, flag_param(r.completed, stamp), r.completed is Some);
    let c = listed_if(c, TaskModel::COMPLETED@, r.completed is Some);
    let p = pushed_if(p, flag_param(r.completed, stamp));
    lemma_listed_pair(c, p, 2, TaskModel::LOGGED@, flag_param(r.logged, stamp), r.logged is Some);
    let c = listed_if(c, TaskModel::LOGGED@, r.logged is Some);
    let p = pushed_if(p, flag_param(r.logged, stamp));
    lemma_listed_pair(c, p, 2, TaskModel::TRASHED@, flag_param(r.trashed, stamp), r.trashed is Some);
    let c = listed_if(c, TaskModel::TRASHED@, r.trashed is Some);
    let p = pushed_if(p, flag_param(r.trashed, stamp));
    lemma_listed_pair(c, p, 2, TaskModel::AREA_ID@, update_value_param(&r.area_id), r.area_id is Some);
    let c = listed_if(c, TaskModel::AREA_ID@, r.area_id is Some);
    let p = pushed_if(p, update_value_param(&r.area_id));
    lemma_listed_pair(c, p, 2, TaskModel::PROJECT_ID@, update_value_param(&r.project_id), r.project_id is Some);
    let c = listed_if(c, TaskModel::PROJECT_ID@, r.project_id is Some);
    let p = pushed_if(p, update_value_param(&r.project_id));
    assert(r.columns() == c);
    assert(r.params_of() == p);
}

/// Each filter of a search is a condition on its own column: the owner's
/// condition names `user_id`, the title search names the title, each filter
/// given names the column of its field, and there is no condition besides
/// the owner's and one for each filter given.
pub proof fn law_search_filters_name_their_columns(r: &TaskQueryRequest)
    ensures
        r.assembly().pieces.len() == 1 + (if r.search_query is Some { 1int } else { 0 }) + (if r.start_date is Some { 1int } else { 0 }) + (if r.deadline is Some { 1int } else { 0 }) + (if r.completed is Some { 1int } else { 0 }) + (if r.logged is Some { 1int } else { 0 }) + (if r.trashed is Some { 1int } else { 0 }) + (if r.area_id is Some { 1int } else { 0 }) + (if r.project_id is Some { 1int } else { 0 }),
        names_column(r.assembly().pieces, TaskModel::USER_ID@),
        r.search_query is Some ==> names_column(r.assembly().pieces, TaskModel::TITLE@),
        r.start_date is Some ==> names_column(r.assembly().pieces, TaskModel::START_DATE@),
        r.deadline is Some ==> names_column(r.assembly().pieces, TaskModel::DEADLINE@),
        r.completed is Some ==> names_column(r.assembly().pieces, TaskModel::COMPLETED@),
        r.logged is Some ==> names_column(r.assembly().pieces, TaskModel::LOGGED@),
        r.trashed is Some ==> names_column(r.assembly().pieces, TaskModel::TRASHED@),
        r.area_id is Some ==> names_column(r.assembly().pieces, TaskModel::AREA_ID@),
        r.project_id is Some ==> names_column(r.assembly().pieces, TaskModel::PROJECT_ID@),
{
    let a = Assembly {
        pieces: seq![TaskModel::USER_ID@ + "=$"@ + decimal(1)],
        params: Seq::empty(),
        next: 2,
    };
    lemma_on_own_column(TaskModel::USER_ID@);
    lemma_on_column_extends(TaskModel::USER_ID@, TaskModel::USER_ID@, "=$"@);
    lemma_on_column_extends(TaskModel::USER_ID@ + "=$"@, TaskModel::USER_ID@, decimal(1));
    assert(a.pieces[0] == TaskModel::USER_ID@ + "=$"@ + decimal(1));
    assert(names_column(a.pieces, TaskModel::USER_ID@));
    lemma_search_names(a, TaskModel::TITLE@, &r.search_query);
    let a = with_search(a, TaskModel::TITLE@, &r.search_query);
    lemma_filter_names(a, TaskModel::START_DATE@, filter_of(&r.start_date), false);
    let a = with_filter(a, TaskModel::START_DATE@, filter_of(&r.start_date), false);
    lemma_filter_names(a, TaskModel::DEADLINE@, filter_of(&r.deadline), false);
    let a = with_filter(a, TaskModel::DEADLINE@, filter_of(&r.deadline), false);
    lemma_filter_names(a, TaskModel::COMPLETED@, flag_filter_of(&r.completed), false);
    let a = with_filter(a, TaskModel::COMPLETED@, flag_filter_of(&r.completed), false);
    lemma_filter_names(a, TaskModel::LOGGED@, flag_filter_of(&r.logged), false);
    let a = with_filter(a, TaskModel::LOGGED@, flag_filter_of(&r.logged), false);
    lemma_filter_names(a, TaskModel::TRASHED@, flag_filter_of(&r.trashed), false);
    let a = with_filter(a, TaskModel::TRASHED@, flag_filter_of(&r.trashed), false);
    lemma_filter_names(a, TaskModel::AREA_ID@, filter_of(&r.area_id), false);
    let a = with_filter(a, TaskModel::AREA_ID@, filter_of(&r.area_id), false);
    lemma_filter_names(a, TaskModel::PROJECT_ID@, filter_of(&r.project_id), false);
    let a = with_filter(a, TaskModel::PROJECT_ID@, filter_of(&r.project_id), false);
    assert(r.assembly() == a);
}

} // verus!
