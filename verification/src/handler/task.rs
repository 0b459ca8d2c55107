//! The statements of the task handlers.

use vstd::prelude::*;
use crate::model::task::TaskModel;
use crate::schema::AddToQuery;
use crate::schema::task::{CreateTaskSchema, QueryTaskSchema, UpdateTaskSchema};
use crate::sql_builder::{PostgresCmp, QueryParts, SQLQueryBuilder, column_values};
use crate::values::{SqlParam, Timestamp, Uuid};

verus! {

/// What the insert of a new task holds: its owner and the body's
/// fields, its new identifier returned.
pub open spec fn create_parts<'a>(user_id: &'a Uuid, body: &'a CreateTaskSchema) -> QueryParts<SqlParam<'a>> {
    body.query_added(
        QueryParts::empty(TaskModel::TABLE@).with_column(TaskModel::USER_ID@, SqlParam::Id(user_id)),
    ).with_return(seq![TaskModel::ID@])
}

/// The insert of a new task.
pub fn create_statement<'a>(user_id: &'a Uuid, body: &'a CreateTaskSchema) -> (r: (String, Vec<SqlParam<'a>>))
    ensures
        r.0@ == create_parts(user_id, body).insert_sql(),
        r.1@ == column_values(create_parts(user_id, body).columns),
{
    let mut builder = SQLQueryBuilder::new(TaskModel::TABLE);
    builder.add_column(TaskModel::USER_ID, SqlParam::Id(user_id));
    proof { body.lemma_query_added(builder@); }
    body.add_to_query(&mut builder);
    let mut returned: Vec<&str> = Vec::new();
    returned.push(TaskModel::ID);
    builder.set_return(returned);
    proof { reveal_strlit("data.tasks"); }
    builder.build_insert()
}

/// What the update of a task holds: the change time first, the body's
/// fields, the owner and identifier to match, its identifier returned.
pub open spec fn update_parts<'a>(
    timestamp: &'a Timestamp,
    body: &'a UpdateTaskSchema,
    user_id: &'a Uuid,
    id: &'a Uuid,
) -> QueryParts<SqlParam<'a>> {
    body.query_added(
        QueryParts::empty(TaskModel::TABLE@).with_column(TaskModel::UPDATED@, SqlParam::Timestamp(timestamp)),
    ).with_condition(TaskModel::USER_ID@, PostgresCmp::Equal, SqlParam::Id(user_id)).with_condition(
        TaskModel::ID@,
        PostgresCmp::Equal,
        SqlParam::Id(id),
    ).with_return(seq![TaskModel::ID@])
}

/// The update of the task `id` that `user_id` owns.
pub fn update_statement<'a>(
    timestamp: &'a Timestamp,
    body: &'a UpdateTaskSchema,
    user_id: &'a Uuid,
    id: &'a Uuid,
) -> (r: (String, Vec<SqlParam<'a>>))
    ensures
        r.0@ == update_parts(timestamp, body, user_id, id).update_sql(),
        r.1@ == update_parts(timestamp, body, user_id, id).update_params(),
{
    let mut builder = SQLQueryBuilder::new(TaskModel::TABLE);
    builder.add_column(TaskModel::UPDATED, SqlParam::Timestamp(timestamp));
    proof { body.lemma_can_add(builder@); body.lemma_query_added(builder@); }
    body.add_to_query(&mut builder);
    builder.add_condition(TaskModel::USER_ID, PostgresCmp::Equal, SqlParam::Id(user_id));
    builder.add_condition(TaskModel::ID, PostgresCmp::Equal, SqlParam::Id(id));
    let mut returned: Vec<&str> = Vec::new();
    returned.push(TaskModel::ID);
    builder.set_return(returned);
    proof { reveal_strlit("data.tasks"); }
    builder.build_update()
}

/// What a search for tasks holds: the body's filters, the owner, and
/// the page.
pub open spec fn query_parts<'a>(
    body: &'a QueryTaskSchema,
    user_id: &'a Uuid,
    limit: usize,
    offset: usize,
) -> QueryParts<SqlParam<'a>> {
    body.query_added(QueryParts::empty(TaskModel::TABLE@)).with_condition(
        TaskModel::USER_ID@,
        PostgresCmp::Equal,
        SqlParam::Id(user_id),
    ).with_limit(limit).with_offset(offset)
}

/// The search for the tasks of `user_id`, one page of them.
pub fn query_statement<'a>(
    body: &'a QueryTaskSchema,
    user_id: &'a Uuid,
    limit: usize,
    offset: usize,
) -> (r: (String, Vec<SqlParam<'a>>))
    ensures
        r.0@ == query_parts(body, user_id, limit, offset).select_sql(),
        r.1@ == query_parts(body, user_id, limit, offset).select_params(),
{
    let mut builder = SQLQueryBuilder::new(TaskModel::TABLE);
    proof { body.lemma_query_added(builder@); }
    body.add_to_query(&mut builder);
    builder.add_condition(TaskModel::USER_ID, PostgresCmp::Equal, SqlParam::Id(user_id));
    builder.set_limit(limit);
    builder.set_offset(offset);
    proof { reveal_strlit("data.tasks"); }
    builder.build_select()
}

} // verus!
