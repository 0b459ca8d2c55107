//! The statements of the project handlers.

use vstd::prelude::*;
use crate::model::project::ProjectModel;
use crate::schema::AddToQuery;
use crate::schema::project::{CreateProjectSchema, QueryProjectSchema, UpdateProjectSchema};
use crate::sql_builder::{PostgresCmp, QueryParts, SQLQueryBuilder, column_values};
use crate::values::{SqlParam, Timestamp, Uuid};

verus! {

/// What the insert of a new project holds: its owner and the body's
/// fields, its new identifier returned.
pub open spec fn create_parts<'a>(user_id: &'a Uuid, body: &'a CreateProjectSchema) -> QueryParts<SqlParam<'a>> {
    body.query_added(
        QueryParts::empty(ProjectModel::TABLE@).with_column(ProjectModel::USER_ID@, SqlParam::Id(user_id)),
    ).with_return(seq![ProjectModel::ID@])
}

/// The insert of a new project.
pub fn create_statement<'a>(user_id: &'a Uuid, body: &'a CreateProjectSchema) -> (r: (String, Vec<SqlParam<'a>>))
    ensures
        r.0@ == create_parts(user_id, body).insert_sql(),
        r.1@ == column_values(create_parts(user_id, body).columns),
{
    let mut builder = SQLQueryBuilder::new(ProjectModel::TABLE);
    builder.add_column(ProjectModel::USER_ID, SqlParam::Id(user_id));
    proof { body.lemma_query_added(builder@); }
    body.add_to_query(&mut builder);
    let mut returned: Vec<&str> = Vec::new();
    returned.push(ProjectModel::ID);
    builder.set_return(returned);
    proof { reveal_strlit("data.projects"); }
    builder.build_insert()
}

/// What the update of a project holds: the change time first, the body's
/// fields, the owner and identifier to match, every column returned.
pub open spec fn update_parts<'a>(
    timestamp: &'a Timestamp,
    body: &'a UpdateProjectSchema,
    user_id: &'a Uuid,
    id: &'a Uuid,
) -> QueryParts<SqlParam<'a>> {
    body.query_added(
        QueryParts::empty(ProjectModel::TABLE@).with_column(ProjectModel::UPDATED@, SqlParam::Timestamp(timestamp)),
    ).with_condition(ProjectModel::USER_ID@, PostgresCmp::Equal, SqlParam::Id(user_id)).with_condition(
        ProjectModel::ID@,
        PostgresCmp::Equal,
        SqlParam::Id(id),
    ).with_return(seq![ProjectModel::ID@])
}

/// The update of the project `id` that `user_id` owns.
pub fn update_statement<'a>(
    timestamp: &'a Timestamp,
    body: &'a UpdateProjectSchema,
    user_id: &'a Uuid,
    id: &'a Uuid,
) -> (r: (String, Vec<SqlParam<'a>>))
    ensures
        r.0@ == update_parts(timestamp, body, user_id, id).update_sql(),
        r.1@ == update_parts(timestamp, body, user_id, id).update_params(),
{
    let mut builder = SQLQueryBuilder::new(ProjectModel::TABLE);
    builder.add_column(ProjectModel::UPDATED, SqlParam::Timestamp(timestamp));
    proof { body.lemma_can_add(builder@); body.lemma_query_added(builder@); }
    body.add_to_query(&mut builder);
    builder.add_condition(ProjectModel::USER_ID, PostgresCmp::Equal, SqlParam::Id(user_id));
    builder.add_condition(ProjectModel::ID, PostgresCmp::Equal, SqlParam::Id(id));
    let mut returned: Vec<&str> = Vec::new();
    returned.push(ProjectModel::ID);
    builder.set_return(returned);
    proof { reveal_strlit("data.projects"); }
    builder.build_update()
}

/// What a search for projects holds: the body's filters, the owner, and
/// the page.
pub open spec fn query_parts<'a>(
    body: &'a QueryProjectSchema,
    user_id: &'a Uuid,
    limit: usize,
    offset: usize,
) -> QueryParts<SqlParam<'a>> {
    body.query_added(QueryParts::empty(ProjectModel::TABLE@)).with_condition(
        ProjectModel::USER_ID@,
        PostgresCmp::Equal,
        SqlParam::Id(user_id),
    ).with_limit(limit).with_offset(offset)
}

/// The search for the projects of `user_id`, one page of them.
pub fn query_statement<'a>(
    body: &'a QueryProjectSchema,
    user_id: &'a Uuid,
    limit: usize,
    offset: usize,
) -> (r: (String, Vec<SqlParam<'a>>))
    ensures
        r.0@ == query_parts(body, user_id, limit, offset).select_sql(),
        r.1@ == query_parts(body, user_id, limit, offset).select_params(),
{
    let mut builder = SQLQueryBuilder::new(ProjectModel::TABLE);
    proof { body.lemma_query_added(builder@); }
    body.add_to_query(&mut builder);
    builder.add_condition(ProjectModel::USER_ID, PostgresCmp::Equal, SqlParam::Id(user_id));
    builder.set_limit(limit);
    builder.set_offset(offset);
    proof { reveal_strlit("data.projects"); }
    builder.build_select()
}

} // verus!
