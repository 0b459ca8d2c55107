//! The statements of the area handlers.

use vstd::prelude::*;
use crate::model::area::AreaModel;
use crate::schema::AddToQuery;
use crate::schema::area::{CreateAreaSchema, QueryAreaSchema, UpdateAreaSchema};
use crate::sql_builder::{PostgresCmp, QueryParts, SQLQueryBuilder, column_values};
use crate::values::{SqlParam, Timestamp, Uuid};

verus! {

/// What the insert of a new area holds: its owner and the body's
/// fields, every column returned.
pub open spec fn create_parts<'a>(user_id: &'a Uuid, body: &'a CreateAreaSchema) -> QueryParts<SqlParam<'a>> {
    body.query_added(
        QueryParts::empty(AreaModel::TABLE@).with_column(AreaModel::USER_ID@, SqlParam::Id(user_id)),
    ).with_return(seq![seq!['*']])
}

/// The insert of a new area.
pub fn create_statement<'a>(user_id: &'a Uuid, body: &'a CreateAreaSchema) -> (r: (String, Vec<SqlParam<'a>>))
    ensures
        r.0@ == create_parts(user_id, body).insert_sql(),
        r.1@ == column_values(create_parts(user_id, body).columns),
{
    let mut builder = SQLQueryBuilder::new(AreaModel::TABLE);
    builder.add_column(AreaModel::USER_ID, SqlParam::Id(user_id));
    proof { body.lemma_query_added(builder@); }
    body.add_to_query(&mut builder);
    builder.set_return_all();
    proof { reveal_strlit("data.areas"); }
    builder.build_insert()
}

/// What the update of a area holds: the change time first, the body's
/// fields, the owner and identifier to match, every column returned.
pub open spec fn update_parts<'a>(
    timestamp: &'a Timestamp,
    body: &'a UpdateAreaSchema,
    user_id: &'a Uuid,
    id: &'a Uuid,
) -> QueryParts<SqlParam<'a>> {
    body.query_added(
        QueryParts::empty(AreaModel::TABLE@).with_column(AreaModel::UPDATED@, SqlParam::Timestamp(timestamp)),
    ).with_condition(AreaModel::USER_ID@, PostgresCmp::Equal, SqlParam::Id(user_id)).with_condition(
        AreaModel::ID@,
        PostgresCmp::Equal,
        SqlParam::Id(id),
    ).with_return(seq![seq!['*']])
}

/// The update of the area `id` that `user_id` owns.
pub fn update_statement<'a>(
    timestamp: &'a Timestamp,
    body: &'a UpdateAreaSchema,
    user_id: &'a Uuid,
    id: &'a Uuid,
) -> (r: (String, Vec<SqlParam<'a>>))
    ensures
        r.0@ == update_parts(timestamp, body, user_id, id).update_sql(),
        r.1@ == update_parts(timestamp, body, user_id, id).update_params(),
{
    let mut builder = SQLQueryBuilder::new(AreaModel::TABLE);
    builder.add_column(AreaModel::UPDATED, SqlParam::Timestamp(timestamp));
    proof { body.lemma_query_added(builder@); }
    body.add_to_query(&mut builder);
    builder.add_condition(AreaModel::USER_ID, PostgresCmp::Equal, SqlParam::Id(user_id));
    builder.add_condition(AreaModel::ID, PostgresCmp::Equal, SqlParam::Id(id));
    builder.set_return_all();
    proof { reveal_strlit("data.areas"); }
    builder.build_update()
}

/// What a search for areas holds: the body's filters, the owner, and
/// the page.
pub open spec fn query_parts<'a>(
    body: &'a QueryAreaSchema,
    user_id: &'a Uuid,
    limit: usize,
    offset: usize,
) -> QueryParts<SqlParam<'a>> {
    body.query_added(QueryParts::empty(AreaModel::TABLE@)).with_condition(
        AreaModel::USER_ID@,
        PostgresCmp::Equal,
        SqlParam::Id(user_id),
    ).with_limit(limit).with_offset(offset)
}

/// The search for the areas of `user_id`, one page of them.
pub fn query_statement<'a>(
    body: &'a QueryAreaSchema,
    user_id: &'a Uuid,
    limit: usize,
    offset: usize,
) -> (r: (String, Vec<SqlParam<'a>>))
    ensures
        r.0@ == query_parts(body, user_id, limit, offset).select_sql(),
        r.1@ == query_parts(body, user_id, limit, offset).select_params(),
{
    let mut builder = SQLQueryBuilder::new(AreaModel::TABLE);
    proof { body.lemma_query_added(builder@); }
    body.add_to_query(&mut builder);
    builder.add_condition(AreaModel::USER_ID, PostgresCmp::Equal, SqlParam::Id(user_id));
    builder.set_limit(limit);
    builder.set_offset(offset);
    proof { reveal_strlit("data.areas"); }
    builder.build_select()
}

} // verus!
