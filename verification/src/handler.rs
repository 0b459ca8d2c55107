//! What the route handlers decide: the statements they send, in order, and
//! the paging of results. The handlers themselves run these against the
//! database.

pub mod area;
pub mod auth;
pub mod project;
pub mod tag;
pub mod task;

use vstd::prelude::*;
use crate::schema::FilterOptions;
use crate::sql_builder::{Join, PostgresCmp, QueryParts, SQLQueryBuilder, bound_values, column_values};
use crate::text::str_views;
use crate::values::{SqlParam, Uuid};
use crate::error::Error;
use crate::model::project::ProjectModel;
use crate::model::task::TaskModel;

verus! {

/// The page asked for, the first when none is.
pub open spec fn page_of(opts: FilterOptions) -> usize {
    match opts.page {
        Some(p) => p,
        None => 1,
    }
}

/// The page size asked for, 25 when none is.
pub open spec fn limit_of(opts: FilterOptions) -> usize {
    match opts.limit {
        Some(l) => l,
        None => 25,
    }
}

/// Whether the paging can be applied: pages count from one, and the offset
/// of the page fits in a `usize`.
pub open spec fn paging_fits(opts: FilterOptions) -> bool {
    &&& page_of(opts) >= 1
    &&& (page_of(opts) - 1) * limit_of(opts) <= usize::MAX
}

/// Whether the paging can be applied.
pub fn can_page(opts: &FilterOptions) -> (r: bool)
    ensures
        r == paging_fits(*opts),
{
    let page = match opts.page {
        Some(p) => p,
        None => 1,
    };
    let limit = match opts.limit {
        Some(l) => l,
        None => 25,
    };
    if page < 1 {
        return false;
    }
    (page - 1).checked_mul(limit).is_some()
}

/// The page size and the number of rows before the page.
pub fn pagination(opts: &FilterOptions) -> (r: (usize, usize))
    requires
        paging_fits(*opts),
    ensures
        r.0 == limit_of(*opts),
        r.1 == (page_of(*opts) - 1) * limit_of(*opts),
{
    let page = match opts.page {
        Some(p) => p,
        None => 1,
    };
    let limit = match opts.limit {
        Some(l) => l,
        None => 25,
    };
    let offset = (page - 1) * limit;
    (limit, offset)
}

/// The row of `table` with identifier `id` that `user` owns, every column returned.
pub open spec fn owned_row_parts<'a>(
    table: Seq<char>,
    user_column: Seq<char>,
    user: &'a Uuid,
    id_column: Seq<char>,
    id: &'a Uuid,
) -> QueryParts<SqlParam<'a>> {
    QueryParts::empty(table)
        .with_condition(user_column, PostgresCmp::Equal, SqlParam::Id(user))
        .with_condition(id_column, PostgresCmp::Equal, SqlParam::Id(id))
}

/// Selects the row of `table` with identifier `id` that `user` owns.
pub fn owned_row_select<'a>(
    table: &str,
    user_column: &str,
    user: &'a Uuid,
    id_column: &str,
    id: &'a Uuid,
) -> (r: (String, Vec<SqlParam<'a>>))
    requires
        table@.len() > 0,
    ensures
        r.0@ == owned_row_parts(table@, user_column@, user, id_column@, id).with_return(seq![seq!['*']]).select_sql(),
        r.1@ == seq![SqlParam::Id(user), SqlParam::Id(id)],
{
    let mut builder = SQLQueryBuilder::new(table);
    builder.add_condition(user_column, PostgresCmp::Equal, SqlParam::Id(user));
    builder.add_condition(id_column, PostgresCmp::Equal, SqlParam::Id(id));
    builder.set_return_all();
    let r = builder.build_select();
    proof {
        let parts = owned_row_parts(table@, user_column@, user, id_column@, id).with_return(seq![seq!['*']]);
        reveal_with_fuel(bound_values, 3);
        assert(parts.conditions.drop_last().drop_last() =~= Seq::empty());
        assert(parts.having =~= Seq::empty());
        assert(parts.select_params() =~= seq![SqlParam::Id(user), SqlParam::Id(id)]);
    }
    r
}

/// Deletes the row of `table` with identifier `id` that `user` owns,
/// returning the identifier.
pub fn owned_row_delete<'a>(
    table: &str,
    user_column: &str,
    user: &'a Uuid,
    id_column: &str,
    id: &'a Uuid,
) -> (r: (String, Vec<SqlParam<'a>>))
    requires
        table@.len() > 0,
    ensures
        r.0@ == owned_row_parts(table@, user_column@, user, id_column@, id).with_return(seq![id_column@]).delete_sql(),
        r.1@ == seq![SqlParam::Id(user), SqlParam::Id(id)],
{
    let mut builder = SQLQueryBuilder::new(table);
    builder.add_condition(user_column, PostgresCmp::Equal, SqlParam::Id(user));
    builder.add_condition(id_column, PostgresCmp::Equal, SqlParam::Id(id));
    let mut returned: Vec<&str> = Vec::new();
    returned.push(id_column);
    builder.set_return(returned);
    let r = builder.build_delete();
    proof {
        let parts = owned_row_parts(table@, user_column@, user, id_column@, id);
        reveal_with_fuel(bound_values, 3);
        assert(parts.conditions.drop_last().drop_last() =~= Seq::empty());
        assert(bound_values(parts.conditions) =~= seq![SqlParam::Id(user), SqlParam::Id(id)]);
    }
    r
}

/// The tags of `tag_table` linked through `link_table` to the row `id`.
pub open spec fn linked_tags_parts<'a>(
    tag_table: Seq<char>,
    link_table: Seq<char>,
    link_tag_column: Seq<char>,
    link_owner_column: Seq<char>,
    id: &'a Uuid,
) -> QueryParts<SqlParam<'a>> {
    QueryParts::empty(tag_table)
        .with_join(Join::Inner, link_table, link_tag_column)
        .with_condition(link_owner_column, PostgresCmp::Equal, SqlParam::Id(id))
        .with_return(seq![seq!['*']])
}

/// Selects the tags linked to the row `id`.
pub fn linked_tags_select<'a>(
    tag_table: &str,
    link_table: &str,
    link_tag_column: &str,
    link_owner_column: &str,
    id: &'a Uuid,
) -> (r: (String, Vec<SqlParam<'a>>))
    requires
        tag_table@.len() > 0,
    ensures
        r.0@ == linked_tags_parts(tag_table@, link_table@, link_tag_column@, link_owner_column@, id).select_sql(),
        r.1@ == seq![SqlParam::Id(id)],
{
    let mut builder = SQLQueryBuilder::new(tag_table);
    builder.add_join(Join::Inner, link_table, link_tag_column);
    builder.add_condition(link_owner_column, PostgresCmp::Equal, SqlParam::Id(id));
    builder.set_return_all();
    let r = builder.build_select();
    proof {
        let parts = linked_tags_parts(tag_table@, link_table@, link_tag_column@, link_owner_column@, id);
        reveal_with_fuel(bound_values, 2);
        assert(parts.conditions.drop_last() =~= Seq::empty());
        assert(parts.having =~= Seq::empty());
        assert(parts.select_params() =~= seq![SqlParam::Id(id)]);
    }
    r
}

/// The link of the row `owner` to the tag `tag`.
pub open spec fn tag_link_parts<'a>(
    link_table: Seq<char>,
    owner_column: Seq<char>,
    owner: &'a Uuid,
    tag_column: Seq<char>,
    tag: &'a Uuid,
) -> QueryParts<SqlParam<'a>> {
    QueryParts::empty(link_table)
        .with_column(owner_column, SqlParam::Id(owner))
        .with_column(tag_column, SqlParam::Id(tag))
}

/// Inserts the link of the row `owner` to the tag `tag`.
pub fn tag_link_insert<'a>(
    link_table: &str,
    owner_column: &str,
    owner: &'a Uuid,
    tag_column: &str,
    tag: &'a Uuid,
) -> (r: (String, Vec<SqlParam<'a>>))
    requires
        link_table@.len() > 0,
    ensures
        r.0@ == tag_link_parts(link_table@, owner_column@, owner, tag_column@, tag).insert_sql(),
        r.1@ == seq![SqlParam::Id(owner), SqlParam::Id(tag)],
{
    let mut builder = SQLQueryBuilder::new(link_table);
    builder.add_column(owner_column, SqlParam::Id(owner));
    builder.add_column(tag_column, SqlParam::Id(tag));
    let r = builder.build_insert();
    proof {
        let parts = tag_link_parts(link_table@, owner_column@, owner, tag_column@, tag);
        assert(column_values(parts.columns) =~= seq![SqlParam::Id(owner), SqlParam::Id(tag)]);
    }
    r
}

/// The detail logged when a tag could not be linked to a task.
pub const TAG_NOT_ADDED_TO_TASK: &'static str = "tag was not added to task";

/// What the insert of one tag link reports, given how many rows it wrote:
/// exactly one is success, anything else is the service's fault, with the
/// detail given for the log.
pub fn link_outcome(affected: u64, detail: &str) -> (r: Result<(), Error>)
    ensures
        affected == 1 ==> r == Ok::<(), Error>(()),
        affected != 1 ==> (r matches Err(Error::Internal(m)) && m@ == detail@),
{
    if affected == 1 {
        Ok(())
    } else {
        Err(Error::Internal(detail.to_owned()))
    }
}

/// What an update of an owned row does next.
pub enum UpdateStep {
    /// No row of the user has the identifier: the client is told it was not found.
    NotFound,
    /// The request lists tags: the old links go and the listed tags are linked.
    ReplaceTags,
    /// Nothing more to write: the change is committed.
    Commit,
}

/// The next step of an update, given whether the update found the row and
/// whether the request lists tags.
pub fn update_step(row_found: bool, tags_given: bool) -> (r: UpdateStep)
    ensures
        !row_found ==> r is NotFound,
        row_found && tags_given ==> r is ReplaceTags,
        row_found && !tags_given ==> r is Commit,
{
    if !row_found {
        UpdateStep::NotFound
    } else if tags_given {
        UpdateStep::ReplaceTags
    } else {
        UpdateStep::Commit
    }
}

/// The links of the row `owner` to its tags.
pub open spec fn tag_unlink_parts<'a>(
    link_table: Seq<char>,
    owner_column: Seq<char>,
    owner: &'a Uuid,
) -> QueryParts<SqlParam<'a>> {
    QueryParts::empty(link_table).with_condition(owner_column, PostgresCmp::Equal, SqlParam::Id(owner))
}

/// Deletes the links of the row `owner` to its tags.
pub fn tag_unlink_delete<'a>(link_table: &str, owner_column: &str, owner: &'a Uuid) -> (r: (String, Vec<SqlParam<'a>>))
    requires
        link_table@.len() > 0,
    ensures
        r.0@ == tag_unlink_parts(link_table@, owner_column@, owner).delete_sql(),
        r.1@ == seq![SqlParam::Id(owner)],
{
    let mut builder = SQLQueryBuilder::new(link_table);
    builder.add_condition(owner_column, PostgresCmp::Equal, SqlParam::Id(owner));
    let r = builder.build_delete();
    proof {
        let parts = tag_unlink_parts(link_table@, owner_column@, owner);
        reveal_with_fuel(bound_values, 2);
        assert(parts.conditions.drop_last() =~= Seq::empty());
        assert(bound_values(parts.conditions) =~= seq![SqlParam::Id(owner)]);
    }
    r
}

/// The rows linked to every one of the tags: those that appear with `count`
/// distinct tags of the list.
pub open spec fn tagged_rows_parts<'a>(
    link_table: Seq<char>,
    owner_column: Seq<char>,
    tag_column: Seq<char>,
    having_item: Seq<char>,
    tags: &'a Vec<Uuid>,
    count: &'a i64,
) -> QueryParts<SqlParam<'a>> {
    QueryParts::empty(link_table)
        .with_return(seq![owner_column])
        .with_condition(tag_column, PostgresCmp::In, SqlParam::Ids(tags))
        .with_group_by(seq![owner_column])
        .with_having(having_item, PostgresCmp::Equal, SqlParam::BigInt(*count))
}

/// `COUNT(DISTINCT column)`.
pub fn count_distinct(column: &str) -> (r: String)
    ensures
        r@ == "COUNT(DISTINCT "@ + column@ + ")"@,
{
    let mut s = String::new();
    s.append("COUNT(DISTINCT ");
    s.append(column);
    s.append(")");
    s
}

/// Selects the rows linked to all of the tags, `count` being their number.
pub fn tagged_rows_select<'a>(
    link_table: &str,
    owner_column: &str,
    tag_column: &str,
    tags: &'a Vec<Uuid>,
    count: &'a i64,
) -> (r: (String, Vec<SqlParam<'a>>))
    requires
        link_table@.len() > 0,
    ensures
        r.0@ == tagged_rows_parts(
            link_table@,
            owner_column@,
            tag_column@,
            "COUNT(DISTINCT "@ + tag_column@ + ")"@,
            tags,
            count,
        ).select_sql(),
        r.1@ == seq![SqlParam::Ids(tags), SqlParam::BigInt(*count)],
{
    let mut builder = SQLQueryBuilder::new(link_table);
    let mut returned: Vec<&str> = Vec::new();
    returned.push(owner_column);
    builder.set_return(returned);
    builder.add_condition(tag_column, PostgresCmp::In, SqlParam::Ids(tags));
    let mut grouped: Vec<&str> = Vec::new();
    grouped.push(owner_column);
    builder.set_group_by(grouped);
    let item = count_distinct(tag_column);
    builder.set_having(item.as_str(), PostgresCmp::Equal, SqlParam::BigInt(*count));
    proof {
        let parts = builder@;
        assert(parts.having.len() == 1);
        assert(parts.having[0].1 == PostgresCmp::Equal);
    }
    let r = builder.build_select();
    proof {
        let parts = tagged_rows_parts(
            link_table@,
            owner_column@,
            tag_column@,
            "COUNT(DISTINCT "@ + tag_column@ + ")"@,
            tags,
            count,
        );
        reveal_with_fuel(bound_values, 2);
        assert(parts.conditions.drop_last() =~= Seq::empty());
        assert(parts.select_params() =~= seq![SqlParam::Ids(tags), SqlParam::BigInt(*count)]);
    }
    r
}

/// Whether the identifier is in the list.
pub fn contains_id(ids: &Vec<Uuid>, id: &Uuid) -> (r: bool)
    ensures
        r == ids@.contains(*id),
{
    let mut i: usize = 0;
    while i < ids.len()
        invariant
            i <= ids@.len(),
            forall|k: int| 0 <= k < i ==> ids@[k] != *id,
        decreases ids@.len() - i,
    {
        if ids[i] == *id {
            assert(ids@[i as int] == *id);
            return true;
        }
        i = i + 1;
    }
    false
}

/// Whether the task is one of the listed ones.
pub open spec fn task_listed(ids: Seq<Uuid>) -> spec_fn(TaskModel) -> bool {
    |t: TaskModel| ids.contains(t.task_id)
}

/// Keeps the tasks whose identifier is listed, in their order.
pub fn retain_listed_tasks(tasks: &mut Vec<TaskModel>, ids: &Vec<Uuid>)
    ensures
        final(tasks)@ == old(tasks)@.filter(task_listed(ids@)),
{
    broadcast use Seq::lemma_filter_push;
    let ghost orig = tasks@;
    let mut kept: Vec<TaskModel> = Vec::new();
    let ghost mut k: int = 0;
    assert(orig.take(0) =~= Seq::<TaskModel>::empty());
    assert(orig.skip(0) =~= orig);
    while tasks.len() > 0
        invariant
            0 <= k <= orig.len(),
            tasks@ == orig.skip(k),
            kept@ == orig.take(k).filter(task_listed(ids@)),
        decreases tasks@.len(),
    {
        let t = tasks.remove(0);
        proof {
            assert(t == orig[k]);
            assert(orig.take(k + 1) =~= orig.take(k).push(orig[k]));
            assert(tasks@ =~= orig.skip(k + 1));
        }
        proof {
            orig.take(k).lemma_filter_push(orig[k], task_listed(ids@));
            assert(task_listed(ids@)(t) == ids@.contains(t.task_id));
        }
        if contains_id(ids, t.task_id()) {
            kept.push(t);
        }
        proof { k = k + 1; }
    }
    assert(orig.take(k) =~= orig);
    *tasks = kept;
}

/// Whether the project is one of the listed ones.
pub open spec fn project_listed(ids: Seq<Uuid>) -> spec_fn(ProjectModel) -> bool {
    |p: ProjectModel| ids.contains(p.project_id)
}

/// Keeps the projects whose identifier is listed, in their order.
pub fn retain_listed_projects(projects: &mut Vec<ProjectModel>, ids: &Vec<Uuid>)
    ensures
        final(projects)@ == old(projects)@.filter(project_listed(ids@)),
{
    broadcast use Seq::lemma_filter_push;
    let ghost orig = projects@;
    let mut kept: Vec<ProjectModel> = Vec::new();
    let ghost mut k: int = 0;
    assert(orig.take(0) =~= Seq::<ProjectModel>::empty());
    assert(orig.skip(0) =~= orig);
    while projects.len() > 0
        invariant
            0 <= k <= orig.len(),
            projects@ == orig.skip(k),
            kept@ == orig.take(k).filter(project_listed(ids@)),
        decreases projects@.len(),
    {
        let p = projects.remove(0);
        proof {
            assert(p == orig[k]);
            assert(orig.take(k + 1) =~= orig.take(k).push(orig[k]));
            assert(projects@ =~= orig.skip(k + 1));
        }
        proof {
            orig.take(k).lemma_filter_push(orig[k], project_listed(ids@));
            assert(project_listed(ids@)(p) == ids@.contains(p.project_id));
        }
        if contains_id(ids, p.project_id()) {
            kept.push(p);
        }
        proof { k = k + 1; }
    }
    assert(orig.take(k) =~= orig);
    *projects = kept;
}

/// The tasks kept are exactly the listed ones: each kept task is listed, and
/// each listed task is kept.
pub proof fn law_retained_tasks_are_listed(tasks: Seq<TaskModel>, ids: Seq<Uuid>)
    ensures
        forall|i: int|
            0 <= i < tasks.filter(task_listed(ids)).len() ==> ids.contains(
                #[trigger] tasks.filter(task_listed(ids))[i].task_id,
            ),
        forall|i: int|
            0 <= i < tasks.len() && ids.contains(tasks[i].task_id) ==> tasks.filter(task_listed(ids)).contains(
                #[trigger] tasks[i],
            ),
{
    broadcast use Seq::lemma_filter_pred, Seq::lemma_filter_contains;
    assert forall|i: int| 0 <= i < tasks.filter(task_listed(ids)).len() implies ids.contains(
        #[trigger] tasks.filter(task_listed(ids))[i].task_id,
    ) by {
        tasks.lemma_filter_pred(task_listed(ids), i);
    }
    assert forall|i: int| 0 <= i < tasks.len() && ids.contains(tasks[i].task_id) implies tasks.filter(
        task_listed(ids),
    ).contains(#[trigger] tasks[i]) by {
        tasks.lemma_filter_contains(task_listed(ids), i);
    }
}

/// The rows before a page.
pub open spec fn page_offset(page: int, limit: int) -> int {
    (page - 1) * limit
}

/// Pages follow each other: the first starts at the first row, and each
/// page starts where the one before it ends.
pub proof fn law_pages_follow_each_other(page: int, limit: int)
    requires
        page >= 1,
        limit >= 0,
    ensures
        page_offset(1, limit) == 0,
        page_offset(page + 1, limit) == page_offset(page, limit) + limit,
{
    assert((page + 1 - 1) * limit == (page - 1) * limit + limit) by (nonlinear_arith);
}

} // verus!
