//! Project requests of the routes and the statements they render.

use vstd::prelude::*;
use crate::models::request::{
    law_present_keeps_pairs,
    Assembly, QueryMethod, UpdateMethod, assembly_of, assignment, by_ids, by_ids_text, filter_of,
    flag_filter_of, insert_returning, insert_returning_text, like_condition, like_pattern,
    optional_filter_renders, present_param, push_filter, push_flag_filter, push_listed_flag,
    push_listed_update, push_present, select_where, select_where_text, update_listed,
    update_listed_text, update_of, with_filter, with_listed_flag, with_listed_update, with_present,
    occurrences, lemma_listed_update_lists, lemma_listed_flag_lists, pairs, lemma_present_pairs,
    names_column, lemma_on_own_column, lemma_on_column_extends, lemma_filter_names,
};
use crate::models::request::task::{
    link_tags, link_tags_text, relink_tags, relink_tags_text, tagged, tagged_text, unlink_tags,
    unlink_tags_text, with_search, lemma_search_names,
};
use crate::storage::db::{DBQuery, DBSubquery};
use crate::storage::model::{ProjectModel, ProjectTagModel};
use crate::text::decimal;
use crate::values::{Date, SqlParam, Time, Timestamp, Uuid};

verus! {

/// A new project.
pub struct ProjectCreateRequest {
    pub title: Option<String>,
    pub notes: Option<String>,
    pub start_date: Option<Date>,
    pub start_time: Option<Time>,
    pub deadline: Option<Date>,
    pub area_id: Option<Uuid>,
    pub user_id: Option<Uuid>,
    pub tag_ids: Option<Vec<Uuid>>,
}

impl ProjectCreateRequest {
    pub fn set_user_id(&mut self, id: Uuid) -> (r: &mut Self)
        ensures
            *r == (Self { user_id: Some(id), ..*old(self) }),
            *final(self) == *final(r),
    {
        self.user_id = Some(id);
        self
    }

    /// The columns and parameters of the insert.
    pub open spec fn assembly(&self) -> Assembly<'_> {
        let a = Assembly {
            pieces: seq![ProjectModel::USER_ID@],
            params: seq![SqlParam::Id(&self.user_id->0)],
            next: 0,
        };
        let a = with_present(a, ProjectModel::TITLE@, present_param(&self.title));
        let a = with_present(a, ProjectModel::NOTES@, present_param(&self.notes));
        let a = with_present(a, ProjectModel::START_DATE@, present_param(&self.start_date));
        let a = with_present(a, ProjectModel::START_TIME@, present_param(&self.start_time));
        let a = with_present(a, ProjectModel::DEADLINE@, present_param(&self.deadline));
        with_present(a, ProjectModel::AREA_ID@, present_param(&self.area_id))
    }
}

impl DBQuery for ProjectCreateRequest {
    open spec fn query_ready(&self) -> bool {
        self.user_id is Some
    }

    open spec fn query_text(&self) -> Seq<char> {
        insert_returning_text(
            ProjectModel::TABLE@,
            self.assembly().pieces,
            self.assembly().params.len(),
            ProjectModel::ID@,
        )
    }

    open spec fn query_params(&self) -> Seq<SqlParam<'_>> {
        self.assembly().params
    }

    fn get_query(&self) -> (r: (String, Vec<SqlParam<'_>>)) {
        let mut columns: Vec<String> = Vec::new();
        columns.push(ProjectModel::USER_ID.to_owned());
        let mut params: Vec<SqlParam<'_>> = Vec::new();
        params.push(SqlParam::Id(self.user_id.as_ref().unwrap()));
        assert(assembly_of(columns@, params@, 0) =~= Assembly {
            pieces: seq![ProjectModel::USER_ID@],
            params: seq![SqlParam::Id(&self.user_id->0)],
            next: 0,
        });
        push_present(&mut columns, &mut params, ProjectModel::TITLE, &self.title);
        push_present(&mut columns, &mut params, ProjectModel::NOTES, &self.notes);
        push_present(&mut columns, &mut params, ProjectModel::START_DATE, &self.start_date);
        push_present(&mut columns, &mut params, ProjectModel::START_TIME, &self.start_time);
        push_present(&mut columns, &mut params, ProjectModel::DEADLINE, &self.deadline);
        push_present(&mut columns, &mut params, ProjectModel::AREA_ID, &self.area_id);
        let statement = insert_returning(ProjectModel::TABLE, &columns, params.len(), ProjectModel::ID);
        (statement, params)
    }
}

impl DBSubquery for ProjectCreateRequest {
    open spec fn subquery_ready(&self) -> bool {
        self.tag_ids is Some
    }

    open spec fn subquery_text(&self) -> Seq<char> {
        link_tags_text(ProjectTagModel::TABLE@, ProjectTagModel::PROJECT_ID@, ProjectTagModel::TAG_ID@)
    }

    open spec fn subquery_params<'a>(&'a self, uuid: &'a Uuid) -> Seq<SqlParam<'a>> {
        seq![SqlParam::Id(uuid), SqlParam::Ids(&self.tag_ids->0)]
    }

    fn get_subquery<'a>(&'a self, uuid: &'a Uuid) -> (r: (String, Vec<SqlParam<'a>>)) {
        let mut params: Vec<SqlParam<'a>> = Vec::new();
        params.push(SqlParam::Id(uuid));
        params.push(SqlParam::Ids(self.tag_ids.as_ref().unwrap()));
        let statement = link_tags(ProjectTagModel::TABLE, ProjectTagModel::PROJECT_ID, ProjectTagModel::TAG_ID);
        assert(params@ =~= self.subquery_params(uuid));
        (statement, params)
    }
}

/// The project with the given identifier, of the given owner.
pub struct ProjectRetrieveRequest {
    pub project_id: Option<Uuid>,
    pub user_id: Option<Uuid>,
}

impl Default for ProjectRetrieveRequest {
    fn default() -> (r: Self)
        ensures
            r.project_id is None,
            r.user_id is None,
    {
        Self { project_id: None, user_id: None }
    }
}

impl ProjectRetrieveRequest {
    pub fn set_project_id(&mut self, id: Uuid) -> (r: &mut Self)
        ensures
            *r == (Self { project_id: Some(id), ..*old(self) }),
            *final(self) == *final(r),
    {
        self.project_id = Some(id);
        self
    }

    pub fn set_user_id(&mut self, id: Uuid) -> (r: &mut Self)
        ensures
            *r == (Self { user_id: Some(id), ..*old(self) }),
            *final(self) == *final(r),
    {
        self.user_id = Some(id);
        self
    }
}

impl DBQuery for ProjectRetrieveRequest {
    open spec fn query_ready(&self) -> bool {
        self.project_id is Some && self.user_id is Some
    }

    open spec fn query_text(&self) -> Seq<char> {
        by_ids_text("SELECT * FROM "@, ProjectModel::TABLE@, ProjectModel::ID@, ProjectModel::USER_ID@)
    }

    open spec fn query_params(&self) -> Seq<SqlParam<'_>> {
        seq![SqlParam::Id(&self.project_id->0), SqlParam::Id(&self.user_id->0)]
    }

    fn get_query(&self) -> (r: (String, Vec<SqlParam<'_>>)) {
        let mut params: Vec<SqlParam<'_>> = Vec::new();
        params.push(SqlParam::Id(self.project_id.as_ref().unwrap()));
        params.push(SqlParam::Id(self.user_id.as_ref().unwrap()));
        let statement = by_ids("SELECT * FROM ", ProjectModel::TABLE, ProjectModel::ID, ProjectModel::USER_ID);
        assert(params@ =~= self.query_params());
        (statement, params)
    }
}

/// Changes to a project.
pub struct ProjectUpdateRequest {
    pub project_id: Option<Uuid>,
    pub title: Option<UpdateMethod<String>>,
    pub notes: Option<UpdateMethod<String>>,
    pub start_date: Option<UpdateMethod<Date>>,
    pub start_time: Option<UpdateMethod<Time>>,
    pub deadline: Option<UpdateMethod<Date>>,
    pub completed: Option<bool>,
    pub logged: Option<bool>,
    pub trashed: Option<bool>,
    pub area_id: Option<UpdateMethod<Uuid>>,
    pub user_id: Option<Uuid>,
    pub tag_ids: Option<UpdateMethod<Vec<Uuid>>>,
    pub timestamp: Timestamp,
}

impl ProjectUpdateRequest {
    pub fn set_project_id(&mut self, id: Uuid) -> (r: &mut Self)
        ensures
            *r == (Self { project_id: Some(id), ..*old(self) }),
            *final(self) == *final(r),
    {
        self.project_id = Some(id);
        self
    }

    pub fn set_user_id(&mut self, id: Uuid) -> (r: &mut Self)
        ensures
            *r == (Self { user_id: Some(id), ..*old(self) }),
            *final(self) == *final(r),
    {
        self.user_id = Some(id);
        self
    }

    /// The listed columns and the parameters of the update before the flags.
    pub open spec fn fields_assembly(&self) -> Assembly<'_> {
        let a = Assembly {
            pieces: seq![ProjectModel::UPDATED@],
            params: seq![
                SqlParam::Id(&self.project_id->0),
                SqlParam::Id(&self.user_id->0),
                SqlParam::Timestamp(&self.timestamp),
            ],
            next: 0,
        };
        let a = with_listed_update(a, ProjectModel::TITLE@, update_of(&self.title));
        let a = with_listed_update(a, ProjectModel::NOTES@, update_of(&self.notes));
        let a = with_listed_update(a, ProjectModel::START_DATE@, update_of(&self.start_date));
        let a = with_listed_update(a, ProjectModel::START_TIME@, update_of(&self.start_time));
        with_listed_update(a, ProjectModel::DEADLINE@, update_of(&self.deadline))
    }

    /// The listed columns and the parameters of the update.
    pub open spec fn assembly(&self) -> Assembly<'_> {
        let stamp = SqlParam::Timestamp(&self.timestamp);
        let a = with_listed_flag(self.fields_assembly(), ProjectModel::COMPLETED@, self.completed, stamp);
        let a = with_listed_flag(a, ProjectModel::LOGGED@, self.logged, stamp);
        let a = with_listed_flag(a, ProjectModel::TRASHED@, self.trashed, stamp);
        with_listed_update(a, ProjectModel::AREA_ID@, update_of(&self.area_id))
    }
}

impl DBQuery for ProjectUpdateRequest {
    open spec fn query_ready(&self) -> bool {
        self.project_id is Some && self.user_id is Some
    }

    /// The placeholders run from `$3` for as many values as there are columns.
    open spec fn query_text(&self) -> Seq<char> {
        update_listed_text(
            ProjectModel::TABLE@,
            self.assembly().pieces,
            self.assembly().pieces.len(),
            ProjectModel::ID@,
            ProjectModel::USER_ID@,
        )
    }

    open spec fn query_params(&self) -> Seq<SqlParam<'_>> {
        self.assembly().params
    }

    fn get_query(&self) -> (r: (String, Vec<SqlParam<'_>>)) {
        let mut columns: Vec<String> = Vec::new();
        columns.push(ProjectModel::UPDATED.to_owned());
        let mut params: Vec<SqlParam<'_>> = Vec::new();
        params.push(SqlParam::Id(self.project_id.as_ref().unwrap()));
        params.push(SqlParam::Id(self.user_id.as_ref().unwrap()));
        params.push(SqlParam::Timestamp(&self.timestamp));
        assert(assembly_of(columns@, params@, 0) =~= Assembly {
            pieces: seq![ProjectModel::UPDATED@],
            params: seq![
                SqlParam::Id(&self.project_id->0),
                SqlParam::Id(&self.user_id->0),
                SqlParam::Timestamp(&self.timestamp),
            ],
            next: 0,
        });
        push_listed_update(&mut columns, &mut params, ProjectModel::TITLE, &self.title);
        push_listed_update(&mut columns, &mut params, ProjectModel::NOTES, &self.notes);
        push_listed_update(&mut columns, &mut params, ProjectModel::START_DATE, &self.start_date);
        push_listed_update(&mut columns, &mut params, ProjectModel::START_TIME, &self.start_time);
        push_listed_update(&mut columns, &mut params, ProjectModel::DEADLINE, &self.deadline);
        let stamp = SqlParam::Timestamp(&self.timestamp);
        push_listed_flag(&mut columns, &mut params, ProjectModel::COMPLETED, self.completed, stamp);
        push_listed_flag(&mut columns, &mut params, ProjectModel::LOGGED, self.logged, stamp);
        push_listed_flag(&mut columns, &mut params, ProjectModel::TRASHED, self.trashed, stamp);
        push_listed_update(&mut columns, &mut params, ProjectModel::AREA_ID, &self.area_id);
        let statement = update_listed(
            ProjectModel::TABLE,
            &columns,
            columns.len(),
            ProjectModel::ID,
            ProjectModel::USER_ID,
        );
        (statement, params)
    }
}

impl DBSubquery for ProjectUpdateRequest {
    open spec fn subquery_ready(&self) -> bool {
        self.tag_ids is Some
    }

    open spec fn subquery_text(&self) -> Seq<char> {
        let deleted = unlink_tags_text(
            ProjectTagModel::TABLE@,
            ProjectTagModel::PROJECT_ID@,
            ProjectTagModel::PROJECT_ID@ + " as id"@,
        );
        match self.tag_ids {
            Some(UpdateMethod::Change(_)) => relink_tags_text(
                deleted,
                ProjectTagModel::TABLE@,
                ProjectTagModel::PROJECT_ID@,
                ProjectTagModel::TAG_ID@,
            ),
            _ => deleted,
        }
    }

    open spec fn subquery_params<'a>(&'a self, uuid: &'a Uuid) -> Seq<SqlParam<'a>> {
        match self.tag_ids {
            Some(UpdateMethod::Change(ids)) => seq![SqlParam::Id(uuid), SqlParam::Ids(&ids)],
            _ => seq![SqlParam::Id(uuid)],
        }
    }

    fn get_subquery<'a>(&'a self, uuid: &'a Uuid) -> (r: (String, Vec<SqlParam<'a>>)) {
        let tag_update: &UpdateMethod<Vec<Uuid>> = self.tag_ids.as_ref().unwrap();
        let mut params: Vec<SqlParam<'a>> = Vec::new();
        params.push(SqlParam::Id(uuid));
        let mut returned = String::new();
        returned.append(ProjectTagModel::PROJECT_ID);
        returned.append(" as id");
        let mut statement = unlink_tags(ProjectTagModel::TABLE, ProjectTagModel::PROJECT_ID, returned.as_str());
        if let UpdateMethod::Change(tag_ids) = tag_update {
            params.push(SqlParam::Ids(tag_ids));
            statement = relink_tags(
                &statement,
                ProjectTagModel::TABLE,
                ProjectTagModel::PROJECT_ID,
                ProjectTagModel::TAG_ID,
            );
        }
        assert(params@ =~= self.subquery_params(uuid));
        (statement, params)
    }
}

/// The project to delete, of the given owner.
pub struct ProjectDeleteRequest {
    pub project_id: Option<Uuid>,
    pub user_id: Option<Uuid>,
}

impl Default for ProjectDeleteRequest {
    fn default() -> (r: Self)
        ensures
            r.project_id is None,
            r.user_id is None,
    {
        Self { project_id: None, user_id: None }
    }
}

impl ProjectDeleteRequest {
    pub fn set_project_id(&mut self, id: Uuid) -> (r: &mut Self)
        ensures
            *r == (Self { project_id: Some(id), ..*old(self) }),
            *final(self) == *final(r),
    {
        self.project_id = Some(id);
        self
    }

    pub fn set_user_id(&mut self, id: Uuid) -> (r: &mut Self)
        ensures
            *r == (Self { user_id: Some(id), ..*old(self) }),
            *final(self) == *final(r),
    {
        self.user_id = Some(id);
        self
    }
}

impl DBQuery for ProjectDeleteRequest {
    open spec fn query_ready(&self) -> bool {
        self.project_id is Some && self.user_id is Some
    }

    open spec fn query_text(&self) -> Seq<char> {
        by_ids_text("DELETE FROM "@, ProjectModel::TABLE@, ProjectModel::ID@, ProjectModel::USER_ID@)
    }

    open spec fn query_params(&self) -> Seq<SqlParam<'_>> {
        seq![SqlParam::Id(&self.project_id->0), SqlParam::Id(&self.user_id->0)]
    }

    fn get_query(&self) -> (r: (String, Vec<SqlParam<'_>>)) {
        let mut params: Vec<SqlParam<'_>> = Vec::new();
        params.push(SqlParam::Id(self.project_id.as_ref().unwrap()));
        params.push(SqlParam::Id(self.user_id.as_ref().unwrap()));
        let statement = by_ids("DELETE FROM ", ProjectModel::TABLE, ProjectModel::ID, ProjectModel::USER_ID);
        assert(params@ =~= self.query_params());
        (statement, params)
    }
}

/// A search for projects.
pub struct ProjectQueryRequest {
    pub search_query: Option<String>,
    pub start_date: Option<QueryMethod<Date>>,
    pub deadline: Option<QueryMethod<Date>>,
    pub completed: Option<QueryMethod<bool>>,
    pub logged: Option<QueryMethod<bool>>,
    pub trashed: Option<QueryMethod<bool>>,
    pub area_id: Option<QueryMethod<Uuid>>,
    pub user_id: Option<Uuid>,
    pub tag_ids: Option<QueryMethod<Vec<Uuid>>>,
}

impl ProjectQueryRequest {
    /// Searches for titles that hold the query.
    pub fn set_search_query(&mut self, query: String) -> (r: &mut Self)
        ensures
            r.search_query is Some,
            r.search_query->0@ == "%"@ + query@ + "%"@,
            r.start_date == old(self).start_date,
            r.deadline == old(self).deadline,
            r.completed == old(self).completed,
            r.logged == old(self).logged,
            r.trashed == old(self).trashed,
            r.area_id == old(self).area_id,
            r.user_id == old(self).user_id,
            r.tag_ids == old(self).tag_ids,
            *final(self) == *final(r),
    {
        self.search_query = Some(like_pattern(&query));
        self
    }

    pub fn set_user_id(&mut self, id: Uuid) -> (r: &mut Self)
        ensures
            *r == (Self { user_id: Some(id), ..*old(self) }),
            *final(self) == *final(r),
    {
        self.user_id = Some(id);
        self
    }

    /// The conditions and parameters of the search.
    pub open spec fn assembly(&self) -> Assembly<'_> {
        let a = Assembly {
            pieces: seq![ProjectModel::USER_ID@ + "=$"@ + decimal(1)],
            params: seq![SqlParam::Id(&self.user_id->0)],
            next: 2,
        };
        let a = with_search(a, ProjectModel::TITLE@, &self.search_query);
        let a = with_filter(a, ProjectModel::START_DATE@, filter_of(&self.start_date), true);
        let a = with_filter(a, ProjectModel::DEADLINE@, filter_of(&self.deadline), true);
        let a = with_filter(a, ProjectModel::COMPLETED@, flag_filter_of(&self.completed), false);
        let a = with_filter(a, ProjectModel::LOGGED@, flag_filter_of(&self.logged), false);
        let a = with_filter(a, ProjectModel::TRASHED@, flag_filter_of(&self.trashed), false);
        with_filter(a, ProjectModel::AREA_ID@, filter_of(&self.area_id), true)
    }

    /// Every comparison of the search uses a named flag.
    pub open spec fn filters_render(&self) -> bool {
        &&& optional_filter_renders(self.start_date)
        &&& optional_filter_renders(self.deadline)
        &&& optional_filter_renders(self.completed)
        &&& optional_filter_renders(self.logged)
        &&& optional_filter_renders(self.trashed)
        &&& optional_filter_renders(self.area_id)
    }
}

impl DBQuery for ProjectQueryRequest {
    open spec fn query_ready(&self) -> bool {
        self.user_id is Some && self.filters_render()
    }

    open spec fn query_text(&self) -> Seq<char> {
        select_where_text(ProjectModel::TABLE@, self.assembly().pieces)
    }

    open spec fn query_params(&self) -> Seq<SqlParam<'_>> {
        self.assembly().params
    }

    fn get_query(&self) -> (r: (String, Vec<SqlParam<'_>>)) {
        let mut conditions: Vec<String> = Vec::new();
        conditions.push(assignment(ProjectModel::USER_ID, 1));
        let mut params: Vec<SqlParam<'_>> = Vec::new();
        params.push(SqlParam::Id(self.user_id.as_ref().unwrap()));
        let mut n = conditions.len() + 1;
        let ghost a0 = assembly_of(conditions@, params@, n);
        assert(a0 =~= Assembly {
            pieces: seq![ProjectModel::USER_ID@ + "=$"@ + decimal(1)],
            params: seq![SqlParam::Id(&self.user_id->0)],
            next: 2,
        });
        if let Some(s) = &self.search_query {
            conditions.push(like_condition(ProjectModel::TITLE, n));
            params.push(SqlParam::Text(s));
            n = n + 1;
        }
        assert(assembly_of(conditions@, params@, n) =~= with_search(a0, ProjectModel::TITLE@, &self.search_query));
        let n = push_filter(&mut conditions, &mut params, ProjectModel::START_DATE, &self.start_date, n, true);
        let n = push_filter(&mut conditions, &mut params, ProjectModel::DEADLINE, &self.deadline, n, true);
        let n = push_flag_filter(&mut conditions, &params, ProjectModel::COMPLETED, &self.completed, n);
        let n = push_flag_filter(&mut conditions, &params, ProjectModel::LOGGED, &self.logged, n);
        let n = push_flag_filter(&mut conditions, &params, ProjectModel::TRASHED, &self.trashed, n);
        let _ = push_filter(&mut conditions, &mut params, ProjectModel::AREA_ID, &self.area_id, n, true);
        let statement = select_where(ProjectModel::TABLE, &conditions);
        (statement, params)
    }
}

impl DBSubquery for ProjectQueryRequest {
    open spec fn subquery_ready(&self) -> bool {
        self.tag_ids is Some
    }

    open spec fn subquery_text(&self) -> Seq<char> {
        match self.tag_ids {
            Some(QueryMethod::Match(ids)) => tagged_text(
                ProjectTagModel::PROJECT_ID@,
                ProjectTagModel::TABLE@,
                ProjectTagModel::TAG_ID@,
                "project_id\t"@,
                ids@.len(),
            ),
            _ => Seq::empty(),
        }
    }

    open spec fn subquery_params<'a>(&'a self, uuid: &'a Uuid) -> Seq<SqlParam<'a>> {
        match self.tag_ids {
            Some(QueryMethod::Match(ids)) => seq![SqlParam::Ids(&ids)],
            _ => Seq::empty(),
        }
    }

    fn get_subquery<'a>(&'a self, uuid: &'a Uuid) -> (r: (String, Vec<SqlParam<'a>>)) {
        let tag_query = self.tag_ids.as_ref().unwrap();
        let mut params: Vec<SqlParam<'a>> = Vec::new();
        let statement;
        if let QueryMethod::Match(tag_ids) = tag_query {
            params.push(SqlParam::Ids(tag_ids));
            statement = tagged(
                ProjectTagModel::PROJECT_ID,
                ProjectTagModel::TABLE,
                ProjectTagModel::TAG_ID,
                "project_id\t",
                tag_ids.len(),
            );
        } else {
            statement = String::new();
        }
        assert(params@ =~= self.subquery_params(uuid));
        (statement, params)
    }
}

/// The insert of a new row lists one placeholder for each column: the
/// statement names as many columns as it binds parameters.
pub proof fn law_create_pairs_columns_and_params(request: ProjectCreateRequest)
    ensures
        request.assembly().pieces.len() == request.assembly().params.len(),
{
    let a = Assembly {
        pieces: seq![ProjectModel::USER_ID@],
        params: seq![SqlParam::Id(&request.user_id->0)],
        next: 0,
    };
    law_present_keeps_pairs(a, ProjectModel::TITLE@, present_param(&request.title));
    let a = with_present(a, ProjectModel::TITLE@, present_param(&request.title));
    law_present_keeps_pairs(a, ProjectModel::NOTES@, present_param(&request.notes));
    let a = with_present(a, ProjectModel::NOTES@, present_param(&request.notes));
    law_present_keeps_pairs(a, ProjectModel::START_DATE@, present_param(&request.start_date));
    let a = with_present(a, ProjectModel::START_DATE@, present_param(&request.start_date));
    law_present_keeps_pairs(a, ProjectModel::START_TIME@, present_param(&request.start_time));
    let a = with_present(a, ProjectModel::START_TIME@, present_param(&request.start_time));
    law_present_keeps_pairs(a, ProjectModel::DEADLINE@, present_param(&request.deadline));
    let a = with_present(a, ProjectModel::DEADLINE@, present_param(&request.deadline));
    law_present_keeps_pairs(a, ProjectModel::AREA_ID@, present_param(&request.area_id));
    let a = with_present(a, ProjectModel::AREA_ID@, present_param(&request.area_id));
}

/// How many fields a project update changes.
pub open spec fn changed_fields(r: &ProjectUpdateRequest) -> int {
    (if r.title is Some { 1int } else { 0 }) + (if r.notes is Some { 1int } else { 0 }) + (if r.start_date is Some {
        1int
    } else {
        0
    }) + (if r.start_time is Some { 1int } else { 0 }) + (if r.deadline is Some { 1int } else { 0 }) + (if r.completed is Some {
        1int
    } else {
        0
    }) + (if r.logged is Some { 1int } else { 0 }) + (if r.trashed is Some { 1int } else { 0 }) + (if r.area_id is Some {
        1int
    } else {
        0
    })
}

/// How many of the flags equal `value`.
pub open spec fn flags_equal(r: &ProjectUpdateRequest, value: bool) -> nat {
    (if r.completed == Some(value) { 1nat } else { 0nat }) + (if r.logged == Some(value) { 1nat } else { 0nat }) + (
    if r.trashed == Some(value) {
        1nat
    } else {
        0nat
    })
}

/// A project update lists the change time and the column of each field it
/// changes, one column per field; each flag set to `true` binds the
/// request's time and each flag set to `false` binds `NULL`: among the
/// parameters, the request's time occurs once for the change time and once
/// for each set flag, and `NULL` once for each cleared flag.
pub proof fn law_update_flags_bind_request_time(r: &ProjectUpdateRequest)
    ensures
        r.assembly().pieces.len() == 1 + changed_fields(r),
        r.assembly().pieces.contains(ProjectModel::UPDATED@),
        r.title is Some ==> r.assembly().pieces.contains(ProjectModel::TITLE@),
        r.notes is Some ==> r.assembly().pieces.contains(ProjectModel::NOTES@),
        r.start_date is Some ==> r.assembly().pieces.contains(ProjectModel::START_DATE@),
        r.start_time is Some ==> r.assembly().pieces.contains(ProjectModel::START_TIME@),
        r.deadline is Some ==> r.assembly().pieces.contains(ProjectModel::DEADLINE@),
        r.completed is Some ==> r.assembly().pieces.contains(ProjectModel::COMPLETED@),
        r.logged is Some ==> r.assembly().pieces.contains(ProjectModel::LOGGED@),
        r.trashed is Some ==> r.assembly().pieces.contains(ProjectModel::TRASHED@),
        r.area_id is Some ==> r.assembly().pieces.contains(ProjectModel::AREA_ID@),
        occurrences(r.assembly().params, SqlParam::Timestamp(&r.timestamp)) == 1 + flags_equal(r, true),
        occurrences(r.assembly().params, SqlParam::Null) == flags_equal(r, false),
        r.title matches Some(UpdateMethod::Change(v)) ==> r.assembly().params.contains(SqlParam::Text(&v)),
        r.notes matches Some(UpdateMethod::Change(v)) ==> r.assembly().params.contains(SqlParam::Text(&v)),
        r.start_date matches Some(UpdateMethod::Change(v)) ==> r.assembly().params.contains(SqlParam::Date(&v)),
        r.start_time matches Some(UpdateMethod::Change(v)) ==> r.assembly().params.contains(SqlParam::Time(&v)),
        r.deadline matches Some(UpdateMethod::Change(v)) ==> r.assembly().params.contains(SqlParam::Date(&v)),
        r.area_id matches Some(UpdateMethod::Change(v)) ==> r.assembly().params.contains(SqlParam::Id(&v)),
{
    let stamp = SqlParam::Timestamp(&r.timestamp);
    let a0 = Assembly {
        pieces: seq![ProjectModel::UPDATED@],
        params: seq![SqlParam::Id(&r.project_id->0), SqlParam::Id(&r.user_id->0), stamp],
        next: 0,
    };
    assert(a0.pieces[0] == ProjectModel::UPDATED@);
    reveal_with_fuel(occurrences, 4);
    assert(a0.params.drop_last().drop_last().drop_last() =~= Seq::<SqlParam>::empty());
    assert(occurrences(a0.params, stamp) == 1);
    assert(occurrences(a0.params, SqlParam::Null) == 0);
    lemma_listed_update_lists(a0, ProjectModel::TITLE@, update_of(&r.title));
    let a1 = with_listed_update(a0, ProjectModel::TITLE@, update_of(&r.title));
    lemma_listed_update_lists(a1, ProjectModel::NOTES@, update_of(&r.notes));
    let a2 = with_listed_update(a1, ProjectModel::NOTES@, update_of(&r.notes));
    lemma_listed_update_lists(a2, ProjectModel::START_DATE@, update_of(&r.start_date));
    let a3 = with_listed_update(a2, ProjectModel::START_DATE@, update_of(&r.start_date));
    lemma_listed_update_lists(a3, ProjectModel::START_TIME@, update_of(&r.start_time));
    let a4 = with_listed_update(a3, ProjectModel::START_TIME@, update_of(&r.start_time));
    lemma_listed_update_lists(a4, ProjectModel::DEADLINE@, update_of(&r.deadline));
    let a5 = with_listed_update(a4, ProjectModel::DEADLINE@, update_of(&r.deadline));
    assert(r.fields_assembly() == a5);
    lemma_listed_flag_lists(a5, ProjectModel::COMPLETED@, r.completed, stamp);
    let a6 = with_listed_flag(a5, ProjectModel::COMPLETED@, r.completed, stamp);
    lemma_listed_flag_lists(a6, ProjectModel::LOGGED@, r.logged, stamp);
    let a7 = with_listed_flag(a6, ProjectModel::LOGGED@, r.logged, stamp);
    lemma_listed_flag_lists(a7, ProjectModel::TRASHED@, r.trashed, stamp);
    let a8 = with_listed_flag(a7, ProjectModel::TRASHED@, r.trashed, stamp);
    lemma_listed_update_lists(a8, ProjectModel::AREA_ID@, update_of(&r.area_id));
    let a9 = with_listed_update(a8, ProjectModel::AREA_ID@, update_of(&r.area_id));
    assert(r.assembly() == a9);
    assert(occurrences(a9.params, stamp) == occurrences(a8.params, stamp));
    assert(occurrences(a9.params, SqlParam::Null) == occurrences(a8.params, SqlParam::Null));
}

/// A new project lists the owner's column first, then one column for each
/// field given, and no other: each field given is listed under its own
/// column, with its value at the same place among the parameters.
pub proof fn law_create_lists_every_field(r: &ProjectCreateRequest)
    ensures
        r.assembly().pieces.len() == 1 + (if r.title is Some { 1int } else { 0 }) + (if r.notes is Some { 1int } else { 0 }) + (if r.start_date is Some { 1int } else { 0 }) + (if r.start_time is Some { 1int } else { 0 }) + (if r.deadline is Some { 1int } else { 0 }) + (if r.area_id is Some { 1int } else { 0 }),
        r.assembly().pieces[0] == ProjectModel::USER_ID@,
        r.assembly().params[0] == SqlParam::Id(&r.user_id->0),
        r.title matches Some(v) ==> pairs(r.assembly(), ProjectModel::TITLE@, SqlParam::Text(&v)),
        r.notes matches Some(v) ==> pairs(r.assembly(), ProjectModel::NOTES@, SqlParam::Text(&v)),
        r.start_date matches Some(v) ==> pairs(r.assembly(), ProjectModel::START_DATE@, SqlParam::Date(&v)),
        r.start_time matches Some(v) ==> pairs(r.assembly(), ProjectModel::START_TIME@, SqlParam::Time(&v)),
        r.deadline matches Some(v) ==> pairs(r.assembly(), ProjectModel::DEADLINE@, SqlParam::Date(&v)),
        r.area_id matches Some(v) ==> pairs(r.assembly(), ProjectModel::AREA_ID@, SqlParam::Id(&v)),
{
    let a = Assembly {
        pieces: seq![ProjectModel::USER_ID@],
        params: seq![SqlParam::Id(&r.user_id->0)],
        next: 0,
    };
    let a0 = a;
    lemma_present_pairs(a, ProjectModel::TITLE@, present_param(&r.title));
    let a = with_present(a, ProjectModel::TITLE@, present_param(&r.title));
    lemma_present_pairs(a, ProjectModel::NOTES@, present_param(&r.notes));
    let a = with_present(a, ProjectModel::NOTES@, present_param(&r.notes));
    lemma_present_pairs(a, ProjectModel::START_DATE@, present_param(&r.start_date));
    let a = with_present(a, ProjectModel::START_DATE@, present_param(&r.start_date));
    lemma_present_pairs(a, ProjectModel::START_TIME@, present_param(&r.start_time));
    let a = with_present(a, ProjectModel::START_TIME@, present_param(&r.start_time));
    lemma_present_pairs(a, ProjectModel::DEADLINE@, present_param(&r.deadline));
    let a = with_present(a, ProjectModel::DEADLINE@, present_param(&r.deadline));
    lemma_present_pairs(a, ProjectModel::AREA_ID@, present_param(&r.area_id));
    let a = with_present(a, ProjectModel::AREA_ID@, present_param(&r.area_id));
    assert(r.assembly() == a);
    assert(a.pieces[0] == a0.pieces[0]);
    assert(a.params[0] == a0.params[0]);
}

/// Each filter of a project search is a condition on its own column:
/// the owner's condition names `user_id`, the text search names its column,
/// each filter given names the column of its field, and there is no
/// condition besides the owner's and one for each filter given; the owner,
/// the text searched for and each value compared with are among the
/// parameters.
pub proof fn law_search_filters_name_their_columns(r: &ProjectQueryRequest)
    ensures
        r.assembly().pieces.len() == 1 + (if r.search_query is Some { 1int } else { 0 }) + (if r.start_date is Some { 1int } else { 0 }) + (if r.deadline is Some { 1int } else { 0 }) + (if r.completed is Some { 1int } else { 0 }) + (if r.logged is Some { 1int } else { 0 }) + (if r.trashed is Some { 1int } else { 0 }) + (if r.area_id is Some { 1int } else { 0 }),
        names_column(r.assembly().pieces, ProjectModel::USER_ID@),
        r.assembly().params.contains(SqlParam::Id(&r.user_id->0)),
        r.search_query is Some ==> names_column(r.assembly().pieces, ProjectModel::TITLE@),
        r.search_query matches Some(s) ==> r.assembly().params.contains(SqlParam::Text(&s)),
        r.start_date is Some ==> names_column(r.assembly().pieces, ProjectModel::START_DATE@),
        r.start_date matches Some(QueryMethod::Match(v)) ==> r.assembly().params.contains(SqlParam::Date(&v)),
        r.start_date matches Some(QueryMethod::Compare(v, _)) ==> r.assembly().params.contains(SqlParam::Date(&v)),
        r.deadline is Some ==> names_column(r.assembly().pieces, ProjectModel::DEADLINE@),
        r.deadline matches Some(QueryMethod::Match(v)) ==> r.assembly().params.contains(SqlParam::Date(&v)),
        r.deadline matches Some(QueryMethod::Compare(v, _)) ==> r.assembly().params.contains(SqlParam::Date(&v)),
        r.completed is Some ==> names_column(r.assembly().pieces, ProjectModel::COMPLETED@),
        r.logged is Some ==> names_column(r.assembly().pieces, ProjectModel::LOGGED@),
        r.trashed is Some ==> names_column(r.assembly().pieces, ProjectModel::TRASHED@),
        r.area_id is Some ==> names_column(r.assembly().pieces, ProjectModel::AREA_ID@),
        r.area_id matches Some(QueryMethod::Match(v)) ==> r.assembly().params.contains(SqlParam::Id(&v)),
        r.area_id matches Some(QueryMethod::Compare(v, _)) ==> r.assembly().params.contains(SqlParam::Id(&v)),
{
    let a = Assembly {
        pieces: seq![ProjectModel::USER_ID@ + "=$"@ + decimal(1)],
        params: seq![SqlParam::Id(&r.user_id->0)],
        next: 2,
    };
    lemma_on_own_column(ProjectModel::USER_ID@);
    lemma_on_column_extends(ProjectModel::USER_ID@, ProjectModel::USER_ID@, "=$"@);
    lemma_on_column_extends(ProjectModel::USER_ID@ + "=$"@, ProjectModel::USER_ID@, decimal(1));
    assert(a.pieces[0] == ProjectModel::USER_ID@ + "=$"@ + decimal(1));
    assert(names_column(a.pieces, ProjectModel::USER_ID@));
    assert(a.params[0] == SqlParam::Id(&r.user_id->0));
    lemma_search_names(a, ProjectModel::TITLE@, &r.search_query);
    let a = with_search(a, ProjectModel::TITLE@, &r.search_query);
    lemma_filter_names(a, ProjectModel::START_DATE@, filter_of(&r.start_date), true);
    let a = with_filter(a, ProjectModel::START_DATE@, filter_of(&r.start_date), true);
    lemma_filter_names(a, ProjectModel::DEADLINE@, filter_of(&r.deadline), true);
    let a = with_filter(a, ProjectModel::DEADLINE@, filter_of(&r.deadline), true);
    lemma_filter_names(a, ProjectModel::COMPLETED@, flag_filter_of(&r.completed), false);
    let a = with_filter(a, ProjectModel::COMPLETED@, flag_filter_of(&r.completed), false);
    lemma_filter_names(a, ProjectModel::LOGGED@, flag_filter_of(&r.logged), false);
    let a = with_filter(a, ProjectModel::LOGGED@, flag_filter_of(&r.logged), false);
    lemma_filter_names(a, ProjectModel::TRASHED@, flag_filter_of(&r.trashed), false);
    let a = with_filter(a, ProjectModel::TRASHED@, flag_filter_of(&r.trashed), false);
    lemma_filter_names(a, ProjectModel::AREA_ID@, filter_of(&r.area_id), true);
    let a = with_filter(a, ProjectModel::AREA_ID@, filter_of(&r.area_id), true);
    assert(r.assembly() == a);
}

} // verus!
