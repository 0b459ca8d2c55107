//! Tag requests of the routes and the statements they render.

use vstd::prelude::*;
use crate::models::request::{
    law_present_keeps_pairs,
    Assembly, QueryMethod, UpdateMethod, assembly_of, assignment, by_ids, by_ids_text, filter_of,
    filter_renders, insert_returning, insert_returning_text, like_condition, like_pattern,
    present_param, push_filter, push_listed_update, push_present, select_where,
    select_where_text, update_listed, update_listed_text, update_of, with_filter,
    with_listed_update, with_present, lemma_listed_update_lists, pairs, lemma_present_pairs,
    names_column, lemma_on_own_column, lemma_on_column_extends, lemma_filter_names,
};
use crate::models::request::task::{with_search, lemma_search_names};
use crate::storage::db::DBQuery;
use crate::storage::model::TagModel;
use crate::text::decimal;
use crate::values::{SqlParam, Timestamp, Uuid};

verus! {

/// A new tag.
pub struct TagCreateRequest {
    pub label: Option<String>,
    pub category: Option<String>,
    pub color: Option<String>,
    pub user_id: Option<Uuid>,
}

impl TagCreateRequest {
    pub fn set_user_id(&mut self, id: Uuid) -> (r: &mut Self)
        ensures
            *r == (Self { user_id: Some(id), ..*old(self) }),
            *final(self) == *final(r),
    {
        self.user_id = Some(id);
        self
    }

    /// The columns and parameters of the insert.
    pub open spec fn assembly(&self) -> Assembly<'_> {
        let a = Assembly {
            pieces: seq![TagModel::USER_ID@],
            params: seq![SqlParam::Id(&self.user_id->0)],
            next: 0,
        };
        let a = with_present(a, TagModel::LABEL@, present_param(&self.label));
        let a = with_present(a, TagModel::CATEGORY@, present_param(&self.category));
        with_present(a, TagModel::COLOR@, present_param(&self.color))
    }
}

impl DBQuery for TagCreateRequest {
    open spec fn query_ready(&self) -> bool {
        self.user_id is Some
    }

    open spec fn query_text(&self) -> Seq<char> {
        insert_returning_text(
            TagModel::TABLE@,
            self.assembly().pieces,
            self.assembly().params.len(),
            TagModel::ID@,
        )
    }

    open spec fn query_params(&self) -> Seq<SqlParam<'_>> {
        self.assembly().params
    }

    fn get_query(&self) -> (r: (String, Vec<SqlParam<'_>>)) {
        let mut columns: Vec<String> = Vec::new();
        columns.push(TagModel::USER_ID.to_owned());
        let mut params: Vec<SqlParam<'_>> = Vec::new();
        params.push(SqlParam::Id(self.user_id.as_ref().unwrap()));
        assert(assembly_of(columns@, params@, 0) =~= Assembly {
            pieces: seq![TagModel::USER_ID@],
            params: seq![SqlParam::Id(&self.user_id->0)],
            next: 0,
        });
        push_present(&mut columns, &mut params, TagModel::LABEL, &self.label);
        push_present(&mut columns, &mut params, TagModel::CATEGORY, &self.category);
        push_present(&mut columns, &mut params, TagModel::COLOR, &self.color);
        let statement = insert_returning(TagModel::TABLE, &columns, params.len(), TagModel::ID);
        (statement, params)
    }
}

/// The tag with the given identifier, of the given owner.
pub struct TagRetrieveRequest {
    pub tag_id: Option<Uuid>,
    pub user_id: Option<Uuid>,
}

impl Default for TagRetrieveRequest {
    fn default() -> (r: Self)
        ensures
            r.tag_id is None,
            r.user_id is None,
    {
        Self { tag_id: None, user_id: None }
    }
}

impl TagRetrieveRequest {
    pub fn set_tag_id(&mut self, id: Uuid) -> (r: &mut Self)
        ensures
            *r == (Self { tag_id: Some(id), ..*old(self) }),
            *final(self) == *final(r),
    {
        self.tag_id = Some(id);
        self
    }

    pub fn set_user_id(&mut self, id: Uuid) -> (r: &mut Self)
        ensures
            *r == (Self { user_id: Some(id), ..*old(self) }),
            *final(self) == *final(r),
    {
        self.user_id = Some(id);
        self
    }
}

impl DBQuery for TagRetrieveRequest {
    open spec fn query_ready(&self) -> bool {
        self.tag_id is Some && self.user_id is Some
    }

    open spec fn query_text(&self) -> Seq<char> {
        by_ids_text("SELECT * FROM "@, TagModel::TABLE@, TagModel::ID@, TagModel::USER_ID@)
    }

    open spec fn query_params(&self) -> Seq<SqlParam<'_>> {
        seq![SqlParam::Id(&self.tag_id->0), SqlParam::Id(&self.user_id->0)]
    }

    fn get_query(&self) -> (r: (String, Vec<SqlParam<'_>>)) {
        let mut params: Vec<SqlParam<'_>> = Vec::new();
        params.push(SqlParam::Id(self.tag_id.as_ref().unwrap()));
        params.push(SqlParam::Id(self.user_id.as_ref().unwrap()));
        let statement = by_ids("SELECT * FROM ", TagModel::TABLE, TagModel::ID, TagModel::USER_ID);
        assert(params@ =~= self.query_params());
        (statement, params)
    }
}

/// Changes to a tag.
pub struct TagUpdateRequest {
    pub tag_id: Option<Uuid>,
    pub label: Option<UpdateMethod<String>>,
    pub category: Option<UpdateMethod<String>>,
    pub color: Option<UpdateMethod<String>>,
    pub user_id: Option<Uuid>,
    pub timestamp: Timestamp,
}

impl TagUpdateRequest {
    pub fn set_tag_id(&mut self, id: Uuid) -> (r: &mut Self)
        ensures
            *r == (Self { tag_id: Some(id), ..*old(self) }),
            *final(self) == *final(r),
    {
        self.tag_id = Some(id);
        self
    }

    pub fn set_user_id(&mut self, id: Uuid) -> (r: &mut Self)
        ensures
            *r == (Self { user_id: Some(id), ..*old(self) }),
            *final(self) == *final(r),
    {
        self.user_id = Some(id);
        self
    }

    /// The listed columns and the parameters of the update.
    pub open spec fn assembly(&self) -> Assembly<'_> {
        let a = Assembly {
            pieces: seq![TagModel::UPDATED@],
            params: seq![
                SqlParam::Id(&self.tag_id->0),
                SqlParam::Id(&self.user_id->0),
                SqlParam::Timestamp(&self.timestamp),
            ],
            next: 0,
        };
        let a = with_listed_update(a, TagModel::LABEL@, update_of(&self.label));
        let a = with_listed_update(a, TagModel::CATEGORY@, update_of(&self.category));
        with_listed_update(a, TagModel::COLOR@, update_of(&self.color))
    }
}

impl DBQuery for TagUpdateRequest {
    open spec fn query_ready(&self) -> bool {
        self.tag_id is Some && self.user_id is Some
    }

    /// The placeholders run from `$3` for as many values as there are parameters.
    open spec fn query_text(&self) -> Seq<char> {
        update_listed_text(
            TagModel::TABLE@,
            self.assembly().pieces,
            self.assembly().params.len(),
            TagModel::ID@,
            TagModel::USER_ID@,
        )
    }

    open spec fn query_params(&self) -> Seq<SqlParam<'_>> {
        self.assembly().params
    }

    fn get_query(&self) -> (r: (String, Vec<SqlParam<'_>>)) {
        let mut columns: Vec<String> = Vec::new();
        columns.push(TagModel::UPDATED.to_owned());
        let mut params: Vec<SqlParam<'_>> = Vec::new();
        params.push(SqlParam::Id(self.tag_id.as_ref().unwrap()));
        params.push(SqlParam::Id(self.user_id.as_ref().unwrap()));
        params.push(SqlParam::Timestamp(&self.timestamp));
        assert(assembly_of(columns@, params@, 0) =~= Assembly {
            pieces: seq![TagModel::UPDATED@],
            params: seq![
                SqlParam::Id(&self.tag_id->0),
                SqlParam::Id(&self.user_id->0),
                SqlParam::Timestamp(&self.timestamp),
            ],
            next: 0,
        });
        push_listed_update(&mut columns, &mut params, TagModel::LABEL, &self.label);
        push_listed_update(&mut columns, &mut params, TagModel::CATEGORY, &self.category);
        push_listed_update(&mut columns, &mut params, TagModel::COLOR, &self.color);
        let statement = update_listed(TagModel::TABLE, &columns, params.len(), TagModel::ID, TagModel::USER_ID);
        (statement, params)
    }
}

/// The tag to delete, of the given owner.
pub struct TagDeleteRequest {
    pub tag_id: Option<Uuid>,
    pub user_id: Option<Uuid>,
}

impl Default for TagDeleteRequest {
    fn default() -> (r: Self)
        ensures
            r.tag_id is None,
            r.user_id is None,
    {
        Self { tag_id: None, user_id: None }
    }
}

impl TagDeleteRequest {
    pub fn set_tag_id(&mut self, id: Uuid) -> (r: &mut Self)
        ensures
            *r == (Self { tag_id: Some(id), ..*old(self) }),
            *final(self) == *final(r),
    {
        self.tag_id = Some(id);
        self
    }

    pub fn set_user_id(&mut self, id: Uuid) -> (r: &mut Self)
        ensures
            *r == (Self { user_id: Some(id), ..*old(self) }),
            *final(self) == *final(r),
    {
        self.user_id = Some(id);
        self
    }
}

impl DBQuery for TagDeleteRequest {
    open spec fn query_ready(&self) -> bool {
        self.tag_id is Some && self.user_id is Some
    }

    open spec fn query_text(&self) -> Seq<char> {
        by_ids_text("DELETE FROM "@, TagModel::TABLE@, TagModel::ID@, TagModel::USER_ID@) + " RETURNING *"@
    }

    open spec fn query_params(&self) -> Seq<SqlParam<'_>> {
        seq![SqlParam::Id(&self.tag_id->0), SqlParam::Id(&self.user_id->0)]
    }

    fn get_query(&self) -> (r: (String, Vec<SqlParam<'_>>)) {
        let mut params: Vec<SqlParam<'_>> = Vec::new();
        params.push(SqlParam::Id(self.tag_id.as_ref().unwrap()));
        params.push(SqlParam::Id(self.user_id.as_ref().unwrap()));
        let mut statement = by_ids("DELETE FROM ", TagModel::TABLE, TagModel::ID, TagModel::USER_ID);
        statement.append(" RETURNING *");
        assert(params@ =~= self.query_params());
        (statement, params)
    }
}

/// A search for tags.
pub struct TagQueryRequest {
    pub search_query: Option<String>,
    pub category: Option<QueryMethod<String>>,
    pub user_id: Option<Uuid>,
}

impl TagQueryRequest {
    /// Searches for labels that hold the query.
    pub fn set_search_query(&mut self, query: String) -> (r: &mut Self)
        ensures
            r.search_query is Some,
            r.search_query->0@ == "%"@ + query@ + "%"@,
            r.category == old(self).category,
            r.user_id == old(self).user_id,
            *final(self) == *final(r),
    {
        self.search_query = Some(like_pattern(&query));
        self
    }

    pub fn set_user_id(&mut self, id: Uuid) -> (r: &mut Self)
        ensures
            *r == (Self { user_id: Some(id), ..*old(self) }),
            *final(self) == *final(r),
    {
        self.user_id = Some(id);
        self
    }

    /// The conditions and parameters of the search.
    pub open spec fn assembly(&self) -> Assembly<'_> {
        let a = Assembly {
            pieces: seq![TagModel::USER_ID@ + "=$"@ + decimal(1)],
            params: seq![SqlParam::Id(&self.user_id->0)],
            next: 2,
        };
        let a = with_search(a, TagModel::LABEL@, &self.search_query);
        with_filter(a, TagModel::CATEGORY@, filter_of(&self.category), true)
    }
}

impl DBQuery for TagQueryRequest {
    open spec fn query_ready(&self) -> bool {
        &&& self.user_id is Some
        &&& (self.category matches Some(q) ==> filter_renders(q))
    }

    open spec fn query_text(&self) -> Seq<char> {
        select_where_text(TagModel::TABLE@, self.assembly().pieces)
    }

    open spec fn query_params(&self) -> Seq<SqlParam<'_>> {
        self.assembly().params
    }

    fn get_query(&self) -> (r: (String, Vec<SqlParam<'_>>)) {
        let mut conditions: Vec<String> = Vec::new();
        conditions.push(assignment(TagModel::USER_ID, 1));
        let mut params: Vec<SqlParam<'_>> = Vec::new();
        params.push(SqlParam::Id(self.user_id.as_ref().unwrap()));
        let mut n = conditions.len() + 1;
        let ghost a0 = assembly_of(conditions@, params@, n);
        assert(a0 =~= Assembly {
            pieces: seq![TagModel::USER_ID@ + "=$"@ + decimal(1)],
            params: seq![SqlParam::Id(&self.user_id->0)],
            next: 2,
        });
        if let Some(s) = &self.search_query {
            conditions.push(like_condition(TagModel::LABEL, n));
            params.push(SqlParam::Text(s));
            n = n + 1;
        }
        assert(assembly_of(conditions@, params@, n) =~= with_search(a0, TagModel::LABEL@, &self.search_query));
        let _ = push_filter(&mut conditions, &mut params, TagModel::CATEGORY, &self.category, n, true);
        let statement = select_where(TagModel::TABLE, &conditions);
        (statement, params)
    }
}

/// The insert of a new row lists one placeholder for each column: the
/// statement names as many columns as it binds parameters.
pub proof fn law_create_pairs_columns_and_params(request: TagCreateRequest)
    ensures
        request.assembly().pieces.len() == request.assembly().params.len(),
{
    let a = Assembly {
        pieces: seq![TagModel::USER_ID@],
        params: seq![SqlParam::Id(&request.user_id->0)],
        next: 0,
    };
    law_present_keeps_pairs(a, TagModel::LABEL@, present_param(&request.label));
    let a = with_present(a, TagModel::LABEL@, present_param(&request.label));
    law_present_keeps_pairs(a, TagModel::CATEGORY@, present_param(&request.category));
    let a = with_present(a, TagModel::CATEGORY@, present_param(&request.category));
    law_present_keeps_pairs(a, TagModel::COLOR@, present_param(&request.color));
    let a = with_present(a, TagModel::COLOR@, present_param(&request.color));
}

/// How many fields a tag update changes.
pub open spec fn changed_fields(r: &TagUpdateRequest) -> int {
    (if r.label is Some { 1int } else { 0 }) + (if r.category is Some { 1int } else { 0 }) + (if r.color is Some {
        1int
    } else {
        0
    })
}

/// A tag update lists the change time and the column of each field it
/// changes under that field's own name, one column per field, and each new
/// value is among the parameters.
pub proof fn law_update_lists_own_columns(r: &TagUpdateRequest)
    ensures
        r.assembly().pieces.len() == 1 + changed_fields(r),
        r.assembly().pieces.contains(TagModel::UPDATED@),
        r.label is Some ==> r.assembly().pieces.contains(TagModel::LABEL@),
        r.category is Some ==> r.assembly().pieces.contains(TagModel::CATEGORY@),
        r.color is Some ==> r.assembly().pieces.contains(TagModel::COLOR@),
        r.label matches Some(UpdateMethod::Change(v)) ==> r.assembly().params.contains(SqlParam::Text(&v)),
        r.category matches Some(UpdateMethod::Change(v)) ==> r.assembly().params.contains(SqlParam::Text(&v)),
        r.color matches Some(UpdateMethod::Change(v)) ==> r.assembly().params.contains(SqlParam::Text(&v)),
{
    let a0 = Assembly {
        pieces: seq![TagModel::UPDATED@],
        params: seq![
            SqlParam::Id(&r.tag_id->0),
            SqlParam::Id(&r.user_id->0),
            SqlParam::Timestamp(&r.timestamp),
        ],
        next: 0,
    };
    assert(a0.pieces[0] == TagModel::UPDATED@);
    lemma_listed_update_lists(a0, TagModel::LABEL@, update_of(&r.label));
    let a1 = with_listed_update(a0, TagModel::LABEL@, update_of(&r.label));
    lemma_listed_update_lists(a1, TagModel::CATEGORY@, update_of(&r.category));
    let a2 = with_listed_update(a1, TagModel::CATEGORY@, update_of(&r.category));
    lemma_listed_update_lists(a2, TagModel::COLOR@, update_of(&r.color));
    let a3 = with_listed_update(a2, TagModel::COLOR@, update_of(&r.color));
    assert(r.assembly() == a3);
}

/// A new tag lists the owner's column first, then one column for each
/// field given, and no other: each field given is listed under its own
/// column, with its value at the same place among the parameters.
pub proof fn law_create_lists_every_field(r: &TagCreateRequest)
    ensures
        r.assembly().pieces.len() == 1 + (if r.label is Some { 1int } else { 0 }) + (if r.category is Some { 1int } else { 0 }) + (if r.color is Some { 1int } else { 0 }),
        r.assembly().pieces[0] == TagModel::USER_ID@,
        r.assembly().params[0] == SqlParam::Id(&r.user_id->0),
        r.label matches Some(v) ==> pairs(r.assembly(), TagModel::LABEL@, SqlParam::Text(&v)),
        r.category matches Some(v) ==> pairs(r.assembly(), TagModel::CATEGORY@, SqlParam::Text(&v)),
        r.color matches Some(v) ==> pairs(r.assembly(), TagModel::COLOR@, SqlParam::Text(&v)),
{
    let a = Assembly {
        pieces: seq![TagModel::USER_ID@],
        params: seq![SqlParam::Id(&r.user_id->0)],
        next: 0,
    };
    let a0 = a;
    lemma_present_pairs(a, TagModel::LABEL@, present_param(&r.label));
    let a = with_present(a, TagModel::LABEL@, present_param(&r.label));
    lemma_present_pairs(a, TagModel::CATEGORY@, present_param(&r.category));
    let a = with_present(a, TagModel::CATEGORY@, present_param(&r.category));
    lemma_present_pairs(a, TagModel::COLOR@, present_param(&r.color));
    let a = with_present(a, TagModel::COLOR@, present_param(&r.color));
    assert(r.assembly() == a);
    assert(a.pieces[0] == a0.pieces[0]);
    assert(a.params[0] == a0.params[0]);
}

/// Each filter of a tag search is a condition on its own column:
/// the owner's condition names `user_id`, the text search names its column,
/// each filter given names the column of its field, and there is no
/// condition besides the owner's and one for each filter given; the owner,
/// the text searched for and each value compared with are among the
/// parameters.
pub proof fn law_search_filters_name_their_columns(r: &TagQueryRequest)
    ensures
        r.assembly().pieces.len() == 1 + (if r.search_query is Some { 1int } else { 0 }) + (if r.category is Some { 1int } else { 0 }),
        names_column(r.assembly().pieces, TagModel::USER_ID@),
        r.assembly().params.contains(SqlParam::Id(&r.user_id->0)),
        r.search_query is Some ==> names_column(r.assembly().pieces, TagModel::LABEL@),
        r.search_query matches Some(s) ==> r.assembly().params.contains(SqlParam::Text(&s)),
        r.category is Some ==> names_column(r.assembly().pieces, TagModel::CATEGORY@),
        r.category matches Some(QueryMethod::Match(v)) ==> r.assembly().params.contains(SqlParam::Text(&v)),
        r.category matches Some(QueryMethod::Compare(v, _)) ==> r.assembly().params.contains(SqlParam::Text(&v)),
{
    let a = Assembly {
        pieces: seq![TagModel::USER_ID@ + "=$"@ + decimal(1)],
        params: seq![SqlParam::Id(&r.user_id->0)],
        next: 2,
    };
    lemma_on_own_column(TagModel::USER_ID@);
    lemma_on_column_extends(TagModel::USER_ID@, TagModel::USER_ID@, "=$"@);
    lemma_on_column_extends(TagModel::USER_ID@ + "=$"@, TagModel::USER_ID@, decimal(1));
    assert(a.pieces[0] == TagModel::USER_ID@ + "=$"@ + decimal(1));
    assert(names_column(a.pieces, TagModel::USER_ID@));
    assert(a.params[0] == SqlParam::Id(&r.user_id->0));
    lemma_search_names(a, TagModel::LABEL@, &r.search_query);
    let a = with_search(a, TagModel::LABEL@, &r.search_query);
    lemma_filter_names(a, TagModel::CATEGORY@, filter_of(&r.category), true);
    let a = with_filter(a, TagModel::CATEGORY@, filter_of(&r.category), true);
    assert(r.assembly() == a);
}

} // verus!
