//! Area requests and the statements they render.

use vstd::prelude::*;
use crate::models::db::AreaModel;
use crate::models::request::{
    law_present_keeps_pairs,
    Assembly, UpdateMethod, assembly_of, assignment, by_ids, by_ids_text, insert_returning,
    insert_returning_text, like_condition, like_pattern, present_param, push_present, push_update,
    select_where, select_where_text, update_of, update_returning, update_returning_text,
    with_present, with_update, pairs, lemma_present_pairs, names_column, binds_at,
    lemma_on_own_column, lemma_on_column_extends, lemma_update_names,
};
use crate::storage::db::DBQuery;
use crate::text::{decimal, views};
use crate::values::{SqlParam, Timestamp, Uuid};

verus! {

/// A new area.
pub struct AreaCreateRequest {
    pub name: Option<String>,
    pub icon_url: Option<String>,
    pub user_id: Option<Uuid>,
}

impl AreaCreateRequest {
    pub fn set_user_id(&mut self, id: Uuid) -> (r: &mut Self)
        ensures
            *r == (Self { user_id: Some(id), ..*old(self) }),
            *final(self) == *final(r),
    {
        self.user_id = Some(id);
        self
    }

    /// The columns and parameters of the insert.
    pub open spec fn assembly(&self) -> Assembly<'_> {
        let a = Assembly {
            pieces: seq![AreaModel::USER_ID@],
            params: seq![SqlParam::Id(&self.user_id->0)],
            next: 0,
        };
        let a = with_present(a, AreaModel::NAME@, present_param(&self.name));
        with_present(a, AreaModel::ICON_URL@, present_param(&self.icon_url))
    }
}

impl DBQuery for AreaCreateRequest {
    open spec fn query_ready(&self) -> bool {
        self.user_id is Some
    }

    open spec fn query_text(&self) -> Seq<char> {
        insert_returning_text(
            AreaModel::TABLE@,
            self.assembly().pieces,
            self.assembly().params.len(),
            AreaModel::ID@,
        )
    }

    open spec fn query_params(&self) -> Seq<SqlParam<'_>> {
        self.assembly().params
    }

    fn get_query(&self) -> (r: (String, Vec<SqlParam<'_>>)) {
        let mut columns: Vec<String> = Vec::new();
        columns.push(AreaModel::USER_ID.to_owned());
        let mut params: Vec<SqlParam<'_>> = Vec::new();
        params.push(SqlParam::Id(self.user_id.as_ref().unwrap()));
        assert(assembly_of(columns@, params@, 0) =~= Assembly {
            pieces: seq![AreaModel::USER_ID@],
            params: seq![SqlParam::Id(&self.user_id->0)],
            next: 0,
        });
        push_present(&mut columns, &mut params, AreaModel::NAME, &self.name);
        push_present(&mut columns, &mut params, AreaModel::ICON_URL, &self.icon_url);
        let statement = insert_returning(AreaModel::TABLE, &columns, params.len(), AreaModel::ID);
        (statement, params)
    }
}

/// The area with the given identifier, of the given owner.
pub struct AreaRetrieveRequest {
    pub area_id: Option<Uuid>,
    pub user_id: Option<Uuid>,
}

impl Default for AreaRetrieveRequest {
    fn default() -> (r: Self)
        ensures
            r.area_id is None,
            r.user_id is None,
    {
        Self { area_id: None, user_id: None }
    }
}

impl AreaRetrieveRequest {
    pub fn set_area_id(&mut self, id: Uuid) -> (r: &mut Self)
        ensures
            *r == (Self { area_id: Some(id), ..*old(self) }),
            *final(self) == *final(r),
    {
        self.area_id = Some(id);
        self
    }

    pub fn set_user_id(&mut self, id: Uuid) -> (r: &mut Self)
        ensures
            *r == (Self { user_id: Some(id), ..*old(self) }),
            *final(self) == *final(r),
    {
        self.user_id = Some(id);
        self
    }
}

impl DBQuery for AreaRetrieveRequest {
    open spec fn query_ready(&self) -> bool {
        self.area_id is Some && self.user_id is Some
    }

    open spec fn query_text(&self) -> Seq<char> {
        by_ids_text("SELECT * FROM "@, AreaModel::TABLE@, AreaModel::ID@, AreaModel::USER_ID@)
    }

    open spec fn query_params(&self) -> Seq<SqlParam<'_>> {
        seq![SqlParam::Id(&self.area_id->0), SqlParam::Id(&self.user_id->0)]
    }

    fn get_query(&self) -> (r: (String, Vec<SqlParam<'_>>)) {
        let mut params: Vec<SqlParam<'_>> = Vec::new();
        params.push(SqlParam::Id(self.area_id.as_ref().unwrap()));
        params.push(SqlParam::Id(self.user_id.as_ref().unwrap()));
        let statement = by_ids("SELECT * FROM ", AreaModel::TABLE, AreaModel::ID, AreaModel::USER_ID);
        assert(params@ =~= self.query_params());
        (statement, params)
    }
}

/// Changes to an area.
pub struct AreaUpdateRequest {
    pub area_id: Option<Uuid>,
    pub name: Option<UpdateMethod<String>>,
    pub icon_url: Option<UpdateMethod<String>>,
    pub user_id: Option<Uuid>,
    pub timestamp: Timestamp,
}

impl AreaUpdateRequest {
    pub fn set_area_id(&mut self, id: Uuid) -> (r: &mut Self)
        ensures
            *r == (Self { area_id: Some(id), ..*old(self) }),
            *final(self) == *final(r),
    {
        self.area_id = Some(id);
        self
    }

    pub fn set_user_id(&mut self, id: Uuid) -> (r: &mut Self)
        ensures
            *r == (Self { user_id: Some(id), ..*old(self) }),
            *final(self) == *final(r),
    {
        self.user_id = Some(id);
        self
    }

    /// The assignments and parameters of the update.
    pub open spec fn assembly(&self) -> Assembly<'_> {
        let a = Assembly {
            pieces: seq![AreaModel::UPDATED@ + "=$"@ + decimal(3)],
            params: seq![
                SqlParam::Id(&self.area_id->0),
                SqlParam::Id(&self.user_id->0),
                SqlParam::Timestamp(&self.timestamp),
            ],
            next: 4,
        };
        let a = with_update(a, AreaModel::NAME@, update_of(&self.name));
        with_update(a, AreaModel::ICON_URL@, update_of(&self.icon_url))
    }
}

impl DBQuery for AreaUpdateRequest {
    open spec fn query_ready(&self) -> bool {
        self.area_id is Some && self.user_id is Some
    }

    open spec fn query_text(&self) -> Seq<char> {
        update_returning_text(AreaModel::TABLE@, self.assembly().pieces, AreaModel::ID@, AreaModel::USER_ID@)
    }

    open spec fn query_params(&self) -> Seq<SqlParam<'_>> {
        self.assembly().params
    }

    fn get_query(&self) -> (r: (String, Vec<SqlParam<'_>>)) {
        let mut updates: Vec<String> = Vec::new();
        updates.push(assignment(AreaModel::UPDATED, 3));
        let mut params: Vec<SqlParam<'_>> = Vec::new();
        params.push(SqlParam::Id(self.area_id.as_ref().unwrap()));
        params.push(SqlParam::Id(self.user_id.as_ref().unwrap()));
        params.push(SqlParam::Timestamp(&self.timestamp));
        let n = params.len() + 1;
        assert(assembly_of(updates@, params@, n) =~= Assembly {
            pieces: seq![AreaModel::UPDATED@ + "=$"@ + decimal(3)],
            params: seq![
                SqlParam::Id(&self.area_id->0),
                SqlParam::Id(&self.user_id->0),
                SqlParam::Timestamp(&self.timestamp),
            ],
            next: 4,
        });
        let n = push_update(&mut updates, &mut params, AreaModel::NAME, &self.name, n);
        let _ = push_update(&mut updates, &mut params, AreaModel::ICON_URL, &self.icon_url, n);
        let statement = update_returning(AreaModel::TABLE, &updates, AreaModel::ID, AreaModel::USER_ID);
        (statement, params)
    }
}

/// The area to delete, of the given owner.
pub struct AreaDeleteRequest {
    pub area_id: Option<Uuid>,
    pub user_id: Option<Uuid>,
}

impl Default for AreaDeleteRequest {
    fn default() -> (r: Self)
        ensures
            r.area_id is None,
            r.user_id is None,
    {
        Self { area_id: None, user_id: None }
    }
}

impl AreaDeleteRequest {
    pub fn set_area_id(&mut self, id: Uuid) -> (r: &mut Self)
        ensures
            *r == (Self { area_id: Some(id), ..*old(self) }),
            *final(self) == *final(r),
    {
        self.area_id = Some(id);
        self
    }

    pub fn set_user_id(&mut self, id: Uuid) -> (r: &mut Self)
        ensures
            *r == (Self { user_id: Some(id), ..*old(self) }),
            *final(self) == *final(r),
    {
        self.user_id = Some(id);
        self
    }
}

impl DBQuery for AreaDeleteRequest {
    open spec fn query_ready(&self) -> bool {
        self.area_id is Some && self.user_id is Some
    }

    open spec fn query_text(&self) -> Seq<char> {
        by_ids_text("DELETE FROM "@, AreaModel::TABLE@, AreaModel::ID@, AreaModel::USER_ID@)
    }

    open spec fn query_params(&self) -> Seq<SqlParam<'_>> {
        seq![SqlParam::Id(&self.area_id->0), SqlParam::Id(&self.user_id->0)]
    }

    fn get_query(&self) -> (r: (String, Vec<SqlParam<'_>>)) {
        let mut params: Vec<SqlParam<'_>> = Vec::new();
        params.push(SqlParam::Id(self.area_id.as_ref().unwrap()));
        params.push(SqlParam::Id(self.user_id.as_ref().unwrap()));
        let statement = by_ids("DELETE FROM ", AreaModel::TABLE, AreaModel::ID, AreaModel::USER_ID);
        assert(params@ =~= self.query_params());
        (statement, params)
    }
}

/// A search for the areas of an owner.
pub struct AreaQueryRequest {
    pub search_query: Option<String>,
    pub user_id: Option<Uuid>,
}

impl AreaQueryRequest {
    /// Searches for names that hold the query.
    pub fn set_search_query(&mut self, query: String) -> (r: &mut Self)
        ensures
            r.search_query is Some,
            r.search_query->0@ == "%"@ + query@ + "%"@,
            r.user_id == old(self).user_id,
            *final(self) == *final(r),
    {
        self.search_query = Some(like_pattern(&query));
        self
    }

    pub fn set_user_id(&mut self, id: Uuid) -> (r: &mut Self)
        ensures
            *r == (Self { user_id: Some(id), ..*old(self) }),
            *final(self) == *final(r),
    {
        self.user_id = Some(id);
        self
    }
}

impl DBQuery for AreaQueryRequest {
    open spec fn query_ready(&self) -> bool {
        self.user_id is Some
    }

    open spec fn query_text(&self) -> Seq<char> {
        let conditions = seq![AreaModel::USER_ID@ + "=$"@ + decimal(1)];
        let conditions = match self.search_query {
            Some(_) => conditions.push(AreaModel::NAME@ + " LIKE $"@ + decimal(2)),
            None => conditions,
        };
        select_where_text(AreaModel::TABLE@, conditions)
    }

    open spec fn query_params(&self) -> Seq<SqlParam<'_>> {
        let params = seq![SqlParam::Id(&self.user_id->0)];
        match self.search_query {
            Some(s) => params.push(SqlParam::Text(&s)),
            None => params,
        }
    }

    fn get_query(&self) -> (r: (String, Vec<SqlParam<'_>>)) {
        let mut conditions: Vec<String> = Vec::new();
        conditions.push(assignment(AreaModel::USER_ID, 1));
        let mut params: Vec<SqlParam<'_>> = Vec::new();
        params.push(SqlParam::Id(self.user_id.as_ref().unwrap()));
        let n = conditions.len() + 1;
        if let Some(s) = &self.search_query {
            conditions.push(like_condition(AreaModel::NAME, n));
            params.push(SqlParam::Text(s));
        }
        let statement = select_where(AreaModel::TABLE, &conditions);
        proof {
            let cs = seq![AreaModel::USER_ID@ + "=$"@ + decimal(1)];
            let cs = match self.search_query {
                Some(_) => cs.push(AreaModel::NAME@ + " LIKE $"@ + decimal(2)),
                None => cs,
            };
            assert(views(conditions@) =~= cs);
            assert(params@ =~= self.query_params());
        }
        (statement, params)
    }
}

/// The insert of a new row lists one placeholder for each column: the
/// statement names as many columns as it binds parameters.
pub proof fn law_create_pairs_columns_and_params(request: AreaCreateRequest)
    ensures
        request.assembly().pieces.len() == request.assembly().params.len(),
{
    let a = Assembly {
        pieces: seq![AreaModel::USER_ID@],
        params: seq![SqlParam::Id(&request.user_id->0)],
        next: 0,
    };
    law_present_keeps_pairs(a, AreaModel::NAME@, present_param(&request.name));
    let a = with_present(a, AreaModel::NAME@, present_param(&request.name));
    law_present_keeps_pairs(a, AreaModel::ICON_URL@, present_param(&request.icon_url));
    let a = with_present(a, AreaModel::ICON_URL@, present_param(&request.icon_url));
}

/// A new area lists the owner's column first, then one column for each
/// field given, and no other: each field given is listed under its own
/// column, with its value at the same place among the parameters.
pub proof fn law_create_lists_every_field(r: &AreaCreateRequest)
    ensures
        r.assembly().pieces.len() == 1 + (if r.name is Some { 1int } else { 0 }) + (if r.icon_url is Some {
            1int
        } else {
            0
        }),
        r.assembly().pieces[0] == AreaModel::USER_ID@,
        r.assembly().params[0] == SqlParam::Id(&r.user_id->0),
        r.name matches Some(s) ==> pairs(r.assembly(), AreaModel::NAME@, SqlParam::Text(&s)),
        r.icon_url matches Some(s) ==> pairs(r.assembly(), AreaModel::ICON_URL@, SqlParam::Text(&s)),
{
    let a0 = Assembly {
        pieces: seq![AreaModel::USER_ID@],
        params: seq![SqlParam::Id(&r.user_id->0)],
        next: 0,
    };
    lemma_present_pairs(a0, AreaModel::NAME@, present_param(&r.name));
    let a1 = with_present(a0, AreaModel::NAME@, present_param(&r.name));
    lemma_present_pairs(a1, AreaModel::ICON_URL@, present_param(&r.icon_url));
    let a2 = with_present(a1, AreaModel::ICON_URL@, present_param(&r.icon_url));
    assert(r.assembly() == a2);
    assert(a2.pieces[0] == a0.pieces[0]);
    assert(a2.params[0] == a0.params[0]);
}

/// Each change of an area update assigns its own column: the change time
/// names `updated_on`, each field given names the column of that field, and
/// there is no assignment besides the change time's and one for each field
/// given. A field set to a new value is assigned from a parameter that
/// holds that value.
pub proof fn law_update_assigns_own_columns(r: &AreaUpdateRequest)
    ensures
        r.assembly().pieces.len() == 1 + (if r.name is Some { 1int } else { 0 }) + (if r.icon_url is Some {
            1int
        } else {
            0
        }),
        names_column(r.assembly().pieces, AreaModel::UPDATED@),
        r.name is Some ==> names_column(r.assembly().pieces, AreaModel::NAME@),
        r.icon_url is Some ==> names_column(r.assembly().pieces, AreaModel::ICON_URL@),
        r.name matches Some(UpdateMethod::Change(v)) ==> binds_at(r.assembly(), AreaModel::NAME@, SqlParam::Text(&v)),
        r.icon_url matches Some(UpdateMethod::Change(v)) ==> binds_at(
            r.assembly(),
            AreaModel::ICON_URL@,
            SqlParam::Text(&v),
        ),
{
    let a0 = Assembly {
        pieces: seq![AreaModel::UPDATED@ + "=$"@ + decimal(3)],
        params: seq![
            SqlParam::Id(&r.area_id->0),
            SqlParam::Id(&r.user_id->0),
            SqlParam::Timestamp(&r.timestamp),
        ],
        next: 4,
    };
    lemma_on_own_column(AreaModel::UPDATED@);
    lemma_on_column_extends(AreaModel::UPDATED@, AreaModel::UPDATED@, "=$"@);
    lemma_on_column_extends(AreaModel::UPDATED@ + "=$"@, AreaModel::UPDATED@, decimal(3));
    assert(a0.pieces[0] == AreaModel::UPDATED@ + "=$"@ + decimal(3));
    assert(names_column(a0.pieces, AreaModel::UPDATED@));
    lemma_update_names(a0, AreaModel::NAME@, update_of(&r.name));
    let a1 = with_update(a0, AreaModel::NAME@, update_of(&r.name));
    lemma_update_names(a1, AreaModel::ICON_URL@, update_of(&r.icon_url));
    let a2 = with_update(a1, AreaModel::ICON_URL@, update_of(&r.icon_url));
    assert(r.assembly() == a2);
}

} // verus!
