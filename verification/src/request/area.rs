//! Area requests of the first request layer: their fields and setters.

use vstd::prelude::*;
use crate::values::Uuid;

verus! {

/// A new area.
pub struct AreaPostRequest {
    pub name: Option<String>,
    pub icon_url: Option<String>,
    pub user_id: Option<Uuid>,
}

impl AreaPostRequest {
    pub fn user_id(&mut self, id: Uuid) -> (r: &mut Self)
        ensures
            *r == (Self { user_id: Some(id), ..*old(self) }),
            *final(self) == *final(r),
    {
        self.user_id = Some(id);
        self
    }
}

/// The area with the given identifier, of the given owner.
pub struct AreaGetRequest {
    pub area_id: Option<Uuid>,
    pub user_id: Option<Uuid>,
}

impl AreaGetRequest {
    pub fn new() -> (r: Self)
        ensures
            r.area_id is None,
            r.user_id is None,
    {
        Self { area_id: None, user_id: None }
    }

    pub fn area_id(&mut self, id: Uuid) -> (r: &mut Self)
        ensures
            *r == (Self { area_id: Some(id), ..*old(self) }),
            *final(self) == *final(r),
    {
        self.area_id = Some(id);
        self
    }

    pub fn user_id(&mut self, id: Uuid) -> (r: &mut Self)
        ensures
            *r == (Self { user_id: Some(id), ..*old(self) }),
            *final(self) == *final(r),
    {
        self.user_id = Some(id);
        self
    }
}

/// Changes to a area.
pub struct AreaPutRequest {
    pub area_id: Option<Uuid>,
    pub name: Option<String>,
    pub icon_url: Option<String>,
    pub user_id: Option<Uuid>,
}

impl AreaPutRequest {
    pub fn area_id(&mut self, id: Uuid) -> (r: &mut Self)
        ensures
            *r == (Self { area_id: Some(id), ..*old(self) }),
            *final(self) == *final(r),
    {
        self.area_id = Some(id);
        self
    }

    pub fn user_id(&mut self, id: Uuid) -> (r: &mut Self)
        ensures
            *r == (Self { user_id: Some(id), ..*old(self) }),
            *final(self) == *final(r),
    {
        self.user_id = Some(id);
        self
    }
}

/// The area to delete, of the given owner.
pub struct AreaDeleteRequest {
    pub area_id: Option<Uuid>,
    pub user_id: Option<Uuid>,
}

impl AreaDeleteRequest {
    pub fn new() -> (r: Self)
        ensures
            r.area_id is None,
            r.user_id is None,
    {
        Self { area_id: None, user_id: None }
    }

    pub fn area_id(&mut self, id: Uuid) -> (r: &mut Self)
        ensures
            *r == (Self { area_id: Some(id), ..*old(self) }),
            *final(self) == *final(r),
    {
        self.area_id = Some(id);
        self
    }

    pub fn user_id(&mut self, id: Uuid) -> (r: &mut Self)
        ensures
            *r == (Self { user_id: Some(id), ..*old(self) }),
            *final(self) == *final(r),
    {
        self.user_id = Some(id);
        self
    }
}

/// A search for areas.
pub struct AreaQueryRequest {
    pub search_query: Option<String>,
    pub user_id: Option<Uuid>,
}

impl AreaQueryRequest {
    pub fn search_query(&mut self, query: String) -> (r: &mut Self)
        ensures
            *r == (Self { search_query: Some(query), ..*old(self) }),
            *final(self) == *final(r),
    {
        self.search_query = Some(query);
        self
    }

    pub fn user_id(&mut self, id: Uuid) -> (r: &mut Self)
        ensures
            *r == (Self { user_id: Some(id), ..*old(self) }),
            *final(self) == *final(r),
    {
        self.user_id = Some(id);
        self
    }
}

} // verus!
