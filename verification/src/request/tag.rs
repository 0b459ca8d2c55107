//! Tag requests of the first request layer: their fields and setters.

use vstd::prelude::*;
use crate::database::Rgb;
use crate::values::Uuid;

verus! {

/// A new tag.
pub struct TagPostRequest {
    pub label: Option<String>,
    pub category: Option<String>,
    pub color: Option<Rgb>,
    pub user_id: Option<Uuid>,
}

impl TagPostRequest {
    pub fn user_id(&mut self, id: Uuid) -> (r: &mut Self)
        ensures
            *r == (Self { user_id: Some(id), ..*old(self) }),
            *final(self) == *final(r),
    {
        self.user_id = Some(id);
        self
    }
}

/// The tag with the given identifier, of the given owner.
pub struct TagGetRequest {
    pub tag_id: Option<Uuid>,
    pub user_id: Option<Uuid>,
}

impl TagGetRequest {
    pub fn new() -> (r: Self)
        ensures
            r.tag_id is None,
            r.user_id is None,
    {
        Self { tag_id: None, user_id: None }
    }

    pub fn tag_id(&mut self, id: Uuid) -> (r: &mut Self)
        ensures
            *r == (Self { tag_id: Some(id), ..*old(self) }),
            *final(self) == *final(r),
    {
        self.tag_id = Some(id);
        self
    }

    pub fn user_id(&mut self, id: Uuid) -> (r: &mut Self)
        ensures
            *r == (Self { user_id: Some(id), ..*old(self) }),
            *final(self) == *final(r),
    {
        self.user_id = Some(id);
        self
    }
}

/// Changes to a tag.
pub struct TagPutRequest {
    pub tag_id: Option<Uuid>,
    pub label: Option<String>,
    pub category: Option<String>,
    pub color: Option<Rgb>,
    pub user_id: Option<Uuid>,
}

impl TagPutRequest {
    pub fn tag_id(&mut self, id: Uuid) -> (r: &mut Self)
        ensures
            *r == (Self { tag_id: Some(id), ..*old(self) }),
            *final(self) == *final(r),
    {
        self.tag_id = Some(id);
        self
    }

    pub fn user_id(&mut self, id: Uuid) -> (r: &mut Self)
        ensures
            *r == (Self { user_id: Some(id), ..*old(self) }),
            *final(self) == *final(r),
    {
        self.user_id = Some(id);
        self
    }
}

/// The tag to delete, of the given owner.
pub struct TagDeleteRequest {
    pub tag_id: Option<Uuid>,
    pub user_id: Option<Uuid>,
}

impl TagDeleteRequest {
    pub fn new() -> (r: Self)
        ensures
            r.tag_id is None,
            r.user_id is None,
    {
        Self { tag_id: None, user_id: None }
    }

    pub fn tag_id(&mut self, id: Uuid) -> (r: &mut Self)
        ensures
            *r == (Self { tag_id: Some(id), ..*old(self) }),
            *final(self) == *final(r),
    {
        self.tag_id = Some(id);
        self
    }

    pub fn user_id(&mut self, id: Uuid) -> (r: &mut Self)
        ensures
            *r == (Self { user_id: Some(id), ..*old(self) }),
            *final(self) == *final(r),
    {
        self.user_id = Some(id);
        self
    }
}

/// A search for tags.
pub struct TagQueryRequest {
    pub search_query: Option<String>,
    pub category: Option<String>,
    pub user_id: Option<Uuid>,
}

impl TagQueryRequest {
    pub fn search_query(&mut self, query: String) -> (r: &mut Self)
        ensures
            *r == (Self { search_query: Some(query), ..*old(self) }),
            *final(self) == *final(r),
    {
        self.search_query = Some(query);
        self
    }

    pub fn user_id(&mut self, id: Uuid) -> (r: &mut Self)
        ensures
            *r == (Self { user_id: Some(id), ..*old(self) }),
            *final(self) == *final(r),
    {
        self.user_id = Some(id);
        self
    }
}

} // verus!
