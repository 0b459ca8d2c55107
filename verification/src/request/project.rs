//! Project requests of the first request layer: their fields and setters.

use vstd::prelude::*;
use crate::models::request::{CmpFlag, UpdateMethod};
use crate::values::{Date, Time, Uuid};

verus! {

/// A new project.
pub struct ProjectPostRequest {
    pub title: Option<String>,
    pub notes: Option<String>,
    pub start_date: Option<Date>,
    pub start_time: Option<Time>,
    pub deadline: Option<Date>,
    pub area_id: Option<Uuid>,
    pub user_id: Option<Uuid>,
    pub tag_ids: Option<Vec<Uuid>>,
}

impl ProjectPostRequest {
    pub fn user_id(&mut self, id: Uuid) -> (r: &mut Self)
        ensures
            *r == (Self { user_id: Some(id), ..*old(self) }),
            *final(self) == *final(r),
    {
        self.user_id = Some(id);
        self
    }
}

/// The project with the given identifier, of the given owner.
pub struct ProjectGetRequest {
    pub project_id: Option<Uuid>,
    pub user_id: Option<Uuid>,
}

impl ProjectGetRequest {
    pub fn new() -> (r: Self)
        ensures
            r.project_id is None,
            r.user_id is None,
    {
        Self { project_id: None, user_id: None }
    }

    pub fn project_id(&mut self, id: Uuid) -> (r: &mut Self)
        ensures
            *r == (Self { project_id: Some(id), ..*old(self) }),
            *final(self) == *final(r),
    {
        self.project_id = Some(id);
        self
    }

    pub fn user_id(&mut self, id: Uuid) -> (r: &mut Self)
        ensures
            *r == (Self { user_id: Some(id), ..*old(self) }),
            *final(self) == *final(r),
    {
        self.user_id = Some(id);
        self
    }
}

/// Changes to a project.
pub struct ProjectPutRequest {
    pub project_id: Option<Uuid>,
    pub title: Option<UpdateMethod<String>>,
    pub notes: Option<UpdateMethod<String>>,
    pub start_date: Option<UpdateMethod<Date>>,
    pub start_time: Option<UpdateMethod<Time>>,
    pub deadline: Option<UpdateMethod<Date>>,
    pub area_id: Option<UpdateMethod<Uuid>>,
    pub completed: Option<bool>,
    pub logged: Option<bool>,
    pub trashed: Option<bool>,
    pub user_id: Option<Uuid>,
    pub tag_id: Option<UpdateMethod<Vec<Uuid>>>,
}

impl ProjectPutRequest {
    pub fn project_id(&mut self, id: Uuid) -> (r: &mut Self)
        ensures
            *r == (Self { project_id: Some(id), ..*old(self) }),
            *final(self) == *final(r),
    {
        self.project_id = Some(id);
        self
    }

    pub fn user_id(&mut self, id: Uuid) -> (r: &mut Self)
        ensures
            *r == (Self { user_id: Some(id), ..*old(self) }),
            *final(self) == *final(r),
    {
        self.user_id = Some(id);
        self
    }
}

/// The project to delete, of the given owner.
pub struct ProjectDeleteRequest {
    pub project_id: Option<Uuid>,
    pub user_id: Option<Uuid>,
}

impl ProjectDeleteRequest {
    pub fn new() -> (r: Self)
        ensures
            r.project_id is None,
            r.user_id is None,
    {
        Self { project_id: None, user_id: None }
    }

    pub fn project_id(&mut self, id: Uuid) -> (r: &mut Self)
        ensures
            *r == (Self { project_id: Some(id), ..*old(self) }),
            *final(self) == *final(r),
    {
        self.project_id = Some(id);
        self
    }

    pub fn user_id(&mut self, id: Uuid) -> (r: &mut Self)
        ensures
            *r == (Self { user_id: Some(id), ..*old(self) }),
            *final(self) == *final(r),
    {
        self.user_id = Some(id);
        self
    }
}

/// A search for projects.
pub struct ProjectQueryRequest {
    pub user_id: Option<Uuid>,
    pub search_query: Option<String>,
    pub start_date: Option<(Date, CmpFlag)>,
    pub deadline: Option<(Date, CmpFlag)>,
    pub area_id: Option<(Uuid, CmpFlag)>,
    pub completed: Option<bool>,
    pub logged: Option<bool>,
    pub trashed: Option<bool>,
    pub tag_ids: Option<(Vec<Uuid>, CmpFlag)>,
}

impl ProjectQueryRequest {
    pub fn search_query(&mut self, query: String) -> (r: &mut Self)
        ensures
            *r == (Self { search_query: Some(query), ..*old(self) }),
            *final(self) == *final(r),
    {
        self.search_query = Some(query);
        self
    }

    pub fn user_id(&mut self, id: Uuid) -> (r: &mut Self)
        ensures
            *r == (Self { user_id: Some(id), ..*old(self) }),
            *final(self) == *final(r),
    {
        self.user_id = Some(id);
        self
    }
}

} // verus!
