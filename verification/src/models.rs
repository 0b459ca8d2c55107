//! Request and response shapes of the service, the database rows, and the
//! request bodies that render their own statements.

pub mod db;
pub mod request;

use vstd::prelude::*;
use crate::values::{Date, Time, Timestamp, Uuid};

verus! {

/// A date range a search may ask for; each bound has a comparison character.
pub struct DateFilter {
    pub start_date: Option<Date>,
    pub start_cmp: Option<char>,
    pub deadline: Option<Date>,
    pub deadline_cmp: Option<char>,
    pub and: bool,
}

/// A search for tasks.
pub struct TaskQueryModel {
    pub date_filter: Option<DateFilter>,
    pub area_id: Option<Uuid>,
    pub project_id: Option<Uuid>,
    pub completed: Option<bool>,
    pub logged: Option<bool>,
    pub trashed: Option<bool>,
}

/// A search for projects.
pub struct ProjectQueryModel {
    pub data_filter: Option<DateFilter>,
    pub area_id: Option<Uuid>,
    pub completed: Option<bool>,
    pub logged: Option<bool>,
    pub trashed: Option<bool>,
}

/// New values for the fields of a task.
pub struct TaskUpdateModel {
    pub title: Option<String>,
    pub notes: Option<String>,
    pub start_date: Option<Date>,
    pub start_time: Option<Time>,
    pub deadline: Option<Date>,
    pub project_id: Option<Uuid>,
    pub area_id: Option<Uuid>,
    pub completed: Option<bool>,
    pub logged: Option<bool>,
    pub trashed: Option<bool>,
}

/// New values for the fields of a project.
pub struct ProjectUpdateModel {
    pub title: Option<String>,
    pub notes: Option<String>,
    pub start_date: Option<Date>,
    pub start_time: Option<Time>,
    pub deadline: Option<Date>,
    pub area_id: Option<Uuid>,
    pub completed: Option<bool>,
    pub logged: Option<bool>,
    pub trashed: Option<bool>,
}

/// New values for the fields of an area.
pub struct AreaUpdateModel {
    pub name: Option<String>,
    pub icon_url: Option<String>,
}

/// New values for the fields of a tag.
pub struct TagUpdateModel {
    pub label: Option<String>,
    pub category: Option<String>,
    pub color: Option<String>,
}

/// A task as clients send and receive it.
pub struct TaskModel {
    pub id: Uuid,
    pub title: Option<String>,
    pub notes: Option<String>,
    pub start_date: Option<Date>,
    pub start_time: Option<Time>,
    pub deadline: Option<Date>,
    pub project_id: Option<Uuid>,
    pub area_id: Option<Uuid>,
    pub created_on: Timestamp,
    pub completed_on: Option<Timestamp>,
    pub logged_on: Option<Timestamp>,
    pub trashed_on: Option<Timestamp>,
}

/// A project as clients send and receive it.
pub struct ProjectModel {
    pub id: Uuid,
    pub title: Option<String>,
    pub notes: Option<String>,
    pub start_date: Option<Date>,
    pub start_time: Option<Time>,
    pub deadline: Option<Date>,
    pub area_id: Option<Uuid>,
    pub created_on: Timestamp,
    pub completed_on: Option<Timestamp>,
    pub logged_on: Option<Timestamp>,
    pub trashed_on: Option<Timestamp>,
}

/// An area as clients send and receive it.
pub struct AreaModel {
    pub id: Uuid,
    pub name: Option<String>,
    pub icon_url: Option<String>,
}

/// A tag as clients send and receive it.
pub struct TagModel {
    pub id: Uuid,
    pub label: Option<String>,
    pub category: Option<String>,
    pub color: Option<String>,
}

} // verus!
