//! The project table and its tag links.

use vstd::prelude::*;
use crate::storage::db::DBModel;
use crate::values::{Date, Time, Timestamp, Uuid};

verus! {

pub struct ProjectModel {
    pub project_id: Uuid,
    pub project_title: Option<String>,
    pub project_notes: Option<String>,
    pub start_date: Option<Date>,
    pub start_time: Option<Time>,
    pub deadline: Option<Date>,
    pub completed_on: Option<Timestamp>,
    pub logged_on: Option<Timestamp>,
    pub trashed_on: Option<Timestamp>,
    pub area_id: Option<Uuid>,
    pub user_id: Uuid,
    pub created_on: Timestamp,
    pub updated_on: Timestamp,
}

impl ProjectModel {
    pub const TABLE: &'static str = "data.projects";

    pub const ID: &'static str = "project_id";

    pub const TITLE: &'static str = "project_title";
    pub const NOTES: &'static str = "project_notes";
    pub const START_DATE: &'static str = "start_date";
    pub const START_TIME: &'static str = "start_time";
    pub const DEADLINE: &'static str = "deadline";

    pub const COMPLETED: &'static str = "completed_on";
    pub const LOGGED: &'static str = "logged_on";
    pub const TRASHED: &'static str = "trashed_on";

    pub const AREA_ID: &'static str = "area_id";

    pub const USER_ID: &'static str = "user_id";
    pub const CREATED: &'static str = "created_on";
    pub const UPDATED: &'static str = "updated_on";
}

impl DBModel for ProjectModel {}

/// The link between a project and one of its tags.
pub struct ProjectTagModel {
    pub project_id: Uuid,
    pub tag_id: Uuid,
}

impl ProjectTagModel {
    pub const TABLE: &'static str = "data.project_tags";

    pub const PROJECT_ID: &'static str = "project_id";
    pub const TAG_ID: &'static str = "tag_id";
}

impl DBModel for ProjectTagModel {}

} // verus!
