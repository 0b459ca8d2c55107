//! The task table and its links to tags.

use vstd::prelude::*;
use crate::storage::db::DBModel;
use crate::values::{Date, Time, Timestamp, Uuid};

verus! {

pub struct TaskModel {
    pub task_id: Uuid,
    pub task_title: Option<String>,
    pub task_notes: Option<String>,
    pub start_date: Option<Date>,
    pub start_time: Option<Time>,
    pub deadline: Option<Date>,
    pub completed_on: Option<Timestamp>,
    pub logged_on: Option<Timestamp>,
    pub trashed_on: Option<Timestamp>,
    pub area_id: Option<Uuid>,
    pub project_id: Option<Uuid>,
    pub user_id: Uuid,
    pub created_on: Timestamp,
    pub updated_on: Timestamp,
}

impl TaskModel {
    pub const TABLE: &'static str = "data.tasks";

    pub const ID: &'static str = "task_id";

    pub const TITLE: &'static str = "task_title";
    pub const NOTES: &'static str = "task_notes";
    pub const START_DATE: &'static str = "start_date";
    pub const START_TIME: &'static str = "start_time";
    pub const DEADLINE: &'static str = "deadline";

    pub const COMPLETED: &'static str = "completed_on";
    pub const LOGGED: &'static str = "logged_on";
    pub const TRASHED: &'static str = "trashed_on";

    pub const AREA_ID: &'static str = "area_id";
    pub const PROJECT_ID: &'static str = "project_id";

    pub const USER_ID: &'static str = "user_id";
    pub const CREATED: &'static str = "created_on";
    pub const UPDATED: &'static str = "updated_on";
}

impl DBModel for TaskModel {}

pub struct TaskTagModel {
    pub task_id: Uuid,
    pub tag_id: Uuid,
}

impl TaskTagModel {
    pub const TABLE: &'static str = "data.task_tags";
    pub const TASK_ID: &'static str = "task_id";
    pub const TAG_ID: &'static str = "tag_id";
}

impl DBModel for TaskTagModel {}

} // verus!
