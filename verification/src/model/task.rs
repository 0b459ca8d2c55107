//! Tasks: the items of the to-do list.

use vstd::prelude::*;
use crate::model::{ToResponse, owned_text_or_empty, text_or_empty};
use crate::model::tag::{TagModel, TagResponseModel, is_tag_response, push_tag_responses};
use crate::values::{Date, Time, Timestamp, Uuid};

verus! {

/// Task Database Model
pub struct TaskModel {
    pub task_id: Uuid,
    pub task_title: Option<String>,
    pub notes: Option<String>,
    pub start_date: Option<Date>,
    pub start_time: Option<Time>,
    pub deadline: Option<Date>,
    pub completed_on: Option<Timestamp>,
    pub logged_on: Option<Timestamp>,
    pub trashed_on: Option<Timestamp>,
    pub area_id: Option<Uuid>,
    pub project_id: Option<Uuid>,
    pub user_id: Uuid,
    pub created_on: Timestamp,
    pub updated_on: Timestamp,
}

impl TaskModel {
    pub const TABLE: &'static str = "data.tasks";

    pub const ID: &'static str = "task_id";

    pub const TITLE: &'static str = "task_title";
    pub const NOTES: &'static str = "notes";
    pub const START_DATE: &'static str = "start_date";
    pub const START_TIME: &'static str = "start_time";
    pub const DEADLINE: &'static str = "deadline";

    pub const COMPLETED: &'static str = "completed_on";
    pub const LOGGED: &'static str = "logged_on";
    pub const TRASHED: &'static str = "trashed_on";

    pub const AREA_ID: &'static str = "area_id";
    pub const PROJECT_ID: &'static str = "project_id";

    pub const USER_ID: &'static str = "user_id";
    pub const CREATED: &'static str = "created_on";
    pub const UPDATED: &'static str = "updated_on";

    pub fn task_id(&self) -> (r: &Uuid)
        ensures
            *r == self.task_id,
    {
        &self.task_id
    }
}

/// Task Response Model
pub struct TaskResponseModel {
    pub id: Uuid,
    pub title: String,
    pub notes: String,
    pub start_date: Option<Date>,
    pub start_time: Option<Time>,
    pub deadline: Option<Date>,
    pub completed_on: Option<Timestamp>,
    pub logged_on: Option<Timestamp>,
    pub trashed_on: Option<Timestamp>,
    pub area_id: Option<Uuid>,
    pub project_id: Option<Uuid>,
    pub tags: Vec<TagResponseModel>,
    pub user_id: Uuid,
    pub created_on: Timestamp,
    pub updated_on: Timestamp,
}

/// Whether `r` carries the fields of the task `m`, tags aside.
pub open spec fn is_task_response(r: TaskResponseModel, m: TaskModel) -> bool {
    &&& r.id == m.task_id
    &&& r.title@ == text_or_empty(m.task_title)
    &&& r.notes@ == text_or_empty(m.notes)
    &&& r.start_date == m.start_date
    &&& r.start_time == m.start_time
    &&& r.deadline == m.deadline
    &&& r.completed_on == m.completed_on
    &&& r.logged_on == m.logged_on
    &&& r.trashed_on == m.trashed_on
    &&& r.area_id == m.area_id
    &&& r.project_id == m.project_id
    &&& r.user_id == m.user_id
    &&& r.created_on == m.created_on
    &&& r.updated_on == m.updated_on
}

impl ToResponse for TaskModel {
    type Response = TaskResponseModel;

    /// The task as sent to clients, with no tags yet: missing texts become empty.
    fn to_response(&self) -> (r: TaskResponseModel)
        ensures
            is_task_response(r, *self),
            r.tags@.len() == 0,
    {
        TaskResponseModel {
            id: self.task_id,
            title: owned_text_or_empty(&self.task_title),
            notes: owned_text_or_empty(&self.notes),
            start_date: self.start_date,
            start_time: self.start_time,
            deadline: self.deadline,
            completed_on: self.completed_on,
            logged_on: self.logged_on,
            trashed_on: self.trashed_on,
            area_id: self.area_id,
            project_id: self.project_id,
            tags: Vec::new(),
            user_id: self.user_id,
            created_on: self.created_on,
            updated_on: self.updated_on,
        }
    }
}

impl TaskResponseModel {
    /// Appends the response forms of the tags; the other fields stay.
    pub fn add_tags(&mut self, tags: Vec<TagModel>) -> (r: &Self)
        ensures
            final(self).tags@.len() == old(self).tags@.len() + tags@.len(),
            forall|i: int| 0 <= i < old(self).tags@.len() ==> #[trigger] final(self).tags@[i] == old(self).tags@[i],
            forall|i: int|
                0 <= i < tags@.len() ==> is_tag_response(
                    #[trigger] final(self).tags@[old(self).tags@.len() + i],
                    tags@[i],
                ),
            final(self).id == old(self).id,
            final(self).title == old(self).title,
            final(self).notes == old(self).notes,
            final(self).start_date == old(self).start_date,
            final(self).start_time == old(self).start_time,
            final(self).deadline == old(self).deadline,
            final(self).completed_on == old(self).completed_on,
            final(self).logged_on == old(self).logged_on,
            final(self).trashed_on == old(self).trashed_on,
            final(self).area_id == old(self).area_id,
            final(self).project_id == old(self).project_id,
            final(self).user_id == old(self).user_id,
            final(self).created_on == old(self).created_on,
            final(self).updated_on == old(self).updated_on,
            *r == *final(self),
    {
        push_tag_responses(&mut self.tags, &tags);
        self
    }
}

/// The link between a task and one of its tags.
pub struct TaskTagModel {}

impl TaskTagModel {
    pub const TABLE: &'static str = "data.task_tags";
    pub const TASK_ID: &'static str = "task_id";
    pub const TAG_ID: &'static str = "tag_id";
}

} // verus!
