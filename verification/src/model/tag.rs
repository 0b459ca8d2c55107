//! Tags: labels that projects and tasks carry.

use vstd::prelude::*;
use crate::model::{ToResponse, owned_text_or_empty, text_or_empty};
use crate::values::{Timestamp, Uuid};

verus! {

/// Tag Database Model
pub struct TagModel {
    pub tag_id: Uuid,
    pub tag_label: Option<String>,
    pub color: Option<String>,
    pub category: Option<String>,
    pub user_id: Uuid,
    pub created_on: Timestamp,
    pub updated_on: Timestamp,
}

impl TagModel {
    pub const TABLE: &'static str = "data.tags";

    pub const ID: &'static str = "tag_id";

    pub const LABEL: &'static str = "tag_label";
    pub const COLOR: &'static str = "color";

    pub const CATEGORY: &'static str = "category";

    pub const USER_ID: &'static str = "user_id";
    pub const CREATED: &'static str = "created_on";
    pub const UPDATED: &'static str = "updated_on";
}

/// Tag Response Model
pub struct TagResponseModel {
    pub id: Uuid,
    pub label: String,
    pub color: String,
    pub category: String,
    pub user_id: Uuid,
    pub created_on: Timestamp,
    pub updated_on: Timestamp,
}

/// Whether `r` is the response form of the tag `m`.
pub open spec fn is_tag_response(r: TagResponseModel, m: TagModel) -> bool {
    &&& r.id == m.tag_id
    &&& r.label@ == text_or_empty(m.tag_label)
    &&& r.color@ == text_or_empty(m.color)
    &&& r.category@ == text_or_empty(m.category)
    &&& r.user_id == m.user_id
    &&& r.created_on == m.created_on
    &&& r.updated_on == m.updated_on
}

impl ToResponse for TagModel {
    type Response = TagResponseModel;

    /// The tag as sent to clients: missing texts become empty.
    fn to_response(&self) -> (r: TagResponseModel)
        ensures
            is_tag_response(r, *self),
    {
        TagResponseModel {
            id: self.tag_id,
            label: owned_text_or_empty(&self.tag_label),
            color: owned_text_or_empty(&self.color),
            category: owned_text_or_empty(&self.category),
            user_id: self.user_id,
            created_on: self.created_on,
            updated_on: self.updated_on,
        }
    }
}

/// Appends the response forms of the tags, in order.
pub fn push_tag_responses(out: &mut Vec<TagResponseModel>, tags: &Vec<TagModel>)
    ensures
        final(out)@.len() == old(out)@.len() + tags@.len(),
        forall|i: int| 0 <= i < old(out)@.len() ==> #[trigger] final(out)@[i] == old(out)@[i],
        forall|i: int|
            0 <= i < tags@.len() ==> is_tag_response(#[trigger] final(out)@[old(out)@.len() + i], tags@[i]),
{
    let ghost start = out@;
    let mut i: usize = 0;
    while i < tags.len()
        invariant
            i <= tags@.len(),
            out@.len() == start.len() + i,
            forall|k: int| 0 <= k < start.len() ==> #[trigger] out@[k] == start[k],
            forall|k: int| 0 <= k < i ==> is_tag_response(#[trigger] out@[start.len() + k], tags@[k]),
        decreases tags@.len() - i,
    {
        out.push(tags[i].to_response());
        i = i + 1;
    }
}

} // verus!
