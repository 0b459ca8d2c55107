//! The tag table.

use vstd::prelude::*;
use crate::storage::db::DBModel;
use crate::values::{Timestamp, Uuid};

verus! {

pub struct TagModel {
    pub tag_id: Uuid,
    pub tag_label: Option<String>,
    pub tag_category: Option<String>,
    pub tag_color: Option<String>,
    pub user_id: Uuid,
    pub created_on: Timestamp,
    pub updated_on: Timestamp,
}

impl TagModel {
    pub const TABLE: &'static str = "data.tags";

    pub const ID: &'static str = "tag_id";

    pub const LABEL: &'static str = "tag_label";
    pub const CATEGORY: &'static str = "tag_category";
    pub const COLOR: &'static str = "tag_color";

    pub const USER_ID: &'static str = "user_id";
    pub const CREATED: &'static str = "created_on";
    pub const UPDATED: &'static str = "updated_on";
}

impl DBModel for TagModel {}

} // verus!
