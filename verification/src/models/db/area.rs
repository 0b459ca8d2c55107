//! The area table.

use vstd::prelude::*;
use crate::storage::db::DBModel;
use crate::values::{Timestamp, Uuid};

verus! {

pub struct AreaModel {
    pub area_id: Uuid,
    pub area_name: Option<String>,
    pub icon_url: Option<String>,
    pub user_id: Uuid,
    pub created_on: Timestamp,
    pub updated_on: Timestamp,
}

impl AreaModel {
    pub const TABLE: &'static str = "data.areas";

    pub const ID: &'static str = "area_id";

    pub const NAME: &'static str = "area_name";
    pub const ICON_URL: &'static str = "icon_url";

    pub const USER_ID: &'static str = "user_id";
    pub const CREATED: &'static str = "created_on";
    pub const UPDATED: &'static str = "updated_on";
}

impl DBModel for AreaModel {}

} // verus!
