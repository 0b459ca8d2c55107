//! Areas: named groups of projects and tasks.

use vstd::prelude::*;
use crate::model::{ToResponse, owned_text_or_empty, text_or_empty};
use crate::values::{Timestamp, Uuid};

verus! {

/// Database Model
pub struct AreaModel {
    pub area_id: Uuid,
    pub area_name: Option<String>,
    pub icon_url: Option<String>,
    pub user_id: Uuid,
    pub created_on: Timestamp,
    pub updated_on: Timestamp,
}

impl AreaModel {
    pub const TABLE: &'static str = "data.areas";

    pub const ID: &'static str = "area_id";

    pub const NAME: &'static str = "area_name";
    pub const ICON_URL: &'static str = "icon_url";

    pub const USER_ID: &'static str = "user_id";
    pub const CREATED: &'static str = "created_on";
    pub const UPDATED: &'static str = "updated_on";
}

/// Response Model
pub struct AreaModelResponse {
    pub id: Uuid,
    pub name: String,
    pub icon_url: String,
    pub user_id: Uuid,
    pub created_on: Timestamp,
    pub updated_on: Timestamp,
}

impl ToResponse for AreaModel {
    type Response = AreaModelResponse;

    /// The area as sent to clients: missing texts become empty.
    fn to_response(&self) -> (r: AreaModelResponse)
        ensures
            r.id == self.area_id,
            r.name@ == text_or_empty(self.area_name),
            r.icon_url@ == text_or_empty(self.icon_url),
            r.user_id == self.user_id,
            r.created_on == self.created_on,
            r.updated_on == self.updated_on,
    {
        AreaModelResponse {
            id: self.area_id,
            name: owned_text_or_empty(&self.area_name),
            icon_url: owned_text_or_empty(&self.icon_url),
            user_id: self.user_id,
            created_on: self.created_on,
            updated_on: self.updated_on,
        }
    }
}

} // verus!
