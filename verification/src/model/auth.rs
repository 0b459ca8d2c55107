//! Users: the owners of every other row.

use vstd::prelude::*;
use crate::model::ToResponse;
use crate::values::{Timestamp, Uuid};

verus! {

/// User Database Model
pub struct UserModel {
    pub user_id: Uuid,
    pub email: String,
    pub password_hash: String,
    pub created_on: Timestamp,
    pub updated_on: Timestamp,
}

impl UserModel {
    pub const TABLE: &'static str = "auth.users";

    pub const ID: &'static str = "user_id";

    pub const EMAIL: &'static str = "email";
    pub const PASS_HASH: &'static str = "password_hash";

    pub const CREATED: &'static str = "created_on";
    pub const UPDATED: &'static str = "updated_on";
}

impl UserModel {
    pub fn user_id(&self) -> (r: &Uuid)
        ensures
            *r == self.user_id,
    {
        &self.user_id
    }

    pub fn password_hash(&self) -> (r: &String)
        ensures
            *r == self.password_hash,
    {
        &self.password_hash
    }
}

/// The user as sent to clients: never the password hash.
pub struct UserResponseModel {
    pub id: Uuid,
    pub email: String,
    pub created_on: Timestamp,
    pub updated_on: Timestamp,
}

impl ToResponse for UserModel {
    type Response = UserResponseModel;

    fn to_response(&self) -> (r: UserResponseModel)
        ensures
            r.id == self.user_id,
            r.email@ == self.email@,
            r.created_on == self.created_on,
            r.updated_on == self.updated_on,
    {
        UserResponseModel {
            id: self.user_id,
            email: self.email.clone(),
            created_on: self.created_on,
            updated_on: self.updated_on,
        }
    }
}

} // verus!
