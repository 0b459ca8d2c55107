//! The body of the login and registration requests.

use vstd::prelude::*;
use crate::values::Uuid;

verus! {

/// The credentials a user sends.
pub struct LoginDetails {
    pub email: Option<String>,
    pub password: Option<String>,
}

/// What a login token says: whose it is and when it runs out, in seconds
/// since the Unix epoch.
pub struct Claim {
    pub sub: Uuid,
    pub exp: u64,
}

impl Claim {
    pub fn new(sub: Uuid, exp: u64) -> (r: Self)
        ensures
            r.sub == sub,
            r.exp == exp,
    {
        Claim { sub, exp }
    }
}

} // verus!
