//! What registration and login decide, and the statements they send.

use vstd::prelude::*;
use crate::error::Error;
use crate::model::auth::UserModel;
use crate::schema::auth::LoginDetails;
use crate::sql_builder::{PostgresCmp, QueryParts, SQLQueryBuilder, bound_values, column_values};
use crate::values::{SqlParam, Uuid};
use password_hash::{PasswordHasher, PasswordVerifier};

verus! {

/// The message when the email or the password is missing.
pub const MISSING_LOGIN: &'static str = "missing email and/or password";

/// The message when no user has the email and password given.
pub const ERROR_LOGIN: &'static str = "user with given email and password combination not found";

/// The email and the password, when both were sent.
pub fn credentials(body: &LoginDetails) -> (r: Option<(&String, &String)>)
    ensures
        r is Some <==> (body.email is Some && body.password is Some),
        r matches Some(c) ==> *c.0 == body.email->0 && *c.1 == body.password->0,
{
    match (&body.email, &body.password) {
        (Some(e), Some(p)) => Some((e, p)),
        _ => None,
    }
}

/// The users with the given email.
pub open spec fn user_by_email_parts<'a>(email: &'a String) -> QueryParts<SqlParam<'a>> {
    QueryParts::empty(UserModel::TABLE@).with_condition(UserModel::EMAIL@, PostgresCmp::Equal, SqlParam::Text(email))
}

/// Selects the users with the given email, as registration does.
pub fn user_by_email_select<'a>(email: &'a String) -> (r: (String, Vec<SqlParam<'a>>))
    ensures
        r.0@ == user_by_email_parts(email).select_sql(),
        r.1@ == seq![SqlParam::Text(email)],
{
    let mut builder = SQLQueryBuilder::new(UserModel::TABLE);
    builder.add_condition(UserModel::EMAIL, PostgresCmp::Equal, SqlParam::Text(email));
    proof { reveal_strlit("auth.users"); }
    let r = builder.build_select();
    proof {
        let parts = user_by_email_parts(email);
        reveal_with_fuel(bound_values, 2);
        assert(parts.conditions.drop_last() =~= Seq::empty());
        assert(parts.having =~= Seq::empty());
        assert(parts.select_params() =~= seq![SqlParam::Text(email)]);
    }
    r
}

/// Selects every column of the users with the given email, as login does.
pub fn user_login_select<'a>(email: &'a String) -> (r: (String, Vec<SqlParam<'a>>))
    ensures
        r.0@ == user_by_email_parts(email).with_return(seq![seq!['*']]).select_sql(),
        r.1@ == seq![SqlParam::Text(email)],
{
    let mut builder = SQLQueryBuilder::new(UserModel::TABLE);
    builder.add_condition(UserModel::EMAIL, PostgresCmp::Equal, SqlParam::Text(email));
    builder.set_return_all();
    proof { reveal_strlit("auth.users"); }
    let r = builder.build_select();
    proof {
        let parts = user_by_email_parts(email).with_return(seq![seq!['*']]);
        reveal_with_fuel(bound_values, 2);
        assert(parts.conditions.drop_last() =~= Seq::empty());
        assert(parts.having =~= Seq::empty());
        assert(parts.select_params() =~= seq![SqlParam::Text(email)]);
    }
    r
}

/// The new user: the email and the hash of the password.
pub open spec fn user_insert_parts<'a>(email: &'a String, hash: &'a String) -> QueryParts<SqlParam<'a>> {
    QueryParts::empty(UserModel::TABLE@)
        .with_column(UserModel::EMAIL@, SqlParam::Text(email))
        .with_column(UserModel::PASS_HASH@, SqlParam::Text(hash))
}

/// Inserts a new user.
pub fn user_insert<'a>(email: &'a String, hash: &'a String) -> (r: (String, Vec<SqlParam<'a>>))
    ensures
        r.0@ == user_insert_parts(email, hash).insert_sql(),
        r.1@ == seq![SqlParam::Text(email), SqlParam::Text(hash)],
{
    let mut builder = SQLQueryBuilder::new(UserModel::TABLE);
    builder.add_column(UserModel::EMAIL, SqlParam::Text(email));
    builder.add_column(UserModel::PASS_HASH, SqlParam::Text(hash));
    proof { reveal_strlit("auth.users"); }
    let r = builder.build_insert();
    assert(column_values(user_insert_parts(email, hash).columns) =~= seq![SqlParam::Text(email), SqlParam::Text(hash)]);
    r
}

/// Registration goes on only when no user has the email yet.
pub fn registration_check(existing: u64) -> (r: Result<(), Error>)
    ensures
        existing == 0 <==> r is Ok,
        r matches Err(e) ==> (e matches Error::InvalidRequest(m) && m@ == "user with provided email already exists"@),
{
    if existing != 0 {
        return Err(Error::InvalidRequest("user with provided email already exists".to_owned()));
    }
    Ok(())
}

/// What `argon2` gives when it checks `password` against the stored
/// `hash`: `Some(true)` on a match, `Some(false)` when the password does not
/// match (or the stored hash carries no salt or output to match against),
/// and nothing when the stored hash cannot be read or the check fails
/// otherwise.
pub uninterp spec fn argon2_verify(password: Seq<char>, hash: Seq<char>) -> Option<bool>;

/// Calls `password_hash::PasswordHash::new` on the stored hash and then
/// `PasswordVerifier::verify_password` of the default `argon2::Argon2`.
///
/// Trusted: `Ok(b)` and `Err(_)` follow `argon2_verify`; an empty stored hash
/// cannot be read (the parser's first test). The text of an error is left
/// unsaid: it is the outside crate's message, kept only for the log.
#[verifier::external_body]
fn verify_password(password: &str, hash: &str) -> (r: Result<bool, String>)
    ensures
        match argon2_verify(password@, hash@) {
            Some(b) => r == Ok::<bool, String>(b),
            None => r is Err,
        },
        hash@.len() == 0 ==> r is Err,
{
    let parsed = match argon2::PasswordHash::new(hash) {
        Ok(p) => p,
        Err(e) => return Err(e.to_string()),
    };
    match argon2::Argon2::default().verify_password(password.as_bytes(), &parsed) {
        Ok(()) => Ok(true),
        Err(password_hash::Error::Password) => Ok(false),
        Err(e) => Err(e.to_string()),
    }
}

/// Draws a salt of `password_hash::Salt::RECOMMENDED_LENGTH` bytes with
/// `RngCore::try_fill_bytes` of the system's random source, encodes it with
/// `password_hash::SaltString::encode_b64`, and calls
/// `PasswordHasher::hash_password` of the default `argon2::Argon2`, giving
/// the hash in the PHC string format. A failing random source is an error,
/// not a panic.
///
/// Trusted: a hash that comes back checks out against the same password.
/// The hash itself rests on the random salt and is left unsaid, as is the
/// text of an error.
#[verifier::external_body]
fn hash_password(password: &str) -> (r: Result<String, String>)
    ensures
        r matches Ok(h) ==> argon2_verify(password@, h@) == Some(true),
{
    let mut bytes = vec![0u8; password_hash::Salt::RECOMMENDED_LENGTH];
    let mut rng = password_hash::rand_core::OsRng;
    if let Err(e) = password_hash::rand_core::RngCore::try_fill_bytes(&mut rng, &mut bytes) {
        return Err(e.to_string());
    }
    let salt = match password_hash::SaltString::encode_b64(&bytes) {
        Ok(s) => s,
        Err(e) => return Err(e.to_string()),
    };
    match argon2::Argon2::default().hash_password(password.as_bytes(), &salt) {
        Ok(h) => Ok(h.to_string()),
        Err(e) => Err(e.to_string()),
    }
}

/// The stored form of a new user's password; an error is the service's fault.
pub fn password_hash_for(password: &String) -> (r: Result<String, Error>)
    ensures
        r matches Ok(h) ==> argon2_verify(password@, h@) == Some(true),
        r matches Err(e) ==> e is Internal,
{
    match hash_password(password.as_str()) {
        Ok(h) => Ok(h),
        Err(e) => Err(Error::Internal(e)),
    }
}

/// How a login attempt ends.
pub enum LoginOutcome {
    /// The credentials match this user.
    Accepted(Uuid),
    /// No user has this email and password; the client is told `ERROR_LOGIN`.
    Refused,
    /// The check failed inside the service.
    Failed(Error),
}

/// How a login ends, given the user found for the email and what checking
/// the password gave.
pub fn login_decision(user: Option<&UserModel>, check: Result<bool, String>) -> (r: LoginOutcome)
    ensures
        user is None ==> r is Refused,
        user matches Some(u) ==> match check {
            Ok(true) => r == LoginOutcome::Accepted(u.user_id),
            Ok(false) => r is Refused,
            Err(_) => r matches LoginOutcome::Failed(e) && e is Internal,
        },
{
    match user {
        None => LoginOutcome::Refused,
        Some(u) => match check {
            Ok(true) => LoginOutcome::Accepted(*u.user_id()),
            Ok(false) => LoginOutcome::Refused,
            Err(e) => LoginOutcome::Failed(Error::Internal(e)),
        },
    }
}

/// How a login ends for the user found for the email and the password sent,
/// when the check does not fail inside the service.
pub open spec fn login_result(user: Option<UserModel>, password: Seq<char>) -> LoginOutcome {
    match user {
        None => LoginOutcome::Refused,
        Some(u) => match argon2_verify(password, u.password_hash@) {
            Some(true) => LoginOutcome::Accepted(u.user_id),
            _ => LoginOutcome::Refused,
        },
    }
}

/// How a login ends for the user found for the email and the password sent.
pub fn check_login(user: Option<&UserModel>, password: &String) -> (r: LoginOutcome)
    ensures
        user is None ==> r is Refused,
        !(r is Failed) ==> r == login_result(match user { Some(u) => Some(*u), None => None }, password@),
        user matches Some(u) ==> match argon2_verify(password@, u.password_hash@) {
            Some(true) => r == LoginOutcome::Accepted(u.user_id),
            Some(false) => r is Refused,
            None => r matches LoginOutcome::Failed(e) && e is Internal,
        },
{
    match user {
        None => LoginOutcome::Refused,
        Some(u) => {
            let check = verify_password(password.as_str(), u.password_hash().as_str());
            login_decision(Some(u), check)
        },
    }
}

/// The password a user registered with lets them log in: a hash made from a
/// password checks out against it, so the login is accepted for the user
/// who holds that hash.
pub proof fn law_registered_password_logs_in(password: Seq<char>, user: UserModel)
    requires
        argon2_verify(password, user.password_hash@) == Some(true),
    ensures
        login_result(Some(user), password) == LoginOutcome::Accepted(user.user_id),
{
}

} // verus!
