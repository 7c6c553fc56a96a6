//! Registering users, logging in, and checking an API key.
use vstd::prelude::*;

use crate::auth::extractors::AuthInfo;
use crate::auth::password::{
    argon2_phc, check_password, generate_salt, hash_password, password_matches, PasswordCheck,
};
use vstd::utf8::encode_utf8;
use crate::db::{rows_view, DbFailure};
use crate::reply::{
    Reply, STATUS_CREATED, STATUS_FORBIDDEN, STATUS_INTERNAL_SERVER_ERROR, STATUS_NOT_FOUND,
    STATUS_OK, STATUS_SERVICE_UNAVAILABLE,
};
use crate::users::models::{is_api_key, NewUser, User};

verus! {

/// A user name with a password, as sent to register or to log in.
#[derive(Debug)]
pub struct UserAuthReq {
    pub username: String,
    pub password: String,
}

/// What a registration is answered with when the password could not be
/// hashed.
pub open spec fn password_issue() -> (u16, Seq<char>) {
    (STATUS_INTERNAL_SERVER_ERROR, "password issue"@)
}

/// What a registration is answered with while signups are off.
pub open spec fn signups_disabled() -> (u16, Seq<char>) {
    (STATUS_SERVICE_UNAVAILABLE, "Sorry, signups are currently disabled"@)
}

/// The user to store for `username` once the password has been hashed, or
/// the answer where hashing failed (`hashed` is `None`).
pub fn new_user_from_hash(username: String, hashed: Option<String>) -> (r: Result<NewUser, Reply>)
    ensures
        match r {
            Ok(user) => {
                &&& hashed == Some(user.password_hash)
                &&& user.name == username
                &&& is_api_key(user.api_key@)
            },
            Err(reply) => hashed is None && reply@ == password_issue(),
        },
{
    match hashed {
        None => Err(Reply::new(STATUS_INTERNAL_SERVER_ERROR, "password issue")),
        Some(hash) => Ok(NewUser::new(username, hash)),
    }
}

/// Registers a user: while signups are allowed, the password is hashed with
/// a fresh random salt and a user with a fresh API key is made, to be
/// stored. Hashing, and so registering, succeeds on every password of at
/// most `u32::MAX` UTF-8 bytes.
pub fn register(allow_signups: bool, payload: UserAuthReq) -> (r: Result<NewUser, Reply>)
    ensures
        !allow_signups ==> (r matches Err(reply) && reply@ == signups_disabled()),
        allow_signups ==> (r is Ok <==> encode_utf8(payload.password@).len() <= u32::MAX),
        allow_signups ==> match r {
            Ok(user) => {
                &&& user.name == payload.username
                &&& exists|salt: Seq<char>| argon2_phc(payload.password@, salt) == Some(user.password_hash@)
                &&& password_matches(payload.password@, user.password_hash@)
                &&& is_api_key(user.api_key@)
            },
            Err(reply) => reply@ == password_issue(),
        },
{
    if !allow_signups {
        return Err(Reply::new(STATUS_SERVICE_UNAVAILABLE, "Sorry, signups are currently disabled"));
    }
    let salt = generate_salt();
    let hashed = hash_password(payload.password.as_str(), salt.as_str());
    new_user_from_hash(payload.username, hashed)
}

/// What storing a new user is answered with.
pub open spec fn register_stored_outcome(stored: Result<(), DbFailure>) -> (u16, Seq<char>) {
    match stored {
        Ok(()) => (STATUS_CREATED, "ok"@),
        Err(DbFailure::Unavailable) => (STATUS_INTERNAL_SERVER_ERROR, "Database connection timeout"@),
        Err(DbFailure::Query) => (STATUS_INTERNAL_SERVER_ERROR, "not ok"@),
    }
}

/// The answer to a registration once the new user was stored, or not.
pub fn register_stored(stored: Result<(), DbFailure>) -> (r: Reply)
    ensures
        r@ == register_stored_outcome(stored),
{
    match stored {
        Ok(()) => Reply::new(STATUS_CREATED, "ok"),
        Err(DbFailure::Unavailable) => Reply::new(STATUS_INTERNAL_SERVER_ERROR, "Database connection timeout"),
        Err(DbFailure::Query) => Reply::new(STATUS_INTERNAL_SERVER_ERROR, "not ok"),
    }
}

/// What a login is answered with, given the users stored under the name and
/// the password sent: exactly one user is needed, with a well-formed hash
/// that the password matches; the answer is then that user's API key.
pub open spec fn login_outcome(users: Result<Seq<User>, DbFailure>, password: Seq<char>) -> (u16, Seq<char>) {
    match users {
        Err(DbFailure::Unavailable) => (STATUS_INTERNAL_SERVER_ERROR, "Database connection timeout"@),
        Err(DbFailure::Query) => (STATUS_INTERNAL_SERVER_ERROR, "sowwy"@),
        Ok(found) => if found.len() == 0 {
            (STATUS_NOT_FOUND, "where are you"@)
        } else if found.len() != 1 {
            (STATUS_INTERNAL_SERVER_ERROR, "we got some internalized issues"@)
        } else if !crate::auth::password::phc_parses(found[0].password_hash@) {
            (STATUS_INTERNAL_SERVER_ERROR, "we got some internalized issues"@)
        } else if !password_matches(password, found[0].password_hash@) {
            (STATUS_FORBIDDEN, "nuh uh, wrong password"@)
        } else {
            (STATUS_OK, found[0].api_key@)
        },
    }
}

/// Logs a user in: the answer is the user's API key where the password
/// matches. `users` are the stored users whose name is the one sent.
pub fn login(users: Result<Vec<User>, DbFailure>, payload: &UserAuthReq) -> (r: Reply)
    requires
        users matches Ok(found) ==> (found.len() == 1 ==> found[0].name@ == payload.username@),
    ensures
        r@ == login_outcome(rows_view(users), payload.password@),
{
    let found = match users {
        Err(DbFailure::Unavailable) => {
            return Reply::new(STATUS_INTERNAL_SERVER_ERROR, "Database connection timeout");
        },
        Err(DbFailure::Query) => {
            return Reply::new(STATUS_INTERNAL_SERVER_ERROR, "sowwy");
        },
        Ok(found) => found,
    };
    if found.len() == 0 {
        return Reply::new(STATUS_NOT_FOUND, "where are you");
    } else if found.len() != 1 {
        return Reply::new(STATUS_INTERNAL_SERVER_ERROR, "we got some internalized issues");
    }
    let user = &found[0];
    match check_password(payload.password.as_str(), user.password_hash.as_str()) {
        PasswordCheck::MalformedHash => Reply::new(
            STATUS_INTERNAL_SERVER_ERROR,
            "we got some internalized issues",
        ),
        PasswordCheck::Mismatch => Reply::new(STATUS_FORBIDDEN, "nuh uh, wrong password"),
        PasswordCheck::Match => Reply { status: STATUS_OK, body: user.api_key.clone() },
    }
}

/// Answers a request whose API key was accepted.
pub fn check(auth: &AuthInfo) -> (r: Reply)
    ensures
        r@ == (STATUS_OK, "you good"@),
{
    Reply::new(STATUS_OK, "you good")
}

/// A user stored with the hash that registering with a password made logs
/// in with that password, and is answered its API key.
pub proof fn law_registered_password_logs_in(user: User, password: Seq<char>)
    requires
        password_matches(password, user.password_hash@),
    ensures
        login_outcome(Ok(seq![user]), password) == (STATUS_OK, user.api_key@),
{
}

} // verus!
