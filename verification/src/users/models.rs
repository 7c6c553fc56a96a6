//! Stored users, and new users with their freshly issued API key.
use rand::distr::Alphanumeric;
use rand::rngs::ThreadRng;
use rand::Rng;
use vstd::prelude::*;

use crate::clock::{is_utc_timestamp, now_rfc3339};
use crate::text::push_char;

verus! {

/// The number of characters in an API key.
pub const API_KEY_LEN: usize = 32;

/// An ASCII letter or digit.
pub open spec fn is_alphanumeric(c: char) -> bool {
    ('0' <= c <= '9') || ('A' <= c <= 'Z') || ('a' <= c <= 'z')
}

/// What an issued API key looks like: `API_KEY_LEN` ASCII letters and digits.
pub open spec fn is_api_key(key: Seq<char>) -> bool {
    &&& key.len() == API_KEY_LEN
    &&& forall|i: int| 0 <= i < key.len() ==> is_alphanumeric(#[trigger] key[i])
}

/// A registered user, as stored.
#[derive(Debug)]
pub struct User {
    pub id: i32,
    pub name: String,
    pub password_hash: String,
    pub api_key: String,
    pub time_registered: String,
}

/// A user to be stored.
#[derive(Debug)]
pub struct NewUser {
    pub name: String,
    pub password_hash: String,
    pub api_key: String,
    pub time_registered: String,
}

#[verifier::external_type_specification]
#[verifier::external_body]
pub struct ExThreadRng(ThreadRng);

/// `rand::rng`: a handle to the thread-local random number generator.
/// Nothing is claimed of it.
#[verifier::external_body]
fn thread_rng() -> ThreadRng {
    rand::rng()
}

/// `Rng::sample` with the `Alphanumeric` distribution. Claimed, as rand's
/// documentation of `Alphanumeric` states: the byte is an ASCII letter
/// (a-z, A-Z) or digit (0-9). Which one comes is left open.
#[verifier::external_body]
fn sample_alphanumeric(rng: &mut ThreadRng) -> (b: u8)
    ensures
        is_alphanumeric(b as char),
{
    rng.sample(Alphanumeric)
}

/// A fresh random API key of `API_KEY_LEN` ASCII letters and digits.
pub fn generate_api_key() -> (key: String)
    ensures
        is_api_key(key@),
{
    let mut rng = thread_rng();
    let mut key = String::new();
    let mut i: usize = 0;
    while i < API_KEY_LEN
        invariant
            i <= API_KEY_LEN,
            key@.len() == i,
            forall|j: int| 0 <= j < key@.len() ==> is_alphanumeric(#[trigger] key@[j]),
        decreases API_KEY_LEN - i,
    {
        let b = sample_alphanumeric(&mut rng);
        let c = b as char;
        push_char(&mut key, c);
        i = i + 1;
    }
    key
}

impl NewUser {
    /// A user with the given name and password hash, a fresh random API key
    /// and the current time as registration time.
    pub fn new(name: String, password_hash: String) -> (user: NewUser)
        ensures
            user.name == name,
            user.password_hash == password_hash,
            is_api_key(user.api_key@),
            is_utc_timestamp(user.time_registered@),
    {
        let api_key = generate_api_key();
        NewUser::registered_at(name, password_hash, api_key, now_rfc3339())
    }

    /// A user with the given name, password hash and API key, registered at
    /// the given time.
    pub fn registered_at(name: String, password_hash: String, api_key: String, time_registered: String) -> (user: NewUser)
        ensures
            user.name == name,
            user.password_hash == password_hash,
            user.api_key == api_key,
            user.time_registered == time_registered,
    {
        NewUser { name, password_hash, api_key, time_registered }
    }
}

} // verus!
