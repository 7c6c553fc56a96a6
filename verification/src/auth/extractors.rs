//! Who sends a request: the user whose API key is in its `X-Api-Key` header.
use vstd::prelude::*;
use vstd::utf8::{encode_utf8, is_ascii_chars, is_ascii_chars_encode_utf8};

use crate::db::{rows_view, DbFailure};
use crate::text::opt_text;
use crate::reply::{Reply, STATUS_BAD_REQUEST, STATUS_INTERNAL_SERVER_ERROR, STATUS_UNAUTHORIZED};
use crate::users::models::{is_alphanumeric, is_api_key, User, API_KEY_LEN};

verus! {

/// The authenticated user of a request.
#[derive(Debug)]
pub struct AuthInfo(pub User);

/// The number of UTF-8 bytes of a text (what `str::len` counts).
pub open spec fn byte_len(s: Seq<char>) -> usize {
    encode_utf8(s).len() as usize
}

/// What the `X-Api-Key` header of a request is answered with: missing (or
/// not visible ASCII) gives 401, a key of the wrong byte length gives 400,
/// and any other key is looked up.
pub open spec fn api_key_outcome(header: Option<Seq<char>>) -> Result<Seq<char>, (u16, Seq<char>)> {
    match header {
        None => Err((STATUS_UNAUTHORIZED, "Missing X-Api-Key header"@)),
        Some(key) => if byte_len(key) != API_KEY_LEN {
            Err((STATUS_BAD_REQUEST, "Malformed X-Api-Key"@))
        } else {
            Ok(key)
        },
    }
}

/// Checks the `X-Api-Key` header, given as its text where it is present and
/// visible ASCII.
pub fn api_key_from_header(header: Option<String>) -> (r: Result<String, Reply>)
    ensures
        match r {
            Ok(key) => api_key_outcome(opt_text(header)) == Ok::<Seq<char>, (u16, Seq<char>)>(key@),
            Err(reply) => api_key_outcome(opt_text(header)) == Err::<Seq<char>, (u16, Seq<char>)>(reply@),
        },
{
    match header {
        None => Err(Reply::new(STATUS_UNAUTHORIZED, "Missing X-Api-Key header")),
        Some(key) => {
            if key.as_str().len() != API_KEY_LEN {
                Err(Reply::new(STATUS_BAD_REQUEST, "Malformed X-Api-Key"))
            } else {
                Ok(key)
            }
        },
    }
}

/// What the users found for an API key are answered with.
pub open spec fn auth_outcome(users: Result<Seq<User>, DbFailure>) -> Result<User, (u16, Seq<char>)> {
    match users {
        Err(_) => Err((STATUS_INTERNAL_SERVER_ERROR, "uhm"@)),
        Ok(found) => if found.len() == 0 {
            Err((STATUS_UNAUTHORIZED, "Invalid API key, nuh uh"@))
        } else if found.len() == 1 {
            Ok(found[0])
        } else {
            Err((STATUS_INTERNAL_SERVER_ERROR, "Sorry, we messed up our keys"@))
        },
    }
}

/// Decides who sends a request from the users whose API key equals the
/// request's: exactly one is needed.
pub fn authenticate(users: Result<Vec<User>, DbFailure>) -> (r: Result<AuthInfo, Reply>)
    ensures
        match r {
            Ok(info) => auth_outcome(rows_view(users)) == Ok::<User, (u16, Seq<char>)>(info.0),
            Err(reply) => auth_outcome(rows_view(users)) == Err::<User, (u16, Seq<char>)>(reply@),
        },
{
    match users {
        Err(_) => Err(Reply::new(STATUS_INTERNAL_SERVER_ERROR, "uhm")),
        Ok(mut found) => {
            if found.len() == 0 {
                Err(Reply::new(STATUS_UNAUTHORIZED, "Invalid API key, nuh uh"))
            } else if found.len() == 1 {
                let user = found.pop().unwrap();
                Ok(AuthInfo(user))
            } else {
                Err(Reply::new(STATUS_INTERNAL_SERVER_ERROR, "Sorry, we messed up our keys"))
            }
        },
    }
}

/// Every API key that is issued to a new user passes the header check.
pub proof fn law_issued_key_passes_header_check(key: Seq<char>)
    requires
        is_api_key(key),
    ensures
        api_key_outcome(Some(key)) == Ok::<Seq<char>, (u16, Seq<char>)>(key),
{
    assert(is_ascii_chars(key)) by {
        assert forall|i: int| 0 <= i < key.len() implies '\0' <= #[trigger] key[i] <= '\u{7f}' by {
            assert(is_alphanumeric(key[i]));
        }
    }
    is_ascii_chars_encode_utf8(key);
}

} // verus!
