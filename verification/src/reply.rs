//! What a request is answered: an HTTP status code and a text body.
use vstd::prelude::*;

verus! {

pub const STATUS_OK: u16 = 200;

pub const STATUS_CREATED: u16 = 201;

pub const STATUS_FOUND: u16 = 302;

pub const STATUS_BAD_REQUEST: u16 = 400;

pub const STATUS_UNAUTHORIZED: u16 = 401;

pub const STATUS_FORBIDDEN: u16 = 403;

pub const STATUS_NOT_FOUND: u16 = 404;

pub const STATUS_INTERNAL_SERVER_ERROR: u16 = 500;

pub const STATUS_SERVICE_UNAVAILABLE: u16 = 503;

/// A status code with a text body.
#[derive(Debug)]
pub struct Reply {
    pub status: u16,
    pub body: String,
}

impl View for Reply {
    type V = (u16, Seq<char>);

    open spec fn view(&self) -> (u16, Seq<char>) {
        (self.status, self.body@)
    }
}

impl Reply {
    /// A reply with the given status and body.
    pub fn new(status: u16, body: &str) -> (r: Reply)
        ensures
            r@ == (status, body@),
    {
        Reply { status, body: body.to_string() }
    }
}

} // verus!
