//! Saved links as stored, and new ones to store.
use vstd::prelude::*;

use crate::clock::{is_utc_timestamp, now_rfc3339};

verus! {

/// A saved link, as stored. A forgotten link stays stored, marked by
/// `soft_delete`.
#[derive(Debug)]
pub struct Fang {
    pub id: i32,
    pub url: String,
    pub title: Option<String>,
    pub time_created: String,
    pub user_id: i32,
    pub soft_delete: bool,
}

/// A link to be stored for a user.
#[derive(Debug)]
pub struct NewFang {
    pub url: String,
    pub title: Option<String>,
    pub time_created: String,
    pub user_id: i32,
}

/// The row that storing a new link with this id gives: saved, not
/// forgotten.
pub open spec fn stored_fang(fang: NewFang, id: i32) -> Fang {
    Fang {
        id,
        url: fang.url,
        title: fang.title,
        time_created: fang.time_created,
        user_id: fang.user_id,
        soft_delete: false,
    }
}

impl NewFang {
    /// A link saved by the user now.
    pub fn new(url: String, title: Option<String>, user_id: i32) -> (fang: NewFang)
        ensures
            fang.url == url,
            fang.title == title,
            fang.user_id == user_id,
            is_utc_timestamp(fang.time_created@),
    {
        NewFang::created_at(url, title, user_id, now_rfc3339())
    }

    /// A link saved by the user at the given time.
    pub fn created_at(url: String, title: Option<String>, user_id: i32, time_created: String) -> (fang: NewFang)
        ensures
            fang.url == url,
            fang.title == title,
            fang.user_id == user_id,
            fang.time_created == time_created,
    {
        NewFang { url, title, time_created, user_id }
    }
}

} // verus!
