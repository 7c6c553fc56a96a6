//! Backlinks as stored for a URL.
use vstd::prelude::*;

verus! {

/// The backlinks stored for a URL, each source's links joined into one text.
#[derive(Debug)]
pub struct Backlink {
    pub url: String,
    pub lobsters_links: Option<String>,
    pub hn_links: Option<String>,
}

} // verus!
