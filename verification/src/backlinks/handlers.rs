//! Answering a request for the backlinks of a URL.
use vstd::prelude::*;

use crate::backlinks::models::Backlink;
use crate::backlinks::resolver::BacklinkError;
use crate::backlinks::{
    contains_separator, join_spec, lemma_join_split, lemma_split_nonempty, lemma_split_plain,
    split_backlinks, split_spec, strings_view,
};
use crate::reply::{STATUS_INTERNAL_SERVER_ERROR, STATUS_NOT_FOUND};

verus! {

/// Asks for the backlinks of a URL.
#[derive(Debug)]
pub struct ResolveBacklinkReq {
    pub url: String,
}

/// The backlinks of a URL, per source.
#[derive(Debug)]
pub struct ResolveBacklinkResp {
    pub lobsters_links: Option<Vec<String>>,
    pub hn_links: Option<Vec<String>>,
}

/// The fields of a stored column of backlinks, where there is one.
pub open spec fn stored_fields(stored: Option<String>) -> Option<Seq<Seq<char>>> {
    match stored {
        Some(text) => Some(split_spec(text@)),
        None => None,
    }
}

/// The links of an answer's source, where there are any.
pub open spec fn answered_links(links: Option<Vec<String>>) -> Option<Seq<Seq<char>>> {
    match links {
        Some(v) => Some(strings_view(v@)),
        None => None,
    }
}

/// Splits an optional stored column of backlinks.
fn split_stored(stored: Option<String>) -> (links: Option<Vec<String>>)
    ensures
        answered_links(links) == stored_fields(stored),
{
    match stored {
        Some(text) => Some(split_backlinks(text)),
        None => None,
    }
}

/// Answers a backlink request from what finding the backlinks came to: the
/// stored links of each source, split; 404 where nothing was found, 500
/// where finding failed.
pub fn resolve(retrieved: Result<Option<Backlink>, BacklinkError>) -> (r: Result<ResolveBacklinkResp, u16>)
    ensures
        match retrieved {
            Ok(Some(b)) => r matches Ok(resp) && answered_links(resp.lobsters_links) == stored_fields(
                b.lobsters_links,
            ) && answered_links(resp.hn_links) == stored_fields(b.hn_links),
            Ok(None) => r == Err::<ResolveBacklinkResp, u16>(STATUS_NOT_FOUND),
            Err(_) => r == Err::<ResolveBacklinkResp, u16>(STATUS_INTERNAL_SERVER_ERROR),
        },
{
    match retrieved {
        Ok(Some(b)) => Ok(
            ResolveBacklinkResp {
                lobsters_links: split_stored(b.lobsters_links),
                hn_links: split_stored(b.hn_links),
            },
        ),
        Ok(None) => Err(STATUS_NOT_FOUND),
        Err(_) => Err(STATUS_INTERNAL_SERVER_ERROR),
    }
}


/// A stored column of backlinks is always answered with links: its fields,
/// at least one, which join back to the stored text; a column holding a
/// single link (no separator) is answered with exactly that link. Only a
/// missing column is answered with no links.
pub proof fn law_stored_column_is_answered(text: String)
    ensures
        stored_fields(Some(text)) matches Some(links) && links.len() >= 1 && join_spec(links) == text@,
        !contains_separator(text@) ==> stored_fields(Some(text)) == Some(seq![text@]),
        stored_fields(None) is None,
{
    lemma_split_nonempty(text@);
    lemma_join_split(text@);
    if !contains_separator(text@) {
        lemma_split_plain(text@);
    }
}

} // verus!
