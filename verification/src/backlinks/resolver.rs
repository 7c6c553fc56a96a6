//! Finding the backlinks of a URL: what is stored, and what lobste.rs knows.
//!
//! The database and the HTTP requests stay with the caller; the decisions
//! between them stand here.
use url::Url;
use vstd::prelude::*;
use vstd::string::*;

use crate::backlinks::models::Backlink;
use crate::backlinks::{join_backlinks, join_spec, strings_view};
use crate::text::{chars_of, opt_text, string_from_chars};

verus! {

/// Why finding backlinks failed.
#[derive(Clone, Copy, Debug, PartialEq, Eq, Structural)]
pub enum BacklinkError {
    /// The database could not be read or written.
    Database,
    /// More than one row is stored for the URL.
    MultipleBacklinks,
    /// The URL does not parse.
    InvalidUrl,
    /// The URL has no host.
    NoHost,
    /// The request to lobste.rs failed.
    Http,
    /// lobste.rs answered with an unexpected status.
    LobstersStatus,
    /// lobste.rs answered with a body that is not a list of results.
    LobstersBody,
}

/// A result of lobste.rs's domain search: a submitted URL and the URL of its
/// discussion.
#[derive(Debug)]
pub struct LobsterDomainResult {
    pub url: String,
    pub comments_url: String,
}

/// A parsed URL, as the values that are read of it: its serialization and
/// its host.
#[derive(Debug)]
pub struct ParsedUrl {
    pub serialization: String,
    pub host: Option<String>,
}

/// The serialization and the host of the URL that `input` parses to, or
/// `None` where it does not parse.
pub uninterp spec fn url_parse(input: Seq<char>) -> Option<(Seq<char>, Option<Seq<char>>)>;

/// `url::Url::parse`, read by `Url::as_str` and `Url::host_str`. Claimed:
/// the result is `url_parse` of the input.
#[verifier::external_body]
pub(crate) fn parse_url(input: &str) -> (parsed: Option<ParsedUrl>)
    ensures
        match parsed {
            None => url_parse(input@) is None,
            Some(p) => url_parse(input@) == Some((p.serialization@, opt_text(p.host))),
        },
{
    match Url::parse(input) {
        Err(_) => None,
        Ok(url) => Some(
            ParsedUrl {
                serialization: url.as_str().to_string(),
                host: match url.host_str() {
                    Some(host) => Some(host.to_string()),
                    None => None,
                },
            },
        ),
    }
}

/// The prefix "www." of a host name.
pub open spec fn www_prefix() -> Seq<char> {
    seq!['w', 'w', 'w', '.']
}

/// The host without a leading "www.": lobste.rs lists domains without it.
pub open spec fn strip_www_spec(host: Seq<char>) -> Seq<char> {
    if host.len() >= 4 && host.take(4) == www_prefix() {
        host.skip(4)
    } else {
        host
    }
}

/// The address of lobste.rs's search for submissions of a host.
pub open spec fn lobsters_search_url(host: Seq<char>) -> Seq<char> {
    "https://lobste.rs/domains/"@ + strip_www_spec(host) + ".json"@
}

/// What to ask lobste.rs about a URL: the URL as it is serialized, which
/// results must match, and the search address of its host.
#[derive(Debug)]
pub struct LobstersQuery {
    pub page_url: String,
    pub search_url: String,
}

/// Drops a leading "www." from a host name.
pub fn strip_www(host: &String) -> (stripped: String)
    ensures
        stripped@ == strip_www_spec(host@),
{
    let chars = chars_of(host.as_str());
    if chars.len() >= 4 && chars[0] == 'w' && chars[1] == 'w' && chars[2] == 'w' && chars[3] == '.' {
        assert(host@.take(4) =~= www_prefix());
        string_from_chars(&chars, 4)
    } else {
        proof {
            if host@.len() >= 4 && host@.take(4) == www_prefix() {
                assert(host@.take(4)[0] == 'w');
                assert(host@.take(4)[1] == 'w');
                assert(host@.take(4)[2] == 'w');
                assert(host@.take(4)[3] == '.');
            }
        }
        let s = string_from_chars(&chars, 0);
        assert(host@.skip(0) =~= host@);
        s
    }
}

/// The query to lobste.rs for a parsed URL: the URL needs a host.
pub fn lobsters_query_for(parsed: Option<ParsedUrl>) -> (r: Result<LobstersQuery, BacklinkError>)
    ensures
        match parsed {
            None => r == Err::<LobstersQuery, BacklinkError>(BacklinkError::InvalidUrl),
            Some(p) => match p.host {
                None => r == Err::<LobstersQuery, BacklinkError>(BacklinkError::NoHost),
                Some(host) => r matches Ok(q) && q.page_url == p.serialization
                    && q.search_url@ == lobsters_search_url(host@),
            },
        },
{
    match parsed {
        None => Err(BacklinkError::InvalidUrl),
        Some(p) => match p.host {
            None => Err(BacklinkError::NoHost),
            Some(host) => {
                let mut search_url = String::new();
                search_url.append("https://lobste.rs/domains/");
                let stripped = strip_www(&host);
                search_url.append(stripped.as_str());
                search_url.append(".json");
                Ok(LobstersQuery { page_url: p.serialization, search_url })
            },
        },
    }
}

/// The query to lobste.rs for a URL given as text.
pub fn lobsters_query(url: &str) -> (r: Result<LobstersQuery, BacklinkError>)
    ensures
        match url_parse(url@) {
            None => r == Err::<LobstersQuery, BacklinkError>(BacklinkError::InvalidUrl),
            Some((page, None)) => r == Err::<LobstersQuery, BacklinkError>(BacklinkError::NoHost),
            Some((page, Some(host))) => r matches Ok(q) && q.page_url@ == page
                && q.search_url@ == lobsters_search_url(host),
        },
{
    lobsters_query_for(parse_url(url))
}

/// What lobste.rs's answer status leads to.
#[derive(Clone, Copy, Debug, PartialEq, Eq, Structural)]
pub enum LobstersStatus {
    /// 200: read the list of results.
    ReadEntries,
    /// 404: lobste.rs knows no submission from the host.
    NoBacklinks,
    /// Anything else is a failure.
    Unexpected,
}

/// Judges the status of lobste.rs's answer.
pub fn lobsters_status(status: u16) -> (r: LobstersStatus)
    ensures
        r == (if status == 200 {
            LobstersStatus::ReadEntries
        } else if status == 404 {
            LobstersStatus::NoBacklinks
        } else {
            LobstersStatus::Unexpected
        }),
{
    if status == 200 {
        LobstersStatus::ReadEntries
    } else if status == 404 {
        LobstersStatus::NoBacklinks
    } else {
        LobstersStatus::Unexpected
    }
}

/// The discussion URLs of the results that are about `page`, in order.
pub open spec fn lobster_comments(entries: Seq<LobsterDomainResult>, page: Seq<char>) -> Seq<Seq<char>>
    decreases entries.len(),
{
    if entries.len() == 0 {
        Seq::<Seq<char>>::empty()
    } else {
        let earlier = lobster_comments(entries.drop_last(), page);
        if entries.last().url@ == page {
            earlier.push(entries.last().comments_url@)
        } else {
            earlier
        }
    }
}

/// The backlinks that lobste.rs's results give for `page_url`: the
/// discussions of the results for exactly that URL, or `None` where there
/// are none.
pub fn collect_lobster_backlinks(page_url: &str, entries: Vec<LobsterDomainResult>) -> (r: Option<Vec<String>>)
    ensures
        match r {
            None => lobster_comments(entries@, page_url@).len() == 0,
            Some(links) => links.len() >= 1 && strings_view(links@) == lobster_comments(entries@, page_url@),
        },
{
    let page = page_url.to_string();
    let ghost all = entries@;
    let mut links: Vec<String> = Vec::new();
    for entry in it: entries
        invariant
            it.seq() == all,
            page@ == page_url@,
            strings_view(links@) == lobster_comments(all.take(it.index() as int), page_url@),
    {
        let ghost idx = it.index() as int;
        let ghost e = entry;
        let ghost before = links@;
        if entry.url == page {
            links.push(entry.comments_url);
        }
        proof {
            assert(all.take(idx + 1).drop_last() =~= all.take(idx));
            assert(all.take(idx + 1).last() == e);
            assert(strings_view(links@) =~= lobster_comments(all.take(idx + 1), page_url@));
        }
    }
    proof {
        assert(all.take(all.len() as int) =~= all);
    }
    if links.len() == 0 {
        None
    } else {
        Some(links)
    }
}

/// What is stored for a URL: nothing yet (to be resolved), one row, or
/// more than one, which is an error.
pub fn stored_backlink(rows: Vec<Backlink>) -> (r: Result<Option<Backlink>, BacklinkError>)
    ensures
        rows.len() == 0 ==> r matches Ok(None),
        rows.len() == 1 ==> r == Ok::<Option<Backlink>, BacklinkError>(Some(rows@[0])),
        rows.len() > 1 ==> r == Err::<Option<Backlink>, BacklinkError>(BacklinkError::MultipleBacklinks),
{
    let mut rows = rows;
    if rows.len() == 0 {
        Ok(None)
    } else if rows.len() == 1 {
        Ok(rows.pop())
    } else {
        Err(BacklinkError::MultipleBacklinks)
    }
}

/// The row to store for a URL whose backlinks were just resolved: the
/// lobste.rs links joined, no Hacker News links yet.
pub fn new_backlink(request_url: &str, lobsters: Option<Vec<String>>) -> (b: Backlink)
    ensures
        b.url@ == request_url@,
        match lobsters {
            None => b.lobsters_links is None,
            Some(links) => b.lobsters_links matches Some(text) && text@ == join_spec(strings_view(links@)),
        },
        b.hn_links is None,
{
    let lobsters_links = match lobsters {
        None => None,
        Some(links) => Some(join_backlinks(links)),
    };
    Backlink { url: request_url.to_string(), lobsters_links, hn_links: None }
}


/// What finding the backlinks of a URL does next.
#[derive(Debug)]
pub enum RetrieveStep {
    /// Answer with this: the one stored row, or an error.
    Answer(Result<Option<Backlink>, BacklinkError>),
    /// Nothing is stored yet: ask lobste.rs, then go on with
    /// `retrieve_resolved`.
    Resolve,
}

/// Decides how to find the backlinks of a URL from the rows read for it:
/// one stored row is the answer, none means resolving them, several are an
/// error, and so is a failed read.
pub fn retrieve_step(rows: Result<Vec<Backlink>, BacklinkError>) -> (step: RetrieveStep)
    ensures
        match rows {
            Err(e) => step == RetrieveStep::Answer(Err(e)),
            Ok(v) => {
                &&& v.len() == 0 ==> step is Resolve
                &&& v.len() == 1 ==> step == RetrieveStep::Answer(Ok(Some(v@[0])))
                &&& v.len() > 1 ==> step == RetrieveStep::Answer(Err(BacklinkError::MultipleBacklinks))
            },
        },
{
    match rows {
        Err(e) => RetrieveStep::Answer(Err(e)),
        Ok(v) => match stored_backlink(v) {
            Ok(None) => RetrieveStep::Resolve,
            found => RetrieveStep::Answer(found),
        },
    }
}

/// What finding the backlinks of a URL does once lobste.rs was asked.
#[derive(Debug)]
pub enum ResolvedStep {
    /// Answer with this: nothing found (nothing is stored), or an error.
    Answer(Result<Option<Backlink>, BacklinkError>),
    /// Store this row of found backlinks, then answer with
    /// `retrieve_finished`.
    Store(Backlink),
}

/// Decides what to do with the backlinks that lobste.rs knows of
/// `request_url`: found backlinks are stored and then returned; where none
/// were found nothing is stored and the answer is that there are none.
pub fn retrieve_resolved(request_url: &str, lobsters: Result<Option<Vec<String>>, BacklinkError>) -> (step: ResolvedStep)
    ensures
        match lobsters {
            Err(e) => step == ResolvedStep::Answer(Err(e)),
            Ok(None) => step == ResolvedStep::Answer(Ok(None)),
            Ok(Some(links)) => match step {
                ResolvedStep::Store(b) => {
                    &&& b.url@ == request_url@
                    &&& b.hn_links is None
                    &&& b.lobsters_links matches Some(text) && text@ == join_spec(strings_view(links@))
                },
                ResolvedStep::Answer(_) => false,
            },
        },
{
    match lobsters {
        Err(e) => ResolvedStep::Answer(Err(e)),
        Ok(None) => ResolvedStep::Answer(Ok(None)),
        Ok(Some(links)) => ResolvedStep::Store(new_backlink(request_url, Some(links))),
    }
}

/// The answer once the row of found backlinks was stored, or not: the row
/// itself, or the error of storing it.
pub fn retrieve_finished(row: Backlink, stored: Result<(), BacklinkError>) -> (r: Result<Option<Backlink>, BacklinkError>)
    ensures
        match stored {
            Ok(()) => r == Ok::<Option<Backlink>, BacklinkError>(Some(row)),
            Err(e) => r == Err::<Option<Backlink>, BacklinkError>(e),
        },
{
    match stored {
        Ok(()) => Ok(Some(row)),
        Err(e) => Err(e),
    }
}


/// The backlinks collected from lobste.rs's results are the discussions of
/// exactly the results whose URL is the page's: a link that is not the
/// discussion of a result for that very URL is never collected, and every
/// such result's discussion is collected.
pub proof fn law_lobster_comments_exact(entries: Seq<LobsterDomainResult>, page: Seq<char>)
    ensures
        forall|x: Seq<char>|
            (forall|j: int| 0 <= j < entries.len() ==> !(entries[j].url@ == page && #[trigger] entries[j].comments_url@ == x))
            ==> !(#[trigger] lobster_comments(entries, page).contains(x)),
        forall|j: int| 0 <= j < entries.len() && entries[j].url@ == page
            ==> lobster_comments(entries, page).contains(#[trigger] entries[j].comments_url@),
    decreases entries.len(),
{
    if entries.len() > 0 {
        let init = entries.drop_last();
        law_lobster_comments_exact(init, page);
        let earlier = lobster_comments(init, page);
        let all = lobster_comments(entries, page);
        let last = entries.len() - 1;
        assert(entries.last() == entries[last]);
        assert(all == (if entries[last].url@ == page {
            earlier.push(entries[last].comments_url@)
        } else {
            earlier
        }));
        assert forall|x: Seq<char>|
            (forall|j: int| 0 <= j < entries.len() ==> !(entries[j].url@ == page && #[trigger] entries[j].comments_url@ == x))
            implies !(#[trigger] all.contains(x)) by {
            assert forall|j: int| 0 <= j < init.len() implies !(init[j].url@ == page && #[trigger] init[j].comments_url@ == x) by {
                assert(init[j] == entries[j]);
            }
            assert(!earlier.contains(x));
            if all.contains(x) {
                let k = choose|k: int| 0 <= k < all.len() && all[k] == x;
                if k < earlier.len() {
                    assert(all[k] == earlier[k]);
                } else {
                    assert(entries[last].comments_url@ == x);
                }
            }
        }
        assert forall|j: int| 0 <= j < entries.len() && entries[j].url@ == page
            implies all.contains(#[trigger] entries[j].comments_url@) by {
            if j < last {
                assert(init[j] == entries[j]);
                assert(earlier.contains(init[j].comments_url@));
                let k = choose|k: int| 0 <= k < earlier.len() && earlier[k] == init[j].comments_url@;
                assert(all[k] == earlier[k]);
            } else {
                assert(all[all.len() - 1] == entries[j].comments_url@);
            }
        }
    }
}

/// Only a leading "www." is dropped from a host: a host that does not
/// start with the characters 'w', 'w', 'w', '.' is searched for as it is,
/// and one that does is searched for without those four characters.
pub proof fn law_strip_www_drops_only_www(host: Seq<char>)
    ensures
        !(host.len() >= 4 && host[0] == 'w' && host[1] == 'w' && host[2] == 'w' && host[3] == '.')
            ==> strip_www_spec(host) == host && lobsters_search_url(host)
            == "https://lobste.rs/domains/"@ + host + ".json"@,
        (host.len() >= 4 && host[0] == 'w' && host[1] == 'w' && host[2] == 'w' && host[3] == '.')
            ==> strip_www_spec(host) == host.skip(4),
        strip_www_spec(seq!['w', 'w', 'w', '.'] + host) == host,
{
    if host.len() >= 4 && host.take(4) == www_prefix() {
        assert(host.take(4)[0] == 'w');
        assert(host.take(4)[1] == 'w');
        assert(host.take(4)[2] == 'w');
        assert(host.take(4)[3] == '.');
    }
    if host.len() >= 4 && host[0] == 'w' && host[1] == 'w' && host[2] == 'w' && host[3] == '.' {
        assert(host.take(4) =~= www_prefix());
    }
    let prefixed = seq!['w', 'w', 'w', '.'] + host;
    assert(prefixed.take(4) =~= www_prefix());
    assert(prefixed.skip(4) =~= host);
}

} // verus!
