use faenger::backlinks::handlers::{resolve, ResolveBacklinkReq, ResolveBacklinkResp};
use faenger::backlinks::models::Backlink;
use faenger::backlinks::resolver::{
    collect_lobster_backlinks, lobsters_query, lobsters_query_for, lobsters_status, new_backlink,
    retrieve_finished, retrieve_resolved, retrieve_step, stored_backlink, ResolvedStep, RetrieveStep, strip_www, BacklinkError, LobsterDomainResult, LobstersStatus, ParsedUrl,
};
use faenger::backlinks::{join_backlinks, split_backlinks};

const SEP: &str = "\u{1F642}\u{200D}\u{2195}\u{FE0F}";

fn strings(v: &[&str]) -> Vec<String> {
    v.iter().map(|s| s.to_string()).collect()
}

#[test]
fn separator_is_the_nodding_face() {
    assert_eq!(SEP, "🙂‍↕️");
    assert_eq!(SEP.chars().count(), 4);
}

#[test]
fn join_two_links() {
    let joined = join_backlinks(strings(&["https://a/1", "https://b/2"]));
    assert_eq!(joined, format!("https://a/1{}https://b/2", SEP));
}

#[test]
fn join_one_link_is_the_link() {
    assert_eq!(join_backlinks(strings(&["https://a/1"])), "https://a/1");
}

#[test]
fn join_no_links_is_empty() {
    assert_eq!(join_backlinks(Vec::new()), "");
}

#[test]
fn split_two_links() {
    let stored = format!("https://a/1{}https://b/2", SEP);
    assert_eq!(split_backlinks(stored), strings(&["https://a/1", "https://b/2"]));
}

#[test]
fn split_empty_text_is_one_empty_field() {
    assert_eq!(split_backlinks(String::new()), strings(&[""]));
}

#[test]
fn split_separator_only() {
    assert_eq!(split_backlinks(SEP.to_string()), strings(&["", ""]));
}

#[test]
fn split_keeps_partial_separator() {
    // A field that ends with the first code point of the separator.
    let stored = format!("x\u{1F642}{}y", SEP);
    assert_eq!(split_backlinks(stored), strings(&["x\u{1F642}", "y"]));
}

#[test]
fn split_matches_std_split() {
    let samples = [
        format!("{}{}", SEP, SEP),
        format!("a{}b{}c", SEP, SEP),
        format!("\u{1F642}\u{200D}{}\u{2195}", SEP),
        "plain".to_string(),
        format!("a{}", SEP),
    ];
    for s in samples {
        let expected: Vec<String> = s.split(SEP).map(str::to_string).collect();
        assert_eq!(split_backlinks(s.clone()), expected);
    }
}

#[test]
fn join_after_split_gives_the_text() {
    for s in [String::new(), format!("{}a{}{}", SEP, SEP, SEP), "abc".to_string()] {
        assert_eq!(join_backlinks(split_backlinks(s.clone())), s);
    }
}

#[test]
fn split_after_join_gives_the_links() {
    let links = strings(&["https://lobste.rs/s/abc", "", "https://lobste.rs/s/def"]);
    assert_eq!(split_backlinks(join_backlinks(links.clone())), links);
}

#[test]
fn split_after_join_of_no_links_is_not_the_links() {
    // The one input on which the round trip fails: no links at all.
    assert_eq!(split_backlinks(join_backlinks(Vec::new())), strings(&[""]));
}

#[test]
fn strip_www_prefix() {
    assert_eq!(strip_www(&"www.example.com".to_string()), "example.com");
    assert_eq!(strip_www(&"example.com".to_string()), "example.com");
    assert_eq!(strip_www(&"www".to_string()), "www");
    assert_eq!(strip_www(&"wwwx.org".to_string()), "wwwx.org");
}

#[test]
fn lobsters_query_strips_www() {
    let q = lobsters_query("https://www.example.com/post?id=1").unwrap();
    assert_eq!(q.page_url, "https://www.example.com/post?id=1");
    assert_eq!(q.search_url, "https://lobste.rs/domains/example.com.json");
}

#[test]
fn lobsters_query_uses_serialized_url() {
    let q = lobsters_query("HTTPS://Example.COM").unwrap();
    assert_eq!(q.page_url, "https://example.com/");
    assert_eq!(q.search_url, "https://lobste.rs/domains/example.com.json");
}

#[test]
fn lobsters_query_rejects_invalid_url() {
    assert_eq!(lobsters_query("not a url").unwrap_err(), BacklinkError::InvalidUrl);
}

#[test]
fn lobsters_query_needs_a_host() {
    assert_eq!(lobsters_query("data:text/plain,Stuff").unwrap_err(), BacklinkError::NoHost);
}

#[test]
fn lobsters_query_for_parsed_url() {
    let q = lobsters_query_for(Some(ParsedUrl {
        serialization: "https://www.rust-lang.org/".to_string(),
        host: Some("www.rust-lang.org".to_string()),
    }))
    .unwrap();
    assert_eq!(q.page_url, "https://www.rust-lang.org/");
    assert_eq!(q.search_url, "https://lobste.rs/domains/rust-lang.org.json");
    assert_eq!(lobsters_query_for(None).unwrap_err(), BacklinkError::InvalidUrl);
}

#[test]
fn lobsters_status_codes() {
    assert_eq!(lobsters_status(200), LobstersStatus::ReadEntries);
    assert_eq!(lobsters_status(404), LobstersStatus::NoBacklinks);
    assert_eq!(lobsters_status(500), LobstersStatus::Unexpected);
    assert_eq!(lobsters_status(301), LobstersStatus::Unexpected);
}

fn entry(url: &str, comments: &str) -> LobsterDomainResult {
    LobsterDomainResult { url: url.to_string(), comments_url: comments.to_string() }
}

#[test]
fn collect_keeps_matching_results_in_order() {
    let entries = vec![
        entry("https://example.com/a", "https://lobste.rs/s/1"),
        entry("https://example.com/b", "https://lobste.rs/s/2"),
        entry("https://example.com/a", "https://lobste.rs/s/3"),
    ];
    assert_eq!(
        collect_lobster_backlinks("https://example.com/a", entries),
        Some(strings(&["https://lobste.rs/s/1", "https://lobste.rs/s/3"]))
    );
}

#[test]
fn collect_without_match_is_none() {
    let entries = vec![entry("https://example.com/b", "https://lobste.rs/s/2")];
    assert_eq!(collect_lobster_backlinks("https://example.com/a", entries), None);
    assert_eq!(collect_lobster_backlinks("https://example.com/a", Vec::new()), None);
}

fn backlink(url: &str, lobsters: Option<&str>) -> Backlink {
    Backlink { url: url.to_string(), lobsters_links: lobsters.map(str::to_string), hn_links: None }
}

#[test]
fn stored_backlink_cases() {
    assert!(matches!(stored_backlink(Vec::new()), Ok(None)));
    let one = stored_backlink(vec![backlink("u", Some("x"))]).unwrap().unwrap();
    assert_eq!(one.url, "u");
    assert_eq!(one.lobsters_links.as_deref(), Some("x"));
    assert_eq!(
        stored_backlink(vec![backlink("u", None), backlink("u", None)]).unwrap_err(),
        BacklinkError::MultipleBacklinks
    );
}

#[test]
fn new_backlink_joins_lobsters_links() {
    let b = new_backlink("https://e.com/", Some(strings(&["l1", "l2"])));
    assert_eq!(b.url, "https://e.com/");
    assert_eq!(b.lobsters_links, Some(format!("l1{}l2", SEP)));
    assert_eq!(b.hn_links, None);
    let none = new_backlink("https://e.com/", None);
    assert_eq!(none.lobsters_links, None);
}

#[test]
fn resolve_splits_stored_links() {
    let stored = Backlink {
        url: "https://e.com/".to_string(),
        lobsters_links: Some(format!("l1{}l2", SEP)),
        hn_links: None,
    };
    let resp: ResolveBacklinkResp = resolve(Ok(Some(stored))).unwrap();
    assert_eq!(resp.lobsters_links, Some(strings(&["l1", "l2"])));
    assert_eq!(resp.hn_links, None);
}

#[test]
fn resolve_not_found_and_failure() {
    assert_eq!(resolve(Ok(None)).unwrap_err(), 404);
    assert_eq!(resolve(Err(BacklinkError::Database)).unwrap_err(), 500);
    assert_eq!(resolve(Err(BacklinkError::MultipleBacklinks)).unwrap_err(), 500);
}

#[test]
fn resolved_links_come_back() {
    let found = strings(&["https://lobste.rs/s/1", "https://lobste.rs/s/2"]);
    let stored = new_backlink("https://e.com/", Some(found.clone()));
    let resp = resolve(Ok(Some(stored))).unwrap();
    assert_eq!(resp.lobsters_links, Some(found));
    let req = ResolveBacklinkReq { url: "https://e.com/".to_string() };
    assert_eq!(req.url, "https://e.com/");
}

#[test]
fn retrieve_step_cases() {
    assert!(matches!(retrieve_step(Ok(Vec::new())), RetrieveStep::Resolve));
    match retrieve_step(Ok(vec![backlink("u", Some("x"))])) {
        RetrieveStep::Answer(Ok(Some(b))) => assert_eq!(b.lobsters_links.as_deref(), Some("x")),
        other => panic!("unexpected {:?}", other),
    }
    assert!(matches!(
        retrieve_step(Ok(vec![backlink("u", None), backlink("u", None)])),
        RetrieveStep::Answer(Err(BacklinkError::MultipleBacklinks))
    ));
    assert!(matches!(
        retrieve_step(Err(BacklinkError::Database)),
        RetrieveStep::Answer(Err(BacklinkError::Database))
    ));
}

#[test]
fn retrieve_resolved_and_finished() {
    let row = match retrieve_resolved("https://e.com/", Ok(Some(strings(&["l1", "l2"])))) {
        ResolvedStep::Store(row) => row,
        other => panic!("unexpected {:?}", other),
    };
    assert_eq!(row.url, "https://e.com/");
    assert_eq!(row.lobsters_links, Some(format!("l1{}l2", SEP)));
    assert_eq!(row.hn_links, None);
    assert!(matches!(
        retrieve_resolved("https://e.com/", Err(BacklinkError::Http)),
        ResolvedStep::Answer(Err(BacklinkError::Http))
    ));
    let answered = retrieve_finished(row, Ok(())).unwrap().unwrap();
    assert_eq!(answered.url, "https://e.com/");
    let again = new_backlink("https://e.com/", Some(strings(&["l"])));
    assert_eq!(retrieve_finished(again, Err(BacklinkError::Database)).unwrap_err(), BacklinkError::Database);
}

#[test]
fn no_backlinks_found_is_answered_not_found() {
    // lobste.rs knows no link: nothing is stored and the request gets 404.
    match retrieve_resolved("https://e.com/", Ok(None)) {
        ResolvedStep::Answer(answer) => assert_eq!(resolve(answer).unwrap_err(), 404),
        ResolvedStep::Store(row) => panic!("nothing should be stored, got {:?}", row),
    }
}
