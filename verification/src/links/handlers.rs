//! Listing, checking, forgetting and saving a user's links.
//!
//! Each request reads the links stored for the authenticated user; what is
//! decided from them stands here, and the caller runs the statements that
//! a decision asks for.
use vstd::prelude::*;

use crate::clock::is_utc_timestamp;
use crate::db::{rows_view, DbFailure};
use crate::links::models::{stored_fang, Fang, NewFang};
use crate::reply::{Reply, STATUS_FOUND, STATUS_INTERNAL_SERVER_ERROR, STATUS_NOT_FOUND, STATUS_OK};
use crate::users::models::User;

verus! {

/// Asks whether a URL is saved.
#[derive(Debug)]
pub struct HasFangReq {
    pub url: String,
}

/// Asks to forget a saved URL.
#[derive(Debug)]
pub struct ForgetFangReq {
    pub url: String,
}

/// Asks to save a URL, with an optional title.
#[derive(Debug)]
pub struct SaveFangReq {
    pub url: String,
    pub title: Option<String>,
}

/// Why marking a link as forgotten, or as saved again, failed.
#[derive(Clone, Copy, Debug, PartialEq, Eq, Structural)]
pub enum SoftDeleteError {
    /// The update did not change exactly one row.
    WrongRowCount,
    /// The update failed.
    Database,
}

/// `f` is the user's link for `url`.
pub open spec fn is_users_link(f: Fang, user_id: i32, url: Seq<char>) -> bool {
    f.url@ == url && f.user_id == user_id
}

/// The user's stored links for `url`, in the order of `rows`.
pub open spec fn users_links(rows: Seq<Fang>, user_id: i32, url: Seq<char>) -> Seq<Fang> {
    rows.filter(|f: Fang| is_users_link(f, user_id, url))
}

/// The user's links that are not forgotten, in the order of `rows`.
pub open spec fn live_links(rows: Seq<Fang>, user_id: i32) -> Seq<Fang> {
    rows.filter(|f: Fang| f.user_id == user_id && !f.soft_delete)
}

/// The user's link for `url` among the rows read, the first where there are
/// several, or the failure of the read.
pub open spec fn lookup_outcome(rows: Result<Seq<Fang>, DbFailure>, user_id: i32, url: Seq<char>) -> Result<Option<Fang>, DbFailure> {
    match rows {
        Err(e) => Err(e),
        Ok(v) => {
            let found = users_links(v, user_id, url);
            if found.len() == 0 {
                Ok(None)
            } else {
                Ok(Some(found[0]))
            }
        },
    }
}

/// The user's links for `url` among `rows`.
fn matching_links(rows: Vec<Fang>, user_id: i32, url: &String) -> (found: Vec<Fang>)
    ensures
        found@ == users_links(rows@, user_id, url@),
{
    let ghost all = rows@;
    let ghost pred = |f: Fang| is_users_link(f, user_id, url@);
    let mut found: Vec<Fang> = Vec::new();
    for f in it: rows
        invariant
            it.seq() == all,
            pred == (|f: Fang| is_users_link(f, user_id, url@)),
            found@ == all.take(it.index() as int).filter(pred),
    {
        let ghost idx = it.index() as int;
        let ghost g = f;
        if f.url == *url && f.user_id == user_id {
            found.push(f);
        }
        proof {
            reveal_with_fuel(Seq::filter, 1);
            assert(all.take(idx + 1).drop_last() =~= all.take(idx));
            assert(all.take(idx + 1).last() == g);
            assert(found@ =~= all.take(idx + 1).filter(pred));
        }
    }
    proof {
        assert(all.take(all.len() as int) =~= all);
    }
    found
}

/// Picks the user's link for `url` from the links read for the user: the
/// first one where there are several.
pub fn get_fang_for_user(rows: Result<Vec<Fang>, DbFailure>, user: &User, url: &str) -> (r: Result<Option<Fang>, DbFailure>)
    ensures
        r == lookup_outcome(rows_view(rows), user.id, url@),
{
    match rows {
        Err(e) => Err(e),
        Ok(rows) => {
            let url = url.to_string();
            let mut found = matching_links(rows, user.id, &url);
            if found.len() == 0 {
                Ok(None)
            } else {
                Ok(Some(found.remove(0)))
            }
        },
    }
}

/// The answer to a listing: the user's links that are not forgotten.
pub fn list(rows: Result<Vec<Fang>, DbFailure>, user: &User) -> (r: (u16, Vec<Fang>))
    ensures
        match rows {
            Ok(v) => r.0 == STATUS_OK && r.1@ == live_links(v@, user.id),
            Err(_) => r.0 == STATUS_INTERNAL_SERVER_ERROR && r.1@.len() == 0,
        },
{
    match rows {
        Err(_) => (STATUS_INTERNAL_SERVER_ERROR, Vec::new()),
        Ok(rows) => {
            let ghost all = rows@;
            let ghost pred = |f: Fang| f.user_id == user.id && !f.soft_delete;
            let mut live: Vec<Fang> = Vec::new();
            for f in it: rows
                invariant
                    it.seq() == all,
                    pred == (|f: Fang| f.user_id == user.id && !f.soft_delete),
                    live@ == all.take(it.index() as int).filter(pred),
            {
                let ghost idx = it.index() as int;
                let ghost g = f;
                if f.user_id == user.id && !f.soft_delete {
                    live.push(f);
                }
                proof {
                    reveal_with_fuel(Seq::filter, 1);
                    assert(all.take(idx + 1).drop_last() =~= all.take(idx));
                    assert(all.take(idx + 1).last() == g);
                    assert(live@ =~= all.take(idx + 1).filter(pred));
                }
            }
            proof {
                assert(all.take(all.len() as int) =~= all);
            }
            (STATUS_OK, live)
        },
    }
}

/// The status that tells whether the user has the link saved.
pub open spec fn has_outcome(lookup: Result<Option<Fang>, DbFailure>) -> u16 {
    match lookup {
        Ok(Some(f)) => if f.soft_delete {
            STATUS_NOT_FOUND
        } else {
            STATUS_FOUND
        },
        Ok(None) => STATUS_NOT_FOUND,
        Err(_) => STATUS_INTERNAL_SERVER_ERROR,
    }
}

/// Answers whether the user has the link saved: found where it is stored
/// and not forgotten.
pub fn has(lookup: Result<Option<Fang>, DbFailure>) -> (status: u16)
    ensures
        status == has_outcome(lookup),
{
    match lookup {
        Ok(Some(f)) => if f.soft_delete {
            STATUS_NOT_FOUND
        } else {
            STATUS_FOUND
        },
        Ok(None) => STATUS_NOT_FOUND,
        Err(_) => STATUS_INTERNAL_SERVER_ERROR,
    }
}

/// What marking a link as forgotten (or as saved again) came to, from the
/// number of rows that the update changed.
pub open spec fn soft_delete_outcome(updated: Result<usize, DbFailure>) -> Result<(), SoftDeleteError> {
    match updated {
        Ok(count) => if count == 1 {
            Ok(())
        } else {
            Err(SoftDeleteError::WrongRowCount)
        },
        Err(_) => Err(SoftDeleteError::Database),
    }
}

/// Judges the update that marks a link: exactly one row must change.
pub fn set_soft_delete_for_fang(updated: Result<usize, DbFailure>) -> (r: Result<(), SoftDeleteError>)
    ensures
        r == soft_delete_outcome(updated),
{
    match updated {
        Ok(count) => if count == 1 {
            Ok(())
        } else {
            Err(SoftDeleteError::WrongRowCount)
        },
        Err(_) => Err(SoftDeleteError::Database),
    }
}

/// What a request to forget a link leads to.
#[derive(Debug)]
pub enum ForgetStep {
    /// Answer with this status.
    Answer(u16),
    /// Mark this link as forgotten, then answer.
    SoftDelete(Fang),
}

/// What forgetting a URL leads to, given the links read for the user:
/// exactly one link for the URL is marked.
pub open spec fn forget_outcome(rows: Result<Seq<Fang>, DbFailure>, user_id: i32, url: Seq<char>) -> ForgetStep {
    match rows {
        Err(_) => ForgetStep::Answer(STATUS_INTERNAL_SERVER_ERROR),
        Ok(v) => {
            let found = users_links(v, user_id, url);
            if found.len() == 0 {
                ForgetStep::Answer(STATUS_NOT_FOUND)
            } else if found.len() == 1 {
                ForgetStep::SoftDelete(found[0])
            } else {
                ForgetStep::Answer(STATUS_INTERNAL_SERVER_ERROR)
            }
        },
    }
}

/// Decides what forgetting a URL does, given the links read for the user.
pub fn forget(rows: Result<Vec<Fang>, DbFailure>, user: &User, payload: &ForgetFangReq) -> (step: ForgetStep)
    ensures
        step == forget_outcome(rows_view(rows), user.id, payload.url@),
{
    match rows {
        Err(_) => ForgetStep::Answer(STATUS_INTERNAL_SERVER_ERROR),
        Ok(rows) => {
            let mut found = matching_links(rows, user.id, &payload.url);
            if found.len() == 0 {
                ForgetStep::Answer(STATUS_NOT_FOUND)
            } else if found.len() == 1 {
                ForgetStep::SoftDelete(found.remove(0))
            } else {
                ForgetStep::Answer(STATUS_INTERNAL_SERVER_ERROR)
            }
        },
    }
}

/// The answer to a forget request once the link was marked, or not.
pub fn forget_finished(marked: Result<(), SoftDeleteError>) -> (status: u16)
    ensures
        status == (if marked is Ok {
            STATUS_OK
        } else {
            STATUS_INTERNAL_SERVER_ERROR
        }),
{
    match marked {
        Ok(()) => STATUS_OK,
        Err(_) => STATUS_INTERNAL_SERVER_ERROR,
    }
}

/// What a request to save a link leads to.
#[derive(Debug)]
pub enum SaveStep {
    /// Answer with this reply.
    Answer(Reply),
    /// Mark this forgotten link as saved again, then answer.
    Restore(Fang),
    /// Store the link as new, then answer.
    Insert,
}

/// What saving leads to, given the lookup of the user's link for the URL: a
/// forgotten link is restored, a saved one is left, and a new one is stored.
pub open spec fn save_outcome_kind(lookup: Result<Option<Fang>, DbFailure>) -> int {
    match lookup {
        Ok(Some(f)) => if f.soft_delete {
            1
        } else {
            0
        },
        Ok(None) => 2,
        Err(_) => 0,
    }
}

/// The answer that saving gives at once, where it gives one.
pub open spec fn save_answer(lookup: Result<Option<Fang>, DbFailure>) -> (u16, Seq<char>) {
    match lookup {
        Err(DbFailure::Unavailable) => (STATUS_INTERNAL_SERVER_ERROR, "Database connection timeout"@),
        Err(DbFailure::Query) => (STATUS_INTERNAL_SERVER_ERROR, "troubles"@),
        _ => (STATUS_OK, "already caught"@),
    }
}

/// `step` is what saving leads to after `lookup`.
pub open spec fn save_step_matches(lookup: Result<Option<Fang>, DbFailure>, step: SaveStep) -> bool {
    match step {
        SaveStep::Answer(reply) => save_outcome_kind(lookup) == 0 && reply@ == save_answer(lookup),
        SaveStep::Restore(f) => save_outcome_kind(lookup) == 1 && lookup == Ok::<Option<Fang>, DbFailure>(Some(f)),
        SaveStep::Insert => save_outcome_kind(lookup) == 2,
    }
}

/// Decides what saving a link does, given the lookup of the user's link for
/// the URL.
pub fn save(lookup: Result<Option<Fang>, DbFailure>) -> (step: SaveStep)
    ensures
        save_step_matches(lookup, step),
{
    match lookup {
        Ok(Some(f)) => if f.soft_delete {
            SaveStep::Restore(f)
        } else {
            SaveStep::Answer(Reply::new(STATUS_OK, "already caught"))
        },
        Ok(None) => SaveStep::Insert,
        Err(DbFailure::Unavailable) => SaveStep::Answer(
            Reply::new(STATUS_INTERNAL_SERVER_ERROR, "Database connection timeout"),
        ),
        Err(DbFailure::Query) => SaveStep::Answer(Reply::new(STATUS_INTERNAL_SERVER_ERROR, "troubles")),
    }
}

/// The answer to saving once a forgotten link was marked as saved again, or
/// not.
pub fn save_restored(marked: Result<(), SoftDeleteError>) -> (r: Reply)
    ensures
        r@ == (if marked is Ok {
            (STATUS_OK, "caught again"@)
        } else {
            (STATUS_INTERNAL_SERVER_ERROR, "Sorry something broke!"@)
        }),
{
    match marked {
        Ok(()) => Reply::new(STATUS_OK, "caught again"),
        Err(_) => Reply::new(STATUS_INTERNAL_SERVER_ERROR, "Sorry something broke!"),
    }
}

/// The link to store for a save request of the user.
pub fn save_new_fang(payload: SaveFangReq, user: &User) -> (fang: NewFang)
    ensures
        fang.url == payload.url,
        fang.title == payload.title,
        fang.user_id == user.id,
        is_utc_timestamp(fang.time_created@),
{
    NewFang::new(payload.url, payload.title, user.id)
}

/// The answer to saving a new link, given whether the URL could be queued
/// for backlink resolution and whether the link was stored. A URL that could
/// not be queued is only logged: the answer rests on storing alone.
pub open spec fn save_inserted_outcome(queued: bool, stored: Result<(), DbFailure>) -> (u16, Seq<char>) {
    if stored is Ok {
        (STATUS_OK, "caught it"@)
    } else {
        (STATUS_INTERNAL_SERVER_ERROR, "troubles"@)
    }
}

/// The answer to saving once the URL was handed to the backlink queue (or
/// the queue was full or closed) and the new link was stored, or not.
pub fn save_inserted(queued: bool, stored: Result<(), DbFailure>) -> (r: Reply)
    ensures
        r@ == save_inserted_outcome(queued, stored),
{
    match stored {
        Ok(()) => Reply::new(STATUS_OK, "caught it"),
        Err(_) => Reply::new(STATUS_INTERNAL_SERVER_ERROR, "troubles"),
    }
}

/// Whether the URL could be queued for backlink resolution never changes
/// what saving a new link is answered.
pub proof fn law_backlink_queue_does_not_change_save(stored: Result<(), DbFailure>)
    ensures
        save_inserted_outcome(true, stored) == save_inserted_outcome(false, stored),
{
}

/// `rows` after the link with this id was marked as forgotten (`deleted`) or
/// as saved again.
pub open spec fn mark_link(rows: Seq<Fang>, id: i32, deleted: bool) -> Seq<Fang> {
    rows.map_values(|g: Fang| if g.id == id { Fang { soft_delete: deleted, ..g } } else { g })
}

/// Marking a link and then picking the user's links for a URL is picking
/// them and then marking.
pub proof fn lemma_users_links_mark(rows: Seq<Fang>, user_id: i32, url: Seq<char>, id: i32, deleted: bool)
    ensures
        users_links(mark_link(rows, id, deleted), user_id, url) == mark_link(
            users_links(rows, user_id, url),
            id,
            deleted,
        ),
    decreases rows.len(),
{
    reveal_with_fuel(Seq::filter, 1);
    let marked = mark_link(rows, id, deleted);
    if rows.len() == 0 {
        assert(marked =~= Seq::<Fang>::empty());
        assert(users_links(rows, user_id, url) =~= Seq::<Fang>::empty());
        assert(mark_link(Seq::<Fang>::empty(), id, deleted) =~= Seq::<Fang>::empty());
    } else {
        lemma_users_links_mark(rows.drop_last(), user_id, url, id, deleted);
        assert(marked.drop_last() =~= mark_link(rows.drop_last(), id, deleted));
        assert(marked.last() == (if rows.last().id == id {
            Fang { soft_delete: deleted, ..rows.last() }
        } else {
            rows.last()
        }));
        let earlier = users_links(rows.drop_last(), user_id, url);
        if is_users_link(rows.last(), user_id, url) {
            assert(users_links(rows, user_id, url) == earlier.push(rows.last()));
            assert(mark_link(earlier.push(rows.last()), id, deleted) =~= mark_link(earlier, id, deleted).push(marked.last()));
        } else {
            assert(users_links(rows, user_id, url) == earlier);
        }
    }
}

/// No link with this id is left among the live links once it is marked as
/// forgotten.
pub proof fn lemma_live_links_skip_forgotten(rows: Seq<Fang>, user_id: i32, id: i32)
    ensures
        forall|i: int| 0 <= i < live_links(mark_link(rows, id, true), user_id).len() ==> #[trigger] live_links(mark_link(rows, id, true), user_id)[i].id != id,
    decreases rows.len(),
{
    reveal_with_fuel(Seq::filter, 1);
    let marked = mark_link(rows, id, true);
    if rows.len() > 0 {
        lemma_live_links_skip_forgotten(rows.drop_last(), user_id, id);
        assert(marked.drop_last() =~= mark_link(rows.drop_last(), id, true));
        let earlier = live_links(mark_link(rows.drop_last(), id, true), user_id);
        if marked.last().user_id == user_id && !marked.last().soft_delete {
            assert(live_links(marked, user_id) == earlier.push(marked.last()));
        } else {
            assert(live_links(marked, user_id) == earlier);
        }
    }
}

/// Forgetting the one saved link of a user for a URL marks that link; after
/// that it is reported as not saved and no longer listed, saving the URL
/// again restores it, and once restored it is reported as saved.
pub proof fn law_forget_then_save_restores(rows: Seq<Fang>, user_id: i32, url: Seq<char>, fang: Fang)
    requires
        users_links(rows, user_id, url) == seq![fang],
        !fang.soft_delete,
    ensures
        forget_outcome(Ok(rows), user_id, url) == ForgetStep::SoftDelete(fang),
        has_outcome(lookup_outcome(Ok(mark_link(rows, fang.id, true)), user_id, url)) == STATUS_NOT_FOUND,
        forall|i: int| 0 <= i < live_links(mark_link(rows, fang.id, true), user_id).len()
            ==> #[trigger] live_links(mark_link(rows, fang.id, true), user_id)[i].id != fang.id,
        save_outcome_kind(lookup_outcome(Ok(mark_link(rows, fang.id, true)), user_id, url)) == 1,
        has_outcome(lookup_outcome(Ok(mark_link(mark_link(rows, fang.id, true), fang.id, false)), user_id, url)) == STATUS_FOUND,
{
    let forgotten = mark_link(rows, fang.id, true);
    let restored = mark_link(forgotten, fang.id, false);
    lemma_users_links_mark(rows, user_id, url, fang.id, true);
    lemma_users_links_mark(forgotten, user_id, url, fang.id, false);
    lemma_live_links_skip_forgotten(rows, user_id, fang.id);
    assert(mark_link(seq![fang], fang.id, true)[0] == Fang { soft_delete: true, ..fang });
    assert(mark_link(seq![fang], fang.id, true) =~= seq![Fang { soft_delete: true, ..fang }]);
    assert(mark_link(seq![Fang { soft_delete: true, ..fang }], fang.id, false) =~= seq![Fang { soft_delete: false, ..fang }]);
}


/// Saving a URL that the user has not saved stores a new link; afterwards
/// the URL is reported as saved, and saving it again is answered "already
/// caught" without storing anything.
pub proof fn law_save_then_found(rows: Seq<Fang>, user_id: i32, url: Seq<char>, new_fang: NewFang, id: i32)
    requires
        users_links(rows, user_id, url).len() == 0,
        new_fang.url@ == url,
        new_fang.user_id == user_id,
    ensures
        save_outcome_kind(lookup_outcome(Ok(rows), user_id, url)) == 2,
        has_outcome(lookup_outcome(Ok(rows.push(stored_fang(new_fang, id))), user_id, url)) == STATUS_FOUND,
        save_outcome_kind(lookup_outcome(Ok(rows.push(stored_fang(new_fang, id))), user_id, url)) == 0,
        save_answer(lookup_outcome(Ok(rows.push(stored_fang(new_fang, id))), user_id, url)) == (STATUS_OK, "already caught"@),
{
    reveal_with_fuel(Seq::filter, 1);
    let stored = stored_fang(new_fang, id);
    let after = rows.push(stored);
    assert(after.drop_last() =~= rows);
    assert(is_users_link(after.last(), user_id, url));
    assert(users_links(after, user_id, url) == users_links(rows, user_id, url).push(stored));
    assert(users_links(after, user_id, url)[0] == stored);
}


/// Looking up a user's link for a URL only ever finds a stored link of that
/// user whose URL is exactly the one asked for, and finds one whenever such a
/// link is stored.
pub proof fn law_lookup_finds_exactly_the_url(rows: Seq<Fang>, user_id: i32, url: Seq<char>)
    ensures
        lookup_outcome(Ok(rows), user_id, url) is Ok,
        lookup_outcome(Ok(rows), user_id, url) matches Ok(Some(f)) ==> {
            &&& f.url@ == url
            &&& f.user_id == user_id
            &&& rows.contains(f)
        },
        (lookup_outcome(Ok(rows), user_id, url) == Ok::<Option<Fang>, DbFailure>(None)) <==> (
        forall|j: int| 0 <= j < rows.len() ==> !(rows[j].url@ == url && #[trigger] rows[j].user_id == user_id)),
{
    broadcast use vstd::seq_lib::group_filter_ensures;

    let pred = |f: Fang| is_users_link(f, user_id, url);
    let found = users_links(rows, user_id, url);
    if found.len() > 0 {
        assert(pred(found[0]));
        assert(found.contains(found[0]));
        rows.lemma_filter_contains_rev(pred, found[0]);
        let k = choose|k: int| 0 <= k < rows.len() && rows[k] == found[0];
        assert(rows[k].url@ == url && rows[k].user_id == user_id);
    }
    assert forall|j: int| 0 <= j < rows.len() && rows[j].url@ == url && rows[j].user_id == user_id implies found.len() > 0 by {
        assert(pred(rows[j]));
        assert(found.contains(rows[j]));
    }
}

/// The listing holds every stored link of the user that is not forgotten,
/// and nothing else: only links of the user, none forgotten, all stored.
pub proof fn law_list_shows_exactly_the_live_links(rows: Seq<Fang>, user_id: i32)
    ensures
        forall|j: int| 0 <= j < rows.len() && rows[j].user_id == user_id && !rows[j].soft_delete
            ==> live_links(rows, user_id).contains(#[trigger] rows[j]),
        forall|i: int| 0 <= i < live_links(rows, user_id).len() ==> {
            &&& (#[trigger] live_links(rows, user_id)[i]).user_id == user_id
            &&& !live_links(rows, user_id)[i].soft_delete
            &&& rows.contains(live_links(rows, user_id)[i])
        },
{
    broadcast use vstd::seq_lib::group_filter_ensures;

    let pred = |f: Fang| f.user_id == user_id && !f.soft_delete;
    let live = live_links(rows, user_id);
    assert forall|j: int| 0 <= j < rows.len() && rows[j].user_id == user_id && !rows[j].soft_delete
        implies live.contains(#[trigger] rows[j]) by {
        assert(pred(rows[j]));
    }
    assert forall|i: int| 0 <= i < live.len() implies {
        &&& (#[trigger] live[i]).user_id == user_id
        &&& !live[i].soft_delete
        &&& rows.contains(live[i])
    } by {
        assert(pred(live[i]));
        assert(live.contains(live[i]));
        rows.lemma_filter_contains_rev(pred, live[i]);
    }
}

} // verus!
