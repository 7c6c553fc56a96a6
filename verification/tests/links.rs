use faenger::db::DbFailure;
use faenger::links::handlers::{
    forget, forget_finished, get_fang_for_user, has, list, save, save_inserted, save_new_fang,
    save_restored, set_soft_delete_for_fang, ForgetFangReq, ForgetStep, HasFangReq, SaveFangReq,
    SaveStep, SoftDeleteError,
};
use faenger::links::models::{Fang, NewFang};
use faenger::users::models::User;

fn anna() -> User {
    User {
        id: 1,
        name: "anna".to_string(),
        password_hash: "h".to_string(),
        api_key: "k".to_string(),
        time_registered: "t".to_string(),
    }
}

fn fang(id: i32, url: &str, user_id: i32, soft_delete: bool) -> Fang {
    Fang {
        id,
        url: url.to_string(),
        title: None,
        time_created: "t".to_string(),
        user_id,
        soft_delete,
    }
}

#[test]
fn lookup_picks_first_of_users_links() {
    let rows = vec![fang(1, "b", 1, false), fang(2, "a", 2, false), fang(3, "a", 1, true), fang(4, "a", 1, false)];
    let f = get_fang_for_user(Ok(rows), &anna(), "a").unwrap().unwrap();
    assert_eq!(f.id, 3);
}

#[test]
fn lookup_none_and_failure() {
    assert!(get_fang_for_user(Ok(vec![fang(1, "b", 1, false)]), &anna(), "a").unwrap().is_none());
    assert_eq!(get_fang_for_user(Err(DbFailure::Query), &anna(), "a").unwrap_err(), DbFailure::Query);
}

#[test]
fn list_hides_forgotten_links() {
    let (status, links) = list(
        Ok(vec![fang(1, "a", 1, false), fang(2, "b", 1, true), fang(3, "c", 1, false), fang(4, "d", 2, false)]),
        &anna(),
    );
    assert_eq!(status, 200);
    assert_eq!(links.iter().map(|f| f.id).collect::<Vec<_>>(), vec![1, 3]);
    let (status, links) = list(Err(DbFailure::Unavailable), &anna());
    assert_eq!(status, 500);
    assert!(links.is_empty());
}

#[test]
fn has_statuses() {
    assert_eq!(has(Ok(Some(fang(1, "a", 1, false)))), 302);
    assert_eq!(has(Ok(Some(fang(1, "a", 1, true)))), 404);
    assert_eq!(has(Ok(None)), 404);
    assert_eq!(has(Err(DbFailure::Query)), 500);
    let q = HasFangReq { url: "a".to_string() };
    assert_eq!(q.url, "a");
}

#[test]
fn soft_delete_outcomes() {
    assert_eq!(set_soft_delete_for_fang(Ok(1)), Ok(()));
    assert_eq!(set_soft_delete_for_fang(Ok(0)), Err(SoftDeleteError::WrongRowCount));
    assert_eq!(set_soft_delete_for_fang(Ok(2)), Err(SoftDeleteError::WrongRowCount));
    assert_eq!(set_soft_delete_for_fang(Err(DbFailure::Query)), Err(SoftDeleteError::Database));
}

fn forget_req(url: &str) -> ForgetFangReq {
    ForgetFangReq { url: url.to_string() }
}

#[test]
fn forget_cases() {
    assert!(matches!(forget(Ok(Vec::new()), &anna(), &forget_req("a")), ForgetStep::Answer(404)));
    match forget(Ok(vec![fang(5, "a", 1, false), fang(6, "b", 1, false)]), &anna(), &forget_req("a")) {
        ForgetStep::SoftDelete(f) => assert_eq!(f.id, 5),
        ForgetStep::Answer(_) => panic!("expected a soft delete"),
    }
    assert!(matches!(
        forget(Ok(vec![fang(5, "a", 1, false), fang(6, "a", 1, false)]), &anna(), &forget_req("a")),
        ForgetStep::Answer(500)
    ));
    assert!(matches!(forget(Err(DbFailure::Query), &anna(), &forget_req("a")), ForgetStep::Answer(500)));
    assert_eq!(forget_finished(Ok(())), 200);
    assert_eq!(forget_finished(Err(SoftDeleteError::Database)), 500);
}

#[test]
fn save_cases() {
    match save(Ok(Some(fang(1, "a", 1, false)))) {
        SaveStep::Answer(r) => assert_eq!((r.status, r.body.as_str()), (200, "already caught")),
        _ => panic!("expected an answer"),
    }
    match save(Ok(Some(fang(1, "a", 1, true)))) {
        SaveStep::Restore(f) => assert_eq!(f.id, 1),
        _ => panic!("expected a restore"),
    }
    assert!(matches!(save(Ok(None)), SaveStep::Insert));
    match save(Err(DbFailure::Query)) {
        SaveStep::Answer(r) => assert_eq!((r.status, r.body.as_str()), (500, "troubles")),
        _ => panic!("expected an answer"),
    }
    match save(Err(DbFailure::Unavailable)) {
        SaveStep::Answer(r) => assert_eq!((r.status, r.body.as_str()), (500, "Database connection timeout")),
        _ => panic!("expected an answer"),
    }
}

#[test]
fn save_follow_ups() {
    let r = save_restored(Ok(()));
    assert_eq!((r.status, r.body.as_str()), (200, "caught again"));
    let r = save_restored(Err(SoftDeleteError::WrongRowCount));
    assert_eq!((r.status, r.body.as_str()), (500, "Sorry something broke!"));
    for queued in [true, false] {
        let r = save_inserted(queued, Ok(()));
        assert_eq!((r.status, r.body.as_str()), (200, "caught it"));
        let r = save_inserted(queued, Err(DbFailure::Query));
        assert_eq!((r.status, r.body.as_str()), (500, "troubles"));
    }
}

#[test]
fn save_new_fang_for_user() {
    let nf: NewFang = save_new_fang(
        SaveFangReq { url: "https://e.com".to_string(), title: Some("E".to_string()) },
        &anna(),
    );
    assert_eq!(nf.url, "https://e.com");
    assert_eq!(nf.title.as_deref(), Some("E"));
    assert_eq!(nf.user_id, 1);
    assert!(nf.time_created.ends_with("+00:00"));
    assert!(nf.time_created.len() >= 25);
    let at = NewFang::created_at("u".to_string(), None, 2, "2024".to_string());
    assert_eq!(at.time_created, "2024");
}

#[test]
fn forget_then_save_restores() {
    // The user saved "a" once; forgetting marks it.
    let rows = vec![fang(9, "a", 1, false), fang(10, "b", 1, false)];
    let target = match forget(Ok(rows), &anna(), &forget_req("a")) {
        ForgetStep::SoftDelete(f) => f,
        ForgetStep::Answer(s) => panic!("unexpected answer {}", s),
    };
    assert_eq!(target.id, 9);
    // The database now holds it as forgotten.
    let forgotten = || vec![fang(9, "a", 1, true), fang(10, "b", 1, false)];
    assert_eq!(has(get_fang_for_user(Ok(forgotten()), &anna(), "a")), 404);
    let (_, listed) = list(Ok(forgotten()), &anna());
    assert!(listed.iter().all(|f| f.id != 9));
    // Saving it again restores it.
    match save(get_fang_for_user(Ok(forgotten()), &anna(), "a")) {
        SaveStep::Restore(f) => assert_eq!(f.id, 9),
        _ => panic!("expected a restore"),
    }
    let restored = vec![fang(9, "a", 1, false), fang(10, "b", 1, false)];
    assert_eq!(has(get_fang_for_user(Ok(restored), &anna(), "a")), 302);
}

#[test]
fn save_then_found() {
    let rows = vec![fang(10, "b", 1, false)];
    assert!(matches!(save(get_fang_for_user(Ok(rows), &anna(), "a")), SaveStep::Insert));
    let nf = save_new_fang(SaveFangReq { url: "a".to_string(), title: None }, &anna());
    // The database stores the new link, not forgotten.
    let stored = || vec![fang(10, "b", 1, false), fang(11, &nf.url, nf.user_id, false)];
    assert_eq!(has(get_fang_for_user(Ok(stored()), &anna(), "a")), 302);
    match save(get_fang_for_user(Ok(stored()), &anna(), "a")) {
        SaveStep::Answer(r) => assert_eq!((r.status, r.body.as_str()), (200, "already caught")),
        _ => panic!("expected an answer"),
    }
}
