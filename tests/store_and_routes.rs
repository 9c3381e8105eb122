use project_service::id_text::parse_id;
use project_service::project::Project;
use project_service::reply::{list_reply, project_reply, Reply};
use project_service::shared::SharedStore;
use project_service::store::Store;

fn project(id: i32, name: &str) -> Project {
    Project {
        id,
        name: name.to_string(),
        description: format!("about {}", name),
        status: "active".to_string(),
        start_date: "2024-01-01".to_string(),
        end_date: "2024-12-31".to_string(),
        progress: 40,
    }
}

fn shared_with(projects: Vec<Project>) -> SharedStore {
    let mut store = Store::new();
    for p in projects {
        store.insert(p);
    }
    SharedStore::new(store)
}

#[test]
fn absent_id_is_not_found() {
    let shared = shared_with(vec![project(1, "alpha")]);
    assert_eq!(shared.get(2), None);
    let r = project_reply(&shared, "2");
    assert_eq!(r, Reply::NotFound);
    assert_eq!(r.status(), 404);
}

#[test]
fn inserted_project_is_found_equal() {
    let p = project(7, "seven");
    let shared = shared_with(vec![p.clone()]);
    assert_eq!(shared.get(7), Some(p.clone()));
    let r = project_reply(&shared, "7");
    assert_eq!(r.status(), 200);
    assert_eq!(r, Reply::Project(p));
}

#[test]
fn empty_store_lists_nothing() {
    let shared = SharedStore::new(Store::new());
    assert!(shared.list().is_empty());
    let r = list_reply(&shared);
    assert_eq!(r.status(), 200);
    assert_eq!(r, Reply::Projects(vec![]));
}

#[test]
fn two_distinct_projects_both_listed() {
    let a = project(1, "alpha");
    let b = project(2, "beta");
    let shared = shared_with(vec![a.clone(), b.clone()]);
    let mut listed = shared.list();
    listed.sort_by_key(|p| p.id);
    assert_eq!(listed, vec![a, b]);
}

#[test]
fn repeated_gets_agree() {
    let shared = shared_with(vec![project(3, "gamma"), project(4, "delta")]);
    let first = shared.get(3);
    for _ in 0..10 {
        assert_eq!(shared.get(3), first);
    }
    assert_eq!(first, Some(project(3, "gamma")));
}

#[test]
fn non_integer_segment_is_bad_request() {
    let shared = shared_with(vec![project(1, "alpha")]);
    let r = project_reply(&shared, "abc");
    assert_eq!(r, Reply::BadRequest);
    assert_eq!(r.status(), 400);
}

#[test]
fn overflowing_segment_is_bad_request() {
    let shared = shared_with(vec![project(1, "alpha")]);
    assert_eq!(project_reply(&shared, "2147483648"), Reply::BadRequest);
}

#[test]
fn negative_id_is_looked_up() {
    let p = project(-5, "negative");
    let shared = shared_with(vec![p.clone()]);
    assert_eq!(project_reply(&shared, "-5"), Reply::Project(p));
}

#[test]
fn insert_with_same_id_replaces() {
    let mut store = Store::new();
    assert_eq!(store.insert(project(1, "old")), None);
    assert_eq!(store.insert(project(1, "new")), Some(project(1, "old")));
    assert_eq!(store.get(1), Some(project(1, "new")));
    assert_eq!(store.list().len(), 1);
}

#[test]
fn clone_keeps_every_field() {
    let p = project(9, "nine");
    let q = p.clone();
    assert_eq!(q.id, 9);
    assert_eq!(q.name, "nine");
    assert_eq!(q.description, "about nine");
    assert_eq!(q.progress, 40);
    assert_eq!(p, q);
}

#[test]
fn parse_id_accepts_signed_decimal() {
    assert_eq!(parse_id("42"), Some(42));
    assert_eq!(parse_id("+5"), Some(5));
    assert_eq!(parse_id("-7"), Some(-7));
    assert_eq!(parse_id("007"), Some(7));
    assert_eq!(parse_id("0"), Some(0));
    assert_eq!(parse_id("-0"), Some(0));
    assert_eq!(parse_id("2147483647"), Some(i32::MAX));
    assert_eq!(parse_id("-2147483648"), Some(i32::MIN));
}

#[test]
fn parse_id_rejects_other_text() {
    assert_eq!(parse_id(""), None);
    assert_eq!(parse_id("-"), None);
    assert_eq!(parse_id("+"), None);
    assert_eq!(parse_id("abc"), None);
    assert_eq!(parse_id("12a"), None);
    assert_eq!(parse_id(" 1"), None);
    assert_eq!(parse_id("1.5"), None);
    assert_eq!(parse_id("--1"), None);
    assert_eq!(parse_id("2147483648"), None);
    assert_eq!(parse_id("-2147483649"), None);
    assert_eq!(parse_id("99999999999999999999"), None);
}

#[test]
fn parse_id_agrees_with_std() {
    for text in ["1", "-1", "+0", "123456", "-99", "x", "", "4294967296", "\u{663}"] {
        assert_eq!(parse_id(text), text.parse::<i32>().ok(), "{}", text);
    }
}

#[test]
fn reply_status_codes() {
    assert_eq!(Reply::Projects(vec![]).status(), 200);
    assert_eq!(Reply::Project(project(1, "a")).status(), 200);
    assert_eq!(Reply::NotFound.status(), 404);
    assert_eq!(Reply::BadRequest.status(), 400);
}
