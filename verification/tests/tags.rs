use image_host::reply::{Notice, Rejection};
use image_host::session::{authenticated, Account, Session};
use image_host::store::{Statement, StoreError};
use image_host::tags::{
    add_tag, list_tags, normalize_tag, remove_tag, tag_removed, tags_listed, TagLink, TagPayload,
};

fn session(is_admin: i64) -> Session {
    authenticated(Ok(Some(Account { id: 3, is_approved: 0, is_admin }))).unwrap()
}

fn payload(name: &str) -> TagPayload {
    TagPayload { name: name.to_string() }
}

fn link() -> TagLink {
    TagLink { image_id: 12, name: "cat".to_string() }
}

#[test]
fn tag_names_are_listed_as_stored() {
    assert_eq!(list_tags().sql(), "SELECT name FROM tags ORDER BY name ASC");
    let names = vec!["a".to_string(), "b".to_string()];
    assert_eq!(tags_listed(Ok(names.clone())), Ok(names));
    assert_eq!(tags_listed(Err(StoreError)), Err(Rejection::Database));
}

#[test]
fn tag_names_are_trimmed_and_lower_case() {
    assert_eq!(normalize_tag("  Cat\n"), Some("cat".to_string()));
    assert_eq!(normalize_tag("ÄRGER"), Some("ärger".to_string()));
    assert_eq!(normalize_tag("ΟΔΟΣ"), Some("οδος".to_string()));
    assert_eq!(normalize_tag("a\tb"), Some("a\tb".to_string()));
    assert_eq!(normalize_tag("a,b"), Some("a,b".to_string()));
    assert_eq!(normalize_tag("a-1"), Some("a-1".to_string()));
}

#[test]
fn empty_names_and_names_with_spaces_are_no_tags() {
    for name in ["", "   ", "\t\n", "a b", " a  b "] {
        assert_eq!(normalize_tag(name), None);
    }
}

#[test]
fn owner_adds_a_tag() {
    let (query, addition) = add_tag(&session(0), 12, payload(" Cat "));
    assert!(matches!(query, Statement::OwnedImage { image_id: 12, user_id: 3 }));
    let (query, link) = addition.owned(Ok(Some(12))).unwrap();
    assert!(matches!(query, Statement::AddTag { name } if name == "cat"));
    let query = link.created(Ok(())).unwrap();
    assert!(matches!(query, Statement::TagByName { name } if name == "cat"));
    let query = link.identified(Ok(8)).unwrap();
    assert!(matches!(query, Statement::LinkTag { image_id: 12, tag_id: 8 }));
    assert_eq!(link.linked(Ok(())), Ok(Notice::TagAdded));
}

#[test]
fn admin_adds_a_tag_to_any_image() {
    let (_, addition) = add_tag(&session(1), 12, payload("cat"));
    assert!(addition.owned(Ok(None)).is_ok());
}

#[test]
fn others_add_no_tag() {
    let (_, addition) = add_tag(&session(0), 12, payload("cat"));
    assert_eq!(addition.owned(Ok(None)).err(), Some(Rejection::NotYourImage));
    let (_, addition) = add_tag(&session(1), 12, payload("cat"));
    assert_eq!(addition.owned(Err(StoreError)).err(), Some(Rejection::Database));
}

#[test]
fn ownership_is_judged_before_the_name() {
    let (_, addition) = add_tag(&session(0), 12, payload("a b"));
    assert_eq!(addition.owned(Ok(None)).err(), Some(Rejection::NotYourImage));
    let (_, addition) = add_tag(&session(0), 12, payload("a b"));
    assert_eq!(addition.owned(Ok(Some(12))).err(), Some(Rejection::InvalidTag));
    let (_, addition) = add_tag(&session(1), 12, payload("  "));
    assert_eq!(addition.owned(Ok(None)).err(), Some(Rejection::InvalidTag));
}

#[test]
fn addition_reports_store_failures() {
    assert_eq!(link().created(Err(StoreError)).err(), Some(Rejection::Database));
    assert_eq!(link().identified(Err(StoreError)).err(), Some(Rejection::Database));
    assert_eq!(link().linked(Err(StoreError)), Err(Rejection::Database));
}

#[test]
fn removal_takes_the_name_as_it_is() {
    let (query, removal) = remove_tag(&session(0), 12, " Cat".to_string());
    assert!(matches!(query, Statement::OwnedImage { image_id: 12, user_id: 3 }));
    assert!(matches!(
        removal.owned(Ok(Some(12))).unwrap(),
        Statement::UnlinkTag { image_id: 12, name } if name == " Cat"
    ));
    assert_eq!(tag_removed(Ok(())), Ok(Notice::TagRemoved));
    assert_eq!(tag_removed(Err(StoreError)), Err(Rejection::Database));
}

#[test]
fn removal_takes_the_owner_or_an_admin() {
    let removal = |is_admin| remove_tag(&session(is_admin), 12, "cat".to_string()).1;
    assert_eq!(removal(0).owned(Ok(None)).err(), Some(Rejection::NotYourImage));
    assert_eq!(removal(0).owned(Err(StoreError)).err(), Some(Rejection::Database));
    assert!(removal(1).owned(Ok(None)).is_ok());
}
