use image_host::credentials::hash_token;
use image_host::reply::Rejection;
use image_host::session::{authenticate_user, authenticated, Account};
use image_host::store::{Param, StoreError};

fn looked_up(header: &[u8]) -> Result<String, Rejection> {
    let query = authenticate_user(Some(header))?;
    assert_eq!(
        query.sql(),
        "SELECT id, is_approved, is_admin FROM users WHERE token_hash = ?"
    );
    let mut params = query.params();
    assert_eq!(params.len(), 1);
    match params.remove(0) {
        Param::Text(text) => Ok(text),
        Param::Integer(_) => panic!("a digest is text"),
    }
}

#[test]
fn bearer_token_is_looked_up_by_its_digest() {
    assert_eq!(looked_up(b"Bearer abc"), Ok(hash_token("abc")));
    assert_eq!(looked_up(b"Bearer a b"), Ok(hash_token("a b")));
    assert_eq!(looked_up(b"Bearer "), Ok(hash_token("")));
    assert_eq!(looked_up(b"Bearer \ta"), Ok(hash_token("\ta")));
}

#[test]
fn issued_token_is_recognised_unchanged() {
    let token = "3f2b8c1e-9a4d-4e6f-8b7a-0123456789ab";
    let header = format!("Bearer {token}");
    assert_eq!(looked_up(header.as_bytes()), Ok(hash_token(token)));
}

#[test]
fn missing_token_is_refused() {
    assert!(matches!(authenticate_user(None), Err(Rejection::MissingToken)));
    for header in [
        &b"abc"[..],
        b"",
        b"Bearer",
        b"bearer abc",
        b" Bearer abc",
        b"Basic abc",
        b"Bearer\tabc",
    ] {
        assert_eq!(looked_up(header), Err(Rejection::MissingToken));
    }
}

#[test]
fn header_that_is_not_plain_text_is_refused() {
    for header in [&b"Bearer \xff"[..], b"Bearer \xc3\xa9", b"Bearer a\x7f", b"Bearer a\nb", b"Bearer \x00"] {
        assert_eq!(looked_up(header), Err(Rejection::MissingToken));
    }
}

#[test]
fn every_byte_is_judged_as_a_header_does() {
    for byte in 0..=255u8 {
        let header = [b"Bearer ".as_slice(), &[byte]].concat();
        let plain = (32..127).contains(&byte) || byte == 9;
        assert_eq!(looked_up(&header).is_ok(), plain, "byte {byte}");
    }
}

#[test]
fn store_answer_makes_the_session() {
    let account = Account { id: 7, is_approved: 1, is_admin: 0 };
    let session = authenticated(Ok(Some(account))).unwrap();
    assert_eq!(session.user_id(), 7);
    assert!(session.is_approved());
    assert!(!session.is_admin());

    let odd = authenticated(Ok(Some(Account { id: 8, is_approved: -1, is_admin: 2 }))).unwrap();
    assert!(odd.is_approved());
    assert!(odd.is_admin());
}

#[test]
fn unknown_token_is_refused() {
    assert_eq!(authenticated(Ok(None)).err(), Some(Rejection::InvalidToken));
    assert_eq!(authenticated(Err(StoreError)).err(), Some(Rejection::Database));
}
