use image_host::accounts::{
    approve_user, list_pending_users, logged_out, login_user, logout_user, pending_users,
    register_user, user_approved, Challenge, Credentials, HashTask, Login, LoginRequest,
    PendingUser, RegisterRequest, Registration,
};
use image_host::credentials::{check_password, hash_password, hash_token, HashError};
use image_host::reply::{Notice, Rejection};
use image_host::session::{authenticated, Account, Session};
use image_host::store::{Query, Statement, StoreError};

fn session(is_approved: i64, is_admin: i64) -> Session {
    authenticated(Ok(Some(Account { id: 3, is_approved, is_admin }))).unwrap()
}

fn alice() -> RegisterRequest {
    RegisterRequest { username: "alice".to_string(), password: "xyz".to_string() }
}

fn started() -> Registration {
    register_user(&alice(), HashTask::Finished(Ok("stored".to_string()))).unwrap()
}

fn credentials(is_admin: i64, is_approved: i64) -> Credentials {
    Credentials { id: 9, password_hash: hash_password("xyz").unwrap(), is_admin, is_approved }
}

#[test]
fn registration_hashes_the_password() {
    let hash = alice().hash().unwrap();
    assert!(hash.starts_with("$argon2id$v=19$m=19456,t=2,p=1$"));
    assert!(check_password("xyz", &hash));
    assert!(!check_password("alice", &hash));
}

#[test]
fn registration_starts_with_a_fresh_token() {
    let first = started();
    let second = started();
    assert_eq!(first.username, "alice");
    assert_eq!(first.password_hash, "stored");
    assert_eq!(first.token.len(), 36);
    assert_ne!(first.token, second.token);
}

#[test]
fn failed_hashing_ends_a_registration() {
    assert_eq!(register_user(&alice(), HashTask::Panicked).err(), Some(Rejection::TaskPanicked));
    assert_eq!(
        register_user(&alice(), HashTask::Finished(Err(HashError))).err(),
        Some(Rejection::HashFailed)
    );
}

#[test]
fn registration_counts_inside_a_transaction() {
    assert_eq!(started().begun(Ok(())).unwrap().sql(), "SELECT COUNT(*) FROM users");
    assert_eq!(started().begun(Err(StoreError)).err(), Some(Rejection::Transaction));
}

fn flags(registration: &Registration, count: Result<i64, StoreError>) -> (i64, i64) {
    match registration.counted(count).unwrap() {
        Statement::AddUser { username, password_hash, token_hash, is_approved, is_admin } => {
            assert_eq!(username, "alice");
            assert_eq!(password_hash, "stored");
            assert_eq!(token_hash, hash_token(&registration.token));
            (is_approved, is_admin)
        }
        other => panic!("unexpected statement {other:?}"),
    }
}

#[test]
fn only_the_first_user_starts_as_admin() {
    let registration = started();
    assert_eq!(flags(&registration, Ok(0)), (1, 1));
    assert_eq!(flags(&registration, Ok(1)), (0, 0));
    assert_eq!(flags(&registration, Ok(17)), (0, 0));
}

#[test]
fn failed_count_ends_a_registration() {
    assert_eq!(started().counted(Err(StoreError)).err(), Some(Rejection::Transaction));
}

#[test]
fn registration_hands_the_token_out_after_the_commit() {
    let registration = started();
    let token = registration.token.clone();
    let response = registration.inserted(Ok(())).unwrap().committed(Ok(())).unwrap();
    assert_eq!(response.token, token);
}

#[test]
fn taken_name_and_failed_commit_end_a_registration() {
    assert_eq!(started().inserted(Err(StoreError)).err(), Some(Rejection::UsernameTaken));
    let taken = started().inserted(Ok(())).unwrap();
    assert_eq!(taken.committed(Err(StoreError)).err(), Some(Rejection::Transaction));
}

fn login() -> (Query, Login) {
    login_user(LoginRequest { username: "alice".to_string(), password: "xyz".to_string() })
}

#[test]
fn login_looks_the_name_up() {
    let (query, _) = login();
    assert_eq!(
        query.sql(),
        "SELECT id, password_hash, is_admin, is_approved FROM users WHERE username = ?"
    );
    assert!(matches!(query, Statement::CredentialsByName { username } if username == "alice"));
}

#[test]
fn login_with_the_password_rotates_the_token() {
    let challenge = login().1.found(Ok(Some(credentials(1, 0)))).unwrap();
    assert!(challenge.run());
    let (query, rotation) = challenge.answered(true).unwrap();
    match query {
        Statement::SetToken { token_hash, user_id } => {
            assert_eq!(token_hash, hash_token(&rotation.token));
            assert_eq!(user_id, 9);
        }
        other => panic!("unexpected statement {other:?}"),
    }
    let token = rotation.token.clone();
    let response = rotation.stored(Ok(())).unwrap();
    assert_eq!(response.token, token);
    assert!(response.is_admin);
    assert!(!response.is_approved);
}

#[test]
fn login_reports_flags_of_exactly_one() {
    let challenge = login().1.found(Ok(Some(credentials(2, 1)))).unwrap();
    let (_, rotation) = challenge.answered(true).unwrap();
    assert!(!rotation.is_admin);
    assert!(rotation.is_approved);
}

#[test]
fn login_with_another_password_is_refused() {
    let (_, login) =
        login_user(LoginRequest { username: "alice".to_string(), password: "abc".to_string() });
    let challenge = login.found(Ok(Some(credentials(0, 1)))).unwrap();
    assert!(!challenge.run());
    assert_eq!(challenge.answered(false).err(), Some(Rejection::InvalidCredentials));
}

#[test]
fn login_with_an_unknown_name_is_refused_like_a_wrong_password() {
    let challenge = login().1.found(Ok(None)).unwrap();
    assert!(matches!(challenge, Challenge::Decoy { .. }));
    assert!(!challenge.run());
    assert_eq!(challenge.answered(false).err(), Some(Rejection::InvalidCredentials));
    assert_eq!(challenge.answered(true).err(), Some(Rejection::InvalidCredentials));
}

#[test]
fn login_with_an_unreadable_hash_is_refused() {
    let stored =
        Credentials { id: 9, password_hash: "xyz".to_string(), is_admin: 0, is_approved: 1 };
    let challenge = login().1.found(Ok(Some(stored))).unwrap();
    assert!(!challenge.run());
}

#[test]
fn login_failures_of_the_store_are_told_apart() {
    assert_eq!(login().1.found(Err(StoreError)).err(), Some(Rejection::Database));
    let challenge = login().1.found(Ok(Some(credentials(0, 0)))).unwrap();
    let (_, rotation) = challenge.answered(true).unwrap();
    assert_eq!(rotation.stored(Err(StoreError)).err(), Some(Rejection::TokenUpdate));
}

#[test]
fn logout_clears_the_token_of_the_user() {
    let query = logout_user(&session(0, 0));
    assert_eq!(query.sql(), "UPDATE users SET token_hash = '' WHERE id = ?");
    assert!(matches!(query, Statement::ClearToken { user_id: 3 }));
    assert_eq!(logged_out(Ok(())), Ok(Notice::LoggedOut));
    assert_eq!(logged_out(Err(StoreError)), Err(Rejection::Database));
}

#[test]
fn pending_users_are_for_admins() {
    assert!(matches!(list_pending_users(&session(1, 1)), Ok(Statement::PendingUsers)));
    assert_eq!(list_pending_users(&session(1, 0)).err(), Some(Rejection::AdminsOnly));
    let rows = vec![PendingUser { id: 2, username: "bob".to_string() }];
    let users = pending_users(Ok(rows)).unwrap();
    assert_eq!(users.len(), 1);
    assert_eq!(users[0].id, 2);
    assert_eq!(users[0].username, "bob");
    assert_eq!(pending_users(Err(StoreError)).err(), Some(Rejection::Database));
}

#[test]
fn approval_is_for_admins() {
    assert!(matches!(
        approve_user(&session(0, 1), 5),
        Ok(Statement::ApproveUser { user_id: 5 })
    ));
    assert_eq!(approve_user(&session(1, 0), 5).err(), Some(Rejection::AdminsOnly));
    assert_eq!(user_approved(Ok(())), Ok(Notice::UserApproved));
    assert_eq!(user_approved(Err(StoreError)), Err(Rejection::Database));
}
