//! Registration, login, logout and approval.

use vstd::prelude::*;
use vstd::utf8::encode_utf8;

use crate::credentials::{
    check_password, fresh_identifier, hash_password, hash_token, is_uuid_v4, password_matches,
    token_digest, HashError, MAX_PASSWORD_BYTES,
};
use crate::reply::{acknowledged, delivered, Notice, Rejection};
use crate::session::Session;
use crate::store::{Query, Statement, StoreError};

verus! {

/// The body of a registration.
#[derive(Debug)]
pub struct RegisterRequest {
    pub username: String,
    pub password: String,
}

/// The answer to a registration.
#[derive(Debug)]
pub struct RegisterResponse {
    pub token: String,
}

/// The body of a login.
#[derive(Debug)]
pub struct LoginRequest {
    pub username: String,
    pub password: String,
}

/// The answer to a login.
#[derive(Debug)]
pub struct LoginResponse {
    pub token: String,
    pub is_admin: bool,
    pub is_approved: bool,
}

/// How the task that hashes a new password ended.
#[derive(Debug)]
pub enum HashTask {
    Panicked,
    Finished(Result<String, HashError>),
}

/// A registration whose password is hashed and whose token is drawn.
#[derive(Debug)]
pub struct Registration {
    pub username: String,
    pub password_hash: String,
    pub token: String,
}

/// A registration that the store has taken and that waits for the commit.
#[derive(Debug)]
pub struct RegistrationTaken {
    pub token: String,
}

/// Whether the store's count of users makes a new user the first one.
pub open spec fn is_first_user(count: Result<i64, StoreError>) -> bool {
    count is Ok && count->Ok_0 == 0
}

/// The row that a registration adds: the first user is an admin and approved, later ones are
/// neither. Of the token only its digest is kept.
pub open spec fn registered_row(
    username: Seq<char>,
    password_hash: Seq<char>,
    token: Seq<char>,
    first: bool,
) -> Statement<Seq<char>> {
    Statement::AddUser {
        username,
        password_hash,
        token_hash: token_digest(token),
        is_approved: if first { 1 } else { 0 },
        is_admin: if first { 1 } else { 0 },
    }
}

/// What a registration asks for once the users are counted. Where they could not be counted nobody
/// can tell whether the new user is the first one, and the registration ends.
pub open spec fn registration_row(
    username: Seq<char>,
    password_hash: Seq<char>,
    token: Seq<char>,
    count: Result<i64, StoreError>,
) -> Result<Statement<Seq<char>>, Rejection> {
    match count {
        Err(_) => Err(Rejection::Transaction),
        Ok(_) => Ok(registered_row(username, password_hash, token, is_first_user(count))),
    }
}

impl RegisterRequest {
    /// Hashes the password for storage.
    pub fn hash(&self) -> (hashed: Result<String, HashError>)
        ensures
            hashed is Ok <==> encode_utf8(self.password@).len() <= MAX_PASSWORD_BYTES,
            hashed matches Ok(text) ==> password_matches(self.password@, text@),
            hashed matches Ok(text) ==> "$argon2id$v=19$m=19456,t=2,p=1$"@.is_prefix_of(text@),
    {
        hash_password(self.password.as_str())
    }
}

/// Starts a registration once the task that runs `RegisterRequest::hash` has ended. A fresh token
/// is drawn; a transaction is to be opened next.
pub fn register_user(request: &RegisterRequest, hashing: HashTask) -> (started: Result<
    Registration,
    Rejection,
>)
    ensures
        match hashing {
            HashTask::Panicked => started == Err::<Registration, Rejection>(
                Rejection::TaskPanicked,
            ),
            HashTask::Finished(Err(_)) => started == Err::<Registration, Rejection>(
                Rejection::HashFailed,
            ),
            HashTask::Finished(Ok(hash)) => {
                &&& started is Ok
                &&& started->Ok_0.username@ == request.username@
                &&& started->Ok_0.password_hash@ == hash@
                &&& is_uuid_v4(started->Ok_0.token@)
            },
        },
{
    match hashing {
        HashTask::Panicked => Err(Rejection::TaskPanicked),
        HashTask::Finished(Err(_)) => Err(Rejection::HashFailed),
        HashTask::Finished(Ok(password_hash)) => Ok(
            Registration {
                username: request.username.clone(),
                password_hash,
                token: fresh_identifier(),
            },
        ),
    }
}

impl Registration {
    /// Goes on once the transaction has been asked for: the users are counted.
    pub fn begun(&self, opened: Result<(), StoreError>) -> (asked: Result<Query, Rejection>)
        ensures
            match opened {
                Err(_) => asked == Err::<Query, Rejection>(Rejection::Transaction),
                Ok(_) => asked is Ok && asked->Ok_0@ == Statement::<Seq<char>>::CountUsers,
            },
    {
        match opened {
            Err(_) => Err(Rejection::Transaction),
            Ok(_) => Ok(Statement::CountUsers),
        }
    }

    /// Goes on with the number of users: the new one is added.
    pub fn counted(&self, count: Result<i64, StoreError>) -> (asked: Result<Query, Rejection>)
        ensures
            match registration_row(self.username@, self.password_hash@, self.token@, count) {
                Err(refusal) => asked == Err::<Query, Rejection>(refusal),
                Ok(row) => asked is Ok && asked->Ok_0@ == row,
            },
    {
        let known: i64 = match count {
            Ok(n) => n,
            Err(_) => {
                return Err(Rejection::Transaction);
            },
        };
        let flag: i64 = if known == 0 {
            1
        } else {
            0
        };
        Ok(
            Statement::AddUser {
                username: self.username.clone(),
                password_hash: self.password_hash.clone(),
                token_hash: hash_token(self.token.as_str()),
                is_approved: flag,
                is_admin: flag,
            },
        )
    }

    /// Goes on once the store has answered the insertion: the transaction is to be committed.
    pub fn inserted(self, added: Result<(), StoreError>) -> (taken: Result<
        RegistrationTaken,
        Rejection,
    >)
        ensures
            match added {
                Err(_) => taken == Err::<RegistrationTaken, Rejection>(Rejection::UsernameTaken),
                Ok(_) => taken is Ok && taken->Ok_0.token@ == self.token@,
            },
    {
        match added {
            Err(_) => Err(Rejection::UsernameTaken),
            Ok(_) => Ok(RegistrationTaken { token: self.token }),
        }
    }
}

impl RegistrationTaken {
    /// Ends a registration: the token is handed out once the commit went through.
    pub fn committed(self, outcome: Result<(), StoreError>) -> (response: Result<
        RegisterResponse,
        Rejection,
    >)
        ensures
            match outcome {
                Err(_) => response == Err::<RegisterResponse, Rejection>(Rejection::Transaction),
                Ok(_) => response is Ok && response->Ok_0.token@ == self.token@,
            },
    {
        match outcome {
            Err(_) => Err(Rejection::Transaction),
            Ok(_) => Ok(RegisterResponse { token: self.token }),
        }
    }
}

/// The columns of a user that a login depends on.
#[derive(Debug)]
pub struct Credentials {
    pub id: i64,
    pub password_hash: String,
    pub is_admin: i64,
    pub is_approved: i64,
}

/// A login that waits for the account of its user name.
#[derive(Debug)]
pub struct Login {
    pub password: String,
}

/// The password work of a login. Where there is no account the password is hashed all the same, so
/// that the time taken does not tell the two cases apart.
#[derive(Debug)]
pub enum Challenge {
    Verify { password: String, credentials: Credentials },
    Decoy { password: String },
}

/// A login that passed and waits for its new token to be stored.
#[derive(Debug)]
pub struct Rotation {
    pub token: String,
    pub is_admin: bool,
    pub is_approved: bool,
}

/// Starts a login: the store is asked for the account of the user name.
pub fn login_user(request: LoginRequest) -> (asked: (Query, Login))
    ensures
        asked.0@ == (Statement::CredentialsByName { username: request.username@ }),
        asked.1.password@ == request.password@,
{
    (
        Statement::CredentialsByName { username: request.username },
        Login { password: request.password },
    )
}

impl Login {
    /// Goes on with the store's answer: the password is to be checked next.
    pub fn found(self, answer: Result<Option<Credentials>, StoreError>) -> (challenge: Result<
        Challenge,
        Rejection,
    >)
        ensures
            match answer {
                Err(_) => challenge == Err::<Challenge, Rejection>(Rejection::Database),
                Ok(None) => challenge == Ok::<Challenge, Rejection>(
                    Challenge::Decoy { password: self.password },
                ),
                Ok(Some(credentials)) => challenge == Ok::<Challenge, Rejection>(
                    Challenge::Verify { password: self.password, credentials },
                ),
            },
    {
        match answer {
            Err(_) => Err(Rejection::Database),
            Ok(None) => Ok(Challenge::Decoy { password: self.password }),
            Ok(Some(credentials)) => Ok(
                Challenge::Verify { password: self.password, credentials },
            ),
        }
    }
}

impl Challenge {
    /// Whether the password opens the account that was found.
    pub open spec fn succeeds(self) -> bool {
        match self {
            Challenge::Verify { password, credentials } => password_matches(
                password@,
                credentials.password_hash@,
            ),
            Challenge::Decoy { .. } => false,
        }
    }

    /// Does the password work.
    pub fn run(&self) -> (matching: bool)
        ensures
            matching == self.succeeds(),
            self matches Challenge::Verify { password, credentials } ==> matching
                == password_matches(password@, credentials.password_hash@),
            self is Decoy ==> !matching,
            matching && self is Verify ==> "$argon2"@.is_prefix_of(
                self->Verify_credentials.password_hash@,
            ),
    {
        match self {
            Challenge::Verify { password, credentials } => check_password(
                password.as_str(),
                credentials.password_hash.as_str(),
            ),
            Challenge::Decoy { password } => {
                let _ = hash_password(password.as_str());
                false
            },
        }
    }

    /// Goes on with the outcome of the password work: a fresh token takes the place of the former
    /// one.
    pub fn answered(&self, matching: bool) -> (asked: Result<(Query, Rotation), Rejection>)
        ensures
            match self {
                Challenge::Verify { credentials, .. } if matching => {
                    &&& asked is Ok
                    &&& is_uuid_v4(asked->Ok_0.1.token@)
                    &&& asked->Ok_0.0@ == (Statement::SetToken {
                        token_hash: token_digest(asked->Ok_0.1.token@),
                        user_id: credentials.id,
                    })
                    &&& asked->Ok_0.1.is_admin == (credentials.is_admin == 1)
                    &&& asked->Ok_0.1.is_approved == (credentials.is_approved == 1)
                },
                _ => asked == Err::<(Query, Rotation), Rejection>(Rejection::InvalidCredentials),
            },
    {
        match self {
            Challenge::Decoy { .. } => Err(Rejection::InvalidCredentials),
            Challenge::Verify { password: _, credentials } => {
                if !matching {
                    return Err(Rejection::InvalidCredentials);
                }
                let token = fresh_identifier();
                let asked = Statement::SetToken {
                    token_hash: hash_token(token.as_str()),
                    user_id: credentials.id,
                };
                Ok(
                    (
                        asked,
                        Rotation {
                            token,
                            is_admin: credentials.is_admin == 1,
                            is_approved: credentials.is_approved == 1,
                        },
                    ),
                )
            },
        }
    }
}

impl Rotation {
    /// Ends a login: the token is handed out once its digest is stored.
    pub fn stored(self, outcome: Result<(), StoreError>) -> (response: Result<
        LoginResponse,
        Rejection,
    >)
        ensures
            match outcome {
                Err(_) => response == Err::<LoginResponse, Rejection>(Rejection::TokenUpdate),
                Ok(_) => {
                    &&& response is Ok
                    &&& response->Ok_0.token@ == self.token@
                    &&& response->Ok_0.is_admin == self.is_admin
                    &&& response->Ok_0.is_approved == self.is_approved
                },
            },
    {
        match outcome {
            Err(_) => Err(Rejection::TokenUpdate),
            Ok(_) => Ok(
                LoginResponse {
                    token: self.token,
                    is_admin: self.is_admin,
                    is_approved: self.is_approved,
                },
            ),
        }
    }
}

/// Starts a logout: the token of the user is cleared.
pub fn logout_user(session: &Session) -> (asked: Query)
    ensures
        asked@ == (Statement::<Seq<char>>::ClearToken { user_id: session.account().id }),
{
    Statement::ClearToken { user_id: session.user_id() }
}

/// Ends a logout.
pub fn logged_out(outcome: Result<(), StoreError>) -> (answer: Result<Notice, Rejection>)
    ensures
        answer == (match outcome {
            Err(_) => Err::<Notice, Rejection>(Rejection::Database),
            Ok(_) => Ok::<Notice, Rejection>(Notice::LoggedOut),
        }),
{
    acknowledged(outcome, Notice::LoggedOut)
}

/// A user that waits for approval.
#[derive(Debug)]
pub struct PendingUser {
    pub id: i64,
    pub username: String,
}

/// Starts the listing of pending users, for admins only.
pub fn list_pending_users(session: &Session) -> (asked: Result<Query, Rejection>)
    ensures
        if session.account().is_admin == 0 {
            asked == Err::<Query, Rejection>(Rejection::AdminsOnly)
        } else {
            asked is Ok && asked->Ok_0@ == Statement::<Seq<char>>::PendingUsers
        },
{
    if session.is_admin() {
        Ok(Statement::PendingUsers)
    } else {
        Err(Rejection::AdminsOnly)
    }
}

/// Ends the listing of pending users: they are answered as the store returned them.
pub fn pending_users(rows: Result<Vec<PendingUser>, StoreError>) -> (pending: Result<
    Vec<PendingUser>,
    Rejection,
>)
    ensures
        pending == (match rows {
            Err(_) => Err::<Vec<PendingUser>, Rejection>(Rejection::Database),
            Ok(users) => Ok::<Vec<PendingUser>, Rejection>(users),
        }),
{
    delivered(rows)
}

/// Starts the approval of a user, for admins only.
pub fn approve_user(session: &Session, target_user_id: i64) -> (asked: Result<Query, Rejection>)
    ensures
        if session.account().is_admin == 0 {
            asked == Err::<Query, Rejection>(Rejection::AdminsOnly)
        } else {
            asked is Ok && asked->Ok_0@ == (Statement::<Seq<char>>::ApproveUser {
                user_id: target_user_id,
            })
        },
{
    if session.is_admin() {
        Ok(Statement::ApproveUser { user_id: target_user_id })
    } else {
        Err(Rejection::AdminsOnly)
    }
}

/// Ends the approval of a user.
pub fn user_approved(outcome: Result<(), StoreError>) -> (answer: Result<Notice, Rejection>)
    ensures
        answer == (match outcome {
            Err(_) => Err::<Notice, Rejection>(Rejection::Database),
            Ok(_) => Ok::<Notice, Rejection>(Notice::UserApproved),
        }),
{
    acknowledged(outcome, Notice::UserApproved)
}

/// Whatever the id and the flags of the account, the password work succeeds exactly where the
/// password matches the stored hash: of two accounts with the same hash, the same passwords open
/// both or neither.
pub proof fn law_only_the_hash_decides_a_login(
    password: String,
    credentials: Credentials,
    other_password: String,
    others: Credentials,
)
    requires
        password@ == other_password@,
        credentials.password_hash@ == others.password_hash@,
    ensures
        (Challenge::Verify { password, credentials }).succeeds() == (Challenge::Verify {
            password: other_password,
            credentials: others,
        }).succeeds(),
        (Challenge::Verify { password, credentials }).succeeds() == password_matches(
            password@,
            credentials.password_hash@,
        ),
        !(Challenge::Decoy { password }).succeeds(),
{
}

/// Who registers while the store counts no user becomes an approved admin, who registers while it
/// counts any number of users is neither, and a failed count ends the registration. Name, hash and
/// token digest go into the row as they are.
pub proof fn law_count_decides_what_a_new_user_is(
    username: Seq<char>,
    password_hash: Seq<char>,
    token: Seq<char>,
    count: i64,
)
    ensures
        registration_row(username, password_hash, token, Ok(count)) == Ok::<
            Statement<Seq<char>>,
            Rejection,
        >(
            Statement::AddUser {
                username,
                password_hash,
                token_hash: token_digest(token),
                is_approved: if count == 0 { 1 } else { 0 },
                is_admin: if count == 0 { 1 } else { 0 },
            },
        ),
        registration_row(username, password_hash, token, Err(StoreError)) is Err,
{
}

} // verus!
