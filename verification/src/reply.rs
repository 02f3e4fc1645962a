//! What a request is answered with when it is refused, and the plain-text answers to requests
//! that succeed.

use vstd::prelude::*;

use crate::store::StoreError;

verus! {

/// Why a request is refused.
#[derive(Clone, Copy, Debug, PartialEq, Eq, Structural)]
pub enum Rejection {
    MissingToken,
    InvalidToken,
    Database,
    PendingAdminApproval,
    PendingApproval,
    AdminsOnly,
    MalformedMultipart,
    UnreadableData,
    UnknownFileType,
    NotAnImage,
    SaveFailed,
    NoFile,
    ImageNotFoundOrDenied,
    ImageNotFound,
    ServerConfiguration,
    DiscordUnreachable,
    DiscordRefused,
    NotYourImage,
    InvalidTag,
    TaskPanicked,
    HashFailed,
    Transaction,
    UsernameTaken,
    InvalidCredentials,
    TokenUpdate,
}

impl Rejection {
    /// The HTTP status that goes with the refusal.
    pub open spec fn status_code(self) -> u16 {
        match self {
            Rejection::MissingToken => 401,
            Rejection::InvalidToken => 401,
            Rejection::InvalidCredentials => 401,
            Rejection::PendingAdminApproval => 403,
            Rejection::PendingApproval => 403,
            Rejection::AdminsOnly => 403,
            Rejection::NotYourImage => 403,
            Rejection::ImageNotFoundOrDenied => 404,
            Rejection::ImageNotFound => 404,
            Rejection::UnknownFileType => 415,
            Rejection::MalformedMultipart => 400,
            Rejection::UnreadableData => 400,
            Rejection::NotAnImage => 400,
            Rejection::NoFile => 400,
            Rejection::InvalidTag => 400,
            Rejection::UsernameTaken => 400,
            _ => 500,
        }
    }

    /// The text that goes with the refusal.
    pub open spec fn text(self) -> Seq<char> {
        match self {
            Rejection::MissingToken => "Missing Token"@,
            Rejection::InvalidToken => "Invalid Token"@,
            Rejection::Database => "Database error"@,
            Rejection::PendingAdminApproval => "Account pending Admin approval"@,
            Rejection::PendingApproval => "Account pending approval"@,
            Rejection::AdminsOnly => "Admins only"@,
            Rejection::MalformedMultipart => "Malformed multipart"@,
            Rejection::UnreadableData => "Failed to read data"@,
            Rejection::UnknownFileType => "Unknown file type"@,
            Rejection::NotAnImage => "Only valid image files are allowed"@,
            Rejection::SaveFailed => "Failed to save file"@,
            Rejection::NoFile => "No file found in request"@,
            Rejection::ImageNotFoundOrDenied => "Image not found or access denied"@,
            Rejection::ImageNotFound => "Image not found"@,
            Rejection::ServerConfiguration => "Server configuration error"@,
            Rejection::DiscordUnreachable => "Network error reaching Discord"@,
            Rejection::DiscordRefused => "Discord rejected the message"@,
            Rejection::NotYourImage => "Not your image"@,
            Rejection::InvalidTag => "Invalid tag"@,
            Rejection::TaskPanicked => "Task panicked"@,
            Rejection::HashFailed => "Hash failed"@,
            Rejection::Transaction => "DB Error"@,
            Rejection::UsernameTaken => "Username taken"@,
            Rejection::InvalidCredentials => "Invalid username or password"@,
            Rejection::TokenUpdate => "Failed to update token"@,
        }
    }

    /// The HTTP status that goes with the refusal.
    pub fn status(&self) -> (code: u16)
        ensures
            code == self.status_code(),
    {
        match self {
            Rejection::MissingToken | Rejection::InvalidToken | Rejection::InvalidCredentials => 401,
            Rejection::PendingAdminApproval
            | Rejection::PendingApproval
            | Rejection::AdminsOnly
            | Rejection::NotYourImage => 403,
            Rejection::ImageNotFoundOrDenied | Rejection::ImageNotFound => 404,
            Rejection::UnknownFileType => 415,
            Rejection::MalformedMultipart
            | Rejection::UnreadableData
            | Rejection::NotAnImage
            | Rejection::NoFile
            | Rejection::InvalidTag
            | Rejection::UsernameTaken => 400,
            _ => 500,
        }
    }

    /// The text that goes with the refusal.
    pub fn message(&self) -> (text: &'static str)
        ensures
            text@ == self.text(),
    {
        match self {
            Rejection::MissingToken => "Missing Token",
            Rejection::InvalidToken => "Invalid Token",
            Rejection::Database => "Database error",
            Rejection::PendingAdminApproval => "Account pending Admin approval",
            Rejection::PendingApproval => "Account pending approval",
            Rejection::AdminsOnly => "Admins only",
            Rejection::MalformedMultipart => "Malformed multipart",
            Rejection::UnreadableData => "Failed to read data",
            Rejection::UnknownFileType => "Unknown file type",
            Rejection::NotAnImage => "Only valid image files are allowed",
            Rejection::SaveFailed => "Failed to save file",
            Rejection::NoFile => "No file found in request",
            Rejection::ImageNotFoundOrDenied => "Image not found or access denied",
            Rejection::ImageNotFound => "Image not found",
            Rejection::ServerConfiguration => "Server configuration error",
            Rejection::DiscordUnreachable => "Network error reaching Discord",
            Rejection::DiscordRefused => "Discord rejected the message",
            Rejection::NotYourImage => "Not your image",
            Rejection::InvalidTag => "Invalid tag",
            Rejection::TaskPanicked => "Task panicked",
            Rejection::HashFailed => "Hash failed",
            Rejection::Transaction => "DB Error",
            Rejection::UsernameTaken => "Username taken",
            Rejection::InvalidCredentials => "Invalid username or password",
            Rejection::TokenUpdate => "Failed to update token",
        }
    }
}

/// The plain-text answer to a request that succeeded.
#[derive(Clone, Copy, Debug, PartialEq, Eq, Structural)]
pub enum Notice {
    ImageDeleted,
    UserApproved,
    LoggedOut,
    AddedToFavorites,
    RemovedFromFavorites,
    TagAdded,
    TagRemoved,
}

impl Notice {
    /// The text of the answer.
    pub open spec fn text(self) -> Seq<char> {
        match self {
            Notice::ImageDeleted => "Image deleted"@,
            Notice::UserApproved => "User approved"@,
            Notice::LoggedOut => "Logged out"@,
            Notice::AddedToFavorites => "Added to favorites"@,
            Notice::RemovedFromFavorites => "Removed from favorites"@,
            Notice::TagAdded => "Tag added"@,
            Notice::TagRemoved => "Tag removed"@,
        }
    }

    /// The text of the answer.
    pub fn message(&self) -> (text: &'static str)
        ensures
            text@ == self.text(),
    {
        match self {
            Notice::ImageDeleted => "Image deleted",
            Notice::UserApproved => "User approved",
            Notice::LoggedOut => "Logged out",
            Notice::AddedToFavorites => "Added to favorites",
            Notice::RemovedFromFavorites => "Removed from favorites",
            Notice::TagAdded => "Tag added",
            Notice::TagRemoved => "Tag removed",
        }
    }
}

/// The digit `n`.
pub open spec fn decimal_digit(n: int) -> char {
    ('0' as int + n) as char
}

/// The reason phrase that goes with an HTTP status.
pub uninterp spec fn status_reason(code: u16) -> Seq<char>;

/// A number of three digits, and a space.
pub open spec fn status_number(code: u16) -> Seq<char> {
    seq![
        decimal_digit(code as int / 100),
        decimal_digit(code as int / 10 % 10),
        decimal_digit(code as int % 10),
        ' ',
    ]
}

/// An HTTP status as it is written out: its number, a space and the reason phrase.
pub open spec fn status_text(code: u16) -> Seq<char> {
    status_number(code) + status_reason(code)
}

/// `StatusCode::from_u16` takes the numbers of three digits, and `to_string` writes the number, a
/// space and the reason phrase, which a fixed table gives to each number; that of 500 is
/// `Internal Server Error`.
#[verifier::external_body]
pub(crate) fn status_line(code: u16) -> (line: Option<String>)
    ensures
        line is Some <==> 100 <= code <= 999,
        line matches Some(text) ==> text@ == status_number(code) + status_reason(code),
        line matches Some(text) ==> (code == 500 ==> text@ == "500 Internal Server Error"@),
{
    axum::http::StatusCode::from_u16(code).ok().map(|status| status.to_string())
}

/// Ends a request whose last statement returns nothing of interest.
pub fn acknowledged(outcome: Result<(), StoreError>, notice: Notice) -> (answer: Result<
    Notice,
    Rejection,
>)
    ensures
        answer == (match outcome {
            Err(_) => Err::<Notice, Rejection>(Rejection::Database),
            Ok(_) => Ok::<Notice, Rejection>(notice),
        }),
{
    match outcome {
        Err(_) => Err(Rejection::Database),
        Ok(_) => Ok(notice),
    }
}

/// Ends a request that is answered with what the store returned.
pub fn delivered<T>(answer: Result<T, StoreError>) -> (delivery: Result<T, Rejection>)
    ensures
        delivery == (match answer {
            Err(_) => Err::<T, Rejection>(Rejection::Database),
            Ok(rows) => Ok::<T, Rejection>(rows),
        }),
{
    match answer {
        Err(_) => Err(Rejection::Database),
        Ok(rows) => Ok(rows),
    }
}

} // verus!
