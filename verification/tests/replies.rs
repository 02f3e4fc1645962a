use image_host::reply::{acknowledged, delivered, Notice, Rejection};
use image_host::store::StoreError;

#[test]
fn refusals_carry_their_status_and_text() {
    let table = [
        (Rejection::MissingToken, 401, "Missing Token"),
        (Rejection::InvalidToken, 401, "Invalid Token"),
        (Rejection::Database, 500, "Database error"),
        (Rejection::PendingAdminApproval, 403, "Account pending Admin approval"),
        (Rejection::PendingApproval, 403, "Account pending approval"),
        (Rejection::AdminsOnly, 403, "Admins only"),
        (Rejection::MalformedMultipart, 400, "Malformed multipart"),
        (Rejection::UnreadableData, 400, "Failed to read data"),
        (Rejection::UnknownFileType, 415, "Unknown file type"),
        (Rejection::NotAnImage, 400, "Only valid image files are allowed"),
        (Rejection::SaveFailed, 500, "Failed to save file"),
        (Rejection::NoFile, 400, "No file found in request"),
        (Rejection::ImageNotFoundOrDenied, 404, "Image not found or access denied"),
        (Rejection::ImageNotFound, 404, "Image not found"),
        (Rejection::ServerConfiguration, 500, "Server configuration error"),
        (Rejection::DiscordUnreachable, 500, "Network error reaching Discord"),
        (Rejection::DiscordRefused, 500, "Discord rejected the message"),
        (Rejection::NotYourImage, 403, "Not your image"),
        (Rejection::InvalidTag, 400, "Invalid tag"),
        (Rejection::TaskPanicked, 500, "Task panicked"),
        (Rejection::HashFailed, 500, "Hash failed"),
        (Rejection::Transaction, 500, "DB Error"),
        (Rejection::UsernameTaken, 400, "Username taken"),
        (Rejection::InvalidCredentials, 401, "Invalid username or password"),
        (Rejection::TokenUpdate, 500, "Failed to update token"),
    ];
    for (rejection, status, message) in table {
        assert_eq!(rejection.status(), status);
        assert_eq!(rejection.message(), message);
    }
}

#[test]
fn notices_carry_their_text() {
    let table = [
        (Notice::ImageDeleted, "Image deleted"),
        (Notice::UserApproved, "User approved"),
        (Notice::LoggedOut, "Logged out"),
        (Notice::AddedToFavorites, "Added to favorites"),
        (Notice::RemovedFromFavorites, "Removed from favorites"),
        (Notice::TagAdded, "Tag added"),
        (Notice::TagRemoved, "Tag removed"),
    ];
    for (notice, message) in table {
        assert_eq!(notice.message(), message);
    }
}

#[test]
fn store_failures_are_answered_as_database_errors() {
    assert_eq!(acknowledged(Err(StoreError), Notice::LoggedOut), Err(Rejection::Database));
    assert_eq!(acknowledged(Ok(()), Notice::LoggedOut), Ok(Notice::LoggedOut));
    assert_eq!(delivered::<u8>(Err(StoreError)), Err(Rejection::Database));
    assert_eq!(delivered(Ok(5)), Ok(5));
}
