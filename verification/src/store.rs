//! The statements that the handlers put to the relational store.

use vstd::prelude::*;

verus! {

/// The store reported a failure.
#[derive(Clone, Copy, Debug, PartialEq, Eq, Structural)]
pub struct StoreError;

/// A value bound to a placeholder of a statement.
#[derive(Debug)]
pub enum Param<Text> {
    Integer(i64),
    Text(Text),
}

impl View for Param<String> {
    type V = Param<Seq<char>>;

    open spec fn view(&self) -> Param<Seq<char>> {
        match self {
            Param::Integer(n) => Param::Integer(*n),
            Param::Text(text) => Param::Text(text@),
        }
    }
}

/// A statement with the values bound to it. `Text` is `String` in running code and `Seq<char>` in
/// contracts.
#[derive(Debug)]
pub enum Statement<Text> {
    /// The account that holds a token digest.
    AccountByToken { token_hash: Text },
    /// The account of a user name, with its password hash.
    CredentialsByName { username: Text },
    /// How many users there are.
    CountUsers,
    /// A new user.
    AddUser {
        username: Text,
        password_hash: Text,
        token_hash: Text,
        is_approved: i64,
        is_admin: i64,
    },
    /// A new token digest for a user.
    SetToken { token_hash: Text, user_id: i64 },
    /// No token any more for a user.
    ClearToken { user_id: i64 },
    /// The users that wait for approval.
    PendingUsers,
    /// Approval of a user.
    ApproveUser { user_id: i64 },
    /// A new image of a user.
    AddImage { user_id: i64, file_path: Text },
    /// The path of an image, if the user owns it.
    OwnedImagePath { image_id: i64, user_id: i64 },
    /// The id of an image, if the user owns it.
    OwnedImage { image_id: i64, user_id: i64 },
    /// The id of the image at a path.
    ImageByPath { file_path: Text },
    /// Removal of an image.
    DeleteImage { image_id: i64 },
    /// The images of a user, those with a tag where one is given.
    UserImages { user_id: i64, tag: Text },
    /// All images, with the favorites of a user marked.
    AllImagesFor { user_id: i64, tag: Text },
    /// All images, with no favorites marked.
    AllImages { tag: Text },
    /// The favorites of a user.
    FavoriteImages { user_id: i64 },
    /// One favorite less.
    RemoveFavorite { user_id: i64, image_id: i64 },
    /// One favorite more.
    AddFavorite { user_id: i64, image_id: i64 },
    /// All tag names.
    TagNames,
    /// A tag of that name, unless there is one.
    AddTag { name: Text },
    /// The id of the tag of a name.
    TagByName { name: Text },
    /// A tag on an image, unless it is there.
    LinkTag { image_id: i64, tag_id: i64 },
    /// A tag taken off an image.
    UnlinkTag { image_id: i64, name: Text },
}

/// A statement in running code.
pub type Query = Statement<String>;

impl View for Statement<String> {
    type V = Statement<Seq<char>>;

    open spec fn view(&self) -> Statement<Seq<char>> {
        match self {
            Statement::AccountByToken { token_hash } => Statement::AccountByToken {
                token_hash: token_hash@,
            },
            Statement::CredentialsByName { username } => Statement::CredentialsByName {
                username: username@,
            },
            Statement::CountUsers => Statement::CountUsers,
            Statement::AddUser { username, password_hash, token_hash, is_approved, is_admin } => {
                Statement::AddUser {
                    username: username@,
                    password_hash: password_hash@,
                    token_hash: token_hash@,
                    is_approved: *is_approved,
                    is_admin: *is_admin,
                }
            },
            Statement::SetToken { token_hash, user_id } => Statement::SetToken {
                token_hash: token_hash@,
                user_id: *user_id,
            },
            Statement::ClearToken { user_id } => Statement::ClearToken {
                user_id: *user_id,
            },
            Statement::PendingUsers => Statement::PendingUsers,
            Statement::ApproveUser { user_id } => Statement::ApproveUser {
                user_id: *user_id,
            },
            Statement::AddImage { user_id, file_path } => Statement::AddImage {
                user_id: *user_id,
                file_path: file_path@,
            },
            Statement::OwnedImagePath { image_id, user_id } => Statement::OwnedImagePath {
                image_id: *image_id,
                user_id: *user_id,
            },
            Statement::OwnedImage { image_id, user_id } => Statement::OwnedImage {
                image_id: *image_id,
                user_id: *user_id,
            },
            Statement::ImageByPath { file_path } => Statement::ImageByPath {
                file_path: file_path@,
            },
            Statement::DeleteImage { image_id } => Statement::DeleteImage {
                image_id: *image_id,
            },
            Statement::UserImages { user_id, tag } => Statement::UserImages {
                user_id: *user_id,
                tag: tag@,
            },
            Statement::AllImagesFor { user_id, tag } => Statement::AllImagesFor {
                user_id: *user_id,
                tag: tag@,
            },
            Statement::AllImages { tag } => Statement::AllImages {
                tag: tag@,
            },
            Statement::FavoriteImages { user_id } => Statement::FavoriteImages {
                user_id: *user_id,
            },
            Statement::RemoveFavorite { user_id, image_id } => Statement::RemoveFavorite {
                user_id: *user_id,
                image_id: *image_id,
            },
            Statement::AddFavorite { user_id, image_id } => Statement::AddFavorite {
                user_id: *user_id,
                image_id: *image_id,
            },
            Statement::TagNames => Statement::TagNames,
            Statement::AddTag { name } => Statement::AddTag {
                name: name@,
            },
            Statement::TagByName { name } => Statement::TagByName {
                name: name@,
            },
            Statement::LinkTag { image_id, tag_id } => Statement::LinkTag {
                image_id: *image_id,
                tag_id: *tag_id,
            },
            Statement::UnlinkTag { image_id, name } => Statement::UnlinkTag {
                image_id: *image_id,
                name: name@,
            },
        }
    }
}

pub const ACCOUNT_BY_TOKEN: &'static str =
    "SELECT id, is_approved, is_admin FROM users WHERE token_hash = ?";

pub const CREDENTIALS_BY_NAME: &'static str =
    "SELECT id, password_hash, is_admin, is_approved FROM users WHERE username = ?";

pub const COUNT_USERS: &'static str =
    "SELECT COUNT(*) FROM users";

pub const ADD_USER: &'static str =
    "INSERT INTO users (username, password_hash, token_hash, is_approved, is_admin) VALUES (?, ?, ?, ?, ?)";

pub const SET_TOKEN: &'static str =
    "UPDATE users SET token_hash = ? WHERE id = ?";

pub const CLEAR_TOKEN: &'static str =
    "UPDATE users SET token_hash = '' WHERE id = ?";

pub const PENDING_USERS: &'static str =
    "SELECT id, username FROM users WHERE is_approved = 0";

pub const APPROVE_USER: &'static str =
    "UPDATE users SET is_approved = 1 WHERE id = ?";

pub const ADD_IMAGE: &'static str =
    "INSERT INTO images (user_id, file_path) VALUES (?, ?)";

pub const OWNED_IMAGE_PATH: &'static str =
    "SELECT file_path FROM images WHERE id = ? AND user_id = ?";

pub const OWNED_IMAGE: &'static str =
    "SELECT id FROM images WHERE id = ? AND user_id = ?";

pub const IMAGE_BY_PATH: &'static str =
    "SELECT id FROM images WHERE file_path = ?";

pub const DELETE_IMAGE: &'static str =
    "DELETE FROM images WHERE id = ?";

pub const USER_IMAGES: &'static str =
    "SELECT i.id, i.file_path, (f.image_id IS NOT NULL) AS is_favorited, \
     IFNULL(GROUP_CONCAT(t.name), '') AS tags \
     FROM images i \
     LEFT JOIN favorites f ON i.id = f.image_id AND f.user_id = ? \
     LEFT JOIN image_tags it ON i.id = it.image_id \
     LEFT JOIN tags t ON it.tag_id = t.id \
     WHERE i.user_id = ? AND (? = '' OR i.id IN (SELECT image_id FROM image_tags JOIN tags ON image_tags.tag_id = tags.id WHERE tags.name = ?)) \
     GROUP BY i.id \
     ORDER BY i.id DESC";

pub const ALL_IMAGES_FOR: &'static str =
    "SELECT i.id, i.file_path, (f.image_id IS NOT NULL) AS is_favorited, \
     IFNULL(GROUP_CONCAT(t.name), '') AS tags \
     FROM images i \
     LEFT JOIN favorites f ON i.id = f.image_id AND f.user_id = ? \
     LEFT JOIN image_tags it ON i.id = it.image_id \
     LEFT JOIN tags t ON it.tag_id = t.id \
     WHERE (? = '' OR i.id IN (SELECT image_id FROM image_tags JOIN tags ON image_tags.tag_id = tags.id WHERE tags.name = ?)) \
     GROUP BY i.id \
     ORDER BY i.id DESC";

pub const ALL_IMAGES: &'static str =
    "SELECT i.id, i.file_path, 0 AS is_favorited, \
     IFNULL(GROUP_CONCAT(t.name), '') AS tags \
     FROM images i \
     LEFT JOIN image_tags it ON i.id = it.image_id \
     LEFT JOIN tags t ON it.tag_id = t.id \
     WHERE (? = '' OR i.id IN (SELECT image_id FROM image_tags JOIN tags ON image_tags.tag_id = tags.id WHERE tags.name = ?)) \
     GROUP BY i.id \
     ORDER BY i.id DESC";

pub const FAVORITE_IMAGES: &'static str =
    "SELECT i.id, i.file_path, 1 AS is_favorited, IFNULL(GROUP_CONCAT(t.name), '') AS tags \
     FROM images i \
     JOIN favorites f ON i.id = f.image_id \
     LEFT JOIN image_tags it ON i.id = it.image_id \
     LEFT JOIN tags t ON it.tag_id = t.id \
     WHERE f.user_id = ? \
     GROUP BY i.id \
     ORDER BY i.id DESC";

pub const REMOVE_FAVORITE: &'static str =
    "DELETE FROM favorites WHERE user_id = ? AND image_id = ?";

pub const ADD_FAVORITE: &'static str =
    "INSERT INTO favorites (user_id, image_id) VALUES (?, ?)";

pub const TAG_NAMES: &'static str =
    "SELECT name FROM tags ORDER BY name ASC";

pub const ADD_TAG: &'static str =
    "INSERT OR IGNORE INTO tags (name) VALUES (?)";

pub const TAG_BY_NAME: &'static str =
    "SELECT id FROM tags WHERE name = ?";

pub const LINK_TAG: &'static str =
    "INSERT OR IGNORE INTO image_tags (image_id, tag_id) VALUES (?, ?)";

pub const UNLINK_TAG: &'static str =
    "DELETE FROM image_tags WHERE image_id = ? AND tag_id = (SELECT id FROM tags WHERE name = ?)";

impl<Text> Statement<Text> {
    /// The SQL text of the statement, with `?` for each bound value.
    pub open spec fn sql_text(self) -> Seq<char> {
        match self {
            Statement::AccountByToken { .. } => ACCOUNT_BY_TOKEN@,
            Statement::CredentialsByName { .. } => CREDENTIALS_BY_NAME@,
            Statement::CountUsers => COUNT_USERS@,
            Statement::AddUser { .. } => ADD_USER@,
            Statement::SetToken { .. } => SET_TOKEN@,
            Statement::ClearToken { .. } => CLEAR_TOKEN@,
            Statement::PendingUsers => PENDING_USERS@,
            Statement::ApproveUser { .. } => APPROVE_USER@,
            Statement::AddImage { .. } => ADD_IMAGE@,
            Statement::OwnedImagePath { .. } => OWNED_IMAGE_PATH@,
            Statement::OwnedImage { .. } => OWNED_IMAGE@,
            Statement::ImageByPath { .. } => IMAGE_BY_PATH@,
            Statement::DeleteImage { .. } => DELETE_IMAGE@,
            Statement::UserImages { .. } => USER_IMAGES@,
            Statement::AllImagesFor { .. } => ALL_IMAGES_FOR@,
            Statement::AllImages { .. } => ALL_IMAGES@,
            Statement::FavoriteImages { .. } => FAVORITE_IMAGES@,
            Statement::RemoveFavorite { .. } => REMOVE_FAVORITE@,
            Statement::AddFavorite { .. } => ADD_FAVORITE@,
            Statement::TagNames => TAG_NAMES@,
            Statement::AddTag { .. } => ADD_TAG@,
            Statement::TagByName { .. } => TAG_BY_NAME@,
            Statement::LinkTag { .. } => LINK_TAG@,
            Statement::UnlinkTag { .. } => UNLINK_TAG@,
        }
    }

    /// The values for the placeholders, in order.
    pub open spec fn bound(self) -> Seq<Param<Text>> {
        match self {
            Statement::AccountByToken { token_hash } => seq![Param::Text(token_hash)],
            Statement::CredentialsByName { username } => seq![Param::Text(username)],
            Statement::CountUsers => seq![],
            Statement::AddUser { username, password_hash, token_hash, is_approved, is_admin } => seq![
                Param::Text(username),
                Param::Text(password_hash),
                Param::Text(token_hash),
                Param::Integer(is_approved),
                Param::Integer(is_admin),
            ],
            Statement::SetToken { token_hash, user_id } => seq![
                Param::Text(token_hash),
                Param::Integer(user_id),
            ],
            Statement::ClearToken { user_id } => seq![Param::Integer(user_id)],
            Statement::PendingUsers => seq![],
            Statement::ApproveUser { user_id } => seq![Param::Integer(user_id)],
            Statement::AddImage { user_id, file_path } => seq![
                Param::Integer(user_id),
                Param::Text(file_path),
            ],
            Statement::OwnedImagePath { image_id, user_id } => seq![
                Param::Integer(image_id),
                Param::Integer(user_id),
            ],
            Statement::OwnedImage { image_id, user_id } => seq![
                Param::Integer(image_id),
                Param::Integer(user_id),
            ],
            Statement::ImageByPath { file_path } => seq![Param::Text(file_path)],
            Statement::DeleteImage { image_id } => seq![Param::Integer(image_id)],
            Statement::UserImages { user_id, tag } => seq![
                Param::Integer(user_id),
                Param::Integer(user_id),
                Param::Text(tag),
                Param::Text(tag),
            ],
            Statement::AllImagesFor { user_id, tag } => seq![
                Param::Integer(user_id),
                Param::Text(tag),
                Param::Text(tag),
            ],
            Statement::AllImages { tag } => seq![Param::Text(tag), Param::Text(tag)],
            Statement::FavoriteImages { user_id } => seq![Param::Integer(user_id)],
            Statement::RemoveFavorite { user_id, image_id } => seq![
                Param::Integer(user_id),
                Param::Integer(image_id),
            ],
            Statement::AddFavorite { user_id, image_id } => seq![
                Param::Integer(user_id),
                Param::Integer(image_id),
            ],
            Statement::TagNames => seq![],
            Statement::AddTag { name } => seq![Param::Text(name)],
            Statement::TagByName { name } => seq![Param::Text(name)],
            Statement::LinkTag { image_id, tag_id } => seq![
                Param::Integer(image_id),
                Param::Integer(tag_id),
            ],
            Statement::UnlinkTag { image_id, name } => seq![
                Param::Integer(image_id),
                Param::Text(name),
            ],
        }
    }
}

impl Statement<String> {
    /// The SQL text of the statement.
    pub fn sql(&self) -> (text: &'static str)
        ensures
            text@ == self@.sql_text(),
    {
        match self {
            Statement::AccountByToken { .. } => ACCOUNT_BY_TOKEN,
            Statement::CredentialsByName { .. } => CREDENTIALS_BY_NAME,
            Statement::CountUsers => COUNT_USERS,
            Statement::AddUser { .. } => ADD_USER,
            Statement::SetToken { .. } => SET_TOKEN,
            Statement::ClearToken { .. } => CLEAR_TOKEN,
            Statement::PendingUsers => PENDING_USERS,
            Statement::ApproveUser { .. } => APPROVE_USER,
            Statement::AddImage { .. } => ADD_IMAGE,
            Statement::OwnedImagePath { .. } => OWNED_IMAGE_PATH,
            Statement::OwnedImage { .. } => OWNED_IMAGE,
            Statement::ImageByPath { .. } => IMAGE_BY_PATH,
            Statement::DeleteImage { .. } => DELETE_IMAGE,
            Statement::UserImages { .. } => USER_IMAGES,
            Statement::AllImagesFor { .. } => ALL_IMAGES_FOR,
            Statement::AllImages { .. } => ALL_IMAGES,
            Statement::FavoriteImages { .. } => FAVORITE_IMAGES,
            Statement::RemoveFavorite { .. } => REMOVE_FAVORITE,
            Statement::AddFavorite { .. } => ADD_FAVORITE,
            Statement::TagNames => TAG_NAMES,
            Statement::AddTag { .. } => ADD_TAG,
            Statement::TagByName { .. } => TAG_BY_NAME,
            Statement::LinkTag { .. } => LINK_TAG,
            Statement::UnlinkTag { .. } => UNLINK_TAG,
        }
    }

    /// The values for the placeholders of the SQL text, in order.
    pub fn params(&self) -> (values: Vec<Param<String>>)
        ensures
            values@.map_values(|p: Param<String>| p@) == self@.bound(),
    {
        let values: Vec<Param<String>> = match self {
            Statement::AccountByToken { token_hash } => vec![Param::Text(token_hash.clone())],
            Statement::CredentialsByName { username } => vec![Param::Text(username.clone())],
            Statement::CountUsers => vec![],
            Statement::AddUser { username, password_hash, token_hash, is_approved, is_admin } => vec![
                Param::Text(username.clone()),
                Param::Text(password_hash.clone()),
                Param::Text(token_hash.clone()),
                Param::Integer(*is_approved),
                Param::Integer(*is_admin),
            ],
            Statement::SetToken { token_hash, user_id } => vec![
                Param::Text(token_hash.clone()),
                Param::Integer(*user_id),
            ],
            Statement::ClearToken { user_id } => vec![Param::Integer(*user_id)],
            Statement::PendingUsers => vec![],
            Statement::ApproveUser { user_id } => vec![Param::Integer(*user_id)],
            Statement::AddImage { user_id, file_path } => vec![
                Param::Integer(*user_id),
                Param::Text(file_path.clone()),
            ],
            Statement::OwnedImagePath { image_id, user_id } => vec![
                Param::Integer(*image_id),
                Param::Integer(*user_id),
            ],
            Statement::OwnedImage { image_id, user_id } => vec![
                Param::Integer(*image_id),
                Param::Integer(*user_id),
            ],
            Statement::ImageByPath { file_path } => vec![Param::Text(file_path.clone())],
            Statement::DeleteImage { image_id } => vec![Param::Integer(*image_id)],
            Statement::UserImages { user_id, tag } => vec![
                Param::Integer(*user_id),
                Param::Integer(*user_id),
                Param::Text(tag.clone()),
                Param::Text(tag.clone()),
            ],
            Statement::AllImagesFor { user_id, tag } => vec![
                Param::Integer(*user_id),
                Param::Text(tag.clone()),
                Param::Text(tag.clone()),
            ],
            Statement::AllImages { tag } => vec![
                Param::Text(tag.clone()),
                Param::Text(tag.clone()),
            ],
            Statement::FavoriteImages { user_id } => vec![Param::Integer(*user_id)],
            Statement::RemoveFavorite { user_id, image_id } => vec![
                Param::Integer(*user_id),
                Param::Integer(*image_id),
            ],
            Statement::AddFavorite { user_id, image_id } => vec![
                Param::Integer(*user_id),
                Param::Integer(*image_id),
            ],
            Statement::TagNames => vec![],
            Statement::AddTag { name } => vec![Param::Text(name.clone())],
            Statement::TagByName { name } => vec![Param::Text(name.clone())],
            Statement::LinkTag { image_id, tag_id } => vec![
                Param::Integer(*image_id),
                Param::Integer(*tag_id),
            ],
            Statement::UnlinkTag { image_id, name } => vec![
                Param::Integer(*image_id),
                Param::Text(name.clone()),
            ],
        };
        assert(values@.map_values(|p: Param<String>| p@) =~= self@.bound());
        values
    }
}

/// The SQL text of every statement, whatever values are bound to it.
pub proof fn law_sql_of_each_statement<Text>(statement: Statement<Text>)
    ensures
        statement is AccountByToken ==> statement.sql_text()
            == "SELECT id, is_approved, is_admin FROM users WHERE token_hash = ?"@,
        statement is CredentialsByName ==> statement.sql_text()
            == "SELECT id, password_hash, is_admin, is_approved FROM users WHERE username = ?"@,
        statement is CountUsers ==> statement.sql_text() == "SELECT COUNT(*) FROM users"@,
        statement is AddUser ==> statement.sql_text()
            == "INSERT INTO users (username, password_hash, token_hash, is_approved, is_admin) \
             VALUES (?, ?, ?, ?, ?)"@,
        statement is SetToken ==> statement.sql_text()
            == "UPDATE users SET token_hash = ? WHERE id = ?"@,
        statement is ClearToken ==> statement.sql_text()
            == "UPDATE users SET token_hash = '' WHERE id = ?"@,
        statement is PendingUsers ==> statement.sql_text()
            == "SELECT id, username FROM users WHERE is_approved = 0"@,
        statement is ApproveUser ==> statement.sql_text()
            == "UPDATE users SET is_approved = 1 WHERE id = ?"@,
        statement is AddImage ==> statement.sql_text()
            == "INSERT INTO images (user_id, file_path) VALUES (?, ?)"@,
        statement is OwnedImagePath ==> statement.sql_text()
            == "SELECT file_path FROM images WHERE id = ? AND user_id = ?"@,
        statement is OwnedImage ==> statement.sql_text()
            == "SELECT id FROM images WHERE id = ? AND user_id = ?"@,
        statement is ImageByPath ==> statement.sql_text()
            == "SELECT id FROM images WHERE file_path = ?"@,
        statement is DeleteImage ==> statement.sql_text() == "DELETE FROM images WHERE id = ?"@,
        statement is UserImages ==> statement.sql_text()
            == "SELECT i.id, i.file_path, (f.image_id IS NOT NULL) AS is_favorited, \
             IFNULL(GROUP_CONCAT(t.name), '') AS tags FROM images i LEFT JOIN favorites f ON i.id \
             = f.image_id AND f.user_id = ? LEFT JOIN image_tags it ON i.id = it.image_id LEFT \
             JOIN tags t ON it.tag_id = t.id WHERE i.user_id = ? AND (? = '' OR i.id IN (SELECT \
             image_id FROM image_tags JOIN tags ON image_tags.tag_id = tags.id WHERE tags.name = \
             ?)) GROUP BY i.id ORDER BY i.id DESC"@,
        statement is AllImagesFor ==> statement.sql_text()
            == "SELECT i.id, i.file_path, (f.image_id IS NOT NULL) AS is_favorited, \
             IFNULL(GROUP_CONCAT(t.name), '') AS tags FROM images i LEFT JOIN favorites f ON i.id \
             = f.image_id AND f.user_id = ? LEFT JOIN image_tags it ON i.id = it.image_id LEFT \
             JOIN tags t ON it.tag_id = t.id WHERE (? = '' OR i.id IN (SELECT image_id FROM \
             image_tags JOIN tags ON image_tags.tag_id = tags.id WHERE tags.name = ?)) GROUP BY \
             i.id ORDER BY i.id DESC"@,
        statement is AllImages ==> statement.sql_text()
            == "SELECT i.id, i.file_path, 0 AS is_favorited, IFNULL(GROUP_CONCAT(t.name), '') AS \
             tags FROM images i LEFT JOIN image_tags it ON i.id = it.image_id LEFT JOIN tags t ON \
             it.tag_id = t.id WHERE (? = '' OR i.id IN (SELECT image_id FROM image_tags JOIN tags \
             ON image_tags.tag_id = tags.id WHERE tags.name = ?)) GROUP BY i.id ORDER BY i.id \
             DESC"@,
        statement is FavoriteImages ==> statement.sql_text()
            == "SELECT i.id, i.file_path, 1 AS is_favorited, IFNULL(GROUP_CONCAT(t.name), '') AS \
             tags FROM images i JOIN favorites f ON i.id = f.image_id LEFT JOIN image_tags it ON \
             i.id = it.image_id LEFT JOIN tags t ON it.tag_id = t.id WHERE f.user_id = ? GROUP BY \
             i.id ORDER BY i.id DESC"@,
        statement is RemoveFavorite ==> statement.sql_text()
            == "DELETE FROM favorites WHERE user_id = ? AND image_id = ?"@,
        statement is AddFavorite ==> statement.sql_text()
            == "INSERT INTO favorites (user_id, image_id) VALUES (?, ?)"@,
        statement is TagNames ==> statement.sql_text()
            == "SELECT name FROM tags ORDER BY name ASC"@,
        statement is AddTag ==> statement.sql_text()
            == "INSERT OR IGNORE INTO tags (name) VALUES (?)"@,
        statement is TagByName ==> statement.sql_text() == "SELECT id FROM tags WHERE name = ?"@,
        statement is LinkTag ==> statement.sql_text()
            == "INSERT OR IGNORE INTO image_tags (image_id, tag_id) VALUES (?, ?)"@,
        statement is UnlinkTag ==> statement.sql_text()
            == "DELETE FROM image_tags WHERE image_id = ? AND tag_id = (SELECT id FROM tags WHERE \
             name = ?)"@,
{
}

/// The values that are bound to each statement: its own, complete and in the order of the
/// placeholders.
pub proof fn law_values_of_each_statement<Text>(statement: Statement<Text>)
    ensures
        statement matches Statement::AccountByToken { token_hash } ==> statement.bound() == seq![
            Param::<Text>::Text(token_hash),
        ],
        statement matches Statement::CredentialsByName { username } ==> statement.bound() == seq![
            Param::<Text>::Text(username),
        ],
        statement is CountUsers ==> statement.bound().len() == 0,
        statement matches Statement::AddUser { username, password_hash, token_hash, is_approved, is_admin } ==> statement.bound() == seq![
            Param::<Text>::Text(username),
            Param::<Text>::Text(password_hash),
            Param::<Text>::Text(token_hash),
            Param::<Text>::Integer(is_approved),
            Param::<Text>::Integer(is_admin),
        ],
        statement matches Statement::SetToken { token_hash, user_id } ==> statement.bound() == seq![
            Param::<Text>::Text(token_hash),
            Param::<Text>::Integer(user_id),
        ],
        statement matches Statement::ClearToken { user_id } ==> statement.bound() == seq![
            Param::<Text>::Integer(user_id),
        ],
        statement is PendingUsers ==> statement.bound().len() == 0,
        statement matches Statement::ApproveUser { user_id } ==> statement.bound() == seq![
            Param::<Text>::Integer(user_id),
        ],
        statement matches Statement::AddImage { user_id, file_path } ==> statement.bound() == seq![
            Param::<Text>::Integer(user_id),
            Param::<Text>::Text(file_path),
        ],
        statement matches Statement::OwnedImagePath { image_id, user_id } ==> statement.bound() == seq![
            Param::<Text>::Integer(image_id),
            Param::<Text>::Integer(user_id),
        ],
        statement matches Statement::OwnedImage { image_id, user_id } ==> statement.bound() == seq![
            Param::<Text>::Integer(image_id),
            Param::<Text>::Integer(user_id),
        ],
        statement matches Statement::ImageByPath { file_path } ==> statement.bound() == seq![
            Param::<Text>::Text(file_path),
        ],
        statement matches Statement::DeleteImage { image_id } ==> statement.bound() == seq![
            Param::<Text>::Integer(image_id),
        ],
        statement matches Statement::UserImages { user_id, tag } ==> statement.bound() == seq![
            Param::<Text>::Integer(user_id),
            Param::<Text>::Integer(user_id),
            Param::<Text>::Text(tag),
            Param::<Text>::Text(tag),
        ],
        statement matches Statement::AllImagesFor { user_id, tag } ==> statement.bound() == seq![
            Param::<Text>::Integer(user_id),
            Param::<Text>::Text(tag),
            Param::<Text>::Text(tag),
        ],
        statement matches Statement::AllImages { tag } ==> statement.bound() == seq![
            Param::<Text>::Text(tag),
            Param::<Text>::Text(tag),
        ],
        statement matches Statement::FavoriteImages { user_id } ==> statement.bound() == seq![
            Param::<Text>::Integer(user_id),
        ],
        statement matches Statement::RemoveFavorite { user_id, image_id } ==> statement.bound() == seq![
            Param::<Text>::Integer(user_id),
            Param::<Text>::Integer(image_id),
        ],
        statement matches Statement::AddFavorite { user_id, image_id } ==> statement.bound() == seq![
            Param::<Text>::Integer(user_id),
            Param::<Text>::Integer(image_id),
        ],
        statement is TagNames ==> statement.bound().len() == 0,
        statement matches Statement::AddTag { name } ==> statement.bound() == seq![
            Param::<Text>::Text(name),
        ],
        statement matches Statement::TagByName { name } ==> statement.bound() == seq![
            Param::<Text>::Text(name),
        ],
        statement matches Statement::LinkTag { image_id, tag_id } ==> statement.bound() == seq![
            Param::<Text>::Integer(image_id),
            Param::<Text>::Integer(tag_id),
        ],
        statement matches Statement::UnlinkTag { image_id, name } ==> statement.bound() == seq![
            Param::<Text>::Integer(image_id),
            Param::<Text>::Text(name),
        ],
{
}

/// Binding loses nothing: two statements of the same sort to which the same values are bound are
/// the same statement.
pub proof fn law_binding_loses_nothing<Text>(a: Statement<Text>, b: Statement<Text>)
    requires
        a.bound() == b.bound(),
        a is UserImages && b is UserImages || a is AllImagesFor && b is AllImagesFor || a is AllImages
            && b is AllImages || a is AddUser && b is AddUser || a is SetToken && b is SetToken || a
            is AddImage && b is AddImage || a is UnlinkTag && b is UnlinkTag || a is AddTag && b
            is AddTag || a is AccountByToken && b is AccountByToken || a is CredentialsByName && b
            is CredentialsByName || a is ImageByPath && b is ImageByPath || a is TagByName && b
            is TagByName,
    ensures
        a == b,
{
    law_values_of_each_statement(a);
    law_values_of_each_statement(b);
    let n = a.bound().len();
    assert forall|i: int| 0 <= i < n implies a.bound()[i] == b.bound()[i] by {}
    assert(a.bound()[0] == b.bound()[0]);
    if n > 1 {
        assert(a.bound()[1] == b.bound()[1]);
    }
    if n > 2 {
        assert(a.bound()[2] == b.bound()[2]);
    }
    if let Statement::UserImages { user_id, tag } = a {
        assert(a.bound()[0] == Param::<Text>::Integer(user_id));
        assert(a.bound()[2] == Param::Text(tag));
    }
}

} // verus!
