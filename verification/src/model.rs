//! The tables behind the store as mathematical objects, what each statement does to them where the
//! store accepts it, and what the requests achieve when the store carries the statements out so.
//!
//! That SQLite carries them out so, and answers as the `answers_*` functions here and in `listings`
//! say, is not proved. Nor is it that the favorites and the tags on an image go with the image,
//! which rests on the cascading references of the schema that the server creates. The tests in
//! `tests/database.rs` try both on a database in memory.

use vstd::prelude::*;

use crate::accounts::{registration_row, Challenge, Credentials};
use crate::credentials::{
    is_uuid_v4, law_token_digest_form, password_matches, token_digest,
};
use crate::favorites::{Toggle, ToggleStep};
use crate::gallery::{
    admission, disk_path_behind, disk_path_of, file_name, law_deletion_finds_uploaded_file,
    public_path_of, tag_filter, SearchParams, Upload,
};
use crate::reply::{Notice, Rejection};
use crate::session::{bearer_header, bearer_token, law_issued_token_is_recognised, Account};
use crate::store::{Statement, StoreError};
use crate::tags::is_tag_name;

verus! {

/// A row of the users.
#[verifier::ext_equal]
pub struct UserRow {
    pub username: Seq<char>,
    pub password_hash: Seq<char>,
    pub token_hash: Seq<char>,
    pub is_approved: i64,
    pub is_admin: i64,
}

/// A row of the images.
#[verifier::ext_equal]
pub struct ImageEntry {
    pub owner: i64,
    pub file_path: Seq<char>,
}

/// The tables: users, images and tags by id, favorites as pairs of user and image, and the tags on
/// images as pairs of image and tag.
#[verifier::ext_equal]
pub struct Tables {
    pub users: Map<i64, UserRow>,
    pub images: Map<i64, ImageEntry>,
    pub favorites: Set<(i64, i64)>,
    pub tags: Map<i64, Seq<char>>,
    pub links: Set<(i64, i64)>,
}

impl Tables {
    /// Whether `id` is the tag of that name.
    pub open spec fn names_tag(self, id: i64, name: Seq<char>) -> bool {
        self.tags.contains_key(id) && self.tags[id] == name
    }

    /// Whether there is a tag of that name.
    pub open spec fn has_tag_named(self, name: Seq<char>) -> bool {
        exists|id: i64| self.names_tag(id, name)
    }

    /// Whether a tag of that name is on the image.
    pub open spec fn is_tagged(self, image_id: i64, name: Seq<char>) -> bool {
        exists|id: i64|
            #[trigger] self.names_tag(id, name) && self.links.contains((image_id, id))
    }

    /// Whether tag names are unique.
    pub open spec fn tag_names_unique(self) -> bool {
        forall|a: i64, b: i64, name: Seq<char>| #[trigger]
            self.names_tag(a, name) && #[trigger] self.names_tag(b, name) ==> a == b
    }

    /// Whether every reference leads to a row that is there: images to their owner, favorites to
    /// user and image, and the tags on images to image and tag.
    pub open spec fn references_hold(self) -> bool {
        &&& forall|id: i64| #[trigger]
            self.images.contains_key(id) ==> self.users.contains_key(self.images[id].owner)
        &&& forall|pair: (i64, i64)| #[trigger]
            self.favorites.contains(pair) ==> self.users.contains_key(pair.0)
                && self.images.contains_key(pair.1)
        &&& forall|link: (i64, i64)| #[trigger]
            self.links.contains(link) ==> self.images.contains_key(link.0)
                && self.tags.contains_key(link.1)
    }

    /// Whether no two users share a name.
    pub open spec fn user_names_unique(self) -> bool {
        forall|a: i64, b: i64|
            self.users.contains_key(a) && self.users.contains_key(b)
                && #[trigger] self.users[a].username == #[trigger] self.users[b].username ==> a == b
    }

    /// Whether there is a user of that name.
    pub open spec fn has_user_named(self, username: Seq<char>) -> bool {
        exists|id: i64|
            self.users.contains_key(id) && (#[trigger] self.users[id]).username == username
    }

    /// Whether the row of another user holds that token digest.
    pub open spec fn others_hold(self, user_id: i64, token_hash: Seq<char>) -> bool {
        exists|id: i64|
            id != user_id && self.users.contains_key(id) && (#[trigger] self.users[id]).token_hash
                == token_hash
    }

    /// Whether the store may answer the look-up of a token digest with that account, or with none.
    pub open spec fn answers_token(self, token_hash: Seq<char>, answer: Option<Account>) -> bool {
        match answer {
            Some(account) => {
                &&& self.users.contains_key(account.id)
                &&& self.users[account.id].token_hash == token_hash
                &&& self.users[account.id].is_approved == account.is_approved
                &&& self.users[account.id].is_admin == account.is_admin
            },
            None => forall|id: i64|
                self.users.contains_key(id) ==> (#[trigger] self.users[id]).token_hash
                    != token_hash,
        }
    }

    /// Whether the store may answer the look-up of a user name with these credentials, or with
    /// none.
    pub open spec fn answers_name(
        self,
        username: Seq<char>,
        answer: Option<Credentials>,
    ) -> bool {
        match answer {
            Some(credentials) => {
                &&& self.users.contains_key(credentials.id)
                &&& self.users[credentials.id].username == username
                &&& self.users[credentials.id].password_hash == credentials.password_hash@
                &&& self.users[credentials.id].is_admin == credentials.is_admin
                &&& self.users[credentials.id].is_approved == credentials.is_approved
            },
            None => !self.has_user_named(username),
        }
    }

    /// What the store answers to the look-up of the path of an image that the user owns.
    pub open spec fn owned_path(self, image_id: i64, user_id: i64) -> Option<Seq<char>> {
        if self.images.contains_key(image_id) && self.images[image_id].owner == user_id {
            Some(self.images[image_id].file_path)
        } else {
            None
        }
    }

    /// Whether the store may answer the count of the users with that number.
    pub open spec fn answers_count(self, count: i64) -> bool {
        self.users.dom().finite() && self.users.dom().len() == count
    }

    /// Whether the user waits for approval and so is among those that an admin gets listed.
    pub open spec fn is_pending(self, user_id: i64) -> bool {
        self.users.contains_key(user_id) && self.users[user_id].is_approved == 0
    }

    /// Whether the image passes a filter by tag; the empty text lets every image pass.
    pub open spec fn passes_filter(self, image_id: i64, tag: Seq<char>) -> bool {
        tag.len() == 0 || self.is_tagged(image_id, tag)
    }

    /// Whether a listing holds the image.
    pub open spec fn lists(self, listing: Statement<Seq<char>>, image_id: i64) -> bool {
        &&& self.images.contains_key(image_id)
        &&& match listing {
            Statement::UserImages { user_id, tag } => self.images[image_id].owner == user_id
                && self.passes_filter(image_id, tag),
            Statement::AllImagesFor { tag, .. } => self.passes_filter(image_id, tag),
            Statement::AllImages { tag } => self.passes_filter(image_id, tag),
            Statement::FavoriteImages { user_id } => self.favorites.contains((user_id, image_id)),
            _ => false,
        }
    }

    /// Whether a listing that holds the image marks it as a favorite.
    pub open spec fn marks(self, listing: Statement<Seq<char>>, image_id: i64) -> bool {
        match listing {
            Statement::UserImages { user_id, .. } => self.favorites.contains((user_id, image_id)),
            Statement::AllImagesFor { user_id, .. } => self.favorites.contains((user_id, image_id)),
            Statement::FavoriteImages { .. } => true,
            _ => false,
        }
    }

    /// How many rows the removal of a favorite removes.
    pub open spec fn favorites_removed(self, user_id: i64, image_id: i64) -> u64 {
        if self.favorites.contains((user_id, image_id)) {
            1
        } else {
            0
        }
    }
}

impl Statement<Seq<char>> {
    /// The tables after the statement. `key` is the id of the row that it adds, if it adds one. The
    /// favorites and the tags on an image go with the image.
    pub open spec fn effect(self, tables: Tables, key: i64) -> Tables {
        match self {
            Statement::AddUser { username, password_hash, token_hash, is_approved, is_admin } => {
                let row = UserRow { username, password_hash, token_hash, is_approved, is_admin };
                Tables { users: tables.users.insert(key, row), ..tables }
            },
            Statement::SetToken { token_hash, user_id } => if tables.users.contains_key(user_id) {
                let row = UserRow { token_hash, ..tables.users[user_id] };
                Tables { users: tables.users.insert(user_id, row), ..tables }
            } else {
                tables
            },
            Statement::ClearToken { user_id } => if tables.users.contains_key(user_id) {
                let row = UserRow { token_hash: Seq::empty(), ..tables.users[user_id] };
                Tables { users: tables.users.insert(user_id, row), ..tables }
            } else {
                tables
            },
            Statement::ApproveUser { user_id } => if tables.users.contains_key(user_id) {
                let row = UserRow { is_approved: 1, ..tables.users[user_id] };
                Tables { users: tables.users.insert(user_id, row), ..tables }
            } else {
                tables
            },
            Statement::AddImage { user_id, file_path } => Tables {
                images: tables.images.insert(key, ImageEntry { owner: user_id, file_path }),
                ..tables
            },
            Statement::DeleteImage { image_id } => Tables {
                images: tables.images.remove(image_id),
                favorites: tables.favorites.filter(|pair: (i64, i64)| pair.1 != image_id),
                links: tables.links.filter(|link: (i64, i64)| link.0 != image_id),
                ..tables
            },
            Statement::RemoveFavorite { user_id, image_id } => Tables {
                favorites: tables.favorites.remove((user_id, image_id)),
                ..tables
            },
            Statement::AddFavorite { user_id, image_id } => Tables {
                favorites: tables.favorites.insert((user_id, image_id)),
                ..tables
            },
            Statement::AddTag { name } => if tables.has_tag_named(name) {
                tables
            } else {
                Tables { tags: tables.tags.insert(key, name), ..tables }
            },
            Statement::LinkTag { image_id, tag_id } => Tables {
                links: tables.links.insert((image_id, tag_id)),
                ..tables
            },
            Statement::UnlinkTag { image_id, name } => Tables {
                links: tables.links.filter(
                    |link: (i64, i64)| !(link.0 == image_id && tables.names_tag(link.1, name)),
                ),
                ..tables
            },
            _ => tables,
        }
    }
}

/// The tables after a toggle, and its answer.
pub open spec fn toggled(tables: Tables, user_id: i64, image_id: i64) -> (
    Tables,
    Result<Notice, Rejection>,
) {
    let removed = tables.favorites_removed(user_id, image_id);
    let after = (Statement::<Seq<char>>::RemoveFavorite { user_id, image_id }).effect(tables, 0);
    match (Toggle { user_id, image_id }).next(Ok(removed)) {
        ToggleStep::Add(addition, _) => (addition@.effect(after, 0), Ok(Notice::AddedToFavorites)),
        ToggleStep::Done(answer) => (after, answer),
    }
}

/// A toggle turns the one favorite around and touches nothing else, and its answer tells which way.
pub proof fn law_toggle_turns_favorite_around(tables: Tables, user_id: i64, image_id: i64)
    ensures
        ({
            let before = tables.favorites.contains((user_id, image_id));
            let (after, answer) = toggled(tables, user_id, image_id);
            &&& after == (Tables {
                favorites: if before {
                    tables.favorites.remove((user_id, image_id))
                } else {
                    tables.favorites.insert((user_id, image_id))
                },
                ..tables
            })
            &&& answer == Ok::<Notice, Rejection>(
                if before {
                    Notice::RemovedFromFavorites
                } else {
                    Notice::AddedToFavorites
                },
            )
        }),
{
    let (after, answer) = toggled(tables, user_id, image_id);
    if !tables.favorites.contains((user_id, image_id)) {
        assert(tables.favorites.remove((user_id, image_id)) =~= tables.favorites);
    }
}

/// Toggling twice leaves the tables as they were.
pub proof fn law_toggle_twice_restores(tables: Tables, user_id: i64, image_id: i64)
    ensures
        toggled(toggled(tables, user_id, image_id).0, user_id, image_id).0 == tables,
{
    let pair = (user_id, image_id);
    let once = toggled(tables, user_id, image_id).0;
    law_toggle_turns_favorite_around(tables, user_id, image_id);
    law_toggle_turns_favorite_around(once, user_id, image_id);
    if tables.favorites.contains(pair) {
        assert(tables.favorites.remove(pair).insert(pair) =~= tables.favorites);
    } else {
        assert(tables.favorites.insert(pair).remove(pair) =~= tables.favorites);
    }
}

/// The tables after a registration that got `count` for the number of users. Where it got none it
/// has ended and adds nobody.
pub open spec fn registered(
    tables: Tables,
    key: i64,
    username: Seq<char>,
    password_hash: Seq<char>,
    token: Seq<char>,
    count: Result<i64, StoreError>,
) -> Tables {
    match registration_row(username, password_hash, token, count) {
        Ok(row) => row.effect(tables, key),
        Err(_) => tables,
    }
}

/// The first user to register is an admin and approved; whoever registers when there are users
/// already is neither, and waits for approval. Where the users could not be counted nobody is
/// added. Nobody else's row changes.
pub proof fn law_only_first_user_starts_as_admin(
    tables: Tables,
    key: i64,
    username: Seq<char>,
    password_hash: Seq<char>,
    token: Seq<char>,
    count: Result<i64, StoreError>,
)
    requires
        count is Ok ==> tables.answers_count(count->Ok_0),
        !tables.users.contains_key(key),
    ensures
        ({
            let after = registered(tables, key, username, password_hash, token, count);
            let first = tables.users.dom() == Set::<i64>::empty();
            &&& count is Err ==> after == tables
            &&& count is Ok ==> {
                &&& after.users.contains_key(key)
                &&& after.users[key].username == username
                &&& after.users[key].is_admin == (if first { 1i64 } else { 0i64 })
                &&& after.users[key].is_approved == (if first { 1i64 } else { 0i64 })
                &&& after.is_pending(key) == !first
                &&& after == (Tables {
                    users: tables.users.insert(key, after.users[key]),
                    ..tables
                })
            }
        }),
{
    if count is Ok && count->Ok_0 == 0 {
        tables.users.dom().lemma_len0_is_empty();
    }
}

/// The store never holds a token, only its digest: the token handed out at registration, presented
/// as a bearer token, leads to the new account.
pub proof fn law_registered_token_authenticates(
    tables: Tables,
    key: i64,
    username: Seq<char>,
    password_hash: Seq<char>,
    token: Seq<char>,
    count: i64,
)
    requires
        is_uuid_v4(token),
    ensures
        ({
            let after = registered(tables, key, username, password_hash, token, Ok(count));
            let flag: i64 = if count == 0 { 1 } else { 0 };
            &&& after.users[key].token_hash == token_digest(token)
            &&& bearer_token(Some(bearer_header(token))) == Some(token)
            &&& after.answers_token(
                token_digest(token),
                Some(Account { id: key, is_approved: flag, is_admin: flag }),
            )
        }),
{
    law_issued_token_is_recognised(token);
}

/// Whoever registers with a password can log in with it, approved or not: the look-up of the name
/// finds the new account, and the password opens it, whatever salt went into its hash. Any other
/// password opens it only if it matches that very hash.
pub proof fn law_registered_password_opens_account(
    tables: Tables,
    key: i64,
    username: Seq<char>,
    password: String,
    password_hash: Seq<char>,
    token: Seq<char>,
    count: i64,
    answer: Option<Credentials>,
    attempt: String,
)
    requires
        password_matches(password@, password_hash),
        !tables.users.contains_key(key),
        !tables.has_user_named(username),
        registered(tables, key, username, password_hash, token, Ok(count)).answers_name(
            username,
            answer,
        ),
    ensures
        answer is Some,
        ({
            let credentials = answer->Some_0;
            let flag: i64 = if count == 0 { 1 } else { 0 };
            &&& credentials.id == key
            &&& credentials.is_admin == flag
            &&& credentials.is_approved == flag
            &&& (Challenge::Verify { password, credentials }).succeeds()
            &&& (Challenge::Verify { password: attempt, credentials }).succeeds()
                == password_matches(attempt@, password_hash)
        }),
{
    let after = registered(tables, key, username, password_hash, token, Ok(count));
    assert(after.users[key].username == username);
    assert(after.has_user_named(username));
    if answer->Some_0.id != key {
        assert(tables.users[answer->Some_0.id].username == username);
    }
}

/// No password opens an account under a name that nobody has.
pub proof fn law_unknown_name_is_refused(
    tables: Tables,
    username: Seq<char>,
    answer: Option<Credentials>,
    attempt: String,
)
    requires
        !tables.has_user_named(username),
        tables.answers_name(username, answer),
    ensures
        answer is None,
        !(Challenge::Decoy { password: attempt }).succeeds(),
{
    if answer is Some {
        assert(tables.users[answer->Some_0.id].username == username);
    }
}

/// User names stay unique, whatever statement is carried out, as long as no user is added under a
/// name that is taken.
pub proof fn law_user_names_stay_unique(
    statement: Statement<Seq<char>>,
    tables: Tables,
    key: i64,
)
    requires
        tables.user_names_unique(),
        statement matches Statement::AddUser { username, .. } ==> !tables.has_user_named(username),
    ensures
        statement.effect(tables, key).user_names_unique(),
{
    let after = statement.effect(tables, key);
    assert forall|a: i64, b: i64|
        after.users.contains_key(a) && after.users.contains_key(b)
            && #[trigger] after.users[a].username == #[trigger] after.users[b].username
            implies a == b by {
        if tables.users.contains_key(a) {
            assert(tables.users[a].username == tables.users[a].username);
        }
        if tables.users.contains_key(b) {
            assert(tables.users[b].username == tables.users[b].username);
        }
    }
}

/// Where no other row holds its digest, a token that is the last one its user got leads to that
/// user and to nobody else.
pub proof fn law_live_token_leads_to_its_user(
    tables: Tables,
    user_id: i64,
    token: Seq<char>,
    answer: Option<Account>,
)
    requires
        tables.users.contains_key(user_id),
        tables.users[user_id].token_hash == token_digest(token),
        !tables.others_hold(user_id, token_digest(token)),
        tables.answers_token(token_digest(token), answer),
    ensures
        answer == Some(
            Account {
                id: user_id,
                is_approved: tables.users[user_id].is_approved,
                is_admin: tables.users[user_id].is_admin,
            },
        ),
{
    if let Some(account) = answer {
        assert(tables.users[account.id].token_hash == token_digest(token));
    } else {
        assert(tables.users[user_id].token_hash == token_digest(token));
    }
}

/// Where no other row holds its digest, a token leads nowhere any more once its user has logged in
/// and got another one, or has logged out.
pub proof fn law_ended_token_leads_nowhere(
    tables: Tables,
    user_id: i64,
    token: Seq<char>,
    new_token: Seq<char>,
    after_login: Option<Account>,
    after_logout: Option<Account>,
)
    requires
        tables.users.contains_key(user_id),
        !tables.others_hold(user_id, token_digest(token)),
        token_digest(token) != token_digest(new_token),
        (Statement::SetToken { token_hash: token_digest(new_token), user_id }).effect(
            tables,
            0,
        ).answers_token(token_digest(token), after_login),
        (Statement::<Seq<char>>::ClearToken { user_id }).effect(tables, 0).answers_token(
            token_digest(token),
            after_logout,
        ),
    ensures
        after_login is None,
        after_logout is None,
{
    law_token_digest_form(token);
    if let Some(account) = after_login {
        assert(tables.users[account.id].token_hash == token_digest(token));
    }
    if let Some(account) = after_logout {
        assert(tables.users[account.id].token_hash == token_digest(token));
    }
}

/// A login rotates the token: afterwards the account answers to the digest of the new token, and
/// no token with another digest, the former one included, leads to it. Nobody else's row changes.
pub proof fn law_login_rotates_token(
    tables: Tables,
    user_id: i64,
    new_token: Seq<char>,
    other_token: Seq<char>,
)
    requires
        tables.users.contains_key(user_id),
        token_digest(other_token) != token_digest(new_token),
    ensures
        ({
            let change = Statement::SetToken { token_hash: token_digest(new_token), user_id };
            let after = change.effect(tables, 0);
            let account = Account {
                id: user_id,
                is_approved: tables.users[user_id].is_approved,
                is_admin: tables.users[user_id].is_admin,
            };
            &&& after.answers_token(token_digest(new_token), Some(account))
            &&& forall|other: Account| #[trigger]
                after.answers_token(token_digest(other_token), Some(other)) ==> other.id != user_id
            &&& after == (Tables {
                users: tables.users.insert(user_id, after.users[user_id]),
                ..tables
            })
        }),
{
}

/// After a logout no token whatsoever leads to the account.
pub proof fn law_logout_ends_every_session(tables: Tables, user_id: i64, token: Seq<char>)
    ensures
        ({
            let after = (Statement::<Seq<char>>::ClearToken { user_id }).effect(tables, 0);
            forall|account: Account| #[trigger]
                after.answers_token(token_digest(token), Some(account)) ==> account.id != user_id
        }),
{
    law_token_digest_form(token);
}

/// Approval makes the one user approved, who is pending no more, and changes nothing else.
pub proof fn law_approval_approves_one_user(tables: Tables, user_id: i64)
    requires
        tables.users.contains_key(user_id),
    ensures
        ({
            let after = (Statement::<Seq<char>>::ApproveUser { user_id }).effect(tables, 0);
            &&& !after.is_pending(user_id)
            &&& after.users[user_id] == (UserRow { is_approved: 1, ..tables.users[user_id] })
            &&& after == (Tables {
                users: tables.users.insert(user_id, after.users[user_id]),
                ..tables
            })
        }),
{
}

/// Only the approval of that very user ever approves a user that is not approved, and nothing ever
/// makes an admin of a user. So everybody but the first user depends on an admin's approval.
pub proof fn law_only_approval_approves(
    statement: Statement<Seq<char>>,
    tables: Tables,
    key: i64,
    user_id: i64,
)
    requires
        tables.users.contains_key(user_id),
        !tables.users.contains_key(key),
    ensures
        ({
            let after = statement.effect(tables, key);
            &&& after.users.contains_key(user_id)
            &&& after.users[user_id].is_admin == tables.users[user_id].is_admin
            &&& after.users[user_id].is_approved != tables.users[user_id].is_approved ==> statement
                == (Statement::<Seq<char>>::ApproveUser { user_id })
        }),
{
}

/// Uploading waits for approval: while a user is pending, whoever authenticates as that user is
/// refused, and once the user is approved, admitted.
pub proof fn law_upload_waits_for_approval(
    tables: Tables,
    token_hash: Seq<char>,
    before: Account,
    after: Account,
)
    requires
        tables.answers_token(token_hash, Some(before)),
        tables.is_pending(before.id),
        (Statement::<Seq<char>>::ApproveUser { user_id: before.id }).effect(
            tables,
            0,
        ).answers_token(token_hash, Some(after)),
        after.id == before.id,
    ensures
        admission(before) == Err::<Upload, Rejection>(Rejection::PendingAdminApproval),
        admission(after) == Ok::<Upload, Rejection>(Upload { user_id: after.id }),
{
}

/// An uploaded image is recorded with its owner, its owner can delete it, and the file that the
/// deletion removes is the one that the upload wrote.
pub proof fn law_uploaded_image_can_be_deleted(
    tables: Tables,
    key: i64,
    user_id: i64,
    identifier: Seq<char>,
    extension: Seq<char>,
)
    requires
        is_uuid_v4(identifier),
        tables.references_hold(),
        !tables.images.contains_key(key),
    ensures
        ({
            let name = file_name(identifier, extension);
            let stored = (Statement::AddImage { user_id, file_path: public_path_of(name) }).effect(
                tables,
                key,
            );
            let path = stored.owned_path(key, user_id);
            &&& path == Some(public_path_of(name))
            &&& disk_path_behind(path->Some_0) == disk_path_of(name)
            &&& (Statement::<Seq<char>>::DeleteImage { image_id: key }).effect(stored, 0) == tables
        }),
{
    law_deletion_finds_uploaded_file(identifier, extension);
    let name = file_name(identifier, extension);
    let entry = ImageEntry { owner: user_id, file_path: public_path_of(name) };
    assert(tables.images.insert(key, entry).remove(key) =~= tables.images);
    assert(tables.favorites.filter(|pair: (i64, i64)| pair.1 != key) =~= tables.favorites);
    assert(tables.links.filter(|link: (i64, i64)| link.0 != key) =~= tables.links);
}

/// A deletion gets past the look-up of the path only for the owner of the image, and then it takes
/// away that image, with the favorites and tags on it, and nothing else.
pub proof fn law_only_owner_deletes(
    tables: Tables,
    image_id: i64,
    user_id: i64,
    other_image: i64,
    any_id: i64,
)
    requires
        other_image != image_id,
    ensures
        tables.owned_path(image_id, user_id) is Some ==> tables.images.contains_key(image_id)
            && tables.images[image_id].owner == user_id,
        ({
            let after = (Statement::<Seq<char>>::DeleteImage { image_id }).effect(tables, 0);
            &&& after.images == tables.images.remove(image_id)
            &&& after.users == tables.users
            &&& after.tags == tables.tags
            &&& !after.favorites.contains((any_id, image_id))
            &&& !after.links.contains((image_id, any_id))
            &&& after.favorites.contains((any_id, other_image)) == tables.favorites.contains(
                (any_id, other_image),
            )
            &&& after.links.contains((other_image, any_id)) == tables.links.contains(
                (other_image, any_id),
            )
        }),
{
}

/// Whether the rows that a statement refers to in what it adds are there.
pub open spec fn refers_to_rows(statement: Statement<Seq<char>>, tables: Tables) -> bool {
    match statement {
        Statement::AddImage { user_id, .. } => tables.users.contains_key(user_id),
        Statement::AddFavorite { user_id, image_id } => tables.users.contains_key(user_id)
            && tables.images.contains_key(image_id),
        Statement::LinkTag { image_id, tag_id } => tables.images.contains_key(image_id)
            && tables.tags.contains_key(tag_id),
        _ => true,
    }
}

/// No statement leaves a reference behind that leads nowhere.
pub proof fn law_references_are_kept(
    statement: Statement<Seq<char>>,
    tables: Tables,
    key: i64,
)
    requires
        tables.references_hold(),
        refers_to_rows(statement, tables),
    ensures
        statement.effect(tables, key).references_hold(),
{
}

/// The tables after a tag of that name has been created, looked up as `tag_id` and put on the
/// image.
pub open spec fn tagged(
    tables: Tables,
    key: i64,
    image_id: i64,
    name: Seq<char>,
    tag_id: i64,
) -> Tables {
    let created = (Statement::AddTag { name }).effect(tables, key);
    (Statement::<Seq<char>>::LinkTag { image_id, tag_id }).effect(created, 0)
}

/// Once a tag has been added it is on the image, whether it existed before or not, and tag names
/// stay unique.
pub proof fn law_added_tag_is_on_image(
    tables: Tables,
    key: i64,
    image_id: i64,
    name: Seq<char>,
    tag_id: i64,
)
    requires
        tables.tag_names_unique(),
        !tables.tags.contains_key(key),
        (Statement::AddTag { name }).effect(tables, key).names_tag(tag_id, name),
    ensures
        tagged(tables, key, image_id, name, tag_id).is_tagged(image_id, name),
        tagged(tables, key, image_id, name, tag_id).tag_names_unique(),
{
    let created = (Statement::AddTag { name }).effect(tables, key);
    let after = tagged(tables, key, image_id, name, tag_id);
    assert(after.names_tag(tag_id, name));
    assert forall|a: i64, b: i64, other: Seq<char>| #[trigger]
        after.names_tag(a, other) && #[trigger] after.names_tag(b, other) implies a == b by {
        if !tables.has_tag_named(name) {
            if a != key {
                assert(tables.names_tag(a, other));
            }
            if b != key {
                assert(tables.names_tag(b, other));
            }
        } else {
            assert(tables.names_tag(a, other));
            assert(tables.names_tag(b, other));
        }
    }
}

/// Adding a tag that is on the image already changes nothing.
pub proof fn law_adding_tag_again_changes_nothing(
    tables: Tables,
    key: i64,
    image_id: i64,
    name: Seq<char>,
    tag_id: i64,
)
    requires
        tables.tag_names_unique(),
        tables.is_tagged(image_id, name),
        (Statement::AddTag { name }).effect(tables, key).names_tag(tag_id, name),
    ensures
        tagged(tables, key, image_id, name, tag_id) == tables,
{
    let id = choose|id: i64| #[trigger]
        tables.names_tag(id, name) && tables.links.contains((image_id, id));
    assert(tables.has_tag_named(name));
    assert(tables.names_tag(tag_id, name));
    assert(tables.links.insert((image_id, tag_id)) =~= tables.links);
}

/// A tag that is removed is no longer on the image. Other images keep it, the image keeps its
/// other tags, and the tag itself stays known.
pub proof fn law_removed_tag_is_off_image(
    tables: Tables,
    image_id: i64,
    name: Seq<char>,
    other_image: i64,
    other_name: Seq<char>,
)
    requires
        other_image != image_id || other_name != name,
    ensures
        ({
            let after = (Statement::UnlinkTag { image_id, name }).effect(tables, 0);
            &&& !after.is_tagged(image_id, name)
            &&& after.is_tagged(other_image, other_name) == tables.is_tagged(
                other_image,
                other_name,
            )
            &&& after == (Tables { links: after.links, ..tables })
        }),
{
    let after = (Statement::UnlinkTag { image_id, name }).effect(tables, 0);
    if after.is_tagged(image_id, name) {
        let id = choose|id: i64| #[trigger]
            after.names_tag(id, name) && after.links.contains((image_id, id));
        assert(tables.names_tag(id, name));
    }
    if tables.is_tagged(other_image, other_name) {
        let id = choose|id: i64| #[trigger]
            tables.names_tag(id, other_name) && tables.links.contains((other_image, id));
        assert(after.names_tag(id, other_name) && after.links.contains((other_image, id)));
    }
    if after.is_tagged(other_image, other_name) {
        let id = choose|id: i64| #[trigger]
            after.names_tag(id, other_name) && after.links.contains((other_image, id));
        assert(tables.names_tag(id, other_name) && tables.links.contains((other_image, id)));
    }
}

/// Removing a tag that was just added, by the name under which it is kept, leaves the tags on the
/// images as they were before. Removing it by another name, under which no tag is kept, takes
/// nothing off.
pub proof fn law_removing_undoes_adding(
    tables: Tables,
    key: i64,
    image_id: i64,
    name: Seq<char>,
    tag_id: i64,
    other_name: Seq<char>,
)
    requires
        tables.references_hold(),
        tables.tag_names_unique(),
        !tables.tags.contains_key(key),
        !tables.is_tagged(image_id, name),
        (Statement::AddTag { name }).effect(tables, key).names_tag(tag_id, name),
        other_name != name,
        !tables.has_tag_named(other_name),
    ensures
        ({
            let added = tagged(tables, key, image_id, name, tag_id);
            &&& (Statement::UnlinkTag { image_id, name }).effect(added, 0).links == tables.links
            &&& (Statement::UnlinkTag { image_id, name: other_name }).effect(added, 0) == added
        }),
{
    let added = tagged(tables, key, image_id, name, tag_id);
    law_added_tag_is_on_image(tables, key, image_id, name, tag_id);
    assert(added.names_tag(tag_id, name));
    let removed = (Statement::UnlinkTag { image_id, name }).effect(added, 0);
    assert forall|link: (i64, i64)| removed.links.contains(link) == tables.links.contains(link) by {
        if tables.links.contains(link) && link.0 == image_id && added.names_tag(link.1, name) {
            assert(tables.names_tag(link.1, name));
            assert(tables.is_tagged(image_id, name));
        }
        if link == (image_id, tag_id) && tables.links.contains(link) {
            assert(tables.names_tag(tag_id, name));
        }
    }
    assert(removed.links =~= tables.links);
    let kept = (Statement::UnlinkTag { image_id, name: other_name }).effect(added, 0);
    assert forall|link: (i64, i64)| kept.links.contains(link) == added.links.contains(link) by {
        if added.names_tag(link.1, other_name) {
            assert(tables.names_tag(link.1, other_name));
        }
    }
    assert(kept.links =~= added.links);
}

/// An uploaded image is listed right away: among the images of its owner, and among all images for
/// everybody.
pub proof fn law_upload_is_listed(
    tables: Tables,
    key: i64,
    user_id: i64,
    file_path: Seq<char>,
    viewer: i64,
)
    ensures
        ({
            let after = (Statement::AddImage { user_id, file_path }).effect(tables, key);
            let no_filter = Seq::<char>::empty();
            &&& after.images[key].file_path == file_path
            &&& after.lists(Statement::UserImages { user_id, tag: no_filter }, key)
            &&& after.lists(Statement::AllImagesFor { user_id: viewer, tag: no_filter }, key)
            &&& after.lists(Statement::AllImages { tag: no_filter }, key)
        }),
{
}

/// A deleted image is in no listing any more.
pub proof fn law_deleted_image_is_listed_nowhere(
    tables: Tables,
    image_id: i64,
    listing: Statement<Seq<char>>,
)
    ensures
        !(Statement::<Seq<char>>::DeleteImage { image_id }).effect(tables, 0).lists(
            listing,
            image_id,
        ),
{
}

/// A tag that has been added is found by the filter in the listing of all images, and once it is
/// removed it is not.
pub proof fn law_filter_follows_tags(
    tables: Tables,
    key: i64,
    image_id: i64,
    name: Seq<char>,
    tag_id: i64,
)
    requires
        tables.tag_names_unique(),
        tables.images.contains_key(image_id),
        !tables.tags.contains_key(key),
        (Statement::AddTag { name }).effect(tables, key).names_tag(tag_id, name),
        is_tag_name(name),
    ensures
        ({
            let added = tagged(tables, key, image_id, name, tag_id);
            let removed = (Statement::UnlinkTag { image_id, name }).effect(added, 0);
            &&& added.lists(Statement::AllImages { tag: name }, image_id)
            &&& !removed.lists(Statement::AllImages { tag: name }, image_id)
            &&& removed.lists(Statement::AllImages { tag: Seq::empty() }, image_id)
        }),
{
    let added = tagged(tables, key, image_id, name, tag_id);
    law_added_tag_is_on_image(tables, key, image_id, name, tag_id);
    law_removed_tag_is_off_image(added, image_id, name, image_id, Seq::empty());
}

/// A toggle shows in the listings of the user who made it: the image enters or leaves the list of
/// favorites, and its mark in the other listings changes with it. What other users see stays.
pub proof fn law_toggle_shows_in_listings(
    tables: Tables,
    user_id: i64,
    image_id: i64,
    other_user: i64,
    tag: Seq<char>,
)
    requires
        tables.images.contains_key(image_id),
        other_user != user_id,
    ensures
        ({
            let before = tables.favorites.contains((user_id, image_id));
            let after = toggled(tables, user_id, image_id).0;
            let own = Statement::<Seq<char>>::FavoriteImages { user_id };
            let other = Statement::<Seq<char>>::FavoriteImages { user_id: other_user };
            &&& after.lists(own, image_id) == !before
            &&& after.marks(Statement::UserImages { user_id, tag }, image_id) == !before
            &&& after.marks(Statement::AllImagesFor { user_id, tag }, image_id) == !before
            &&& after.lists(other, image_id) == tables.lists(other, image_id)
            &&& after.marks(Statement::AllImagesFor { user_id: other_user, tag }, image_id)
                == tables.marks(Statement::AllImagesFor { user_id: other_user, tag }, image_id)
        }),
{
    law_toggle_turns_favorite_around(tables, user_id, image_id);
}

/// Whoever registered with a password can log in with it ever after: no statement changes the name
/// or the hash of a user who is there, be it an approval, a login, a logout or anything else.
pub proof fn law_password_keeps_opening_the_account(
    statement: Statement<Seq<char>>,
    tables: Tables,
    key: i64,
    user_id: i64,
    password: String,
    answer: Option<Credentials>,
)
    requires
        tables.user_names_unique(),
        tables.users.contains_key(user_id),
        !tables.users.contains_key(key),
        statement matches Statement::AddUser { username, .. } ==> !tables.has_user_named(username),
        password_matches(password@, tables.users[user_id].password_hash),
        statement.effect(tables, key).answers_name(tables.users[user_id].username, answer),
    ensures
        answer is Some,
        answer->Some_0.id == user_id,
        (Challenge::Verify { password, credentials: answer->Some_0 }).succeeds(),
        statement.effect(tables, key).users[user_id].password_hash
            == tables.users[user_id].password_hash,
{
    let after = statement.effect(tables, key);
    let username = tables.users[user_id].username;
    assert(after.users[user_id].username == username);
    assert(after.has_user_named(username));
    let id = answer->Some_0.id;
    law_user_names_stay_unique(statement, tables, key);
    assert(after.users[id].username == after.users[user_id].username);
}

/// A user who was approved after registering logs in with the registered password, and is told to
/// be approved.
pub proof fn law_approved_user_logs_in(
    tables: Tables,
    key: i64,
    username: Seq<char>,
    password: String,
    password_hash: Seq<char>,
    token: Seq<char>,
    count: i64,
    answer: Option<Credentials>,
)
    requires
        password_matches(password@, password_hash),
        !tables.users.contains_key(key),
        !tables.has_user_named(username),
        (Statement::<Seq<char>>::ApproveUser { user_id: key }).effect(
            registered(tables, key, username, password_hash, token, Ok(count)),
            0,
        ).answers_name(username, answer),
    ensures
        answer is Some,
        answer->Some_0.id == key,
        answer->Some_0.is_approved == 1,
        (Challenge::Verify { password, credentials: answer->Some_0 }).succeeds(),
{
    let there = registered(tables, key, username, password_hash, token, Ok(count));
    let after = (Statement::<Seq<char>>::ApproveUser { user_id: key }).effect(there, 0);
    assert(after.users[key].username == username);
    assert(after.has_user_named(username));
    if answer->Some_0.id != key {
        assert(tables.users[answer->Some_0.id].username == username);
    }
}

/// A listing that is asked for with a tag holds no image without that tag, and none that bears it
/// is missing; asked for without a tag it holds every image, or every one of the user's own.
pub proof fn law_listing_holds_what_was_asked_for(
    tables: Tables,
    params: SearchParams,
    user_id: i64,
    image_id: i64,
)
    ensures
        ({
            let own = tables.lists(
                Statement::UserImages { user_id, tag: tag_filter(params) },
                image_id,
            );
            let all = tables.lists(Statement::AllImages { tag: tag_filter(params) }, image_id);
            let there = tables.images.contains_key(image_id);
            let mine = there && tables.images[image_id].owner == user_id;
            &&& params.tag is Some && params.tag->Some_0@.len() > 0 ==> {
                &&& own == (mine && tables.is_tagged(image_id, params.tag->Some_0@))
                &&& all == (there && tables.is_tagged(image_id, params.tag->Some_0@))
            }
            &&& params.tag is None ==> own == mine && all == there
        }),
{
}

} // verus!
