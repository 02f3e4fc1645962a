use image_host::accounts::{
    approve_user, list_pending_users, login_user, logout_user, register_user, Credentials,
    HashTask, LoginRequest, RegisterRequest,
};
use image_host::credentials::hash_token;
use image_host::favorites::{toggle_favorite, ToggleStep};
use image_host::gallery::{
    delete_image, list_all_images, list_favorite_images, list_user_images, listed, name_upload,
    upload_image, ImageRecord, ImageRow, SearchParams,
};
use image_host::reply::{Notice, Rejection};
use image_host::session::{authenticate_user, authenticated, Account, Session};
use image_host::store::{Param, Query, Statement, StoreError};
use image_host::tags::{add_tag, list_tags, remove_tag, TagPayload};
use sqlx::sqlite::{SqliteArguments, SqlitePool, SqlitePoolOptions, SqliteRow};
use sqlx::{Row, Sqlite};

const SCHEMA: [&str; 5] = [
    "CREATE TABLE users (id INTEGER PRIMARY KEY, username TEXT NOT NULL UNIQUE, \
     password_hash TEXT NOT NULL, token_hash TEXT NOT NULL, \
     is_approved INTEGER NOT NULL, is_admin INTEGER NOT NULL)",
    "CREATE TABLE images (id INTEGER PRIMARY KEY, \
     user_id INTEGER NOT NULL REFERENCES users (id), file_path TEXT NOT NULL)",
    "CREATE TABLE favorites (user_id INTEGER NOT NULL REFERENCES users (id), \
     image_id INTEGER NOT NULL REFERENCES images (id) ON DELETE CASCADE, \
     PRIMARY KEY (user_id, image_id))",
    "CREATE TABLE tags (id INTEGER PRIMARY KEY, name TEXT NOT NULL UNIQUE)",
    "CREATE TABLE image_tags (image_id INTEGER NOT NULL REFERENCES images (id) ON DELETE CASCADE, \
     tag_id INTEGER NOT NULL REFERENCES tags (id), PRIMARY KEY (image_id, tag_id))",
];

struct Db {
    runtime: tokio::runtime::Runtime,
    pool: SqlitePool,
}

fn bound(query: &Query) -> sqlx::query::Query<'static, Sqlite, SqliteArguments<'static>> {
    let mut sql = sqlx::query(query.sql());
    for param in query.params() {
        sql = match param {
            Param::Integer(n) => sql.bind(n),
            Param::Text(text) => sql.bind(text),
        };
    }
    sql
}

impl Db {
    fn open() -> Db {
        let runtime = tokio::runtime::Builder::new_current_thread().enable_all().build().unwrap();
        let pool = runtime.block_on(async {
            let pool = SqlitePoolOptions::new()
                .max_connections(1)
                .connect("sqlite::memory:")
                .await
                .unwrap();
            for table in SCHEMA {
                sqlx::query(table).execute(&pool).await.unwrap();
            }
            pool
        });
        Db { runtime, pool }
    }

    fn execute(&self, query: &Query) -> Result<(u64, i64), StoreError> {
        self.runtime
            .block_on(bound(query).execute(&self.pool))
            .map(|done| (done.rows_affected(), done.last_insert_rowid()))
            .map_err(|_| StoreError)
    }

    fn rows(&self, query: &Query) -> Vec<SqliteRow> {
        self.runtime.block_on(bound(query).fetch_all(&self.pool)).unwrap()
    }

    fn row(&self, query: &Query) -> Option<SqliteRow> {
        self.rows(query).into_iter().next()
    }

    fn register(&self, username: &str, password: &str) -> Result<String, Rejection> {
        let request =
            RegisterRequest { username: username.to_string(), password: password.to_string() };
        let registration = register_user(&request, HashTask::Finished(request.hash()))?;
        let query = registration.begun(Ok(()))?;
        let count = self.row(&query).unwrap().get::<i64, _>(0);
        let added = self.execute(&registration.counted(Ok(count))?).map(|_| ());
        Ok(registration.inserted(added)?.committed(Ok(()))?.token)
    }

    fn login(&self, username: &str, password: &str) -> Result<(String, bool, bool), Rejection> {
        let (query, login) = login_user(LoginRequest {
            username: username.to_string(),
            password: password.to_string(),
        });
        let found = self.row(&query).map(|row| Credentials {
            id: row.get("id"),
            password_hash: row.get("password_hash"),
            is_admin: row.get("is_admin"),
            is_approved: row.get("is_approved"),
        });
        let challenge = login.found(Ok(found))?;
        let (query, rotation) = challenge.answered(challenge.run())?;
        let response = rotation.stored(self.execute(&query).map(|_| ()))?;
        Ok((response.token, response.is_admin, response.is_approved))
    }

    fn session(&self, token: &str) -> Result<Session, Rejection> {
        let header = format!("Bearer {token}");
        let query = authenticate_user(Some(header.as_bytes()))?;
        authenticated(Ok(self.row(&query).map(|row| Account {
            id: row.get("id"),
            is_approved: row.get("is_approved"),
            is_admin: row.get("is_admin"),
        })))
    }

    fn upload(&self, user_id: i64, identifier: &str) -> i64 {
        let named = name_upload(user_id, identifier, "png");
        let (_, id) = self.execute(&named.written(true).unwrap()).unwrap();
        named.recorded(Ok(id)).unwrap().image_id
    }

    fn list(&self, query: &Query) -> Vec<ImageRecord> {
        let rows = self
            .rows(query)
            .iter()
            .map(|row| ImageRow {
                id: row.get("id"),
                file_path: row.get("file_path"),
                favorited_bool: row.try_get("is_favorited").ok(),
                favorited_number: row.try_get("is_favorited").ok(),
                tags: row.get("tags"),
            })
            .collect();
        listed(Ok(rows)).unwrap()
    }

    fn toggle(&self, session: &Session, image_id: i64) -> Result<Notice, Rejection> {
        let (query, toggle) = toggle_favorite(session, image_id);
        match toggle.removed(self.execute(&query).map(|done| done.0)) {
            ToggleStep::Add(query, addition) => addition.added(self.execute(&query).map(|_| ())),
            ToggleStep::Done(answer) => answer,
        }
    }

    fn owned(&self, query: &Query) -> Option<i64> {
        self.row(query).map(|row| row.get("id"))
    }

    fn tag(&self, session: &Session, image_id: i64, name: &str) -> Result<Notice, Rejection> {
        let (query, addition) = add_tag(session, image_id, TagPayload { name: name.to_string() });
        let (query, link) = addition.owned(Ok(self.owned(&query)))?;
        let query = link.created(self.execute(&query).map(|_| ()))?;
        let query = link.identified(Ok(self.owned(&query).unwrap()))?;
        let outcome = self.execute(&query).map(|_| ());
        link.linked(outcome)
    }

    fn untag(&self, session: &Session, image_id: i64, name: &str) -> Result<(), Rejection> {
        let (query, removal) = remove_tag(session, image_id, name.to_string());
        let query = removal.owned(Ok(self.owned(&query)))?;
        self.execute(&query).map(|_| ()).map_err(|_| Rejection::Database)
    }

    fn dump(&self, table: &str) -> Vec<Vec<String>> {
        let sql = format!("SELECT * FROM {table} ORDER BY 1, 2");
        self.runtime
            .block_on(sqlx::query(&sql).fetch_all(&self.pool))
            .unwrap()
            .iter()
            .map(|row| {
                (0..row.len())
                    .map(|i| match row.try_get::<i64, _>(i) {
                        Ok(n) => n.to_string(),
                        Err(_) => row.get::<String, _>(i),
                    })
                    .collect()
            })
            .collect()
    }
}

fn everything(tag: &str) -> SearchParams {
    SearchParams { tag: Some(tag.to_string()) }
}

fn paths(records: &[ImageRecord]) -> Vec<&str> {
    records.iter().map(|record| record.file_path.as_str()).collect()
}

#[test]
fn first_user_is_admin_and_later_ones_wait_for_approval() {
    let db = Db::open();
    let admin = db.session(&db.register("alice", "xyz").unwrap()).unwrap();
    let bob = db.session(&db.register("bob", "abc").unwrap()).unwrap();
    assert!(admin.is_admin() && admin.is_approved());
    assert!(!bob.is_admin() && !bob.is_approved());

    let pending = db.rows(&list_pending_users(&admin).unwrap());
    assert_eq!(pending.len(), 1);
    assert_eq!(pending[0].get::<String, _>("username"), "bob");
    assert_eq!(pending[0].get::<i64, _>("id"), bob.user_id());

    db.execute(&approve_user(&admin, bob.user_id()).unwrap()).unwrap();
    assert!(db.rows(&list_pending_users(&admin).unwrap()).is_empty());
    let (_, is_admin, is_approved) = db.login("bob", "abc").unwrap();
    assert!(!is_admin && is_approved);
}

#[test]
fn upload_waits_for_approval() {
    let db = Db::open();
    let admin = db.session(&db.register("alice", "xyz").unwrap()).unwrap();
    let token = db.register("bob", "abc").unwrap();
    let bob = db.session(&token).unwrap();
    assert_eq!(upload_image(&bob).err(), Some(Rejection::PendingAdminApproval));
    db.execute(&approve_user(&admin, bob.user_id()).unwrap()).unwrap();
    let bob = db.session(&token).unwrap();
    assert_eq!(upload_image(&bob).unwrap().user_id, bob.user_id());
}

#[test]
fn taken_user_name_is_refused() {
    let db = Db::open();
    db.register("alice", "xyz").unwrap();
    assert_eq!(db.register("alice", "abc"), Err(Rejection::UsernameTaken));
    assert_eq!(db.dump("users").len(), 1);
}

#[test]
fn only_the_digest_of_a_token_is_stored() {
    let db = Db::open();
    let token = db.register("alice", "xyz").unwrap();
    let stored = db.dump("users").remove(0);
    assert_eq!(stored[3], hash_token(&token));
    assert!(!stored.contains(&token));
    assert!(!stored.contains(&"xyz".to_string()));
}

#[test]
fn login_replaces_the_former_token() {
    let db = Db::open();
    let first = db.register("alice", "xyz").unwrap();
    let other = db.register("bob", "abc").unwrap();
    let (second, is_admin, is_approved) = db.login("alice", "xyz").unwrap();
    assert!(is_admin && is_approved);
    assert_eq!(db.session(&first).err(), Some(Rejection::InvalidToken));
    assert_eq!(db.session(&second).unwrap().user_id(), 1);
    assert_eq!(db.session(&other).unwrap().user_id(), 2);
}

#[test]
fn tokens_lead_to_their_user_until_they_end() {
    let db = Db::open();
    let alice = db.register("alice", "xyz").unwrap();
    let bob = db.register("bob", "abc").unwrap();
    assert_eq!(db.session(&alice).unwrap().user_id(), 1);
    assert_eq!(db.session(&bob).unwrap().user_id(), 2);
    let (next, _, _) = db.login("bob", "abc").unwrap();
    assert_eq!(db.session(&bob).err(), Some(Rejection::InvalidToken));
    let session = db.session(&next).unwrap();
    assert_eq!(session.user_id(), 2);
    db.execute(&logout_user(&session)).unwrap();
    assert_eq!(db.session(&next).err(), Some(Rejection::InvalidToken));
    assert_eq!(db.session(&alice).unwrap().user_id(), 1);
}

#[test]
fn refused_login_keeps_the_token() {
    let db = Db::open();
    let token = db.register("alice", "xyz").unwrap();
    assert_eq!(db.login("alice", "abc"), Err(Rejection::InvalidCredentials));
    assert_eq!(db.login("carol", "xyz"), Err(Rejection::InvalidCredentials));
    assert!(db.session(&token).is_ok());
}

#[test]
fn logout_ends_the_session() {
    let db = Db::open();
    let token = db.register("alice", "xyz").unwrap();
    let session = db.session(&token).unwrap();
    db.execute(&logout_user(&session)).unwrap();
    assert_eq!(db.session(&token).err(), Some(Rejection::InvalidToken));
    assert_eq!(db.session("").err(), Some(Rejection::InvalidToken));
}

#[test]
fn uploads_are_listed_newest_first() {
    let db = Db::open();
    let alice = db.session(&db.register("alice", "xyz").unwrap()).unwrap();
    let bob = db.session(&db.register("bob", "abc").unwrap()).unwrap();
    db.upload(alice.user_id(), "a");
    db.upload(bob.user_id(), "b");
    db.upload(alice.user_id(), "c");
    let own = db.list(&list_user_images(&alice, everything("")).unwrap());
    assert_eq!(paths(&own), vec!["/images/c.png", "/images/a.png"]);
    let all = db.list(&list_all_images(Err(Rejection::MissingToken), everything("")));
    assert_eq!(paths(&all), vec!["/images/c.png", "/images/b.png", "/images/a.png"]);
    assert!(all.iter().all(|record| record.tags.is_empty() && !record.is_favorited));
}

#[test]
fn deletion_is_for_the_owner_and_takes_one_image() {
    let db = Db::open();
    let alice = db.session(&db.register("alice", "xyz").unwrap()).unwrap();
    let bob = db.session(&db.register("bob", "abc").unwrap()).unwrap();
    let image = db.upload(alice.user_id(), "a");
    let kept = db.upload(alice.user_id(), "b");
    for id in [image, kept] {
        db.toggle(&bob, id).unwrap();
        db.tag(&alice, id, "cat").unwrap();
    }

    let (query, deletion) = delete_image(&bob, image);
    let answer = db.row(&query).map(|row| row.get("file_path"));
    assert_eq!(deletion.found(Ok(answer)).err(), Some(Rejection::ImageNotFoundOrDenied));

    let (query, deletion) = delete_image(&alice, image);
    let answer = db.row(&query).map(|row| row.get("file_path"));
    let removal = deletion.found(Ok(answer)).unwrap();
    assert_eq!(removal.disk_path, "uploads/a.png");
    db.execute(&removal.removed()).unwrap();
    let all = db.list(&list_all_images(Ok(alice), everything("")));
    assert_eq!(paths(&all), vec!["/images/b.png"]);
    assert_eq!(db.dump("favorites"), vec![vec![bob.user_id().to_string(), kept.to_string()]]);
    assert_eq!(db.dump("image_tags"), vec![vec![kept.to_string(), "1".to_string()]]);
    assert_eq!(db.dump("tags").len(), 1);
}

#[test]
fn toggling_turns_one_favorite_around() {
    let db = Db::open();
    let alice = db.session(&db.register("alice", "xyz").unwrap()).unwrap();
    let bob = db.session(&db.register("bob", "abc").unwrap()).unwrap();
    let image = db.upload(alice.user_id(), "a");
    db.upload(alice.user_id(), "b");
    db.toggle(&bob, image).unwrap();
    let before = db.dump("favorites");

    assert_eq!(db.toggle(&alice, image), Ok(Notice::AddedToFavorites));
    assert_eq!(paths(&db.list(&list_favorite_images(&alice))), vec!["/images/a.png"]);
    let marks = |session: Session| -> Vec<bool> {
        let records = db.list(&list_all_images(Ok(session), everything("")));
        records.iter().map(|record| record.is_favorited).collect()
    };
    assert_eq!(marks(alice), vec![false, true]);
    let own = db.list(&list_user_images(&alice, everything("")).unwrap());
    assert!(own[1].is_favorited && !own[0].is_favorited);

    assert_eq!(db.toggle(&alice, image), Ok(Notice::RemovedFromFavorites));
    assert_eq!(db.dump("favorites"), before);
    assert_eq!(marks(alice), vec![false, false]);
    assert_eq!(marks(bob), vec![false, true]);
    assert!(db.list(&list_favorite_images(&bob))[0].is_favorited);
}

#[test]
fn tags_can_be_added_found_and_removed() {
    let db = Db::open();
    let alice = db.session(&db.register("alice", "xyz").unwrap()).unwrap();
    let image = db.upload(alice.user_id(), "a");
    let other = db.upload(alice.user_id(), "b");
    assert_eq!(db.tag(&alice, image, " Cat "), Ok(Notice::TagAdded));
    assert_eq!(db.tag(&alice, image, "pet"), Ok(Notice::TagAdded));
    assert_eq!(db.tag(&alice, other, "cat"), Ok(Notice::TagAdded));

    let tables = (db.dump("tags"), db.dump("image_tags"));
    assert_eq!(db.tag(&alice, image, "CAT"), Ok(Notice::TagAdded));
    assert_eq!((db.dump("tags"), db.dump("image_tags")), tables);

    let found = db.list(&list_all_images(Err(Rejection::MissingToken), everything("pet")));
    assert_eq!(paths(&found), vec!["/images/a.png"]);
    let mut tags = found[0].tags.clone();
    tags.sort();
    assert_eq!(tags, vec!["cat", "pet"]);

    db.untag(&alice, image, "cat").unwrap();
    let found = db.list(&list_user_images(&alice, everything("cat")).unwrap());
    assert_eq!(paths(&found), vec!["/images/b.png"]);
    let names: Vec<String> = db.rows(&list_tags()).iter().map(|row| row.get("name")).collect();
    assert_eq!(names, vec!["cat", "pet"]);
}

fn images(records: &[ImageRecord]) -> Vec<(i64, String, Vec<String>)> {
    records
        .iter()
        .map(|record| {
            let mut tags = record.tags.clone();
            tags.sort();
            (record.id, record.file_path.clone(), tags)
        })
        .collect()
}

#[test]
fn lists_are_cut_from_the_list_of_all_images() {
    let db = Db::open();
    let alice = db.session(&db.register("alice", "xyz").unwrap()).unwrap();
    let bob = db.session(&db.register("bob", "abc").unwrap()).unwrap();
    for (session, name) in [(&alice, "a"), (&bob, "b"), (&alice, "c"), (&bob, "d")] {
        let id = db.upload(session.user_id(), name);
        for tag in ["cat", "pet", name] {
            db.tag(&alice, id, tag).unwrap();
        }
    }
    for id in [1, 2, 4] {
        db.toggle(&alice, id).unwrap();
        db.toggle(&bob, id).unwrap();
    }
    db.toggle(&bob, 4).unwrap();

    let all = db.list(&list_all_images(Ok(alice), everything("")));
    let seen_by_bob = db.list(&list_all_images(Ok(bob), everything("")));
    let seen_by_nobody = db.list(&list_all_images(Err(Rejection::InvalidToken), everything("")));
    assert_eq!(all.iter().map(|record| record.id).collect::<Vec<_>>(), vec![4, 3, 2, 1]);
    assert_eq!(images(&all), images(&seen_by_bob));
    assert_eq!(images(&all), images(&seen_by_nobody));
    let marks = |records: &[ImageRecord]| -> Vec<bool> {
        records.iter().map(|record| record.is_favorited).collect()
    };
    assert_eq!(marks(&all), vec![true, false, true, true]);
    assert_eq!(marks(&seen_by_bob), vec![false, false, true, true]);
    assert_eq!(marks(&seen_by_nobody), vec![false; 4]);

    let own = db.list(&list_user_images(&alice, everything("")).unwrap());
    assert_eq!(images(&own), vec![images(&all)[1].clone(), images(&all)[3].clone()]);
    assert_eq!(marks(&own), vec![false, true]);

    let favorites = db.list(&list_favorite_images(&alice));
    let marked: Vec<_> = all.into_iter().filter(|record| record.is_favorited).collect();
    assert_eq!(images(&favorites), images(&marked));
    assert_eq!(marks(&favorites), vec![true; 3]);
}

#[test]
fn pending_users_are_listed_once_until_approved() {
    let db = Db::open();
    let admin = db.session(&db.register("alice", "xyz").unwrap()).unwrap();
    for name in ["bob", "carol", "dave"] {
        db.register(name, "abc").unwrap();
    }
    let pending = || -> Vec<(i64, String)> {
        let mut users: Vec<(i64, String)> = db
            .rows(&list_pending_users(&admin).unwrap())
            .iter()
            .map(|row| (row.get("id"), row.get("username")))
            .collect();
        users.sort();
        users
    };
    let user = |id: i64, name: &str| (id, name.to_string());
    assert_eq!(pending(), vec![user(2, "bob"), user(3, "carol"), user(4, "dave")]);
    db.execute(&approve_user(&admin, 3).unwrap()).unwrap();
    assert_eq!(pending(), vec![user(2, "bob"), user(4, "dave")]);
}

#[test]
fn tag_names_are_listed_once_in_ascending_order() {
    let db = Db::open();
    let alice = db.session(&db.register("alice", "xyz").unwrap()).unwrap();
    let image = db.upload(alice.user_id(), "a");
    for name in ["z", "é", "ab", "a", "😀", "\u{ffff}", "a", "10", "b"] {
        db.tag(&alice, image, name).unwrap();
    }
    let names = || -> Vec<String> {
        db.rows(&list_tags()).iter().map(|row| row.get("name")).collect()
    };
    let expected = vec!["10", "a", "ab", "b", "z", "é", "\u{ffff}", "😀"];
    assert_eq!(names(), expected);
    db.untag(&alice, image, "ab").unwrap();
    assert_eq!(names(), expected);
}

#[test]
fn removing_a_tag_undoes_adding_it() {
    let db = Db::open();
    let alice = db.session(&db.register("alice", "xyz").unwrap()).unwrap();
    let image = db.upload(alice.user_id(), "a");
    db.tag(&alice, image, "cat").unwrap();
    let before = db.dump("image_tags");
    db.tag(&alice, image, "MyTag").unwrap();
    let added = db.dump("image_tags");
    assert_ne!(added, before);
    db.untag(&alice, image, "MyTag").unwrap();
    assert_eq!(db.dump("image_tags"), added);
    db.untag(&alice, image, "mytag").unwrap();
    assert_eq!(db.dump("image_tags"), before);
}

#[test]
fn unapproved_user_logs_in_with_the_registered_password() {
    let db = Db::open();
    db.register("alice", "xyz").unwrap();
    db.register("bob", "abc").unwrap();
    let (_, is_admin, is_approved) = db.login("bob", "abc").unwrap();
    assert!(!is_admin && !is_approved);
    assert_eq!(db.login("bob", "xyz"), Err(Rejection::InvalidCredentials));
}

#[test]
fn rows_that_refer_to_nothing_are_refused() {
    let db = Db::open();
    let alice = db.session(&db.register("alice", "xyz").unwrap()).unwrap();
    let image = db.upload(alice.user_id(), "a");
    for query in [
        Statement::AddImage { user_id: 9, file_path: "/images/x.png".to_string() },
        Statement::AddFavorite { user_id: 9, image_id: image },
        Statement::AddFavorite { user_id: alice.user_id(), image_id: 9 },
        Statement::LinkTag { image_id: image, tag_id: 9 },
    ] {
        assert_eq!(db.execute(&query), Err(StoreError));
    }
}

#[test]
fn tags_take_the_owner_or_an_admin() {
    let db = Db::open();
    let admin = db.session(&db.register("alice", "xyz").unwrap()).unwrap();
    let bob = db.session(&db.register("bob", "abc").unwrap()).unwrap();
    let image = db.upload(bob.user_id(), "a");
    let foreign = db.upload(admin.user_id(), "b");
    assert_eq!(db.tag(&bob, foreign, "cat"), Err(Rejection::NotYourImage));
    assert_eq!(db.untag(&bob, foreign, "cat"), Err(Rejection::NotYourImage));
    assert_eq!(db.tag(&bob, image, "cat"), Ok(Notice::TagAdded));
    assert_eq!(db.tag(&admin, image, "pet"), Ok(Notice::TagAdded));
    assert_eq!(db.untag(&admin, image, "cat"), Ok(()));
    assert_eq!(db.dump("image_tags").len(), 1);
}

#[test]
fn every_statement_has_as_many_values_as_placeholders() {
    let text = || "t".to_string();
    let statements: Vec<Query> = vec![
        Statement::AccountByToken { token_hash: text() },
        Statement::CredentialsByName { username: text() },
        Statement::CountUsers,
        Statement::AddUser {
            username: text(),
            password_hash: text(),
            token_hash: text(),
            is_approved: 1,
            is_admin: 0,
        },
        Statement::SetToken { token_hash: text(), user_id: 1 },
        Statement::ClearToken { user_id: 1 },
        Statement::PendingUsers,
        Statement::ApproveUser { user_id: 1 },
        Statement::AddImage { user_id: 1, file_path: text() },
        Statement::OwnedImagePath { image_id: 2, user_id: 1 },
        Statement::OwnedImage { image_id: 2, user_id: 1 },
        Statement::ImageByPath { file_path: text() },
        Statement::DeleteImage { image_id: 9 },
        Statement::UserImages { user_id: 1, tag: text() },
        Statement::AllImagesFor { user_id: 1, tag: text() },
        Statement::AllImages { tag: text() },
        Statement::FavoriteImages { user_id: 1 },
        Statement::RemoveFavorite { user_id: 1, image_id: 2 },
        Statement::AddFavorite { user_id: 1, image_id: 1 },
        Statement::TagNames,
        Statement::AddTag { name: text() },
        Statement::TagByName { name: text() },
        Statement::LinkTag { image_id: 1, tag_id: 1 },
        Statement::UnlinkTag { image_id: 2, name: text() },
    ];
    let db = Db::open();
    for query in &statements {
        assert_eq!(query.sql().matches('?').count(), query.params().len(), "{query:?}");
        assert!(db.execute(query).is_ok(), "{query:?}");
    }
}

#[test]
fn values_are_bound_in_the_order_of_the_placeholders() {
    let rendered = |query: &Query| -> Vec<String> {
        query
            .params()
            .into_iter()
            .map(|param| match param {
                Param::Integer(n) => n.to_string(),
                Param::Text(text) => text,
            })
            .collect()
    };
    let added = Statement::AddUser {
        username: "u".to_string(),
        password_hash: "p".to_string(),
        token_hash: "t".to_string(),
        is_approved: 5,
        is_admin: 6,
    };
    assert_eq!(rendered(&added), vec!["u", "p", "t", "5", "6"]);
    let own = Statement::UserImages { user_id: 4, tag: "cat".to_string() };
    assert_eq!(rendered(&own), vec!["4", "4", "cat", "cat"]);
    assert_eq!(rendered(&Statement::OwnedImage { image_id: 2, user_id: 1 }), vec!["2", "1"]);
    assert_eq!(rendered(&Statement::RemoveFavorite { user_id: 1, image_id: 2 }), vec!["1", "2"]);
}
