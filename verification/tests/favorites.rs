use image_host::favorites::{toggle_favorite, FavoriteAddition, Toggle, ToggleStep};
use image_host::reply::{Notice, Rejection};
use image_host::session::{authenticated, Account};
use image_host::store::{Statement, StoreError};

#[test]
fn toggle_removes_first() {
    let account = Account { id: 3, is_approved: 0, is_admin: 0 };
    let session = authenticated(Ok(Some(account))).unwrap();
    let (query, toggle) = toggle_favorite(&session, 12);
    assert!(matches!(query, Statement::RemoveFavorite { user_id: 3, image_id: 12 }));
    assert_eq!(toggle, Toggle { user_id: 3, image_id: 12 });
}

#[test]
fn toggle_adds_where_nothing_was_removed() {
    let toggle = Toggle { user_id: 3, image_id: 12 };
    assert!(matches!(
        toggle.removed(Ok(0)),
        ToggleStep::Add(Statement::AddFavorite { user_id: 3, image_id: 12 }, FavoriteAddition)
    ));
    assert!(matches!(
        toggle.removed(Ok(1)),
        ToggleStep::Done(Ok(Notice::RemovedFromFavorites))
    ));
    assert!(matches!(
        toggle.removed(Err(StoreError)),
        ToggleStep::Done(Err(Rejection::Database))
    ));
}

#[test]
fn toggle_reports_the_addition() {
    assert_eq!(FavoriteAddition.added(Ok(())), Ok(Notice::AddedToFavorites));
    assert_eq!(FavoriteAddition.added(Err(StoreError)), Err(Rejection::Database));
}
