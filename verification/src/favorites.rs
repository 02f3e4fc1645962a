//! Favorite images.

use vstd::prelude::*;

use crate::reply::{acknowledged, Notice, Rejection};
use crate::session::Session;
use crate::store::{Query, Statement, StoreError};

verus! {

/// A toggle that has asked for the favorite to be removed.
#[derive(Clone, Copy, Debug, PartialEq, Eq, Structural)]
pub struct Toggle {
    pub user_id: i64,
    pub image_id: i64,
}

/// A toggle that found nothing to remove and has asked for the favorite to be added.
#[derive(Clone, Copy, Debug, PartialEq, Eq, Structural)]
pub struct FavoriteAddition;

/// What a toggle does once the removal has been answered.
#[derive(Debug)]
pub enum ToggleStep {
    Add(Query, FavoriteAddition),
    Done(Result<Notice, Rejection>),
}

impl Toggle {
    /// What follows the answer to the removal, which tells how many rows were removed.
    pub open spec fn next(self, removed: Result<u64, StoreError>) -> ToggleStep {
        match removed {
            Err(_) => ToggleStep::Done(Err(Rejection::Database)),
            Ok(rows) => if rows > 0 {
                ToggleStep::Done(Ok(Notice::RemovedFromFavorites))
            } else {
                ToggleStep::Add(
                    Statement::AddFavorite { user_id: self.user_id, image_id: self.image_id },
                    FavoriteAddition,
                )
            },
        }
    }

    /// Goes on with the answer to the removal: where nothing was removed, the favorite is added.
    pub fn removed(self, removed: Result<u64, StoreError>) -> (step: ToggleStep)
        ensures
            step == self.next(removed),
            removed is Err ==> step == ToggleStep::Done(Err(Rejection::Database)),
            removed is Ok && removed->Ok_0 > 0 ==> step == ToggleStep::Done(
                Ok(Notice::RemovedFromFavorites),
            ),
            removed is Ok && removed->Ok_0 == 0 ==> step is Add && step->Add_0@ == (
            Statement::<Seq<char>>::AddFavorite {
                user_id: self.user_id,
                image_id: self.image_id,
            }),
    {
        match removed {
            Err(_) => ToggleStep::Done(Err(Rejection::Database)),
            Ok(rows) => if rows > 0 {
                ToggleStep::Done(Ok(Notice::RemovedFromFavorites))
            } else {
                ToggleStep::Add(
                    Statement::AddFavorite { user_id: self.user_id, image_id: self.image_id },
                    FavoriteAddition,
                )
            },
        }
    }
}

/// Starts a toggle: the favorite is removed if it is there.
pub fn toggle_favorite(session: &Session, image_id: i64) -> (asked: (Query, Toggle))
    ensures
        asked.0 == (Statement::<String>::RemoveFavorite {
            user_id: session.account().id,
            image_id,
        }),
        asked.1 == (Toggle { user_id: session.account().id, image_id }),
{
    let user_id = session.user_id();
    (Statement::RemoveFavorite { user_id, image_id }, Toggle { user_id, image_id })
}

impl FavoriteAddition {
    /// Ends a toggle that added a favorite.
    pub fn added(self, outcome: Result<(), StoreError>) -> (answer: Result<Notice, Rejection>)
        ensures
            answer == (match outcome {
                Err(_) => Err::<Notice, Rejection>(Rejection::Database),
                Ok(_) => Ok::<Notice, Rejection>(Notice::AddedToFavorites),
            }),
    {
        acknowledged(outcome, Notice::AddedToFavorites)
    }
}

} // verus!
