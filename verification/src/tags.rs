//! Tags: listing them, and adding and removing them by hand.

use vstd::prelude::*;
use vstd::utf8::is_ascii_chars;

use crate::reply::{acknowledged, delivered, Notice, Rejection};
use crate::session::Session;
use crate::store::{Query, Statement, StoreError};
use crate::text::{
    ascii_lowercase, ascii_small, contains_char, is_white_space, law_trimming_leaves_the_core,
    lowercase, trim, trimmed,
};

verus! {

/// The body of a request to add a tag.
#[derive(Debug)]
pub struct TagPayload {
    pub name: String,
}

/// Starts the listing of all tag names.
pub fn list_tags() -> (asked: Query)
    ensures
        asked@ == Statement::<Seq<char>>::TagNames,
{
    Statement::TagNames
}

/// Ends the listing of all tag names: they are answered as the store returned them.
pub fn tags_listed(names: Result<Vec<String>, StoreError>) -> (listed: Result<
    Vec<String>,
    Rejection,
>)
    ensures
        listed == (match names {
            Err(_) => Err::<Vec<String>, Rejection>(Rejection::Database),
            Ok(found) => Ok::<Vec<String>, Rejection>(found),
        }),
{
    delivered(names)
}

/// Whether a text may be the name of a tag.
pub open spec fn is_tag_name(name: Seq<char>) -> bool {
    name.len() > 0 && !name.contains(' ')
}

/// The form in which a tag name given by a user is kept: without white space around it and in
/// lower case.
pub open spec fn normalized_tag(name: Seq<char>) -> Seq<char> {
    lowercase(trimmed(name))
}

/// Brings a tag name given by a user into the form in which it is kept, if it is acceptable. Of an
/// ASCII name that form is plain: its letters `A` to `Z` become small.
pub fn normalize_tag(name: &str) -> (kept: Option<String>)
    ensures
        match kept {
            Some(tag) => tag@ == normalized_tag(name@) && is_tag_name(tag@),
            None => !is_tag_name(normalized_tag(name@)),
        },
        kept is None <==> lowercase(trimmed(name@)).len() == 0 || lowercase(
            trimmed(name@),
        ).contains(' '),
        kept matches Some(tag) ==> tag@ == lowercase(trimmed(name@)),
        is_ascii_chars(trimmed(name@)) ==> (kept is Some <==> trimmed(name@).len() > 0 && !trimmed(
            name@,
        ).contains(' ')),
        is_ascii_chars(trimmed(name@)) ==> normalized_tag(name@) == ascii_lowercase(trimmed(name@)),
{
    let tag = trim(name).as_str().to_lowercase();
    proof {
        lemma_small_letters_keep_spaces(trimmed(name@));
    }
    if tag.as_str().is_empty() || contains_char(tag.as_str(), ' ') {
        None
    } else {
        Some(tag)
    }
}

/// The addition of a tag, waiting for the answer whether the user owns the image.
#[derive(Debug)]
pub struct TagAddition {
    pub image_id: i64,
    pub name: String,
    pub is_admin: bool,
}

/// The removal of a tag, waiting for the answer whether the user owns the image.
#[derive(Debug)]
pub struct TagRemoval {
    pub image_id: i64,
    pub name: String,
    pub is_admin: bool,
}

/// A tag on its way onto an image.
#[derive(Debug)]
pub struct TagLink {
    pub image_id: i64,
    pub name: String,
}

/// Why a change to the tags of an image is refused, if it is: it takes the owner or an admin.
pub open spec fn change_refusal(
    owned: Result<Option<i64>, StoreError>,
    is_admin: bool,
) -> Option<Rejection> {
    match owned {
        Err(_) => Some(Rejection::Database),
        Ok(None) => if is_admin {
            None
        } else {
            Some(Rejection::NotYourImage)
        },
        Ok(Some(_)) => None,
    }
}

fn refusal_of_change(owned: Result<Option<i64>, StoreError>, is_admin: bool) -> (refusal: Option<
    Rejection,
>)
    ensures
        refusal == change_refusal(owned, is_admin),
{
    match owned {
        Err(_) => Some(Rejection::Database),
        Ok(None) => if is_admin {
            None
        } else {
            Some(Rejection::NotYourImage)
        },
        Ok(Some(_)) => None,
    }
}

/// Starts the addition of a tag: the store is asked whether the user owns the image.
pub fn add_tag(session: &Session, image_id: i64, payload: TagPayload) -> (asked: (
    Query,
    TagAddition,
))
    ensures
        asked.0@ == (Statement::<Seq<char>>::OwnedImage {
            image_id,
            user_id: session.account().id,
        }),
        asked.1.image_id == image_id,
        asked.1.name@ == payload.name@,
        asked.1.is_admin == (session.account().is_admin != 0),
{
    (
        Statement::OwnedImage { image_id, user_id: session.user_id() },
        TagAddition { image_id, name: payload.name, is_admin: session.is_admin() },
    )
}

/// Starts the removal of a tag: the store is asked whether the user owns the image.
pub fn remove_tag(session: &Session, image_id: i64, tag_name: String) -> (asked: (
    Query,
    TagRemoval,
))
    ensures
        asked.0@ == (Statement::<Seq<char>>::OwnedImage {
            image_id,
            user_id: session.account().id,
        }),
        asked.1.image_id == image_id,
        asked.1.name@ == tag_name@,
        asked.1.is_admin == (session.account().is_admin != 0),
{
    (
        Statement::OwnedImage { image_id, user_id: session.user_id() },
        TagRemoval { image_id, name: tag_name, is_admin: session.is_admin() },
    )
}

impl TagAddition {
    /// Goes on with the answer: a tag of the normalized name is created unless there is one.
    pub fn owned(self, owned: Result<Option<i64>, StoreError>) -> (asked: Result<
        (Query, TagLink),
        Rejection,
    >)
        ensures
            match change_refusal(owned, self.is_admin) {
                Some(refusal) => asked == Err::<(Query, TagLink), Rejection>(refusal),
                None => if is_tag_name(normalized_tag(self.name@)) {
                    &&& asked is Ok
                    &&& asked->Ok_0.0@ == (Statement::AddTag { name: normalized_tag(self.name@) })
                    &&& asked->Ok_0.1.image_id == self.image_id
                    &&& asked->Ok_0.1.name@ == normalized_tag(self.name@)
                } else {
                    asked == Err::<(Query, TagLink), Rejection>(Rejection::InvalidTag)
                },
            },
            change_refusal(owned, self.is_admin) is None && is_ascii_chars(trimmed(self.name@))
                ==> normalized_tag(self.name@) == ascii_lowercase(trimmed(self.name@)),
            // The owner adds every name that is a single ASCII word, however long.
            owned is Ok && owned->Ok_0 is Some && is_ascii_chars(trimmed(self.name@)) && trimmed(
                self.name@,
            ).len() > 0 && !trimmed(self.name@).contains(' ') ==> asked is Ok && asked->Ok_0.0@ == (
            Statement::AddTag { name: ascii_lowercase(trimmed(self.name@)) }),
    {
        proof {
            lemma_small_letters_keep_spaces(trimmed(self.name@));
        }
        match refusal_of_change(owned, self.is_admin) {
            Some(refusal) => Err(refusal),
            None => match normalize_tag(self.name.as_str()) {
                Some(tag) => Ok(
                    (
                        Statement::AddTag { name: tag.clone() },
                        TagLink { image_id: self.image_id, name: tag },
                    ),
                ),
                None => Err(Rejection::InvalidTag),
            },
        }
    }
}

impl TagRemoval {
    /// Goes on with the answer: the tag of that very name is taken off the image.
    pub fn owned(self, owned: Result<Option<i64>, StoreError>) -> (asked: Result<
        Query,
        Rejection,
    >)
        ensures
            match change_refusal(owned, self.is_admin) {
                Some(refusal) => asked == Err::<Query, Rejection>(refusal),
                None => asked is Ok && asked->Ok_0@ == (Statement::UnlinkTag {
                    image_id: self.image_id,
                    name: self.name@,
                }),
            },
    {
        match refusal_of_change(owned, self.is_admin) {
            Some(refusal) => Err(refusal),
            None => Ok(Statement::UnlinkTag { image_id: self.image_id, name: self.name }),
        }
    }
}

impl TagLink {
    /// Goes on once the tag exists: the store is asked for its id.
    pub fn created(&self, outcome: Result<(), StoreError>) -> (asked: Result<Query, Rejection>)
        ensures
            match outcome {
                Err(_) => asked == Err::<Query, Rejection>(Rejection::Database),
                Ok(_) => asked is Ok && asked->Ok_0@ == (Statement::TagByName { name: self.name@ }),
            },
    {
        match outcome {
            Err(_) => Err(Rejection::Database),
            Ok(_) => Ok(Statement::TagByName { name: self.name.clone() }),
        }
    }

    /// Goes on with the id of the tag: the tag is put on the image.
    pub fn identified(&self, tag_id: Result<i64, StoreError>) -> (asked: Result<Query, Rejection>)
        ensures
            match tag_id {
                Err(_) => asked == Err::<Query, Rejection>(Rejection::Database),
                Ok(id) => asked is Ok && asked->Ok_0@ == (Statement::<Seq<char>>::LinkTag {
                    image_id: self.image_id,
                    tag_id: id,
                }),
            },
    {
        match tag_id {
            Err(_) => Err(Rejection::Database),
            Ok(id) => Ok(Statement::LinkTag { image_id: self.image_id, tag_id: id }),
        }
    }

    /// Ends the addition of a tag.
    pub fn linked(self, outcome: Result<(), StoreError>) -> (answer: Result<Notice, Rejection>)
        ensures
            answer == (match outcome {
                Err(_) => Err::<Notice, Rejection>(Rejection::Database),
                Ok(_) => Ok::<Notice, Rejection>(Notice::TagAdded),
            }),
    {
        acknowledged(outcome, Notice::TagAdded)
    }
}

/// Ends the removal of a tag.
pub fn tag_removed(outcome: Result<(), StoreError>) -> (answer: Result<Notice, Rejection>)
    ensures
        answer == (match outcome {
            Err(_) => Err::<Notice, Rejection>(Rejection::Database),
            Ok(_) => Ok::<Notice, Rejection>(Notice::TagRemoved),
        }),
{
    acknowledged(outcome, Notice::TagRemoved)
}

proof fn lemma_small_letters_keep_spaces(text: Seq<char>)
    ensures
        ascii_lowercase(text).len() == text.len(),
        ascii_lowercase(text).contains(' ') == text.contains(' '),
{
    let small = ascii_lowercase(text);
    assert forall|i: int| 0 <= i < text.len() implies (#[trigger] small[i] == ' ') == (text[i]
        == ' ') by {
        assert(small[i] == ascii_small(text[i]));
    }
    if small.contains(' ') {
        let i = choose|i: int| 0 <= i < small.len() && small[i] == ' ';
        assert(text[i] == ' ');
    }
    if text.contains(' ') {
        let i = choose|i: int| 0 <= i < text.len() && text[i] == ' ';
        assert(small[i] == ' ');
    }
}

/// A text may be the name of a tag whatever its length: one character may that is no space, and
/// what two names make up together may. A text that is empty or holds a space may not.
pub proof fn law_names_are_of_any_length(c: char, name: Seq<char>, other: Seq<char>)
    ensures
        is_tag_name(seq![c]) == (c != ' '),
        is_tag_name(name) && is_tag_name(other) ==> is_tag_name(name + other),
        name.len() > 0 && other.len() > 0 && is_tag_name(name + other) ==> is_tag_name(name)
            && is_tag_name(other),
        !is_tag_name(Seq::empty()),
{
    assert(seq![c][0] == c);
    if is_tag_name(name) && is_tag_name(other) && (name + other).contains(' ') {
        let i = choose|i: int| 0 <= i < (name + other).len() && (name + other)[i] == ' ';
        if i < name.len() {
            assert(name[i] == ' ');
        } else {
            assert(other[i - name.len()] == ' ');
        }
    }
    if name.contains(' ') {
        let i = choose|i: int| 0 <= i < name.len() && name[i] == ' ';
        assert((name + other)[i] == ' ');
    }
    if other.contains(' ') {
        let i = choose|i: int| 0 <= i < other.len() && other[i] == ' ';
        assert((name + other)[name.len() + i] == ' ');
    }
}

/// White space around a name does not matter: the name is kept as it would be without.
pub proof fn law_white_space_around_a_name_is_dropped(
    front: Seq<char>,
    name: Seq<char>,
    back: Seq<char>,
)
    requires
        forall|i: int| 0 <= i < front.len() ==> is_white_space(#[trigger] front[i]),
        forall|i: int| 0 <= i < back.len() ==> is_white_space(#[trigger] back[i]),
        name.len() > 0 ==> !is_white_space(name[0]) && !is_white_space(name[name.len() - 1]),
    ensures
        normalized_tag(front + name + back) == lowercase(name),
{
    law_trimming_leaves_the_core(front, name, back);
}

/// Changing the tags of an image takes its owner or an admin, and nothing more: the owner is never
/// refused, an admin only by a failure of the store, and anybody else always.
pub proof fn law_tags_are_changed_by_owner_or_admin(image_id: i64, is_admin: bool)
    ensures
        change_refusal(Ok(Some(image_id)), is_admin) is None,
        change_refusal(Ok(None), true) is None,
        change_refusal(Ok(None), false) == Some(Rejection::NotYourImage),
        change_refusal(Err(StoreError), is_admin) == Some(Rejection::Database),
{
}

} // verus!
