//! Authentication by bearer token.

use vstd::prelude::*;

use crate::credentials::{hash_token, is_hex_digit, is_uuid_v4, token_digest};
use crate::reply::Rejection;
use crate::store::{Query, Statement, StoreError};
use crate::text::strip_prefix;

verus! {

/// The columns of a user that authorization depends on.
#[derive(Clone, Copy, Debug, PartialEq, Eq, Structural)]
pub struct Account {
    pub id: i64,
    pub is_approved: i64,
    pub is_admin: i64,
}

/// An authenticated user. The only way to get one is `authenticated`.
#[derive(Clone, Copy, Debug)]
pub struct Session {
    account: Account,
}

impl Session {
    /// The account that authenticated.
    pub closed spec fn account(self) -> Account {
        self.account
    }

    /// The id of the user.
    pub fn user_id(&self) -> (id: i64)
        ensures
            id == self.account().id,
    {
        self.account.id
    }

    /// Whether an admin has approved the user.
    pub fn is_approved(&self) -> (approved: bool)
        ensures
            approved == (self.account().is_approved != 0),
    {
        self.account.is_approved != 0
    }

    /// Whether the user is an admin.
    pub fn is_admin(&self) -> (admin: bool)
        ensures
            admin == (self.account().is_admin != 0),
    {
        self.account.is_admin != 0
    }
}

/// Whether `byte` is a visible ASCII character, a space or a tab.
pub open spec fn is_header_text_byte(byte: u8) -> bool {
    32 <= byte < 127 || byte == 9
}

/// Whether a header value is plain text.
pub open spec fn is_header_text(value: Seq<u8>) -> bool {
    forall|i: int| 0 <= i < value.len() ==> is_header_text_byte(#[trigger] value[i])
}

/// The characters that the bytes of an ASCII text stand for.
pub open spec fn ascii_text(value: Seq<u8>) -> Seq<char> {
    value.map_values(|byte: u8| byte as char)
}

/// The token in the value of an `Authorization` header: what follows `Bearer ` in a plain-text
/// value.
pub open spec fn bearer_token(header: Option<Seq<u8>>) -> Option<Seq<char>> {
    match header {
        Some(value) => if is_header_text(value) && "Bearer "@.is_prefix_of(ascii_text(value)) {
            Some(ascii_text(value).skip("Bearer "@.len() as int))
        } else {
            None
        },
        None => None,
    }
}

/// The view of an optional header value.
pub open spec fn header_view(header: Option<&[u8]>) -> Option<Seq<u8>> {
    match header {
        Some(value) => Some(value@),
        None => None,
    }
}

/// `HeaderValue::to_str` gives the text of a header value that holds visible ASCII characters,
/// spaces and tabs only. `HeaderValue::from_bytes` takes every value that can arrive in a request,
/// all plain-text values among them.
#[verifier::external_body]
fn header_text(value: &[u8]) -> (text: Option<String>)
    ensures
        text is Some <==> is_header_text(value@),
        text matches Some(plain) ==> plain@ == ascii_text(value@),
{
    let header = axum::http::HeaderValue::from_bytes(value).ok()?;
    header.to_str().ok().map(String::from)
}

/// Starts authentication from the value of the `Authorization` header: the store is asked for the
/// account that holds the digest of the bearer token.
pub fn authenticate_user(header: Option<&[u8]>) -> (asked: Result<Query, Rejection>)
    ensures
        match bearer_token(header_view(header)) {
            None => asked == Err::<Query, Rejection>(Rejection::MissingToken),
            Some(token) => asked is Ok && asked->Ok_0@ == (Statement::AccountByToken {
                token_hash: token_digest(token),
            }),
        },
{
    let value = match header {
        Some(value) => value,
        None => {
            return Err(Rejection::MissingToken);
        },
    };
    let plain = match header_text(value) {
        Some(plain) => plain,
        None => {
            return Err(Rejection::MissingToken);
        },
    };
    match strip_prefix(plain.as_str(), "Bearer ") {
        Some(token) => Ok(Statement::AccountByToken { token_hash: hash_token(token.as_str()) }),
        None => Err(Rejection::MissingToken),
    }
}

/// Ends authentication with the store's answer.
pub fn authenticated(answer: Result<Option<Account>, StoreError>) -> (session: Result<
    Session,
    Rejection,
>)
    ensures
        match answer {
            Err(_) => session == Err::<Session, Rejection>(Rejection::Database),
            Ok(None) => session == Err::<Session, Rejection>(Rejection::InvalidToken),
            Ok(Some(account)) => session is Ok && session->Ok_0.account() == account,
        },
{
    match answer {
        Err(_) => Err(Rejection::Database),
        Ok(None) => Err(Rejection::InvalidToken),
        Ok(Some(account)) => Ok(Session { account }),
    }
}

/// The bytes of the header value that presents `token`.
pub open spec fn bearer_header(token: Seq<char>) -> Seq<u8> {
    ("Bearer "@ + token).map_values(|c: char| c as u8)
}

/// A token of the form that the backend issues, presented as `Bearer <token>`, is recognised
/// unchanged, so the store is asked for the very digest that was stored when it was issued.
pub proof fn law_issued_token_is_recognised(token: Seq<char>)
    requires
        is_uuid_v4(token),
    ensures
        bearer_token(Some(bearer_header(token))) == Some(token),
{
    reveal_strlit("Bearer ");
    let value = bearer_header(token);
    let text = "Bearer "@ + token;
    assert forall|i: int| 0 <= i < text.len() implies 32 <= #[trigger] text[i] as int
        && (text[i] as int) < 127 by {
        if i >= 7 {
            assert(text[i] == token[i - 7]);
            assert(token[i - 7] == '-' || is_hex_digit(token[i - 7]));
        }
    }
    assert forall|i: int| 0 <= i < value.len() implies is_header_text_byte(#[trigger] value[i]) by {
        assert(value[i] == text[i] as u8);
    }
    assert(ascii_text(value) =~= text) by {
        assert forall|i: int| 0 <= i < text.len() implies ascii_text(value)[i] == text[i] by {
            assert(value[i] == text[i] as u8);
        }
    }
    assert("Bearer "@ =~= text.subrange(0, 7));
    assert(text.skip(7) =~= token);
}

/// The token is what follows the seven characters `Bearer ` in the value of the header, as it
/// stands there and however long it is. Without a header, without these characters at its start, or
/// where its value is not plain text, there is no token.
pub proof fn law_token_follows_the_scheme(value: Seq<u8>)
    ensures
        ({
            let plain = forall|i: int|
                0 <= i < value.len() ==> (32 <= #[trigger] value[i] < 127 || value[i] == 9);
            let letters = seq![66u8, 101, 97, 114, 101, 114, 32];
            let scheme = value.len() >= 7 && value.take(7) == letters;
            &&& plain && scheme ==> bearer_token(Some(value)) is Some && bearer_token(
                Some(value),
            )->Some_0.len() == value.len() - 7 && forall|i: int|
                0 <= i < value.len() - 7 ==> (#[trigger] bearer_token(Some(value))->Some_0[i])
                    as int == value[i + 7]
            &&& !plain || !scheme ==> bearer_token(Some(value)) is None
        }),
        bearer_token(None) is None,
{
    reveal_strlit("Bearer ");
    let prefix = "Bearer "@;
    let text = ascii_text(value);
    let letters = seq![66u8, 101, 97, 114, 101, 114, 32];
    let plain = forall|i: int|
        0 <= i < value.len() ==> (32 <= #[trigger] value[i] < 127 || value[i] == 9);
    assert(plain == is_header_text(value)) by {
        if plain {
            assert forall|i: int| 0 <= i < value.len() implies is_header_text_byte(
                #[trigger] value[i],
            ) by {}
        }
        if is_header_text(value) {
            assert forall|i: int| 0 <= i < value.len() implies (32 <= #[trigger] value[i] < 127
                || value[i] == 9) by {
                assert(is_header_text_byte(value[i]));
            }
        }
    }
    assert(prefix.len() == 7);
    if value.len() >= 7 {
        if value.take(7) == letters {
            assert forall|i: int| 0 <= i < 7 implies prefix[i] == text.subrange(0, 7)[i] by {
                assert(value[i] == value.take(7)[i]);
            }
            assert(prefix =~= text.subrange(0, 7));
        }
        if prefix.is_prefix_of(text) {
            assert forall|i: int| 0 <= i < 7 implies value.take(7)[i] == letters[i] by {
                assert(text.subrange(0, 7)[i] == prefix[i]);
                assert(text[i] == value[i] as char);
            }
            assert(value.take(7) =~= letters);
        }
    }
}

} // verus!
