//! Tokens, their digests, and password hashes.

use argon2::password_hash::rand_core::OsRng;
use argon2::password_hash::SaltString;
use argon2::Argon2;
use argon2::PasswordHash;
use argon2::PasswordHasher;
use argon2::PasswordVerifier;
use sha2::Digest;
use vstd::prelude::*;
use vstd::utf8::encode_utf8;

use crate::text::characters;

verus! {

/// The digit that stands for `n` in lower-case hexadecimal.
pub open spec fn hex_digit(n: int) -> char {
    if n < 10 {
        ('0' as int + n) as char
    } else {
        ('a' as int + n - 10) as char
    }
}

/// Whether `c` is a lower-case hexadecimal digit.
pub open spec fn is_hex_digit(c: char) -> bool {
    '0' <= c <= '9' || 'a' <= c <= 'f'
}

/// `bytes` in lower-case hexadecimal, two digits a byte, the high half first.
pub open spec fn hex_text(bytes: Seq<u8>) -> Seq<char> {
    Seq::new(
        2 * bytes.len(),
        |i: int|
            if i % 2 == 0 {
                hex_digit(bytes[i / 2] as int / 16)
            } else {
                hex_digit(bytes[i / 2] as int % 16)
            },
    )
}

/// The SHA-256 digest of `data`.
pub uninterp spec fn sha256_digest(data: Seq<u8>) -> [u8; 32];

/// What the store keeps in place of `token`: the hexadecimal SHA-256 digest of its UTF-8 form.
pub open spec fn token_digest(token: Seq<char>) -> Seq<char> {
    hex_text(sha256_digest(encode_utf8(token))@)
}

/// The form of a random (version 4) UUID: 32 lower-case hexadecimal digits in groups of 8, 4, 4,
/// 4 and 12 with hyphens between them, the third group led by the version and the fourth by the
/// variant.
pub open spec fn is_uuid_v4(text: Seq<char>) -> bool {
    &&& text.len() == 36
    &&& forall|i: int|
        0 <= i < 36 ==> if i == 8 || i == 13 || i == 18 || i == 23 {
            #[trigger] text[i] == '-'
        } else {
            is_hex_digit(text[i])
        }
    &&& text[14] == '4'
    &&& text[19] == '8' || text[19] == '9' || text[19] == 'a' || text[19] == 'b'
}

/// `sha2::Sha256` (`new`, `update`, `finalize`) computes the SHA-256 digest of the bytes fed to
/// it, which depends on those bytes alone.
#[verifier::external_body]
fn sha256(data: &[u8]) -> (digest: [u8; 32])
    ensures
        digest == sha256_digest(data@),
{
    let mut hasher = sha2::Sha256::new();
    hasher.update(data);
    hasher.finalize().into()
}

/// `hex::encode` writes bytes in lower-case hexadecimal. The result must fit in a `String`.
#[verifier::external_body]
fn hex_encode(data: &[u8]) -> (text: String)
    requires
        2 * data@.len() <= isize::MAX,
    ensures
        text@ == hex_text(data@),
{
    hex::encode(data)
}

/// `uuid::Uuid::new_v4` draws a random UUID; its `to_string` gives the hyphenated lower-case form.
/// It panics only where the operating system has no random numbers to give.
#[verifier::external_body]
fn uuid_v4() -> (text: String)
    ensures
        is_uuid_v4(text@),
{
    uuid::Uuid::new_v4().to_string()
}

/// The digest under which a bearer token is stored and looked up.
pub fn hash_token(token: &str) -> (digest: String)
    ensures
        digest@ == token_digest(token@),
        digest@ == hex_text(sha256_digest(encode_utf8(token@))@),
{
    let raw = sha256(token.as_bytes());
    hex_encode(raw.as_slice())
}

/// A fresh random identifier, used for bearer tokens and for file names.
pub fn fresh_identifier() -> (text: String)
    ensures
        is_uuid_v4(text@),
{
    uuid_v4()
}

/// A stored digest is always 64 lower-case hexadecimal digits. In particular it is never the
/// empty text that a logout leaves behind.
pub proof fn law_token_digest_form(token: Seq<char>)
    ensures
        token_digest(token).len() == 64,
        forall|i: int| 0 <= i < 64 ==> is_hex_digit(#[trigger] token_digest(token)[i]),
{
    let raw = sha256_digest(encode_utf8(token))@;
    assert forall|i: int| 0 <= i < 64 implies is_hex_digit(#[trigger] token_digest(token)[i]) by {
        let byte = raw[i / 2] as int;
        assert(0 <= byte / 16 < 16 && 0 <= byte % 16 < 16);
    }
}

/// The error type of the password-hashing crates.
#[verifier::external_type_specification]
#[verifier::external_body]
pub struct ExPasswordHashError(argon2::password_hash::Error);

/// A password that could not be hashed.
#[derive(Clone, Copy, Debug, PartialEq, Eq, Structural)]
pub struct HashError;

/// The longest password, in bytes, that Argon2 takes.
pub const MAX_PASSWORD_BYTES: usize = 0xFFFF_FFFF;

/// Whether the Argon2 hash `stored`, in PHC text form, is well formed and was made of `password`.
pub uninterp spec fn argon2_accepts(password: Seq<u8>, stored: Seq<char>) -> bool;

/// Whether `c` is a decimal digit.
pub open spec fn is_decimal_digit(c: char) -> bool {
    '0' <= c <= '9'
}

/// Whether a parallelism parameter (`p=`) with nine digits or more starts at position `at`. Argon2
/// allows at most 16777215 lanes, so such a text is never an acceptable hash.
pub open spec fn excessive_lanes_at(stored: Seq<char>, at: int) -> bool {
    &&& 0 <= at <= stored.len() - 11
    &&& stored[at] == 'p'
    &&& stored[at + 1] == '='
    &&& forall|k: int| at + 2 <= k < at + 11 ==> is_decimal_digit(#[trigger] stored[k])
}

/// Whether `stored` asks for more lanes than Argon2 allows anywhere in its text.
pub open spec fn has_excessive_lanes(stored: Seq<char>) -> bool {
    exists|at: int| #[trigger] excessive_lanes_at(stored, at)
}

/// Whether `password` opens an account whose stored hash is `stored`.
pub open spec fn password_matches(password: Seq<char>, stored: Seq<char>) -> bool {
    !has_excessive_lanes(stored) && argon2_accepts(encode_utf8(password), stored)
}

/// `Argon2::default().hash_password` with a salt that `SaltString::generate` draws from the
/// operating system. It refuses only passwords of more than 2^32 - 1 bytes. The text is an Argon2id
/// hash with the default costs, and it verifies against the same password whatever the salt was.
/// It panics only where the operating system has no random numbers to give.
#[verifier::external_body]
fn argon2_hash(password: &[u8]) -> (hashed: Result<String, argon2::password_hash::Error>)
    ensures
        hashed is Ok <==> password@.len() <= MAX_PASSWORD_BYTES,
        hashed matches Ok(text) ==> argon2_accepts(password@, text@),
        hashed matches Ok(text) ==> "$argon2id$v=19$m=19456,t=2,p=1$"@.is_prefix_of(text@),
        hashed matches Ok(text) ==> !has_excessive_lanes(text@),
{
    let salt = SaltString::generate(&mut OsRng);
    Argon2::default().hash_password(password, &salt).map(|hash| hash.to_string())
}

/// `PasswordHash::new` parses a stored hash and `verify_password` recomputes it with the stored
/// parameters and salt; the outcome depends on the two arguments alone. Only the algorithms
/// `argon2d`, `argon2i` and `argon2id` are known to it, and the name follows the opening `$`. Texts
/// that ask for an excessive number of lanes are left out, because the parameter check multiplies
/// that number without guarding against overflow. The memory that the stored parameters ask for has
/// to be there, as for any allocation.
#[verifier::external_body]
fn argon2_verify(password: &[u8], stored: &str) -> (verdict: Result<
    (),
    argon2::password_hash::Error,
>)
    requires
        !has_excessive_lanes(stored@),
    ensures
        verdict is Ok <==> argon2_accepts(password@, stored@),
        verdict is Ok ==> "$argon2"@.is_prefix_of(stored@),
{
    let parsed = PasswordHash::new(stored)?;
    Argon2::default().verify_password(password, &parsed)
}

/// Hashes a password for storage. Whatever salt is drawn, the result matches the password.
pub fn hash_password(password: &str) -> (hashed: Result<String, HashError>)
    ensures
        hashed is Ok <==> encode_utf8(password@).len() <= MAX_PASSWORD_BYTES,
        hashed matches Ok(text) ==> password_matches(password@, text@),
        hashed matches Ok(text) ==> "$argon2id$v=19$m=19456,t=2,p=1$"@.is_prefix_of(text@),
{
    match argon2_hash(password.as_bytes()) {
        Ok(text) => Ok(text),
        Err(_) => Err(HashError),
    }
}

fn excessive_lanes(stored: &str) -> (found: bool)
    ensures
        found == has_excessive_lanes(stored@),
{
    let chars = characters(stored);
    if chars.len() < 11 {
        return false;
    }
    let mut at: usize = 0;
    while at <= chars.len() - 11
        invariant
            chars@ == stored@,
            chars@.len() >= 11,
            at <= chars@.len() - 10,
            forall|i: int| 0 <= i < at ==> !#[trigger] excessive_lanes_at(stored@, i),
        decreases chars@.len() - at,
    {
        if chars[at] == 'p' && chars[at + 1] == '=' {
            let end: usize = at + 11;
            let mut k: usize = at + 2;
            while k < end && '0' <= chars[k] && chars[k] <= '9'
                invariant
                    chars@ == stored@,
                    end == at + 11,
                    at + 2 <= k <= end <= chars@.len(),
                    forall|i: int| at + 2 <= i < k ==> is_decimal_digit(#[trigger] stored@[i]),
                decreases end - k,
            {
                k = k + 1;
            }
            if k == end {
                assert(excessive_lanes_at(stored@, at as int));
                return true;
            }
            assert(!is_decimal_digit(stored@[k as int]));
        }
        at = at + 1;
    }
    false
}

/// Checks a password against the stored hash of an account. A stored text that does not open as
/// an Argon2 hash matches no password.
pub fn check_password(password: &str, stored: &str) -> (matching: bool)
    ensures
        matching == password_matches(password@, stored@),
        matching ==> "$argon2"@.is_prefix_of(stored@),
        matching ==> argon2_accepts(encode_utf8(password@), stored@),
        !has_excessive_lanes(stored@) && argon2_accepts(encode_utf8(password@), stored@)
            ==> matching,
{
    if excessive_lanes(stored) {
        return false;
    }
    match argon2_verify(password.as_bytes(), stored) {
        Ok(_) => true,
        Err(_) => false,
    }
}

/// The stored digest of a token can be read back: each pair of its digits gives one byte of the
/// SHA-256 digest of the UTF-8 form of the whole token.
pub proof fn law_token_digest_is_read_back(token: Seq<char>, i: int)
    requires
        0 <= i < 32,
    ensures
        ({
            let high = token_digest(token)[2 * i] as int;
            let low = token_digest(token)[2 * i + 1] as int;
            sha256_digest(encode_utf8(token))@[i] == 16 * (if high < 'a' as int {
                high - '0' as int
            } else {
                high - 'a' as int + 10
            }) + (if low < 'a' as int {
                low - '0' as int
            } else {
                low - 'a' as int + 10
            })
        }),
{
    let byte = sha256_digest(encode_utf8(token))@[i] as int;
    assert((2 * i) / 2 == i && (2 * i) % 2 == 0);
    assert((2 * i + 1) / 2 == i && (2 * i + 1) % 2 == 1);
    assert(0 <= byte / 16 < 16 && 0 <= byte % 16 < 16);
    assert(byte == 16 * (byte / 16) + byte % 16);
}

/// A password opens an account exactly where Argon2 accepts its UTF-8 form for the stored hash,
/// whatever the two hold; only hashes that ask for a number of lanes of nine digits or more are
/// opened by no password.
pub proof fn law_argon2_decides(password: Seq<char>, stored: Seq<char>)
    ensures
        password_matches(password, stored) ==> argon2_accepts(encode_utf8(password), stored),
        argon2_accepts(encode_utf8(password), stored) && !password_matches(password, stored)
            ==> exists|at: int|
            0 <= at <= stored.len() - 11 && #[trigger] stored[at] == 'p' && stored[at + 1] == '='
                && forall|k: int| at + 2 <= k < at + 11 ==> '0' <= #[trigger] stored[k] <= '9',
{
    if has_excessive_lanes(stored) {
        let at = choose|at: int| #[trigger] excessive_lanes_at(stored, at);
        assert(stored[at] == 'p');
        assert forall|k: int| at + 2 <= k < at + 11 implies '0' <= #[trigger] stored[k] <= '9' by {
            assert(is_decimal_digit(stored[k]));
        }
    }
}

} // verus!
