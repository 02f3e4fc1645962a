use image_host::credentials::{
    check_password, fresh_identifier, hash_password, hash_token, HashError, MAX_PASSWORD_BYTES,
};

fn is_hex(c: char) -> bool {
    c.is_ascii_digit() || ('a'..='f').contains(&c)
}

#[test]
fn token_digest_is_hexadecimal_sha256() {
    assert_eq!(
        hash_token(""),
        "e3b0c44298fc1c149afbf4c8996fb92427ae41e4649b934ca495991b7852b855"
    );
    assert_eq!(
        hash_token("abc"),
        "ba7816bf8f01cfea414140de5dae2223b00361a396177a9cb410ff61f20015ad"
    );
}

#[test]
fn token_digest_is_that_of_the_utf8_form() {
    let digest = hash_token("é");
    assert_eq!(digest.len(), 64);
    assert!(digest.chars().all(is_hex));
    assert_eq!(digest, "4a99557e4033c3539de2eb65472017cad5f9557f7a0625a09f1c3f6e2ba69c4c");
    assert_ne!(digest, hash_token("e"));
}

#[test]
fn identifiers_have_the_form_of_random_uuids() {
    for _ in 0..200 {
        let text = fresh_identifier();
        let chars: Vec<char> = text.chars().collect();
        assert_eq!(chars.len(), 36);
        for (i, c) in chars.iter().enumerate() {
            if [8, 13, 18, 23].contains(&i) {
                assert_eq!(*c, '-');
            } else {
                assert!(is_hex(*c));
            }
        }
        assert_eq!(chars[14], '4');
        assert!(['8', '9', 'a', 'b'].contains(&chars[19]));
    }
    assert_ne!(fresh_identifier(), fresh_identifier());
}

#[test]
fn hashed_password_is_checked_against_its_text() {
    let stored = hash_password("xyz").unwrap();
    assert_ne!(stored, "xyz");
    assert!(stored.starts_with("$argon2id$v=19$m=19456,t=2,p=1$"));
    assert!(check_password("xyz", &stored));
    assert!(!check_password("xyZ", &stored));
    assert!(!check_password("", &stored));
}

#[test]
fn each_hash_has_its_own_salt() {
    let first = hash_password("pässword").unwrap();
    let second = hash_password("pässword").unwrap();
    assert_ne!(first, second);
    assert!(check_password("pässword", &first));
    assert!(check_password("pässword", &second));
}

#[test]
fn empty_password_can_be_hashed() {
    let stored = hash_password("").unwrap();
    assert!(check_password("", &stored));
    assert!(!check_password(" ", &stored));
}

#[test]
fn text_that_is_no_hash_matches_nothing() {
    for stored in ["", "xyz", "$argon2id$", "$argon2id$v=19$m=19456,t=2,p=1$c2FsdHNhbHQ"] {
        assert!(!check_password("xyz", stored));
    }
}

#[test]
fn excessive_lanes_match_nothing() {
    let stored = "$argon2id$v=19$m=19456,t=2,p=536870912$c2FsdHNhbHQ$\
                  AAAAAAAAAAAAAAAAAAAAAAAAAAAAAAAAAAAAAAAAAAA";
    assert!(!check_password("xyz", stored));
    assert!(!check_password("xyz", "p=999999999"));
    assert!(!check_password("xyz", "p=99999999"));
}

#[test]
fn known_hash_opens_with_its_password() {
    let stored = "$argon2id$v=19$m=65536,t=2,p=1$c29tZXNhbHQ$\
                  CTFhFdXPJO1aFaMaO6Mm5c8y7cJHAph8ArZWb2GRPPc";
    assert!(check_password("password", stored));
    assert!(!check_password("differentpassword", stored));
}

#[test]
fn length_limit_is_that_of_argon2() {
    assert_eq!(MAX_PASSWORD_BYTES, argon2::MAX_PWD_LEN);
    assert_eq!(HashError, HashError);
}
