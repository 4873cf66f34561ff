use madoka_auth::password::{check, generate};
use madoka_auth::users::{create_user, AccountStatus, Model};

fn user_with_password(stored: &str) -> Model {
    Model {
        uid: 1,
        email: "a@example.com".to_string(),
        username: "alice".to_string(),
        password: stored.to_string(),
        nickname: "Alice".to_string(),
        status: AccountStatus::Active,
    }
}

#[test]
fn hash_empty_known_vector() {
    // SHA-256 of the empty input, hex-encoded lower case.
    assert_eq!(
        generate("".to_string(), "".to_string()),
        "e3b0c44298fc1c149afbf4c8996fb92427ae41e4649b934ca495991b7852b855"
    );
}

#[test]
fn hash_concatenates_password_and_salt() {
    // SHA-256 of "abc", split between password and salt.
    let expected = "ba7816bf8f01cfea414140de5dae2223b00361a396177a9cb410ff61f20015ad";
    assert_eq!(generate("a".to_string(), "bc".to_string()), expected);
    assert_eq!(generate("abc".to_string(), "".to_string()), expected);
    assert_eq!(generate("".to_string(), "abc".to_string()), expected);
}

#[test]
fn hash_is_deterministic() {
    let a = generate("secret".to_string(), "salty".to_string());
    let b = generate("secret".to_string(), "salty".to_string());
    assert_eq!(a, b);
    assert_eq!(a.len(), 64);
}

#[test]
fn check_accepts_generated_hash() {
    let digest = generate("password1".to_string(), "0123456789abcdef".to_string());
    assert!(check(
        "password1".to_string(),
        "0123456789abcdef".to_string(),
        digest
    ));
}

#[test]
fn check_rejects_mutated_password() {
    let digest = generate("password1".to_string(), "0123456789abcdef".to_string());
    assert!(!check(
        "password2".to_string(),
        "0123456789abcdef".to_string(),
        digest.clone()
    ));
    assert!(!check("password1".to_string(), "other-salt".to_string(), digest));
}

#[test]
fn stored_credential_verifies() {
    let digest = generate("hunter22".to_string(), "mysalt".to_string());
    let user = create_user(
        "bob".to_string(),
        "bob@example.com".to_string(),
        digest,
        "mysalt".to_string(),
        AccountStatus::Active,
        None,
    );
    assert!(user.password.starts_with("sha2:"));
    assert!(user.password.ends_with(":mysalt"));
    assert!(user.check_password("hunter22".to_string()));
    assert!(!user.check_password("hunter23".to_string()));
}

#[test]
fn malformed_stored_credential_fails_closed() {
    for stored in [
        "",
        "nonsense",
        "sha2:onlytwo",
        "sha2:a:b:c",
        ":a:b",
        "sha2::",
    ] {
        let user = user_with_password(stored);
        assert!(
            !user.check_password("anything".to_string()),
            "stored {:?} must fail verification",
            stored
        );
    }
    // A correct digest under a wrong scheme tag fails closed.
    let digest = generate("pw1234aa".to_string(), "s".to_string());
    let user = user_with_password(&format!("md5:{}:s", digest));
    assert!(!user.check_password("pw1234aa".to_string()));
}

#[test]
fn default_nickname_comes_from_email() {
    let u = create_user(
        "carol".to_string(),
        "carol@site.org".to_string(),
        "d".to_string(),
        "s".to_string(),
        AccountStatus::Inactive,
        None,
    );
    assert_eq!(u.nickname, "carol");
    let u2 = create_user(
        "dave".to_string(),
        "no-at-sign".to_string(),
        "d".to_string(),
        "s".to_string(),
        AccountStatus::Inactive,
        None,
    );
    assert_eq!(u2.nickname, "no-at-sign");
    let u3 = create_user(
        "erin".to_string(),
        "erin@x.y".to_string(),
        "d".to_string(),
        "s".to_string(),
        AccountStatus::Inactive,
        Some("Nickname".to_string()),
    );
    assert_eq!(u3.nickname, "Nickname");
}

#[test]
fn update_password_replaces_credential() {
    let digest = generate("oldpw123".to_string(), "s1".to_string());
    let user = user_with_password(&format!("sha2:{}:s1", digest));
    let updated = user.update_password("newpw456".to_string(), "s2".to_string());
    assert!(updated.check_password("newpw456".to_string()));
    assert!(!updated.check_password("oldpw123".to_string()));
    assert_eq!(updated.uid, user.uid);
    assert_eq!(updated.email, user.email);
}
