use madoka_auth::config::{
    default_domain, default_host, default_jwt_secret, default_port, default_version, Config,
    Database, DatabaseSqlite, DatabaseType, Redis,
};
use madoka_auth::digits::u64_to_string;
use madoka_auth::init::{database_url, redis};
use madoka_auth::jwt::{generate_claim, validate, Claim};
use madoka_auth::scan::str_eq;
use madoka_auth::serializer::{Response, ResponseCode};
use madoka_auth::tokens::string;

#[test]
fn response_codes_and_messages() {
    assert_eq!(ResponseCode::OK.code(), 200);
    assert_eq!(ResponseCode::Unauthorized.code(), 401);
    assert_eq!(ResponseCode::Forbidden.code(), 403);
    assert_eq!(ResponseCode::InternalError.code(), 500);
    assert_eq!(ResponseCode::ParamError.code(), 4000);
    assert_eq!(ResponseCode::RegistrationDisabled.code(), 4001);
    assert_eq!(ResponseCode::UserNotFound.code(), 4010);
    assert_eq!(ResponseCode::CredentialInvalid.code(), 4011);
    assert_eq!(ResponseCode::UserBlocked.code(), 4012);
    assert_eq!(ResponseCode::UserNotActivated.code(), 4013);
    assert_eq!(ResponseCode::UserExists.code(), 4014);
    assert_eq!(ResponseCode::AlreadyLoggedIn.code(), 4015);
    assert_eq!(ResponseCode::EmailExists.code(), 4016);
    assert_eq!(ResponseCode::UserDeleted.code(), 4017);
    assert_eq!(ResponseCode::DuplicatePassword.code(), 4018);
    assert_eq!(ResponseCode::OK.message(), "OK");
    assert_eq!(ResponseCode::UserBlocked.message(), "The account was blocked");
}

#[test]
fn http_status_follows_the_code_band() {
    assert_eq!(ResponseCode::Unauthorized.http_status(), 401);
    assert_eq!(ResponseCode::UserNotFound.http_status(), 200);
    let r: Response<()> = Response::from_code(ResponseCode::EmailExists);
    assert_eq!(r.http_status(), 200);
    let r: Response<()> = Response::from_code(ResponseCode::InternalError);
    assert_eq!(r.http_status(), 500);
}

#[test]
fn envelope_construction() {
    let r: Response<u32> = Response::new(200, "OK".to_string(), Some(5));
    assert_eq!(r.code, 200);
    assert!(!r.is_err());
    assert_eq!(r.data, Some(5));
    let e: Response<u32> = Response::new_error(4010, "Cannot found user".to_string());
    assert!(e.is_err());
    assert!(e.data.is_none());
    let f: Response<u32> = Response::from_code(ResponseCode::Forbidden);
    assert_eq!(f.code, 403);
    assert_eq!(f.message, "Forbidden");
}

#[test]
fn config_defaults() {
    assert_eq!(default_version(), 1);
    assert_eq!(default_host(), "127.0.0.1");
    assert_eq!(default_port(), 7817);
    assert_eq!(default_domain(), "http://localhost:7817");
    assert_eq!(madoka_auth::config::mail::default_port(), 587);
    let secret = default_jwt_secret();
    assert_eq!(secret.len(), 16);
    let c = Config::default();
    assert_eq!(c.version, 1);
    assert_eq!(c.host, "0.0.0.0");
    assert_eq!(c.port, 7817);
    assert!(c.mail.is_none());
    assert!(c.site.enable_registration);
}

#[test]
fn config_check_repairs_the_port() {
    let mut c = Config::default();
    c.port = 0;
    c.check();
    assert_eq!(c.port, 7817);
    c.port = 70000;
    c.check();
    assert_eq!(c.port, 7817);
    c.port = 8080;
    c.check();
    assert_eq!(c.port, 8080);
}

#[test]
fn redis_url_shapes() {
    let plain = Redis {
        host: "127.0.0.1".to_string(),
        port: None,
        username: None,
        password: None,
    };
    assert_eq!(redis(&plain), "redis://127.0.0.1:6379");
    let with_port = Redis {
        port: Some(7000),
        ..plain.clone()
    };
    assert_eq!(redis(&with_port), "redis://127.0.0.1:7000");
    let with_auth = Redis {
        username: Some("u".to_string()),
        password: Some("p".to_string()),
        ..plain.clone()
    };
    assert_eq!(redis(&with_auth), "redis://u:p@127.0.0.1:6379");
    let password_only = Redis {
        password: Some("p".to_string()),
        ..plain
    };
    assert_eq!(redis(&password_only), "redis://:p@127.0.0.1:6379");
}

#[test]
fn database_url_shape() {
    let db = Database {
        host: "dbhost".to_string(),
        port: 5433,
        dbname: "auth".to_string(),
        username: "svc".to_string(),
        password: "pw".to_string(),
    };
    assert_eq!(database_url(&db), "postgres://svc:pw@dbhost:5433/auth");
    let _variant = DatabaseType::Sqlite(DatabaseSqlite {
        file: "auth.db".to_string(),
    });
}

#[test]
fn decimal_rendering() {
    assert_eq!(u64_to_string(0), "0");
    assert_eq!(u64_to_string(7), "7");
    assert_eq!(u64_to_string(604800), "604800");
    assert_eq!(u64_to_string(u64::MAX), "18446744073709551615");
}

#[test]
fn random_strings_are_alphanumeric() {
    let s = string(16);
    assert_eq!(s.len(), 16);
    assert!(s.chars().all(|c| c.is_ascii_alphanumeric()));
    assert_eq!(string(0), "");
    // Two draws of this length collide with negligible probability.
    assert_ne!(string(16), string(16));
}

#[test]
fn string_comparison() {
    assert!(str_eq("abc", "abc"));
    assert!(!str_eq("abc", "abd"));
    assert!(!str_eq("abc", "ab"));
    assert!(str_eq("", ""));
}

#[test]
fn claims_carry_a_fixed_lifetime() {
    let c: Claim = generate_claim(
        "issuer".to_string(),
        "alice".to_string(),
        4,
        "sid-1".to_string(),
        1000,
    );
    assert_eq!(c.exp, 1000 + madoka_auth::SESSION_LIFETIME_SECS);
    assert_eq!(c.uid, 4);
    // Valid strictly before the expiry, invalid from the expiry on.
    assert!(validate(&c, 1000));
    assert!(validate(&c, c.exp - 1));
    assert!(!validate(&c, c.exp));
    assert!(!validate(&c, c.exp + 1));
}
