use madoka_auth::session::{generate, parse_from_str, resolve_record, Session};
use madoka_auth::SESSION_LIFETIME_SECS;

#[test]
fn record_rendering_is_fixed() {
    let s = Session { uid: 7, exp: 10 };
    assert_eq!(s.to_record(), "{\"uid\":7,\"exp\":10}");
    let n = Session { uid: -3, exp: 12 };
    assert_eq!(n.to_record(), "{\"uid\":-3,\"exp\":12}");
}

#[test]
fn codec_round_trips() {
    for s in [
        Session { uid: 0, exp: 0 },
        Session { uid: 1, exp: 1 },
        Session { uid: -1, exp: 604800 },
        Session { uid: i32::MAX, exp: u64::MAX },
        Session { uid: i32::MIN, exp: 123456789 },
    ] {
        let rec = s.to_record();
        assert_eq!(parse_from_str(&rec), Some(s), "record {:?}", rec);
    }
}

#[test]
fn parse_rejects_corrupt_records() {
    for rec in [
        "",
        "{}",
        "{\"uid\":,\"exp\":1}",
        "{\"uid\":1,\"exp\":}",
        "{\"uid\":01,\"exp\":2}",
        "{\"uid\":1,\"exp\":02}",
        "{\"uid\":1,\"exp\":2",
        "\"uid\":1,\"exp\":2}",
        "{\"uid\":x,\"exp\":2}",
        "{\"uid\":1,\"exp\":2x}",
        "{\"exp\":2,\"uid\":1}",
        "{\"uid\":-0,\"exp\":2}",
        "{\"uid\":1,\"exp\":-2}",
        "{\"uid\":2147483648,\"exp\":2}",
        "{\"uid\":-2147483649,\"exp\":2}",
        "{\"uid\":1,\"exp\":18446744073709551616}",
        "{\"uid\":1,\"exp\":2}}",
        "{\"uid\":1,,\"exp\":2}",
    ] {
        assert_eq!(parse_from_str(rec), None, "record {:?} must be rejected", rec);
    }
}

#[test]
fn parse_accepts_extreme_in_range_values() {
    assert_eq!(
        parse_from_str("{\"uid\":2147483647,\"exp\":18446744073709551615}"),
        Some(Session { uid: i32::MAX, exp: u64::MAX })
    );
    assert_eq!(
        parse_from_str("{\"uid\":-2147483648,\"exp\":0}"),
        Some(Session { uid: i32::MIN, exp: 0 })
    );
}

#[test]
fn generate_fixes_lifetime_at_creation() {
    let s = generate(42, 1000);
    assert_eq!(s.uid, 42);
    assert_eq!(s.exp, 1000 + SESSION_LIFETIME_SECS);
    assert_eq!(SESSION_LIFETIME_SECS, 7 * 24 * 60 * 60);
}

#[test]
fn validate_is_strict_expiry() {
    let s = Session { uid: 1, exp: 1000 };
    assert!(s.validate(999));
    assert!(!s.validate(1000));
    assert!(!s.validate(1001));
}

#[test]
fn resolve_treats_missing_corrupt_expired_alike() {
    let valid = Session { uid: 5, exp: 2000 }.to_record();
    let expired = Session { uid: 5, exp: 100 }.to_record();
    let corrupt = "not a record".to_string();
    assert_eq!(
        resolve_record(Some(&valid), 1000),
        Some(Session { uid: 5, exp: 2000 })
    );
    assert_eq!(resolve_record(Some(&expired), 1000), None);
    assert_eq!(resolve_record(Some(&corrupt), 1000), None);
    assert_eq!(resolve_record(None, 1000), None);
    // Expiry is strict: a record expiring exactly now is invalid.
    let edge = Session { uid: 5, exp: 1000 }.to_record();
    assert_eq!(resolve_record(Some(&edge), 1000), None);
}
