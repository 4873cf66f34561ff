use madoka_auth::extractor::{LoginAccess, ModelError, OperatorAccess, StoreReply};
use madoka_auth::middleware::{PermissionAccess, PermType};
use madoka_auth::serializer::ResponseCode;
use madoka_auth::session::Session;
use madoka_auth::user_info;
use madoka_auth::users::{AccountStatus, Model};

fn user(status: AccountStatus) -> (Model, Vec<user_info::Model>) {
    (
        Model {
            uid: 3,
            email: "u@example.com".to_string(),
            username: "u".to_string(),
            password: "sha2:x:y".to_string(),
            nickname: "U".to_string(),
            status,
        },
        vec![user_info::Model {
            uid: 3,
            avatar: None,
            description: None,
            state: None,
            gender: None,
        }],
    )
}

fn cookie() -> Option<String> {
    Some("tok".to_string())
}

#[test]
fn missing_cookie_is_unauthorized() {
    let r = LoginAccess::resolve_stage(None, &StoreReply::Missing, 0);
    assert_eq!(r.unwrap_err(), ResponseCode::Unauthorized);
}

#[test]
fn unreachable_store_is_internal_error_not_unauthorized() {
    let c = cookie();
    let r = LoginAccess::resolve_stage(c.as_ref(), &StoreReply::Unavailable, 0);
    assert_eq!(r.unwrap_err(), ResponseCode::InternalError);
}

#[test]
fn missing_record_is_unauthorized() {
    let c = cookie();
    let r = LoginAccess::resolve_stage(c.as_ref(), &StoreReply::Missing, 0);
    assert_eq!(r.unwrap_err(), ResponseCode::Unauthorized);
}

#[test]
fn valid_record_resolves_and_expired_does_not() {
    let c = cookie();
    let rec = Session { uid: 3, exp: 2000 }.to_record();
    let r = LoginAccess::resolve_stage(c.as_ref(), &StoreReply::Value(rec.clone()), 1000);
    assert_eq!(r.unwrap(), Session { uid: 3, exp: 2000 });
    let r = LoginAccess::resolve_stage(c.as_ref(), &StoreReply::Value(rec), 2000);
    assert_eq!(r.unwrap_err(), ResponseCode::Unauthorized);
}

#[test]
fn corrupt_record_is_unauthorized_at_extraction() {
    let c = cookie();
    let r = LoginAccess::resolve_stage(c.as_ref(), &StoreReply::Value("junk".to_string()), 0);
    assert_eq!(r.unwrap_err(), ResponseCode::Unauthorized);
}

#[test]
fn user_stage_maps_failures() {
    assert_eq!(
        LoginAccess::user_stage(Err(ModelError::DBError)).unwrap_err(),
        ResponseCode::InternalError
    );
    assert_eq!(
        LoginAccess::user_stage(Err(ModelError::Empty)).unwrap_err(),
        ResponseCode::Unauthorized
    );
    assert_eq!(
        LoginAccess::user_stage(Ok(user(AccountStatus::Deleted))).unwrap_err(),
        ResponseCode::UserDeleted
    );
    let passed = LoginAccess::user_stage(Ok(user(AccountStatus::Active))).unwrap();
    assert_eq!(passed.0.uid, 3);
}

#[test]
fn assemble_requires_a_level() {
    let r = LoginAccess::assemble("tok".to_string(), user(AccountStatus::Active), Ok(10));
    let access = r.unwrap();
    assert_eq!(access.session, "tok");
    assert_eq!(access.level, 10);
    let r = LoginAccess::assemble(
        "tok".to_string(),
        user(AccountStatus::Active),
        Err(ModelError::DBError),
    );
    assert_eq!(r.unwrap_err(), ResponseCode::InternalError);
}

#[test]
fn operator_rejects_inactive_and_banned_distinctly() {
    let make = |status| {
        LoginAccess::assemble("tok".to_string(), user(status), Ok(0)).unwrap()
    };
    assert_eq!(
        OperatorAccess::from_login(make(AccountStatus::Inactive)).unwrap_err(),
        ResponseCode::UserNotActivated
    );
    assert_eq!(
        OperatorAccess::from_login(make(AccountStatus::Banned)).unwrap_err(),
        ResponseCode::UserBlocked
    );
    assert!(OperatorAccess::from_login(make(AccountStatus::Active)).is_ok());
}

#[test]
fn middleware_treats_corrupt_record_as_internal_error() {
    let c = cookie();
    let r = PermissionAccess::session_stage(c.as_ref(), &StoreReply::Value("junk".to_string()), 0);
    assert_eq!(r.unwrap_err(), ResponseCode::InternalError);
    let r = PermissionAccess::session_stage(None, &StoreReply::Missing, 0);
    assert_eq!(r.unwrap_err(), ResponseCode::Unauthorized);
    let r = PermissionAccess::session_stage(c.as_ref(), &StoreReply::Unavailable, 0);
    assert_eq!(r.unwrap_err(), ResponseCode::InternalError);
    let rec = Session { uid: 3, exp: 2000 }.to_record();
    let r = PermissionAccess::session_stage(c.as_ref(), &StoreReply::Value(rec), 1000);
    assert!(r.is_ok());
}

#[test]
fn middleware_decides_all_and_any() {
    let held: Result<Vec<String>, ModelError> =
        Ok(vec!["user:read:self".to_string(), "role:read".to_string()]);
    let gate_all = PermissionAccess::all(vec![
        "user:read:self".to_string(),
        "role:read".to_string(),
    ]);
    assert!(matches!(gate_all.perm_type, PermType::All));
    assert!(gate_all.decide(&held).is_ok());
    let gate_all2 = PermissionAccess::all(vec![
        "user:read:self".to_string(),
        "user:delete:all".to_string(),
    ]);
    assert_eq!(gate_all2.decide(&held).unwrap_err(), ResponseCode::Forbidden);
    let gate_any = PermissionAccess::any(vec![
        "user:delete:all".to_string(),
        "role:read".to_string(),
    ]);
    assert!(gate_any.decide(&held).is_ok());
    let gate_any2 = PermissionAccess::any(vec!["user:delete:all".to_string()]);
    assert_eq!(gate_any2.decide(&held).unwrap_err(), ResponseCode::Forbidden);
}

#[test]
fn middleware_fails_closed_on_permission_query() {
    let gate = PermissionAccess::all(vec!["user:read:self".to_string()]);
    let failed: Result<Vec<String>, ModelError> = Err(ModelError::DBError);
    assert_eq!(gate.decide(&failed).unwrap_err(), ResponseCode::InternalError);
}
