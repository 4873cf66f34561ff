use madoka_auth::extractor::{LoginAccess, ModelError, OperatorAccess, StoreReply};
use madoka_auth::middleware::PermissionAccess;
use madoka_auth::password::generate;
use madoka_auth::serializer::ResponseCode;
use madoka_auth::services::delete::{AdminDeleteService, DeleteService};
use madoka_auth::services::info::InfoService;
use madoka_auth::services::login::{already_logged_in, LoginService};
use madoka_auth::services::register::RegisterService;
use madoka_auth::services::reset_password::ResetPasswordService;
use madoka_auth::services::update::UpdateService;
use madoka_auth::session::{generate as generate_session, resolve_record, session_key};
use madoka_auth::tokens::new_token;
use madoka_auth::user_info;
use madoka_auth::users::{AccountStatus, Model};
use std::collections::HashMap;

type UserReply = Result<(Model, Vec<user_info::Model>), ModelError>;

fn account(status: AccountStatus, password: &str, salt: &str) -> Model {
    let digest = generate(password.to_string(), salt.to_string());
    Model {
        uid: 11,
        email: "user@example.com".to_string(),
        username: "user1".to_string(),
        password: format!("sha2:{}:{}", digest, salt),
        nickname: "User".to_string(),
        status,
    }
}

fn info_row(uid: i32) -> user_info::Model {
    user_info::Model {
        uid,
        avatar: None,
        description: None,
        state: None,
        gender: None,
    }
}

fn found(user: Model) -> UserReply {
    let uid = user.uid;
    Ok((user, vec![info_row(uid)]))
}

fn login_request() -> LoginService {
    LoginService {
        email: "user@example.com".to_string(),
        password: "correct1".to_string(),
    }
}

#[test]
fn login_banned_account_is_blocked_without_a_session() {
    let req = login_request();
    let reply = found(account(AccountStatus::Banned, "correct1", "s"));
    let r = req.login(&reply);
    // The rejection comes even with the right password, and only an Ok
    // outcome ever leads to a session write.
    let e = r.err().expect("banned login must be rejected");
    assert_eq!(e.code, 4012);
    assert_eq!(e.message, "The account was blocked");
}

#[test]
fn login_deleted_account_is_reported_deleted() {
    let req = login_request();
    let reply = found(account(AccountStatus::Deleted, "correct1", "s"));
    let e = req.login(&reply).err().expect("deleted login must be rejected");
    assert_eq!(e.code, 4017);
}

#[test]
fn login_wrong_password_is_rejected() {
    let req = LoginService {
        email: "user@example.com".to_string(),
        password: "wrong".to_string(),
    };
    let reply = found(account(AccountStatus::Active, "correct1", "s"));
    let e = req.login(&reply).err().expect("wrong password must be rejected");
    assert_eq!(e.code, 4011);
    assert_eq!(e.message, "Wrong password");
}

#[test]
fn login_inactive_account_is_not_activated() {
    let req = login_request();
    let reply = found(account(AccountStatus::Inactive, "correct1", "s"));
    let e = req.login(&reply).err().expect("inactive login must be rejected");
    assert_eq!(e.code, 4013);
}

#[test]
fn login_unknown_user_and_store_failure_differ() {
    let req = login_request();
    let e = req.login(&Err(ModelError::Empty)).err().unwrap();
    assert_eq!(e.code, 4010);
    let e = req.login(&Err(ModelError::DBError)).err().unwrap();
    assert_eq!(e.code, 500);
}

#[test]
fn login_success_reports_the_account() {
    let req = login_request();
    let reply = found(account(AccountStatus::Active, "correct1", "s"));
    let ok = req.login(&reply).ok().expect("active login must pass");
    assert_eq!(ok.uid, 11);
    assert_eq!(ok.username, "user1");
    assert_eq!(ok.email, "user@example.com");
    assert_eq!(ok.nickname, "User");
}

#[test]
fn valid_session_blocks_fresh_login() {
    let valid = StoreReply::Value(generate_session(1, 1000).to_record());
    assert!(already_logged_in(&valid, 1000));
    let expired = StoreReply::Value(
        madoka_auth::session::Session { uid: 1, exp: 500 }.to_record(),
    );
    assert!(!already_logged_in(&expired, 1000));
    assert!(!already_logged_in(&StoreReply::Missing, 1000));
    assert!(!already_logged_in(&StoreReply::Unavailable, 1000));
    assert!(!already_logged_in(
        &StoreReply::Value("junk".to_string()),
        1000
    ));
}

#[test]
fn existing_session_answers_matching_login() {
    let req = login_request();
    let session = generate_session(11, 1000);
    let reply = found(account(AccountStatus::Active, "correct1", "s"));
    let resp = req
        .response_from_session(session, 1000, &reply)
        .expect("valid session with matching email answers the login");
    assert_eq!(resp.code, 200);
    assert_eq!(resp.data.unwrap().uid, 11);
    // An expired session falls through.
    let expired = madoka_auth::session::Session { uid: 11, exp: 1000 };
    assert!(req.response_from_session(expired, 1000, &reply).is_none());
    // A session for another email falls through.
    let other = LoginService {
        email: "else@example.com".to_string(),
        password: "correct1".to_string(),
    };
    assert!(other.response_from_session(session, 1000, &reply).is_none());
}

#[test]
fn p4_level_gated_delete() {
    let svc = AdminDeleteService;
    let ok = svc.delete(
        &Ok(AccountStatus::Active),
        &Ok(Vec::new()),
        &Ok(10),
        90,
    );
    assert!(ok.is_ok(), "level 90 over level 10 must be permitted");
    let forbidden = svc.delete(
        &Ok(AccountStatus::Active),
        &Ok(Vec::new()),
        &Ok(90),
        10,
    );
    assert_eq!(forbidden.err().unwrap().code, 403);
    // Equal levels are refused under the strict comparison.
    let equal = svc.delete(&Ok(AccountStatus::Active), &Ok(Vec::new()), &Ok(50), 50);
    assert_eq!(equal.err().unwrap().code, 403);
}

#[test]
fn undeletable_target_survives_any_level() {
    let svc = AdminDeleteService;
    let r = svc.delete(
        &Ok(AccountStatus::Active),
        &Ok(vec!["user:undeletable".to_string()]),
        &Ok(0),
        100,
    );
    assert_eq!(r.err().unwrap().code, 403);
}

#[test]
fn admin_delete_maps_missing_and_failed_lookups() {
    let svc = AdminDeleteService;
    let r = svc.delete(&Err(ModelError::Empty), &Ok(Vec::new()), &Ok(0), 100);
    assert_eq!(r.err().unwrap().code, 4010);
    let r = svc.delete(&Err(ModelError::DBError), &Ok(Vec::new()), &Ok(0), 100);
    assert_eq!(r.err().unwrap().code, 500);
    let r = svc.delete(&Ok(AccountStatus::Deleted), &Ok(Vec::new()), &Ok(0), 100);
    assert_eq!(r.err().unwrap().code, 4017);
    let r = svc.delete(
        &Ok(AccountStatus::Active),
        &Err(ModelError::DBError),
        &Ok(0),
        100,
    );
    assert_eq!(r.err().unwrap().code, 500);
    let r = svc.delete(
        &Ok(AccountStatus::Active),
        &Ok(Vec::new()),
        &Err(ModelError::DBError),
        100,
    );
    assert_eq!(r.err().unwrap().code, 500);
}

#[test]
fn self_delete_requires_password_and_deletability() {
    let user = account(AccountStatus::Active, "correct1", "s");
    let svc = DeleteService {
        password: "correct1".to_string(),
    };
    assert!(svc.delete(&user, false).is_ok());
    assert_eq!(svc.delete(&user, true).err().unwrap().code, 403);
    let wrong = DeleteService {
        password: "bad".to_string(),
    };
    let e = wrong.delete(&user, false).err().unwrap();
    assert_eq!(e.code, 4011);
    assert_eq!(e.message, "Wrong password");
}

#[test]
fn p7_full_scenario() {
    // Register user A with a mail channel configured: the account starts
    // inactive, holds no roles, level 0.
    let reg = RegisterService {
        email: "alice@example.com".to_string(),
        username: "alice".to_string(),
        password: "passw0rd".to_string(),
        nickname: None,
    };
    let mut user = reg
        .register(
            true,
            true,
            &Err(ModelError::Empty),
            &Err(ModelError::Empty),
            "saltsaltsaltsalt".to_string(),
        )
        .ok()
        .expect("registration must pass");
    user.uid = 1;
    assert!(matches!(user.status, AccountStatus::Inactive));
    let level = madoka_auth::role::get_user_role_level(&Vec::new());
    assert_eq!(level, 0);

    // An operator-gated route rejects the inactive account.
    let access = LoginAccess::assemble(
        "tok".to_string(),
        (user.clone(), vec![info_row(1)]),
        Ok(level),
    )
    .unwrap();
    assert_eq!(
        OperatorAccess::from_login(access).err().unwrap(),
        ResponseCode::UserNotActivated
    );

    // Promote to active with role `user` (level 10, user:read:self).
    user.status = AccountStatus::Active;
    let roles = vec![madoka_auth::role::Model {
        id: 2,
        name: "user".to_string(),
        description: "Regular User - Basic user privileges".to_string(),
        level: 10,
        system: true,
    }];
    let perms = vec!["user:read:self".to_string()];
    assert_eq!(madoka_auth::role::get_user_role_level(&roles), 10);

    // Login now passes and a session is stored.
    let login = LoginService {
        email: "alice@example.com".to_string(),
        password: "passw0rd".to_string(),
    };
    let reply = found(user.clone());
    assert!(login.login(&reply).is_ok());
    let mut store: HashMap<String, String> = HashMap::new();
    let token = new_token();
    let session = generate_session(1, 5000);
    store.insert(session_key(&token), session.to_record());

    // The permission-gated route requiring user:read:self under ALL
    // semantics admits the request.
    let gate = PermissionAccess::all(vec!["user:read:self".to_string()]);
    let resolved = resolve_record(store.get(&session_key(&token)), 5000)
        .expect("stored session must resolve");
    assert_eq!(resolved.uid, 1);
    assert!(gate.decide(&Ok(perms.clone())).is_ok());

    // The route requiring user:delete:all is forbidden.
    let gate2 = PermissionAccess::all(vec!["user:delete:all".to_string()]);
    assert_eq!(
        gate2.decide(&Ok(perms)).err().unwrap(),
        ResponseCode::Forbidden
    );
}

#[test]
fn register_respects_switches_and_uniqueness() {
    let reg = RegisterService {
        email: "bob@example.com".to_string(),
        username: "bob33".to_string(),
        password: "passw0rd".to_string(),
        nickname: None,
    };
    let salt = || "ssssssssssssssss".to_string();
    let taken = found(account(AccountStatus::Active, "x1y2z3w4", "s"));
    let e = reg
        .register(false, false, &Err(ModelError::Empty), &Err(ModelError::Empty), salt())
        .err()
        .unwrap();
    assert_eq!(e.code, 4001);
    let e = reg
        .register(true, false, &taken, &Err(ModelError::Empty), salt())
        .err()
        .unwrap();
    assert_eq!(e.code, 4014);
    let e = reg
        .register(true, false, &Err(ModelError::Empty), &taken, salt())
        .err()
        .unwrap();
    assert_eq!(e.code, 4016);
    let e = reg
        .register(true, false, &Err(ModelError::DBError), &Err(ModelError::Empty), salt())
        .err()
        .unwrap();
    assert_eq!(e.code, 500);
    // Without a mail channel the account starts active, and the stored
    // credential verifies the chosen password.
    let user = reg
        .register(true, false, &Err(ModelError::Empty), &Err(ModelError::Empty), salt())
        .ok()
        .unwrap();
    assert!(matches!(user.status, AccountStatus::Active));
    assert_eq!(user.username, "bob33");
    assert_eq!(user.nickname, "bob");
    assert!(user.check_password("passw0rd".to_string()));
}

#[test]
fn register_validation_rejects_bad_fields() {
    let base = || RegisterService {
        email: "ok@example.com".to_string(),
        username: "gooduser".to_string(),
        password: "passw0rd".to_string(),
        nickname: None,
    };
    let cases: Vec<RegisterService> = vec![
        RegisterService { username: "ab".to_string(), ..base() },
        RegisterService { username: "a".repeat(33), ..base() },
        RegisterService { username: "bad name".to_string(), ..base() },
        RegisterService { email: "no-at-sign".to_string(), ..base() },
        RegisterService { email: "two@@signs".to_string(), ..base() },
        RegisterService { email: "a@nodot".to_string(), ..base() },
        RegisterService { email: "a@b.".to_string(), ..base() },
        RegisterService { email: "@b.c".to_string(), ..base() },
        RegisterService { password: "short1".to_string(), ..base() },
        RegisterService { password: "a".repeat(65), ..base() },
        RegisterService { password: "nodigits".to_string(), ..base() },
        RegisterService { password: "12345678".to_string(), ..base() },
        RegisterService { password: "with spc1".to_string(), ..base() },
    ];
    for c in cases {
        assert_eq!(
            c.validate().err(),
            Some(ResponseCode::ParamError),
            "username {:?} email {:?} password {:?} must be rejected",
            c.username,
            c.email,
            c.password
        );
        let e = c
            .register(
                true,
                false,
                &Err(ModelError::Empty),
                &Err(ModelError::Empty),
                "ssssssssssssssss".to_string(),
            )
            .err()
            .unwrap();
        assert_eq!(e.code, 4000);
    }
    assert!(base().validate().is_ok());
}

#[test]
fn reset_password_flow() {
    let user = account(AccountStatus::Active, "oldpass1", "s1");
    let svc = ResetPasswordService {
        old_password: "wrongold".to_string(),
        new_password: "newpass1".to_string(),
    };
    assert_eq!(svc.reset_password(&user, "s2".to_string()).err().unwrap().code, 401);
    let svc = ResetPasswordService {
        old_password: "oldpass1".to_string(),
        new_password: "oldpass1".to_string(),
    };
    assert_eq!(svc.reset_password(&user, "s2".to_string()).err().unwrap().code, 4018);
    let svc = ResetPasswordService {
        old_password: "oldpass1".to_string(),
        new_password: "newpass1".to_string(),
    };
    let updated = svc.reset_password(&user, "s2".to_string()).ok().unwrap();
    assert!(updated.check_password("newpass1".to_string()));
    assert!(!updated.check_password("oldpass1".to_string()));
}

#[test]
fn update_checks_status_and_nickname() {
    let svc = UpdateService {
        nickname: Some("ab".to_string()),
        avatar: None,
        description: None,
        state: None,
        gender: None,
    };
    let active = account(AccountStatus::Active, "p1w2e3r4", "s");
    let e = svc.update(active.clone(), info_row(11)).err().unwrap();
    assert_eq!(e.code, 4000);
    assert_eq!(e.message, "Nickname should be at least 3 characters long");
    let inactive = account(AccountStatus::Inactive, "p1w2e3r4", "s");
    assert_eq!(svc.update(inactive, info_row(11)).err().unwrap().code, 4013);
    let banned = account(AccountStatus::Banned, "p1w2e3r4", "s");
    assert_eq!(svc.update(banned, info_row(11)).err().unwrap().code, 4012);
}

#[test]
fn update_applies_field_rules() {
    let svc = UpdateService {
        nickname: Some("NewNick".to_string()),
        avatar: Some("".to_string()),
        description: Some("hello".to_string()),
        state: None,
        gender: Some(user_info::Gender::Custom),
    };
    let user = account(AccountStatus::Active, "p1w2e3r4", "s");
    let mut info = info_row(11);
    info.avatar = Some("old-avatar".to_string());
    info.state = Some("kept".to_string());
    let (u2, i2) = svc.update(user, info).ok().unwrap();
    assert_eq!(u2.nickname, "NewNick");
    assert_eq!(i2.avatar, None, "an empty string clears the field");
    assert_eq!(i2.description.as_deref(), Some("hello"));
    assert_eq!(i2.state.as_deref(), Some("kept"), "an absent field is kept");
    assert!(matches!(i2.gender, Some(user_info::Gender::Custom)));
}

#[test]
fn update_by_uid_is_level_gated() {
    let svc = UpdateService {
        nickname: None,
        avatar: None,
        description: None,
        state: None,
        gender: None,
    };
    let target = found(account(AccountStatus::Active, "p1w2e3r4", "s"));
    assert!(svc.update_by_uid(target, &Ok(10), 90).is_ok());
    // The admitted path is exactly the self-update of the target's rows.
    let renaming = UpdateService {
        nickname: Some("AdminSet".to_string()),
        avatar: None,
        description: Some("by admin".to_string()),
        state: None,
        gender: None,
    };
    let target = found(account(AccountStatus::Active, "p1w2e3r4", "s"));
    let (u2, i2) = renaming.update_by_uid(target, &Ok(10), 90).ok().unwrap();
    assert_eq!(u2.uid, 11);
    assert_eq!(u2.nickname, "AdminSet");
    assert_eq!(i2.description.as_deref(), Some("by admin"));
    let target = found(account(AccountStatus::Active, "p1w2e3r4", "s"));
    assert_eq!(svc.update_by_uid(target, &Ok(90), 10).err().unwrap().code, 403);
    let target = found(account(AccountStatus::Active, "p1w2e3r4", "s"));
    assert_eq!(svc.update_by_uid(target, &Ok(10), 10).err().unwrap().code, 403);
    assert_eq!(
        svc.update_by_uid(Err(ModelError::Empty), &Ok(0), 90).err().unwrap().code,
        4010
    );
    assert_eq!(
        svc.update_by_uid(Err(ModelError::DBError), &Ok(0), 90).err().unwrap().code,
        500
    );
}

#[test]
fn info_hides_non_active_accounts_from_ordinary_viewers() {
    let svc = InfoService;
    for (status, code) in [
        (AccountStatus::Deleted, 4010),
        (AccountStatus::Inactive, 4013),
        (AccountStatus::Banned, 4012),
    ] {
        let reply = found(account(status, "p1w2e3r4", "s"));
        let r = svc.info(&reply, false, false);
        assert_eq!(r.code, code);
        assert!(r.data.is_none());
    }
    // The user sees their own account, and an elevated viewer sees all.
    let reply = found(account(AccountStatus::Banned, "p1w2e3r4", "s"));
    let r = svc.info(&reply, true, false);
    assert_eq!(r.code, 200);
    assert_eq!(r.data.unwrap().status, "banned");
    let reply = found(account(AccountStatus::Deleted, "p1w2e3r4", "s"));
    let r = svc.info(&reply, false, true);
    assert_eq!(r.code, 200);
    assert_eq!(r.data.unwrap().status, "deleted");
}

#[test]
fn info_maps_lookup_failures() {
    let svc = InfoService;
    assert_eq!(svc.info(&Err(ModelError::Empty), false, false).code, 4010);
    assert_eq!(svc.info(&Err(ModelError::DBError), false, false).code, 500);
    let no_info: UserReply = Ok((account(AccountStatus::Active, "p1w2e3r4", "s"), Vec::new()));
    assert_eq!(svc.info(&no_info, true, false).code, 500);
}
