//! Login: credential verification against the fetched account, ordered
//! status checks, and the directive to issue a session.
//!
//! A session is issued only for an `Active` account whose password
//! verified: the success case is the one case the caller may follow with
//! a session write.

use vstd::prelude::*;
use crate::extractor::ModelError;
use crate::password::spec_check_stored;
use crate::serializer::{Response, ResponseCode, is_code_response, spec_code, spec_message};
use crate::session::Session;
use crate::scan::str_eq;
use crate::users;
use crate::user_info;

verus! {

/// Whether the request already carries a valid session, in which case a
/// fresh login or registration is refused as already logged in.
pub fn already_logged_in(reply: &crate::extractor::StoreReply, now: u64) -> (r: bool)
    ensures
        r == (reply matches crate::extractor::StoreReply::Value(v)
            && crate::session::spec_resolve_record(Some(v@), now) is Some),
{
    match reply {
        crate::extractor::StoreReply::Value(v) => {
            crate::session::resolve_record(Some(v), now).is_some()
        },
        _ => false,
    }
}

/// What a successful login reports about the account.
#[derive(Clone, Debug)]
pub struct LoginResponse {
    pub uid: i32,
    pub username: String,
    pub email: String,
    pub nickname: String,
}

/// A login request: the claimed email and the password to verify.
pub struct LoginService {
    pub email: String,
    pub password: String,
}

/// Whether a login response reports exactly the given account.
pub open spec fn is_user_response(r: LoginResponse, u: users::Model) -> bool {
    &&& r.uid == u.uid
    &&& r.username@ == u.username@
    &&& r.email@ == u.email@
    &&& r.nickname@ == u.nickname@
}

impl LoginService {
    /// Decides a fresh login against the account fetched by email.
    ///
    /// `Ok` is the one outcome after which the caller creates a session,
    /// and it occurs only for an `Active` account whose password
    /// verified; a banned account is rejected as blocked and a deleted
    /// one as deleted, in both cases without any session coming into
    /// being.
    pub fn login(&self, user: &Result<(users::Model, Vec<user_info::Model>), ModelError>) -> (r:
        Result<LoginResponse, Response<LoginResponse>>)
        ensures
            *user == Err::<(users::Model, Vec<user_info::Model>), ModelError>(
                ModelError::DBError,
            ) ==> (r matches Err(e) && is_code_response(e, ResponseCode::InternalError)),
            *user == Err::<(users::Model, Vec<user_info::Model>), ModelError>(
                ModelError::Empty,
            ) ==> (r matches Err(e) && is_code_response(e, ResponseCode::UserNotFound)),
            user matches Ok(u) ==> ({
                if u.0.status is Deleted {
                    r matches Err(e) && is_code_response(e, ResponseCode::UserDeleted)
                } else if !spec_check_stored(self.password@, u.0.password@) {
                    r matches Err(e) && e.code == spec_code(ResponseCode::CredentialInvalid)
                        && e.message@ == "Wrong password"@ && e.data is None
                } else if u.0.status is Banned {
                    r matches Err(e) && is_code_response(e, ResponseCode::UserBlocked)
                } else if u.0.status is Inactive {
                    r matches Err(e) && is_code_response(e, ResponseCode::UserNotActivated)
                } else {
                    r matches Ok(resp) && is_user_response(resp, u.0)
                }
            }),
            r is Ok ==> (user matches Ok(u) && u.0.status is Active && spec_check_stored(
                self.password@,
                u.0.password@,
            )),
    {
        let u = match user {
            Err(ModelError::DBError) => {
                return Err(Response::from_code(ResponseCode::InternalError));
            },
            Err(ModelError::Empty) => {
                return Err(Response::from_code(ResponseCode::UserNotFound));
            },
            Ok(u) => &u.0,
        };
        if u.status.is_deleted() {
            return Err(Response::from_code(ResponseCode::UserDeleted));
        }
        if !u.check_password(self.password.clone()) {
            return Err(Response::new_error(
                ResponseCode::CredentialInvalid.code(),
                "Wrong password".to_owned(),
            ));
        }
        if u.status.is_banned() {
            return Err(Response::from_code(ResponseCode::UserBlocked));
        }
        if u.status.is_inactive() {
            return Err(Response::from_code(ResponseCode::UserNotActivated));
        }
        Ok(LoginResponse {
            uid: u.uid,
            username: u.username.clone(),
            email: u.email.clone(),
            nickname: u.nickname.clone(),
        })
    }

    /// Decides whether an already-present session answers this login: it
    /// must be unexpired, belong to an account that loaded and carries
    /// the same email, and the account must be fully active. Any other
    /// case falls through to the fresh login path.
    pub fn response_from_session(
        &self,
        session: Session,
        now: u64,
        user: &Result<(users::Model, Vec<user_info::Model>), ModelError>,
    ) -> (r: Option<Response<LoginResponse>>)
        ensures
            session.exp <= now ==> r is None,
            session.exp > now && user is Err ==> r is None,
            session.exp > now ==> (user matches Ok(u) ==> {
                if u.0.email@ != self.email@ {
                    r is None
                } else if u.0.status is Banned || u.0.status is Deleted {
                    r matches Some(e) && is_code_response(e, ResponseCode::UserBlocked)
                } else if u.0.status is Inactive {
                    r matches Some(e) && is_code_response(e, ResponseCode::UserNotActivated)
                } else {
                    r matches Some(resp) && resp.code == 200 && resp.message@ == spec_message(
                        ResponseCode::OK,
                    ) && (resp.data matches Some(d) && is_user_response(d, u.0))
                }
            }),
    {
        if !session.validate(now) {
            return None;
        }
        let u = match user {
            Err(_) => {
                return None;
            },
            Ok(u) => &u.0,
        };
        if !str_eq(u.email.as_str(), self.email.as_str()) {
            return None;
        }
        if u.status.is_banned() || u.status.is_deleted() {
            return Some(Response::from_code(ResponseCode::UserBlocked));
        }
        if u.status.is_inactive() {
            return Some(Response::from_code(ResponseCode::UserNotActivated));
        }
        Some(Response::new(
            ResponseCode::OK.code(),
            ResponseCode::OK.message(),
            Some(LoginResponse {
                uid: u.uid,
                username: u.username.clone(),
                email: u.email.clone(),
                nickname: u.nickname.clone(),
            }),
        ))
    }
}

} // verus!
