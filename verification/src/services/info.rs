//! Account information: what a viewer may see of a user. A deleted
//! account is invisible to ordinary viewers, and non-active accounts are
//! reported by their status, unless the viewer is the user or holds the
//! elevated read permission.

use vstd::prelude::*;
use crate::extractor::ModelError;
use crate::serializer::{Response, ResponseCode, is_code_response, spec_message};
use crate::users::{self, spec_status_str};
use crate::user_info::{self, Gender};

verus! {

/// What an information lookup reports.
#[derive(Clone, Debug)]
pub struct InfoResponse {
    pub uid: i32,
    pub status: &'static str,
    pub username: String,
    pub email: String,
    pub nickname: String,
    pub avatar: Option<String>,
    pub description: Option<String>,
    pub state: Option<String>,
    pub gender: Option<Gender>,
}

/// Whether an information response reports exactly the given user row and
/// profile row.
pub open spec fn is_info_response(
    r: InfoResponse,
    u: users::Model,
    i: user_info::Model,
) -> bool {
    &&& r.uid == u.uid
    &&& r.status@ == spec_status_str(u.status)
    &&& r.username@ == u.username@
    &&& r.email@ == u.email@
    &&& r.nickname@ == u.nickname@
    &&& (match (r.avatar, i.avatar) {
        (Some(a), Some(b)) => a@ == b@,
        (None, None) => true,
        _ => false,
    })
    &&& (match (r.description, i.description) {
        (Some(a), Some(b)) => a@ == b@,
        (None, None) => true,
        _ => false,
    })
    &&& (match (r.state, i.state) {
        (Some(a), Some(b)) => a@ == b@,
        (None, None) => true,
        _ => false,
    })
    &&& r.gender == i.gender
}

/// The information lookup flow.
pub struct InfoService;

impl InfoService {
    /// Decides what the viewer sees of the fetched user. `is_self` says
    /// the viewer asks about their own account; `viewer_reads_all` that
    /// they hold the elevated read permission. Without either, a deleted
    /// target reads as not found and a non-active one by its status.
    pub fn info(
        &self,
        user: &Result<(users::Model, Vec<user_info::Model>), ModelError>,
        is_self: bool,
        viewer_reads_all: bool,
    ) -> (r: Response<InfoResponse>)
        ensures
            ({
                if *user == Err::<(users::Model, Vec<user_info::Model>), ModelError>(
                    ModelError::Empty,
                ) {
                    is_code_response(r, ResponseCode::UserNotFound)
                } else if *user == Err::<(users::Model, Vec<user_info::Model>), ModelError>(
                    ModelError::DBError,
                ) {
                    is_code_response(r, ResponseCode::InternalError)
                } else if user matches Ok(u) && u.1.len() == 0 {
                    is_code_response(r, ResponseCode::InternalError)
                } else {
                    user matches Ok(u) && ({
                        if !is_self && !viewer_reads_all && u.0.status is Deleted {
                            is_code_response(r, ResponseCode::UserNotFound)
                        } else if !is_self && !viewer_reads_all && u.0.status is Inactive {
                            is_code_response(r, ResponseCode::UserNotActivated)
                        } else if !is_self && !viewer_reads_all && u.0.status is Banned {
                            is_code_response(r, ResponseCode::UserBlocked)
                        } else {
                            r.code == 200 && r.message@ == spec_message(ResponseCode::OK)
                                && (r.data matches Some(d) && is_info_response(
                                d,
                                u.0,
                                u.1[0],
                            ))
                        }
                    })
                }
            }),
    {
        let u = match user {
            Err(ModelError::Empty) => {
                return Response::from_code(ResponseCode::UserNotFound);
            },
            Err(ModelError::DBError) => {
                return Response::from_code(ResponseCode::InternalError);
            },
            Ok(u) => u,
        };
        if u.1.len() == 0 {
            return Response::from_code(ResponseCode::InternalError);
        }
        let info = &u.1[0];
        let user_row = &u.0;
        if !is_self && !viewer_reads_all {
            if user_row.status.is_deleted() {
                return Response::from_code(ResponseCode::UserNotFound);
            }
            if user_row.status.is_inactive() {
                return Response::from_code(ResponseCode::UserNotActivated);
            }
            if user_row.status.is_banned() {
                return Response::from_code(ResponseCode::UserBlocked);
            }
        }
        let data = InfoResponse {
            uid: user_row.uid,
            status: user_row.status.as_str(),
            username: user_row.username.clone(),
            email: user_row.email.clone(),
            nickname: user_row.nickname.clone(),
            avatar: clone_opt(&info.avatar),
            description: clone_opt(&info.description),
            state: clone_opt(&info.state),
            gender: info.gender,
        };
        Response::new(ResponseCode::OK.code(), ResponseCode::OK.message(), Some(data))
    }
}

/// Clones an optional string, preserving presence and content.
pub fn clone_opt(s: &Option<String>) -> (r: Option<String>)
    ensures
        match (r, s) {
            (Some(a), Some(b)) => a@ == b@,
            (None, None) => true,
            _ => false,
        },
{
    match s {
        Some(v) => Some(v.clone()),
        None => None,
    }
}

} // verus!
