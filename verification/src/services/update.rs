//! Profile updates: the self-service flow over the caller's own rows, and
//! the administrative flow gated by the level comparison.
//!
//! An empty string for an optional profile field clears it; an absent
//! field keeps the stored value.

use vstd::prelude::*;
use crate::extractor::ModelError;
use crate::serializer::{Response, ResponseCode, is_code_response, spec_code};
use crate::users;
use crate::user_info::{self, Gender};

verus! {

/// An update request; every field is optional.
pub struct UpdateService {
    pub nickname: Option<String>,
    pub avatar: Option<String>,
    pub description: Option<String>,
    pub state: Option<String>,
    pub gender: Option<Gender>,
}

/// What an optional profile field becomes: kept when the request omits
/// it, cleared when the request carries the empty string, replaced
/// otherwise.
pub open spec fn spec_field_update(
    request: Option<Seq<char>>,
    stored: Option<Seq<char>>,
) -> Option<Seq<char>> {
    match request {
        None => stored,
        Some(v) => if v.len() == 0 {
            None
        } else {
            Some(v)
        },
    }
}

/// The view of an optional string.
pub open spec fn opt_view(s: Option<String>) -> Option<Seq<char>> {
    match s {
        None => None,
        Some(v) => Some(v@),
    }
}

impl UpdateService {
    /// Validates the request: a nickname, when given, is at least three
    /// characters long.
    pub fn validate(&self) -> (r: Result<(), Response<()>>)
        ensures
            r is Ok <==> (match self.nickname {
                Some(n) => n@.len() >= 3,
                None => true,
            }),
            r matches Err(e) ==> e.code == spec_code(ResponseCode::ParamError)
                && e.message@ == "Nickname should be at least 3 characters long"@
                && e.data is None,
    {
        if let Some(nickname) = &self.nickname {
            if nickname.as_str().unicode_len() < 3 {
                return Err(Response::new(
                    ResponseCode::ParamError.code(),
                    "Nickname should be at least 3 characters long".to_owned(),
                    None,
                ));
            }
        }
        Ok(())
    }

    /// What a self-update decision yields, case by case: a non-active
    /// account or an invalid request is the matching error, and success
    /// yields the rows with exactly the requested fields changed.
    pub open spec fn spec_update_decision(
        &self,
        user: users::Model,
        info: user_info::Model,
        r: Result<(users::Model, user_info::Model), Response<()>>,
    ) -> bool {
        let valid = match self.nickname {
            Some(n) => n@.len() >= 3,
            None => true,
        };
        if user.status is Inactive {
            r matches Err(e) && is_code_response(e, ResponseCode::UserNotActivated)
        } else if user.status is Banned {
            r matches Err(e) && is_code_response(e, ResponseCode::UserBlocked)
        } else if !valid {
            r matches Err(e) && e.code == spec_code(ResponseCode::ParamError)
                && e.message@ == "Nickname should be at least 3 characters long"@
                && e.data is None
        } else {
            r matches Ok(p) && ({
                let (u2, i2) = p;
                &&& u2.uid == user.uid
                &&& u2.email@ == user.email@
                &&& u2.username@ == user.username@
                &&& u2.password@ == user.password@
                &&& u2.status == user.status
                &&& u2.nickname@ == (match self.nickname {
                    Some(n) => n@,
                    None => user.nickname@,
                })
                &&& i2.uid == info.uid
                &&& opt_view(i2.avatar) == spec_field_update(
                    opt_view(self.avatar),
                    opt_view(info.avatar),
                )
                &&& opt_view(i2.description) == spec_field_update(
                    opt_view(self.description),
                    opt_view(info.description),
                )
                &&& opt_view(i2.state) == spec_field_update(
                    opt_view(self.state),
                    opt_view(info.state),
                )
                &&& i2.gender == (match self.gender {
                    Some(g) => Some(g),
                    None => info.gender,
                })
            })
        }
    }

    /// Decides a self-update: the account must be active and the request
    /// valid; success yields the updated user and profile rows for the
    /// caller to persist.
    pub fn update(&self, user: users::Model, info: user_info::Model) -> (r: Result<
        (users::Model, user_info::Model),
        Response<()>,
    >)
        ensures
            self.spec_update_decision(user, info, r),
    {
        if user.status.is_inactive() {
            return Err(Response::from_code(ResponseCode::UserNotActivated));
        }
        if user.status.is_banned() {
            return Err(Response::from_code(ResponseCode::UserBlocked));
        }
        if let Err(e) = self.validate() {
            return Err(e);
        }
        let nickname = match &self.nickname {
            Some(n) => n.clone(),
            None => user.nickname,
        };
        let u2 = users::Model {
            uid: user.uid,
            email: user.email,
            username: user.username,
            password: user.password,
            nickname,
            status: user.status,
        };
        let i2 = user_info::Model {
            uid: info.uid,
            avatar: field_update(&self.avatar, info.avatar),
            description: field_update(&self.description, info.description),
            state: field_update(&self.state, info.state),
            gender: match self.gender {
                Some(g) => Some(g),
                None => info.gender,
            },
        };
        Ok((u2, i2))
    }

    /// Decides an administrative update of another user: permitted only
    /// when the operator's level strictly exceeds the target's, then
    /// decided as a self-update of the target's rows.
    pub fn update_by_uid(
        &self,
        user: Result<(users::Model, Vec<user_info::Model>), ModelError>,
        target_level: &Result<i32, ModelError>,
        op_level: i32,
    ) -> (r: Result<(users::Model, user_info::Model), Response<()>>)
        ensures
            user == Err::<(users::Model, Vec<user_info::Model>), ModelError>(
                ModelError::Empty,
            ) ==> (r matches Err(e) && is_code_response(e, ResponseCode::UserNotFound)),
            user == Err::<(users::Model, Vec<user_info::Model>), ModelError>(
                ModelError::DBError,
            ) ==> (r matches Err(e) && is_code_response(e, ResponseCode::InternalError)),
            user is Ok && target_level is Err ==> (r matches Err(e) && is_code_response(
                e,
                ResponseCode::InternalError,
            )),
            user matches Ok(u) ==> (target_level matches Ok(l) ==> {
                if !(op_level > *l) {
                    r matches Err(e) && is_code_response(e, ResponseCode::Forbidden)
                } else if u.1.len() == 0 {
                    r matches Err(e) && is_code_response(e, ResponseCode::InternalError)
                } else {
                    self.spec_update_decision(u.0, u.1[0], r)
                }
            }),
    {
        let u = match user {
            Err(ModelError::Empty) => {
                return Err(Response::from_code(ResponseCode::UserNotFound));
            },
            Err(ModelError::DBError) => {
                return Err(Response::from_code(ResponseCode::InternalError));
            },
            Ok(u) => u,
        };
        let level = match target_level {
            Err(_) => {
                return Err(Response::from_code(ResponseCode::InternalError));
            },
            Ok(l) => *l,
        };
        if !crate::role::level_permits(op_level, level) {
            return Err(Response::from_code(ResponseCode::Forbidden));
        }
        let (row, mut infos) = u;
        if infos.len() == 0 {
            return Err(Response::from_code(ResponseCode::InternalError));
        }
        let info = infos.remove(0);
        self.update(row, info)
    }
}

/// Applies the optional-field update rule to one stored field.
fn field_update(request: &Option<String>, stored: Option<String>) -> (r: Option<String>)
    ensures
        opt_view(r) == spec_field_update(
            match request {
                None => None,
                Some(v) => Some(v@),
            },
            opt_view(stored),
        ),
{
    match request {
        Some(v) => {
            if v.as_str().unicode_len() == 0 {
                None
            } else {
                Some(v.clone())
            }
        },
        None => stored,
    }
}

impl crate::validator::Validatable<Response<()>> for UpdateService {
    fn validate(&self) -> Result<(), Response<()>> {
        UpdateService::validate(self)
    }
}

} // verus!
