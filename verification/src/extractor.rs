//! Capability extraction: the per-request pipeline that turns a raw
//! credential into a proof of authorization before a handler runs.
//!
//! Stages run strictly in order — resolve the session, load the user,
//! compute the level — and a later stage never runs after an earlier one
//! fails. Every dependency failure is reported as an internal error, never
//! softened into an authentication outcome.

use vstd::prelude::*;
use crate::serializer::ResponseCode;
use crate::session::{Session, spec_resolve_record, resolve_record};
use crate::users;
use crate::user_info;

verus! {

/// What the ephemeral store answered to a lookup: the stored value, a
/// definite miss, or no answer at all.
#[derive(Clone, Debug)]
pub enum StoreReply {
    Value(String),
    Missing,
    Unavailable,
}

/// How a relational lookup failed: the store could not answer, or it
/// answered that no such row exists.
#[derive(Clone, Copy, Debug, PartialEq, Eq, Structural)]
pub enum ModelError {
    DBError,
    Empty,
}

/// The capability a logged-in request carries: the raw session token, the
/// user row with its profile rows, and the user's effective level.
#[derive(Debug)]
pub struct LoginAccess {
    pub session: String,
    pub user: (users::Model, Vec<user_info::Model>),
    pub level: i32,
}

/// The outcome of the session stage over a cookie and a store reply:
/// no cookie or no valid record is `Unauthorized`; an unreachable store is
/// an internal error, never treated as a missing session.
pub open spec fn spec_resolve_stage(
    cookie: Option<Seq<char>>,
    reply: StoreReply,
    now: u64,
) -> Result<Session, ResponseCode> {
    if cookie is None {
        Err(ResponseCode::Unauthorized)
    } else {
        match reply {
            StoreReply::Unavailable => Err(ResponseCode::InternalError),
            StoreReply::Missing => Err(ResponseCode::Unauthorized),
            StoreReply::Value(v) => match spec_resolve_record(Some(v@), now) {
                Some(s) => Ok(s),
                None => Err(ResponseCode::Unauthorized),
            },
        }
    }
}

/// The view of an optional cookie value.
pub open spec fn cookie_view(cookie: Option<&String>) -> Option<Seq<char>> {
    match cookie {
        None => None,
        Some(c) => Some(c@),
    }
}

impl LoginAccess {
    /// Session stage: resolves the request's session cookie against the
    /// store's reply at the current time.
    pub fn resolve_stage(cookie: Option<&String>, reply: &StoreReply, now: u64) -> (r:
        Result<Session, ResponseCode>)
        ensures
            r == spec_resolve_stage(cookie_view(cookie), *reply, now),
    {
        if cookie.is_none() {
            return Err(ResponseCode::Unauthorized);
        }
        match reply {
            StoreReply::Unavailable => Err(ResponseCode::InternalError),
            StoreReply::Missing => Err(ResponseCode::Unauthorized),
            StoreReply::Value(v) => match resolve_record(Some(v), now) {
                Some(s) => Ok(s),
                None => Err(ResponseCode::Unauthorized),
            },
        }
    }

    /// User stage: a user that cannot be loaded is unauthorized, a user
    /// whose account is deleted authenticates nothing, and a store
    /// failure is an internal error.
    pub fn user_stage(user: Result<(users::Model, Vec<user_info::Model>), ModelError>) -> (r:
        Result<(users::Model, Vec<user_info::Model>), ResponseCode>)
        ensures
            user == Err::<(users::Model, Vec<user_info::Model>), ModelError>(
                ModelError::DBError,
            ) ==> r == Err::<(users::Model, Vec<user_info::Model>), ResponseCode>(
                ResponseCode::InternalError,
            ),
            user == Err::<(users::Model, Vec<user_info::Model>), ModelError>(
                ModelError::Empty,
            ) ==> r == Err::<(users::Model, Vec<user_info::Model>), ResponseCode>(
                ResponseCode::Unauthorized,
            ),
            user matches Ok(u) ==> (if u.0.status is Deleted {
                r == Err::<(users::Model, Vec<user_info::Model>), ResponseCode>(
                    ResponseCode::UserDeleted,
                )
            } else {
                r == Ok::<(users::Model, Vec<user_info::Model>), ResponseCode>(u)
            }),
    {
        match user {
            Err(ModelError::DBError) => Err(ResponseCode::InternalError),
            Err(ModelError::Empty) => Err(ResponseCode::Unauthorized),
            Ok(u) => {
                if u.0.status.is_deleted() {
                    Err(ResponseCode::UserDeleted)
                } else {
                    Ok(u)
                }
            },
        }
    }

    /// Final stage: attaches the effective level; a level that cannot be
    /// computed is an internal error.
    pub fn assemble(
        session: String,
        user: (users::Model, Vec<user_info::Model>),
        level: Result<i32, ModelError>,
    ) -> (r: Result<LoginAccess, ResponseCode>)
        ensures
            level is Err ==> r == Err::<LoginAccess, ResponseCode>(ResponseCode::InternalError),
            level matches Ok(l) ==> r matches Ok(a) && a.session@ == session@ && a.user == user
                && a.level == l,
    {
        match level {
            Err(_) => Err(ResponseCode::InternalError),
            Ok(l) => Ok(LoginAccess { session, user, level: l }),
        }
    }
}

/// The capability of an operator: a logged-in user whose account is fully
/// active. An inactive account is rejected distinctly from a banned one.
#[derive(Debug)]
pub struct OperatorAccess(pub LoginAccess);

impl OperatorAccess {
    /// Tightens a login capability: inactive and banned accounts may hold
    /// sessions but may not act as operators.
    pub fn from_login(login: LoginAccess) -> (r: Result<OperatorAccess, ResponseCode>)
        ensures
            login.user.0.status is Inactive ==> r == Err::<OperatorAccess, ResponseCode>(
                ResponseCode::UserNotActivated,
            ),
            login.user.0.status is Banned ==> r == Err::<OperatorAccess, ResponseCode>(
                ResponseCode::UserBlocked,
            ),
            !(login.user.0.status is Inactive) && !(login.user.0.status is Banned) ==> (r matches
                Ok(a) && a.0 == login),
    {
        if login.user.0.status.is_inactive() {
            return Err(ResponseCode::UserNotActivated);
        }
        if login.user.0.status.is_banned() {
            return Err(ResponseCode::UserBlocked);
        }
        Ok(OperatorAccess(login))
    }
}

} // verus!
