//! The declarative permission gate wrapped around a set of routes: for
//! each request it resolves the session on its own, computes the caller's
//! permission set, and admits the request only when the required names
//! are held under ALL or ANY semantics.
//!
//! A dependency failure — store unreachable, malformed session payload,
//! permission query failed — is an internal error, never a silent
//! admission and never a plain authentication failure.

use vstd::prelude::*;
use crate::extractor::{StoreReply, ModelError, cookie_view};
use crate::permission::{spec_has_all, spec_has_any, has_all_permissions, has_any_permission};
use crate::serializer::ResponseCode;
use crate::session::{Session, spec_parse_session, parse_from_str};

verus! {

/// Whether the interceptor requires every listed permission or any one of them.
#[derive(Clone, Copy, Debug, PartialEq, Eq, Structural)]
pub enum PermType {
    Any,
    All,
}

/// A permission gate: the required permission names and the semantics
/// they are required under.
pub struct PermissionAccess {
    pub perms: Vec<String>,
    pub perm_type: PermType,
}

/// The outcome of the interceptor's own session stage: unlike capability
/// extraction, a record that cannot be parsed is a malformed payload and
/// so an internal error, while an expired one is merely unauthorized.
pub open spec fn spec_gate_session(
    cookie: Option<Seq<char>>,
    reply: StoreReply,
    now: u64,
) -> Result<Session, ResponseCode> {
    if cookie is None {
        Err(ResponseCode::Unauthorized)
    } else {
        match reply {
            StoreReply::Unavailable => Err(ResponseCode::InternalError),
            StoreReply::Missing => Err(ResponseCode::Unauthorized),
            StoreReply::Value(v) => match spec_parse_session(v@) {
                None => Err(ResponseCode::InternalError),
                Some(s) => if s.exp > now {
                    Ok(s)
                } else {
                    Err(ResponseCode::Unauthorized)
                },
            },
        }
    }
}

impl PermissionAccess {
    /// A gate that requires every one of the given permissions.
    pub fn all(perms: Vec<String>) -> (r: PermissionAccess)
        ensures
            r.perms == perms,
            r.perm_type is All,
    {
        PermissionAccess { perms, perm_type: PermType::All }
    }

    /// A gate that requires at least one of the given permissions.
    pub fn any(perms: Vec<String>) -> (r: PermissionAccess)
        ensures
            r.perms == perms,
            r.perm_type is Any,
    {
        PermissionAccess { perms, perm_type: PermType::Any }
    }

    /// Session stage of the interceptor.
    pub fn session_stage(cookie: Option<&String>, reply: &StoreReply, now: u64) -> (r:
        Result<Session, ResponseCode>)
        ensures
            r == spec_gate_session(cookie_view(cookie), *reply, now),
    {
        if cookie.is_none() {
            return Err(ResponseCode::Unauthorized);
        }
        match reply {
            StoreReply::Unavailable => Err(ResponseCode::InternalError),
            StoreReply::Missing => Err(ResponseCode::Unauthorized),
            StoreReply::Value(v) => match parse_from_str(v.as_str()) {
                None => Err(ResponseCode::InternalError),
                Some(s) => if s.exp > now {
                    Ok(s)
                } else {
                    Err(ResponseCode::Unauthorized)
                },
            },
        }
    }

    /// Permission stage of the interceptor: admits exactly when the caller's
    /// permission set meets the requirement; a set that could not be
    /// computed is an internal error.
    pub fn decide(&self, held: &Result<Vec<String>, ModelError>) -> (r: Result<
        (),
        ResponseCode,
    >)
        ensures
            held is Err ==> r == Err::<(), ResponseCode>(ResponseCode::InternalError),
            held matches Ok(h) ==> (match self.perm_type {
                PermType::All => if spec_has_all(h@, self.perms@) {
                    r == Ok::<(), ResponseCode>(())
                } else {
                    r == Err::<(), ResponseCode>(ResponseCode::Forbidden)
                },
                PermType::Any => if spec_has_any(h@, self.perms@) {
                    r == Ok::<(), ResponseCode>(())
                } else {
                    r == Err::<(), ResponseCode>(ResponseCode::Forbidden)
                },
            }),
    {
        match held {
            Err(_) => Err(ResponseCode::InternalError),
            Ok(h) => {
                let admitted = match self.perm_type {
                    PermType::All => has_all_permissions(h, &self.perms),
                    PermType::Any => has_any_permission(h, &self.perms),
                };
                if admitted {
                    Ok(())
                } else {
                    Err(ResponseCode::Forbidden)
                }
            },
        }
    }
}

} // verus!
