//! Account deletion: the self-service flow guarded by the password, and
//! the administrative flow guarded by the level comparison.
//!
//! Deletion is a status transition. A target holding `user:undeletable`
//! is never deleted, whatever the operator's level; an operator deletes a
//! target only when the operator's level strictly exceeds the target's.

use vstd::prelude::*;
use crate::extractor::ModelError;
use crate::password::spec_check_stored;
use crate::permission::{spec_has_permission, check_permission};
use crate::serializer::{Response, ResponseCode, is_code_response, spec_code};
use crate::users;

verus! {

/// A self-delete request, confirmed by the account's password.
pub struct DeleteService {
    pub password: String,
}

impl DeleteService {
    /// Decides a self-delete: forbidden for an undeletable account,
    /// rejected on a wrong password; `Ok` directs the caller to mark the
    /// account deleted and to invalidate its session.
    pub fn delete(&self, user: &users::Model, undeletable: bool) -> (r: Result<(), Response<()>>)
        ensures
            undeletable ==> (r matches Err(e) && is_code_response(e, ResponseCode::Forbidden)),
            !undeletable && !spec_check_stored(self.password@, user.password@) ==> (r matches
                Err(e) && e.code == spec_code(ResponseCode::CredentialInvalid)
                && e.message@ == "Wrong password"@ && e.data is None),
            !undeletable && spec_check_stored(self.password@, user.password@) ==> r is Ok,
    {
        if undeletable {
            return Err(Response::from_code(ResponseCode::Forbidden));
        }
        if !user.check_password(self.password.clone()) {
            return Err(Response::new_error(
                ResponseCode::CredentialInvalid.code(),
                "Wrong password".to_owned(),
            ));
        }
        Ok(())
    }
}

/// The administrative delete flow.
pub struct AdminDeleteService;

impl AdminDeleteService {
    /// Decides an administrative delete over the target's fetched status,
    /// permission set and level. The operation is permitted only when the
    /// operator's level strictly exceeds the target's and the target does
    /// not hold `user:undeletable`; any state that could not be fetched
    /// is an internal error, never a permission grant.
    pub fn delete(
        &self,
        status: &Result<users::AccountStatus, ModelError>,
        target_perms: &Result<Vec<String>, ModelError>,
        target_level: &Result<i32, ModelError>,
        op_level: i32,
    ) -> (r: Result<(), Response<()>>)
        ensures
            ({
                if *status == Err::<users::AccountStatus, ModelError>(ModelError::Empty) {
                    r matches Err(e) && is_code_response(e, ResponseCode::UserNotFound)
                } else if *status == Err::<users::AccountStatus, ModelError>(
                    ModelError::DBError,
                ) {
                    r matches Err(e) && is_code_response(e, ResponseCode::InternalError)
                } else if *status == Ok::<users::AccountStatus, ModelError>(
                    users::AccountStatus::Deleted,
                ) {
                    r matches Err(e) && is_code_response(e, ResponseCode::UserDeleted)
                } else if target_perms is Err {
                    r matches Err(e) && is_code_response(e, ResponseCode::InternalError)
                } else if target_perms matches Ok(p) && spec_has_permission(
                    p@,
                    "user:undeletable"@,
                ) {
                    r matches Err(e) && is_code_response(e, ResponseCode::Forbidden)
                } else if target_level is Err {
                    r matches Err(e) && is_code_response(e, ResponseCode::InternalError)
                } else if target_level matches Ok(l) && !(op_level > *l) {
                    r matches Err(e) && is_code_response(e, ResponseCode::Forbidden)
                } else {
                    r is Ok
                }
            }),
    {
        let st = match status {
            Err(ModelError::Empty) => {
                return Err(Response::from_code(ResponseCode::UserNotFound));
            },
            Err(ModelError::DBError) => {
                return Err(Response::from_code(ResponseCode::InternalError));
            },
            Ok(st) => st,
        };
        if st.is_deleted() {
            return Err(Response::from_code(ResponseCode::UserDeleted));
        }
        let perms = match target_perms {
            Err(_) => {
                return Err(Response::from_code(ResponseCode::InternalError));
            },
            Ok(p) => p,
        };
        if check_permission(perms, "user:undeletable") {
            return Err(Response::from_code(ResponseCode::Forbidden));
        }
        let level = match target_level {
            Err(_) => {
                return Err(Response::from_code(ResponseCode::InternalError));
            },
            Ok(l) => *l,
        };
        if !crate::role::level_permits(op_level, level) {
            return Err(Response::from_code(ResponseCode::Forbidden));
        }
        Ok(())
    }
}

} // verus!
