//! Password reset: verifies the old password, refuses reusing it, and
//! yields the row with the new credential; the caller persists the row
//! and invalidates the session that requested the reset.

use vstd::prelude::*;
use crate::password::{spec_check_stored, spec_hash, spec_stored_credential};
use crate::scan::str_eq;
use crate::serializer::{Response, ResponseCode, is_code_response};
use crate::users;

verus! {

/// A password reset request.
pub struct ResetPasswordService {
    pub old_password: String,
    pub new_password: String,
}

impl ResetPasswordService {
    /// Decides a reset: the old password must verify and differ from the
    /// new one. Success yields the user row with the new password hashed
    /// under the given salt.
    pub fn reset_password(&self, user: &users::Model, salt: String) -> (r: Result<
        users::Model,
        Response<()>,
    >)
        ensures
            !spec_check_stored(self.old_password@, user.password@) ==> (r matches Err(e)
                && is_code_response(e, ResponseCode::Unauthorized)),
            spec_check_stored(self.old_password@, user.password@)
                && self.old_password@ == self.new_password@ ==> (r matches Err(e)
                && is_code_response(e, ResponseCode::DuplicatePassword)),
            spec_check_stored(self.old_password@, user.password@)
                && self.old_password@ != self.new_password@ ==> (r matches Ok(m)
                && m.uid == user.uid && m.email@ == user.email@
                && m.username@ == user.username@ && m.nickname@ == user.nickname@
                && m.status == user.status && m.password@ == spec_stored_credential(
                spec_hash(self.new_password@, salt@),
                salt@,
            )),
    {
        if !user.check_password(self.old_password.clone()) {
            return Err(Response::from_code(ResponseCode::Unauthorized));
        }
        if str_eq(self.old_password.as_str(), self.new_password.as_str()) {
            return Err(Response::from_code(ResponseCode::DuplicatePassword));
        }
        Ok(user.update_password(self.new_password.clone(), salt))
    }
}

} // verus!
