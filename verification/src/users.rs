//! User accounts and the account lifecycle state machine.
//!
//! The lifecycle is `Inactive -> Active -> {Banned, Deleted}`. `Deleted` is
//! terminal: deletion is a status transition, never a row removal. A
//! credential is stored as `"sha2:<digest>:<salt>"`.

use vstd::prelude::*;
use crate::password::{
    spec_check_stored, spec_stored_credential, spec_hash, check_stored, generate,
};
use crate::scan::{find_from, lemma_find_from, find_char};

verus! {

/// Status of an account.
/// - `Inactive`: registered, not yet activated through the mail channel
/// - `Active`: may log in and act
/// - `Banned`: blocked by an administrator, reversible
/// - `Deleted`: terminal; invisible and unable to authenticate
#[derive(Clone, Copy, Debug, PartialEq, Eq, Structural)]
pub enum AccountStatus {
    Inactive,
    Active,
    Banned,
    Deleted,
}

impl AccountStatus {
    pub fn is_deleted(&self) -> (r: bool)
        ensures
            r == (*self is Deleted),
    {
        matches!(self, AccountStatus::Deleted)
    }

    pub fn is_inactive(&self) -> (r: bool)
        ensures
            r == (*self is Inactive),
    {
        matches!(self, AccountStatus::Inactive)
    }

    pub fn is_banned(&self) -> (r: bool)
        ensures
            r == (*self is Banned),
    {
        matches!(self, AccountStatus::Banned)
    }
}

/// The user-facing name of a status.
pub open spec fn spec_status_str(s: AccountStatus) -> Seq<char> {
    match s {
        AccountStatus::Inactive => "inactive"@,
        AccountStatus::Active => "active"@,
        AccountStatus::Banned => "banned"@,
        AccountStatus::Deleted => "deleted"@,
    }
}

impl AccountStatus {
    /// The user-facing name of this status.
    pub fn as_str(&self) -> (r: &'static str)
        ensures
            r@ == spec_status_str(*self),
    {
        match self {
            AccountStatus::Inactive => "inactive",
            AccountStatus::Active => "active",
            AccountStatus::Banned => "banned",
            AccountStatus::Deleted => "deleted",
        }
    }
}

/// The status a fresh registration starts in: inactive when a mail channel
/// exists to carry the activation link, active otherwise.
pub fn registration_status(mail_enabled: bool) -> (r: AccountStatus)
    ensures
        mail_enabled ==> r is Inactive,
        !mail_enabled ==> r is Active,
{
    if mail_enabled {
        AccountStatus::Inactive
    } else {
        AccountStatus::Active
    }
}

/// A user row: identity, stored credential, and lifecycle status.
#[derive(Clone, Debug)]
pub struct Model {
    pub uid: i32,
    pub email: String,
    pub username: String,
    pub password: String,
    pub nickname: String,
    pub status: AccountStatus,
}

impl Model {
    /// Verifies a password against this user's stored credential; any
    /// malformed stored value or unknown scheme fails closed.
    pub fn check_password(&self, password: String) -> (r: bool)
        ensures
            r == spec_check_stored(password@, self.password@),
    {
        check_stored(password, &self.password)
    }

    /// A copy of this user with the credential replaced by the new
    /// password hashed under the given salt.
    pub fn update_password(&self, new_password: String, salt: String) -> (m: Model)
        ensures
            m.uid == self.uid,
            m.email@ == self.email@,
            m.username@ == self.username@,
            m.nickname@ == self.nickname@,
            m.status == self.status,
            m.password@ == spec_stored_credential(
                spec_hash(new_password@, salt@),
                salt@,
            ),
    {
        let digest = generate(new_password, salt.clone());
        let stored = format_stored(digest.as_str(), salt.as_str());
        Model {
            uid: self.uid,
            email: self.email.clone(),
            username: self.username.clone(),
            password: stored,
            nickname: self.nickname.clone(),
            status: self.status,
        }
    }
}

impl Model {
    /// The row after deletion: deletion is a status transition and
    /// touches nothing else — the row is never removed, and `Deleted` is
    /// terminal for every flow of this library.
    pub fn mark_deleted(&self) -> (m: Model)
        ensures
            m.uid == self.uid,
            m.email@ == self.email@,
            m.username@ == self.username@,
            m.password@ == self.password@,
            m.nickname@ == self.nickname@,
            m.status is Deleted,
    {
        Model {
            uid: self.uid,
            email: self.email.clone(),
            username: self.username.clone(),
            password: self.password.clone(),
            nickname: self.nickname.clone(),
            status: AccountStatus::Deleted,
        }
    }
}

/// Renders the stored shape of a sha2 credential from its digest and salt.
pub fn format_stored(digest: &str, salt: &str) -> (r: String)
    ensures
        r@ == spec_stored_credential(digest@, salt@),
{
    proof {
        reveal_strlit("sha2:");
        reveal_strlit(":");
    }
    let mut s = "sha2:".to_owned();
    s.append(digest);
    s.append(":");
    s.append(salt);
    assert(s@ =~= spec_stored_credential(digest@, salt@));
    s
}

/// The default nickname: the part of the email before the first `'@'`, or
/// the whole email when it has none.
pub open spec fn spec_default_nickname(email: Seq<char>) -> Seq<char> {
    email.subrange(0, find_from(email, '@', 0))
}

/// The nickname a new user gets: the given one, or the default derived
/// from the email.
pub open spec fn spec_new_nickname(nickname: Option<String>, email: Seq<char>) -> Seq<char> {
    match nickname {
        Some(n) => n@,
        None => spec_default_nickname(email),
    }
}

/// Builds the row for a new user. `password` is the already-computed
/// digest of the chosen password under `salt`; the row stores the two in
/// the sha2 credential shape. The caller persists the row, its profile
/// row, and the default role assignment as one unit.
pub fn create_user(
    username: String,
    email: String,
    password: String,
    salt: String,
    status: AccountStatus,
    nickname: Option<String>,
) -> (m: Model)
    ensures
        m.uid == 0,
        m.username@ == username@,
        m.email@ == email@,
        m.status == status,
        m.password@ == spec_stored_credential(password@, salt@),
        m.nickname@ == spec_new_nickname(nickname, email@),
{
    let stored = format_stored(password.as_str(), salt.as_str());
    let nick = match nickname {
        Some(n) => n,
        None => {
            let e = email.as_str();
            let n = e.unicode_len();
            proof {
                lemma_find_from(e@, '@', 0);
            }
            let at = find_char(e, '@', 0, n);
            e.substring_char(0, at).to_owned()
        },
    };
    Model {
        uid: 0,
        email,
        username,
        password: stored,
        nickname: nick,
        status,
    }
}

} // verus!
