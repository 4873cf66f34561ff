//! Seed data: the system permissions and roles the service installs on
//! first start, the grants tying them together, the first administrator
//! account, and the filters that keep reinstallation idempotent.

use vstd::prelude::*;
use crate::password::{spec_hash, spec_stored_credential};
use crate::permission;
use crate::role;
use crate::scan::str_eq;
use crate::user_info;
use crate::users;

verus! {

/// Whether a name occurs among the names of already installed rows.
pub open spec fn spec_name_taken(existing: Seq<String>, name: Seq<char>) -> bool {
    exists|i: int| 0 <= i < existing.len() && #[trigger] existing[i]@ == name
}

/// Whether two permission rows carry the same data, field for field.
pub open spec fn rows_match(a: permission::Model, b: permission::Model) -> bool {
    &&& a.id == b.id
    &&& a.name@ == b.name@
    &&& a.description@ == b.description@
    &&& a.system == b.system
}

/// Whether a row carries the same data as one of the rows of `s`.
pub open spec fn row_in(s: Seq<permission::Model>, x: permission::Model) -> bool {
    exists|j: int| 0 <= j < s.len() && rows_match(x, #[trigger] s[j])
}

/// The seed rows whose names are not yet installed: each returned row is
/// one of the seed rows unchanged, none carries an installed name, and
/// every seed row with an uninstalled name is returned — so what an
/// installation run inserts, and running it twice inserts nothing the
/// second time.
pub fn missing_permissions(seed: Vec<permission::Model>, existing: &Vec<String>) -> (r: Vec<
    permission::Model,
>)
    ensures
        forall|i: int| 0 <= i < r@.len() ==> !spec_name_taken(existing@, #[trigger] r@[i].name@),
        forall|i: int| 0 <= i < r@.len() ==> #[trigger] row_in(seed@, r@[i]),
        forall|i: int|
            0 <= i < seed@.len() && !spec_name_taken(existing@, #[trigger] seed@[i].name@)
                ==> exists|j: int| 0 <= j < r@.len() && #[trigger] r@[j].name@ == seed@[i].name@,
{
    let mut r: Vec<permission::Model> = Vec::new();
    let mut i: usize = 0;
    while i < seed.len()
        invariant
            0 <= i <= seed@.len(),
            forall|k: int| 0 <= k < r@.len()
                ==> !spec_name_taken(existing@, #[trigger] r@[k].name@),
            forall|k: int| 0 <= k < r@.len() ==> #[trigger] row_in(seed@, r@[k]),
            forall|k: int| 0 <= k < i && !spec_name_taken(existing@, #[trigger] seed@[k].name@)
                ==> exists|j: int| 0 <= j < r@.len()
                    && #[trigger] r@[j].name@ == seed@[k].name@,
        decreases seed@.len() - i,
    {
        let taken = name_taken(existing, seed[i].name.as_str());
        if !taken {
            let ghost old_r = r@;
            r.push(seed[i].clone_row());
            proof {
                assert(r@.len() == old_r.len() + 1);
                assert(forall|j: int| 0 <= j < old_r.len() ==> r@[j] == old_r[j]);
                assert(rows_match(r@[old_r.len() as int], seed@[i as int]));
                assert(row_in(seed@, r@[old_r.len() as int]));
                assert forall|k: int|
                    0 <= k < i + 1 && !spec_name_taken(existing@, #[trigger] seed@[k].name@)
                        implies exists|j: int| 0 <= j < r@.len()
                            && #[trigger] r@[j].name@ == seed@[k].name@ by {
                    if k < i {
                        let j = choose|j: int| 0 <= j < old_r.len()
                            && #[trigger] old_r[j].name@ == seed@[k].name@;
                        assert(r@[j].name@ == seed@[k].name@);
                    } else {
                        assert(r@[old_r.len() as int].name@ == seed@[k].name@);
                    }
                }
            }
        }
        i = i + 1;
    }
    r
}

/// Whether a name occurs among the installed names.
fn name_taken(existing: &Vec<String>, name: &str) -> (r: bool)
    ensures
        r == spec_name_taken(existing@, name@),
{
    let mut i: usize = 0;
    while i < existing.len()
        invariant
            0 <= i <= existing@.len(),
            forall|j: int| 0 <= j < i ==> #[trigger] existing@[j]@ != name@,
        decreases existing@.len() - i,
    {
        if str_eq(existing[i].as_str(), name) {
            return true;
        }
        i = i + 1;
    }
    false
}

impl permission::Model {
    /// A field-for-field copy of this row.
    pub fn clone_row(&self) -> (r: permission::Model)
        ensures
            rows_match(r, *self),
    {
        permission::Model {
            id: self.id,
            name: self.name.clone(),
            description: self.description.clone(),
            system: self.system,
        }
    }
}

/// The id pairs not yet present among the existing pairs, in wanted
/// order: the associations an installation run actually inserts.
pub fn missing_pairs(wanted: &Vec<(u128, u128)>, existing: &Vec<(u128, u128)>) -> (r: Vec<
    (u128, u128),
>)
    ensures
        forall|i: int| 0 <= i < r@.len() ==> !existing@.contains(#[trigger] r@[i])
            && wanted@.contains(r@[i]),
        forall|i: int| 0 <= i < wanted@.len() && !existing@.contains(#[trigger] wanted@[i])
            ==> r@.contains(wanted@[i]),
{
    let mut r: Vec<(u128, u128)> = Vec::new();
    let mut i: usize = 0;
    while i < wanted.len()
        invariant
            0 <= i <= wanted@.len(),
            forall|k: int| 0 <= k < r@.len() ==> !existing@.contains(#[trigger] r@[k])
                && wanted@.contains(r@[k]),
            forall|k: int| 0 <= k < i && !existing@.contains(#[trigger] wanted@[k])
                ==> r@.contains(wanted@[k]),
        decreases wanted@.len() - i,
    {
        let p = wanted[i];
        if !pair_present(existing, p) {
            let ghost old_r = r@;
            r.push(p);
            proof {
                assert(r@[old_r.len() as int] == wanted@[i as int]);
                assert(forall|k: int| 0 <= k < old_r.len() ==> r@[k] == old_r[k]);
                assert forall|k: int|
                    0 <= k < i + 1 && !existing@.contains(#[trigger] wanted@[k])
                        implies r@.contains(wanted@[k]) by {
                    if k < i {
                        let j = choose|j: int| 0 <= j < old_r.len()
                            && old_r[j] == wanted@[k];
                        assert(r@[j] == wanted@[k]);
                    } else {
                        assert(r@[old_r.len() as int] == wanted@[k]);
                    }
                }
            }
        }
        i = i + 1;
    }
    r
}

/// Whether an id pair occurs among the existing associations.
fn pair_present(existing: &Vec<(u128, u128)>, p: (u128, u128)) -> (r: bool)
    ensures
        r == existing@.contains(p),
{
    let mut i: usize = 0;
    while i < existing.len()
        invariant
            0 <= i <= existing@.len(),
            forall|j: int| 0 <= j < i ==> #[trigger] existing@[j] != p,
        decreases existing@.len() - i,
    {
        if existing[i].0 == p.0 && existing[i].1 == p.1 {
            assert(existing@[i as int] == p);
            return true;
        }
        i = i + 1;
    }
    false
}

/// The privilege levels of the seed roles.
pub const SUPER_ADMIN_LEVEL: i32 = 100;

pub const ADMIN_LEVEL: i32 = 90;

pub const USER_LEVEL: i32 = 10;

/// The seed roles: the full-access administrator, the user-managing
/// administrator, and the regular user.
pub fn seed_roles() -> (r: Vec<role::Model>)
    ensures
        r@.len() == 3,
        r@[0].name@ == "super_admin"@ && r@[0].level == SUPER_ADMIN_LEVEL
            && r@[0].description@ == "Super Administrator - Full system access"@,
        r@[1].name@ == "admin"@ && r@[1].level == ADMIN_LEVEL
            && r@[1].description@ == "Administrator - Manage users and roles"@,
        r@[2].name@ == "user"@ && r@[2].level == USER_LEVEL
            && r@[2].description@ == "Regular User - Basic user privileges"@,
        forall|i: int| 0 <= i < r@.len() ==> #[trigger] r@[i].system == true,
{
    let mut r: Vec<role::Model> = Vec::new();
    r.push(role::Model {
        id: 0,
        name: "super_admin".to_owned(),
        description: "Super Administrator - Full system access".to_owned(),
        level: SUPER_ADMIN_LEVEL,
        system: true,
    });
    r.push(role::Model {
        id: 0,
        name: "admin".to_owned(),
        description: "Administrator - Manage users and roles".to_owned(),
        level: ADMIN_LEVEL,
        system: true,
    });
    r.push(role::Model {
        id: 0,
        name: "user".to_owned(),
        description: "Regular User - Basic user privileges".to_owned(),
        level: USER_LEVEL,
        system: true,
    });
    r
}

/// Exactly the seed permission rows, in installation order: each name
/// with its description.
pub open spec fn is_seed_permission_rows(s: Seq<permission::Model>) -> bool {
    &&& s.len() == 21
    &&& s[0].name@ == "user:create"@ && s[0].description@ == "Create new user"@
    &&& s[1].name@ == "user:read:self"@ && s[1].description@ == "Read own user info"@
    &&& s[2].name@ == "user:read:active"@
        && s[2].description@ == "Read all active users info"@
    &&& s[3].name@ == "user:read:all"@ && s[3].description@ == "Read all users info"@
    &&& s[4].name@ == "user:update:self"@ && s[4].description@ == "Update own user info"@
    &&& s[5].name@ == "user:update:all"@
        && s[5].description@
            == "Update all users info (admin, including disable/activate account)"@
    &&& s[6].name@ == "user:delete:self"@
        && s[6].description@ == "Delete own account (should require confirmation/MFA)"@
    &&& s[7].name@ == "user:delete:all"@
        && s[7].description@ == "Delete all users (very high privilege)"@
    &&& s[8].name@ == "user:undeletable"@ && s[8].description@ == "Undeletable user"@
    &&& s[9].name@ == "user:reset_password:self"@
        && s[9].description@ == "Reset own password"@
    &&& s[10].name@ == "user:reset_password:other"@
        && s[10].description@ == "Reset other user's password (admin)"@
    &&& s[11].name@ == "user:manage_roles"@
        && s[11].description@ == "Manage user roles (assign/remove roles, admin only)"@
    &&& s[12].name@ == "user:manage_mfa:self"@
        && s[12].description@
            == "Manage own MFA settings (enable/disable/configure TOTP etc)"@
    &&& s[13].name@ == "user:manage_mfa:other"@
        && s[13].description@ == "Manage other user's MFA settings (admin)"@
    &&& s[14].name@ == "role:create"@ && s[14].description@ == "Create new role"@
    &&& s[15].name@ == "role:read"@
        && s[15].description@ == "View role list or single role info"@
    &&& s[16].name@ == "role:update"@ && s[16].description@ == "Update role info"@
    &&& s[17].name@ == "role:delete"@ && s[17].description@ == "Delete role"@
    &&& s[18].name@ == "role:manage_permissions"@
        && s[18].description@
            == "Manage role permissions (assign/remove permission points)"@
    &&& s[19].name@ == "permission:read"@
        && s[19].description@ == "View all permission points (admin only)"@
    &&& s[20].name@ == "permission:manage"@
        && s[20].description@
            == "Create/modify/delete permission points (super admin only)"@
    &&& forall|i: int| 0 <= i < s.len() ==> #[trigger] s[i].system == true
}

/// The seed permission rows, in installation order.
pub fn seed_permissions() -> (r: Vec<permission::Model>)
    ensures
        is_seed_permission_rows(r@),
{
    let mut r: Vec<permission::Model> = Vec::new();
    r.push(row("user:create", "Create new user"));
    r.push(row("user:read:self", "Read own user info"));
    r.push(row("user:read:active", "Read all active users info"));
    r.push(row("user:read:all", "Read all users info"));
    r.push(row("user:update:self", "Update own user info"));
    r.push(row(
        "user:update:all",
        "Update all users info (admin, including disable/activate account)",
    ));
    r.push(row(
        "user:delete:self",
        "Delete own account (should require confirmation/MFA)",
    ));
    r.push(row("user:delete:all", "Delete all users (very high privilege)"));
    r.push(row("user:undeletable", "Undeletable user"));
    r.push(row("user:reset_password:self", "Reset own password"));
    r.push(row("user:reset_password:other", "Reset other user's password (admin)"));
    r.push(row(
        "user:manage_roles",
        "Manage user roles (assign/remove roles, admin only)",
    ));
    r.push(row(
        "user:manage_mfa:self",
        "Manage own MFA settings (enable/disable/configure TOTP etc)",
    ));
    r.push(row("user:manage_mfa:other", "Manage other user's MFA settings (admin)"));
    r.push(row("role:create", "Create new role"));
    r.push(row("role:read", "View role list or single role info"));
    r.push(row("role:update", "Update role info"));
    r.push(row("role:delete", "Delete role"));
    r.push(row(
        "role:manage_permissions",
        "Manage role permissions (assign/remove permission points)",
    ));
    r.push(row("permission:read", "View all permission points (admin only)"));
    r.push(row(
        "permission:manage",
        "Create/modify/delete permission points (super admin only)",
    ));
    r
}

/// A seed permission row before an id is assigned.
fn row(name: &str, description: &str) -> (r: permission::Model)
    ensures
        r.id == 0,
        r.name@ == name@,
        r.description@ == description@,
        r.system == true,
{
    permission::Model {
        id: 0,
        name: name.to_owned(),
        description: description.to_owned(),
        system: true,
    }
}

/// Exactly the seed permission names, in installation order.
pub open spec fn is_seed_permission_names(s: Seq<String>) -> bool {
    &&& s.len() == 21
    &&& s[0]@ == "user:create"@
    &&& s[1]@ == "user:read:self"@
    &&& s[2]@ == "user:read:active"@
    &&& s[3]@ == "user:read:all"@
    &&& s[4]@ == "user:update:self"@
    &&& s[5]@ == "user:update:all"@
    &&& s[6]@ == "user:delete:self"@
    &&& s[7]@ == "user:delete:all"@
    &&& s[8]@ == "user:undeletable"@
    &&& s[9]@ == "user:reset_password:self"@
    &&& s[10]@ == "user:reset_password:other"@
    &&& s[11]@ == "user:manage_roles"@
    &&& s[12]@ == "user:manage_mfa:self"@
    &&& s[13]@ == "user:manage_mfa:other"@
    &&& s[14]@ == "role:create"@
    &&& s[15]@ == "role:read"@
    &&& s[16]@ == "role:update"@
    &&& s[17]@ == "role:delete"@
    &&& s[18]@ == "role:manage_permissions"@
    &&& s[19]@ == "permission:read"@
    &&& s[20]@ == "permission:manage"@
}

/// The names of the seed permissions, in installation order.
pub fn seed_permission_names() -> (r: Vec<String>)
    ensures
        is_seed_permission_names(r@),
{
    let rows = seed_permissions();
    let mut r: Vec<String> = Vec::new();
    let mut i: usize = 0;
    while i < rows.len()
        invariant
            0 <= i <= rows@.len(),
            r@.len() == i,
            forall|j: int| 0 <= j < i ==> #[trigger] r@[j]@ == rows@[j].name@,
            is_seed_permission_rows(rows@),
        decreases rows@.len() - i,
    {
        r.push(rows[i].name.clone());
        i = i + 1;
    }
    r
}

/// Exactly the grants of the user-managing administrator: everything but
/// the destructive and permission-managing powers.
pub open spec fn is_admin_grant_names(s: Seq<String>) -> bool {
    &&& s.len() == 18
    &&& s[0]@ == "user:create"@
    &&& s[1]@ == "user:read:self"@
    &&& s[2]@ == "user:read:active"@
    &&& s[3]@ == "user:read:all"@
    &&& s[4]@ == "user:update:self"@
    &&& s[5]@ == "user:update:all"@
    &&& s[6]@ == "user:delete:self"@
    &&& s[7]@ == "user:reset_password:self"@
    &&& s[8]@ == "user:reset_password:other"@
    &&& s[9]@ == "user:manage_roles"@
    &&& s[10]@ == "user:manage_mfa:self"@
    &&& s[11]@ == "user:manage_mfa:other"@
    &&& s[12]@ == "role:create"@
    &&& s[13]@ == "role:read"@
    &&& s[14]@ == "role:update"@
    &&& s[15]@ == "role:delete"@
    &&& s[16]@ == "role:manage_permissions"@
    &&& s[17]@ == "permission:read"@
}

/// Exactly the grants of the regular user: its self-scoped powers only.
pub open spec fn is_user_grant_names(s: Seq<String>) -> bool {
    &&& s.len() == 6
    &&& s[0]@ == "user:read:self"@
    &&& s[1]@ == "user:read:active"@
    &&& s[2]@ == "user:update:self"@
    &&& s[3]@ == "user:delete:self"@
    &&& s[4]@ == "user:reset_password:self"@
    &&& s[5]@ == "user:manage_mfa:self"@
}

/// The permissions each seed role is granted, by role name: the
/// full-access administrator holds every seed permission, the
/// user-managing administrator the admin grants, the regular user its
/// self-scoped grants.
pub fn seed_role_grants() -> (r: Vec<(String, Vec<String>)>)
    ensures
        r@.len() == 3,
        r@[0].0@ == "super_admin"@ && is_seed_permission_names(r@[0].1@),
        r@[1].0@ == "admin"@ && is_admin_grant_names(r@[1].1@),
        r@[2].0@ == "user"@ && is_user_grant_names(r@[2].1@),
{
    let all = seed_permission_names();
    let mut admin: Vec<String> = Vec::new();
    admin.push("user:create".to_owned());
    admin.push("user:read:self".to_owned());
    admin.push("user:read:active".to_owned());
    admin.push("user:read:all".to_owned());
    admin.push("user:update:self".to_owned());
    admin.push("user:update:all".to_owned());
    admin.push("user:delete:self".to_owned());
    admin.push("user:reset_password:self".to_owned());
    admin.push("user:reset_password:other".to_owned());
    admin.push("user:manage_roles".to_owned());
    admin.push("user:manage_mfa:self".to_owned());
    admin.push("user:manage_mfa:other".to_owned());
    admin.push("role:create".to_owned());
    admin.push("role:read".to_owned());
    admin.push("role:update".to_owned());
    admin.push("role:delete".to_owned());
    admin.push("role:manage_permissions".to_owned());
    admin.push("permission:read".to_owned());
    let mut user: Vec<String> = Vec::new();
    user.push("user:read:self".to_owned());
    user.push("user:read:active".to_owned());
    user.push("user:update:self".to_owned());
    user.push("user:delete:self".to_owned());
    user.push("user:reset_password:self".to_owned());
    user.push("user:manage_mfa:self".to_owned());
    let mut r: Vec<(String, Vec<String>)> = Vec::new();
    r.push(("super_admin".to_owned(), all));
    r.push(("admin".to_owned(), admin));
    r.push(("user".to_owned(), user));
    r
}

/// The first administrator installed on an empty store: the fixed root
/// identity, already active, holding the given password hashed under the
/// given salt. The caller persists the user row, the profile row and the
/// super_admin role assignment as one unit, and hands the chosen
/// password to the operator.
pub fn init_super_admin(password: String, salt: String) -> (r: (
    users::Model,
    user_info::Model,
))
    ensures
        r.0.uid == 0,
        r.0.username@ == "root"@,
        r.0.email@ == "admin@local.email"@,
        r.0.nickname@ == "Super Administrator"@,
        r.0.status is Active,
        r.0.password@ == spec_stored_credential(spec_hash(password@, salt@), salt@),
        r.1.uid == 0,
        r.1.description matches Some(d) && d@ == "System Super Administrator"@,
        r.1.avatar is None,
        r.1.state is None,
        r.1.gender is None,
{
    let digest = crate::password::generate(password, salt.clone());
    let user = users::create_user(
        "root".to_owned(),
        "admin@local.email".to_owned(),
        digest,
        salt,
        users::AccountStatus::Active,
        Some("Super Administrator".to_owned()),
    );
    let info = user_info::Model {
        uid: 0,
        avatar: None,
        description: Some("System Super Administrator".to_owned()),
        state: None,
        gender: None,
    };
    (user, info)
}

} // verus!
