//! Permissions: namespaced names granted to roles, aggregated per user as
//! the union over all held roles.

use vstd::prelude::*;

verus! {

/// A permission row. System permissions are seed data.
#[derive(Clone, Debug)]
pub struct Model {
    pub id: u128,
    pub name: String,
    pub description: String,
    pub system: bool,
}

/// Whether a permission name occurs in an aggregated permission set.
pub open spec fn spec_has_permission(perms: Seq<String>, name: Seq<char>) -> bool {
    exists|i: int| 0 <= i < perms.len() && #[trigger] perms[i]@ == name
}

/// Whether every required name occurs in the held set.
pub open spec fn spec_has_all(held: Seq<String>, required: Seq<String>) -> bool {
    forall|i: int| 0 <= i < required.len()
        ==> spec_has_permission(held, #[trigger] required[i]@)
}

/// Whether at least one required name occurs in the held set.
pub open spec fn spec_has_any(held: Seq<String>, required: Seq<String>) -> bool {
    exists|i: int| 0 <= i < required.len()
        && spec_has_permission(held, #[trigger] required[i]@)
}

/// Whether the user holding `perms` holds the permission named `perm`.
pub fn check_permission(perms: &Vec<String>, perm: &str) -> (r: bool)
    ensures
        r == spec_has_permission(perms@, perm@),
{
    let mut i: usize = 0;
    while i < perms.len()
        invariant
            0 <= i <= perms@.len(),
            forall|j: int| 0 <= j < i ==> #[trigger] perms@[j]@ != perm@,
        decreases perms@.len() - i,
    {
        if crate::scan::str_eq(perms[i].as_str(), perm) {
            return true;
        }
        i = i + 1;
    }
    false
}

/// Whether the held set contains every required permission.
pub fn has_all_permissions(held: &Vec<String>, required: &Vec<String>) -> (r: bool)
    ensures
        r == spec_has_all(held@, required@),
{
    let mut i: usize = 0;
    while i < required.len()
        invariant
            0 <= i <= required@.len(),
            forall|j: int| 0 <= j < i
                ==> spec_has_permission(held@, #[trigger] required@[j]@),
        decreases required@.len() - i,
    {
        if !check_permission(held, required[i].as_str()) {
            return false;
        }
        i = i + 1;
    }
    true
}

/// Whether the held set contains at least one required permission.
pub fn has_any_permission(held: &Vec<String>, required: &Vec<String>) -> (r: bool)
    ensures
        r == spec_has_any(held@, required@),
{
    let mut i: usize = 0;
    while i < required.len()
        invariant
            0 <= i <= required@.len(),
            forall|j: int| 0 <= j < i
                ==> !spec_has_permission(held@, #[trigger] required@[j]@),
        decreases required@.len() - i,
    {
        if check_permission(held, required[i].as_str()) {
            return true;
        }
        i = i + 1;
    }
    false
}

} // verus!
