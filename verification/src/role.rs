//! Roles: named bundles of permissions carrying a privilege level.
//!
//! The level totally orders privilege; a user's effective level is the
//! maximum over the roles they hold, zero when they hold none. For a
//! privileged cross-user operation the operator's level must strictly
//! exceed the target's.

use vstd::prelude::*;

verus! {

/// A role row. System roles are seed data and are not deleted through
/// normal flows.
#[derive(Clone, Debug)]
pub struct Model {
    pub id: u128,
    pub name: String,
    pub description: String,
    pub level: i32,
    pub system: bool,
}

/// The effective level of a set of held roles: the maximum level, or zero
/// when no role is held.
pub open spec fn spec_max_level(roles: Seq<Model>) -> int
    decreases roles.len(),
{
    if roles.len() == 0 {
        0
    } else if roles.len() == 1 {
        roles[0].level as int
    } else {
        let rest = spec_max_level(roles.drop_last());
        if roles.last().level as int > rest {
            roles.last().level as int
        } else {
            rest
        }
    }
}

/// Computes the effective level over the roles a user holds.
pub fn get_user_role_level(roles: &Vec<Model>) -> (r: i32)
    ensures
        r as int == spec_max_level(roles@),
{
    if roles.len() == 0 {
        return 0;
    }
    let mut acc: i32 = roles[0].level;
    let mut i: usize = 1;
    while i < roles.len()
        invariant
            1 <= i <= roles@.len(),
            acc as int == spec_max_level(roles@.subrange(0, i as int)),
        decreases roles@.len() - i,
    {
        let ghost pre = roles@.subrange(0, i as int);
        let ghost post = roles@.subrange(0, i + 1);
        proof {
            assert(post.drop_last() =~= pre);
            assert(post.last() == roles@[i as int]);
        }
        if roles[i].level > acc {
            acc = roles[i].level;
        }
        i = i + 1;
    }
    proof {
        assert(roles@.subrange(0, roles@.len() as int) =~= roles@);
    }
    acc
}

/// The effective level is the maximum over the held roles: it bounds
/// every held level, and when any role is held it is one of them; with
/// none held it is zero.
pub proof fn lemma_max_level_bounds(roles: Seq<Model>)
    ensures
        forall|i: int| 0 <= i < roles.len() ==> #[trigger] roles[i].level as int
            <= spec_max_level(roles),
        roles.len() > 0 ==> exists|i: int| 0 <= i < roles.len()
            && #[trigger] roles[i].level as int == spec_max_level(roles),
        roles.len() == 0 ==> spec_max_level(roles) == 0,
    decreases roles.len(),
{
    if roles.len() == 1 {
        assert(roles[0].level as int == spec_max_level(roles));
    } else if roles.len() > 1 {
        lemma_max_level_bounds(roles.drop_last());
        assert(forall|i: int| 0 <= i < roles.len() - 1
            ==> #[trigger] roles[i].level == roles.drop_last()[i].level);
        let m = spec_max_level(roles.drop_last());
        if roles.last().level as int <= m {
            assert(spec_max_level(roles) == m);
            let j = choose|j: int| 0 <= j < roles.len() - 1
                && #[trigger] roles.drop_last()[j].level as int == m;
            assert(roles[j].level as int == spec_max_level(roles));
        } else {
            assert(roles[roles.len() - 1].level as int == spec_max_level(roles));
        }
    }
}

/// Whether an operator's level admits acting on a target of the given
/// level: strictly greater, so equals never act on each other.
pub fn level_permits(op_level: i32, target_level: i32) -> (r: bool)
    ensures
        r == (op_level > target_level),
{
    op_level > target_level
}

} // verus!
