//! Profile data attached to a user account, one row per user.

use vstd::prelude::*;

verus! {

/// Self-declared gender on a profile.
#[derive(Clone, Copy, Debug, PartialEq, Eq, Structural)]
pub enum Gender {
    Male,
    Female,
    Custom,
}

/// A profile row; every optional field may be absent.
#[derive(Clone, Debug)]
pub struct Model {
    pub uid: i32,
    pub avatar: Option<String>,
    pub description: Option<String>,
    pub state: Option<String>,
    pub gender: Option<Gender>,
}

} // verus!
