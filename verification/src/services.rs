//! The user-facing flows: each service carries the request body and
//! decides, from plainly fetched state, what the outcome is and what the
//! caller must persist.

pub mod delete;
pub mod info;
pub mod login;
pub mod register;
pub mod reset_password;
pub mod update;
