//! Identity and authorization engine: salted credential hashing and
//! verification, opaque-token sessions with a fixed lifetime, role- and
//! permission-based access control with privilege levels, the account
//! lifecycle state machine, and the request-gating decision pipeline.

pub mod config;
pub mod digits;
pub mod extractor;
pub mod init;
pub mod jwt;
pub mod middleware;
pub mod password;
pub mod permission;
pub mod role;
pub mod scan;
pub mod seed;
pub mod serializer;
pub mod services;
pub mod session;
pub mod tokens;
pub mod user_info;
pub mod users;
pub mod validator;

use vstd::prelude::*;

verus! {

/// Lifetime of a session in seconds: seven days.
pub const SESSION_LIFETIME_SECS: u64 = 604800;

} // verus!
