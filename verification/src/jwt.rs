//! Claims for the reserved bearer-token transport. Signing and verifying
//! the token itself belongs to the surrounding program; the claim's shape
//! and its expiry rule live here.

use vstd::prelude::*;

verus! {

/// The claims carried by a bearer token.
pub struct Claim {
    /// Issuer.
    pub iss: String,
    /// Username.
    pub sub: String,
    /// The time of expiration, seconds since the epoch.
    pub exp: u64,
    /// User id.
    pub uid: i32,
    /// Session id, so issued tokens stay manageable server-side.
    pub sid: String,
}

/// Builds a claim expiring a fixed lifetime after `now`.
pub fn generate_claim(iss: String, sub: String, uid: i32, sid: String, now: u64) -> (c: Claim)
    requires
        now <= u64::MAX - crate::SESSION_LIFETIME_SECS,
    ensures
        c.iss@ == iss@,
        c.sub@ == sub@,
        c.uid == uid,
        c.sid@ == sid@,
        c.exp == now + crate::SESSION_LIFETIME_SECS,
{
    Claim { iss, sub, exp: now + crate::SESSION_LIFETIME_SECS, uid, sid }
}

/// A claim is valid strictly before its expiry, exactly as a session is.
pub fn validate(claim: &Claim, now: u64) -> (r: bool)
    ensures
        r == (claim.exp > now),
{
    claim.exp > now
}

} // verus!
