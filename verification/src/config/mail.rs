//! Mail channel settings. Their mere presence decides whether a fresh
//! registration must verify its email before the account activates.

use vstd::prelude::*;

verus! {

/// The mail submission port used when none is configured.
pub fn default_port() -> (r: u16)
    ensures
        r == 587,
{
    587
}

/// Connection settings for the mail relay.
#[derive(Clone, Debug)]
pub struct Mail {
    pub host: String,
    pub port: u16,
    pub username: String,
    pub password: String,
    pub tls: bool,
}

} // verus!
