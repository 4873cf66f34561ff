//! Random material: alphanumeric strings for salts and temporary
//! passwords, and opaque session tokens.

use vstd::prelude::*;

verus! {

/// Whether a character is an ASCII letter or digit.
pub open spec fn is_alphanumeric_char(c: char) -> bool {
    48 <= c as int <= 57 || 65 <= c as int <= 90 || 97 <= c as int <= 122
}

/// Relies on rand's `Alphanumeric` distribution: each sample is one of
/// a-z, A-Z, 0-9, drawn fresh on every call.
#[verifier::external_body]
fn sample_alphanumeric() -> (c: String)
    ensures
        c@.len() == 1,
        is_alphanumeric_char(c@[0]),
{
    let b: u8 = rand::Rng::sample(&mut rand::thread_rng(), rand::distributions::Alphanumeric);
    String::from(char::from(b))
}

/// A fresh random alphanumeric string of the given length.
pub fn string(size: usize) -> (r: String)
    ensures
        r@.len() == size,
        forall|i: int| 0 <= i < r@.len() ==> is_alphanumeric_char(#[trigger] r@[i]),
{
    let mut s = String::new();
    let mut i: usize = 0;
    while i < size
        invariant
            0 <= i <= size,
            s@.len() == i,
            forall|j: int| 0 <= j < s@.len() ==> is_alphanumeric_char(#[trigger] s@[j]),
        decreases size - i,
    {
        let c = sample_alphanumeric();
        s.append(c.as_str());
        i = i + 1;
    }
    s
}

/// Relies on uuid's `new_v4` and its hyphenated rendering: a fresh random
/// token of thirty-six characters.
#[verifier::external_body]
pub fn new_token() -> (r: String)
    ensures
        r@.len() == 36,
{
    format!("{}", uuid::Uuid::new_v4())
}

} // verus!
