//! Salted password hashing and verification.
//!
//! A stored credential has the shape `"<scheme>:<digest>:<salt>"`. The only
//! recognized scheme is `sha2`: the digest is the lower-case hex encoding of
//! SHA-256 over the password immediately followed by the salt. Any other
//! shape or scheme fails verification closed.

use vstd::prelude::*;
use crate::scan::{find_from, lemma_find_from, lemma_find_from_exact, find_char};

verus! {

/// The SHA-256 digest of the UTF-8 bytes of a character sequence.
pub uninterp spec fn sha256_of(data: Seq<char>) -> Seq<u8>;

/// Relies on sha2's `Sha256::digest`: the digest is a function of the input
/// bytes alone and is 32 bytes long.
#[verifier::external_body]
fn sha256_digest(data: &str) -> (r: Vec<u8>)
    ensures
        r@ == sha256_of(data@),
        r@.len() == 32,
{
    <sha2::Sha256 as sha2::Digest>::digest(data.as_bytes()).to_vec()
}

/// The lower-case hex character for a nibble value.
pub open spec fn hex_digit_char(d: int) -> char {
    if d < 10 {
        ((48 + d) as u8) as char
    } else {
        ((87 + d) as u8) as char
    }
}

/// The lower-case hex encoding of a byte sequence, two characters per
/// byte, high nibble first.
pub open spec fn spec_hex_lower(b: Seq<u8>) -> Seq<char>
    decreases b.len(),
{
    if b.len() == 0 {
        Seq::empty()
    } else {
        seq![
            hex_digit_char((b[0] >> 4) as int),
            hex_digit_char((b[0] & 0x0f) as int),
        ] + spec_hex_lower(b.drop_first())
    }
}

/// Relies on base16ct's `lower::encode_string`: two lower-case hex digits
/// for each input byte, high nibble first.
#[verifier::external_body]
fn hex_lower(b: &Vec<u8>) -> (r: String)
    ensures
        r@ == spec_hex_lower(b@),
{
    base16ct::lower::encode_string(b.as_slice())
}

/// The digest stored for a password hashed with a given salt.
pub open spec fn spec_hash(password: Seq<char>, salt: Seq<char>) -> Seq<char> {
    spec_hex_lower(sha256_of(password + salt))
}

/// Hashes a password with a salt: lower-case hex of SHA-256 over the
/// password immediately followed by the salt. Deterministic, and always
/// sixty-four hex characters.
pub fn generate(password: String, salt: String) -> (r: String)
    ensures
        r@ == spec_hash(password@, salt@),
        r@.len() == 64,
{
    let mut data = password;
    data.append(salt.as_str());
    let digest = sha256_digest(data.as_str());
    proof {
        lemma_hex_lower_chars(digest@);
    }
    hex_lower(&digest)
}

/// Recomputes the digest and compares it against the expected one.
pub fn check(password: String, salt: String, hash_to_check: String) -> (r: bool)
    ensures
        r == (spec_hash(password@, salt@) == hash_to_check@),
{
    let hash = generate(password, salt);
    hash == hash_to_check
}

/// A hex encoding contains hex digits only, so never a separator such as
/// `':'`.
pub proof fn lemma_hex_lower_chars(b: Seq<u8>)
    ensures
        forall|i: int| 0 <= i < spec_hex_lower(b).len()
            ==> is_hex_lower_char(#[trigger] spec_hex_lower(b)[i]),
        spec_hex_lower(b).len() == 2 * b.len(),
    decreases b.len(),
{
    if b.len() > 0 {
        lemma_hex_lower_chars(b.drop_first());
        let b0 = b[0];
        assert((b0 >> 4) < 16 && (b0 & 0x0f) < 16) by (bit_vector);
    }
}

/// Whether a character can appear in a lower-case hex encoding.
pub open spec fn is_hex_lower_char(c: char) -> bool {
    48 <= c as int <= 57 || 97 <= c as int <= 102
}

/// The stored shape of a sha2 credential: scheme tag, digest and salt,
/// separated by colons.
pub open spec fn spec_stored_credential(digest: Seq<char>, salt: Seq<char>) -> Seq<char> {
    seq!['s', 'h', 'a', '2', ':'] + digest + seq![':'] + salt
}

/// Splits a stored credential on `':'` into exactly three fields; any
/// other number of separators is rejected.
pub open spec fn spec_split3(s: Seq<char>) -> Option<(Seq<char>, Seq<char>, Seq<char>)> {
    let n = s.len() as int;
    let i = find_from(s, ':', 0);
    let j = find_from(s, ':', i + 1);
    if i == n || j == n || find_from(s, ':', j + 1) != n {
        None
    } else {
        Some((s.subrange(0, i), s.subrange(i + 1, j), s.subrange(j + 1, n)))
    }
}

/// Whether a password verifies against a stored credential: the stored
/// value splits into exactly three colon-separated fields, the scheme is
/// `sha2`, and hashing the password with the stored salt yields the
/// stored digest.
pub open spec fn spec_check_stored(password: Seq<char>, stored: Seq<char>) -> bool {
    match spec_split3(stored) {
        None => false,
        Some((scheme, digest, salt)) => {
            scheme == seq!['s', 'h', 'a', '2'] && spec_hash(password, salt) == digest
        },
    }
}

/// Verifies a password against a stored credential string.
pub fn check_stored(password: String, stored: &String) -> (r: bool)
    ensures
        r == spec_check_stored(password@, stored@),
{
    let s = stored.as_str();
    let n = s.unicode_len();
    let ghost sv = s@;
    proof {
        lemma_find_from(sv, ':', 0);
    }
    let i = find_char(s, ':', 0, n);
    if i == n {
        return false;
    }
    proof {
        lemma_find_from(sv, ':', i + 1);
    }
    let j = find_char(s, ':', i + 1, n);
    if j == n {
        return false;
    }
    proof {
        lemma_find_from(sv, ':', j + 1);
    }
    let k = find_char(s, ':', j + 1, n);
    if k != n {
        return false;
    }
    // Scheme must be exactly "sha2".
    if i != 4 {
        assert(sv.subrange(0, i as int).len() != 4);
        return false;
    }
    if !(s.get_char(0) == 's' && s.get_char(1) == 'h' && s.get_char(2) == 'a'
        && s.get_char(3) == '2') {
        assert(sv.subrange(0, 4) != seq!['s', 'h', 'a', '2']) by {
            let scheme = sv.subrange(0, 4);
            assert(scheme[0] == sv[0] && scheme[1] == sv[1] && scheme[2] == sv[2]
                && scheme[3] == sv[3]);
        }
        return false;
    }
    assert(sv.subrange(0, 4) =~= seq!['s', 'h', 'a', '2']);
    let digest = s.substring_char(i + 1, j).to_owned();
    let salt = s.substring_char(j + 1, n).to_owned();
    check(password, salt, digest)
}

/// A credential stored as `sha2:<hash(password, salt)>:<salt>` verifies
/// against that password, provided the salt itself contains no colon.
pub proof fn lemma_stored_roundtrip(password: Seq<char>, salt: Seq<char>)
    requires
        forall|i: int| 0 <= i < salt.len() ==> salt[i] != ':',
    ensures
        spec_check_stored(password, spec_stored_credential(spec_hash(password, salt), salt)),
{
    let digest = spec_hash(password, salt);
    let stored = spec_stored_credential(digest, salt);
    let n = stored.len() as int;
    let d = digest.len() as int;
    lemma_hex_lower_chars(sha256_of(password + salt));
    assert(forall|i: int| 0 <= i < d ==> #[trigger] digest[i] != ':') by {
        assert(forall|i: int| 0 <= i < d ==> is_hex_lower_char(#[trigger] digest[i]));
    }
    assert(stored[4] == ':');
    assert(forall|j: int| 0 <= j < 4 ==> stored[j] != ':');
    lemma_find_from_exact(stored, ':', 0, 4);
    assert(stored[5 + d] == ':');
    assert(forall|j: int| 5 <= j < 5 + d ==> stored[j] != ':') by {
        assert(forall|j: int| 5 <= j < 5 + d ==> stored[j] == digest[j - 5]);
    }
    lemma_find_from_exact(stored, ':', 5, 5 + d);
    assert(forall|j: int| 6 + d <= j < n ==> stored[j] != ':') by {
        assert(forall|j: int| 6 + d <= j < n ==> stored[j] == salt[j - 6 - d]);
    }
    lemma_find_from_exact(stored, ':', 6 + d, n);
    assert(stored.subrange(0, 4) =~= seq!['s', 'h', 'a', '2']);
    assert(stored.subrange(5, 5 + d) =~= digest);
    assert(stored.subrange(6 + d, n) =~= salt);
}

} // verus!
