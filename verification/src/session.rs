//! Sessions: an opaque client-held token maps, in an external key-value
//! store, to a record of the user id and an expiry timestamp.
//!
//! The record is rendered as `{"uid":<uid>,"exp":<exp>}`. The store itself
//! is an external collaborator reached through plain `get`/`set`/`del`
//! operations; this module fixes the key derivation, the record codec, the
//! expiry rule, and what resolution yields over any store content.

use vstd::prelude::*;
use crate::digits::{
    spec_udigits, spec_parse_u64, u64_to_string, parse_u64_range, is_canonical_digits,
    digits_val, is_digit, lemma_udigits_canonical,
};
use crate::scan::{find_from, lemma_find_from, lemma_find_from_exact, find_char};

verus! {

/// A session record: the holder of the token acts as `uid` until `exp`
/// (seconds since the epoch).
#[derive(Clone, Copy, Debug, PartialEq, Eq, Structural)]
pub struct Session {
    pub uid: i32,
    pub exp: u64,
}

/// Builds the session a successful login stores: it belongs to `uid` and
/// expires a fixed lifetime after `now`.
pub fn generate(uid: i32, now: u64) -> (s: Session)
    requires
        now <= u64::MAX - crate::SESSION_LIFETIME_SECS,
    ensures
        s.uid == uid,
        s.exp == now + crate::SESSION_LIFETIME_SECS,
{
    Session { uid, exp: now + crate::SESSION_LIFETIME_SECS }
}

/// Relies on chrono's `Utc::now`: the seconds since the epoch at the
/// moment of the call. Nothing can be promised of the value itself.
#[verifier::external_body]
fn current_timestamp() -> i64 {
    chrono::Utc::now().timestamp()
}

/// Builds a session for `uid` expiring a fixed lifetime after the current
/// time; `None` only when the clock reading admits no such expiry.
pub fn generate_now(uid: i32) -> (r: Option<Session>)
    ensures
        r matches Some(s) ==> s.uid == uid && s.exp >= crate::SESSION_LIFETIME_SECS,
{
    let t = current_timestamp();
    if t < 0 {
        return None;
    }
    let now = t as u64;
    if now > u64::MAX - crate::SESSION_LIFETIME_SECS {
        return None;
    }
    Some(generate(uid, now))
}

impl Session {
    /// A session is valid strictly before its expiry.
    pub fn validate(&self, now: u64) -> (r: bool)
        ensures
            r == (self.exp > now),
    {
        self.exp > now
    }
}

/// The characters that open a record, up to the uid field.
pub open spec fn uid_prefix() -> Seq<char> {
    seq!['{', '"', 'u', 'i', 'd', '"', ':']
}

/// The characters between the uid field and the exp field.
pub open spec fn exp_prefix() -> Seq<char> {
    seq![',', '"', 'e', 'x', 'p', '"', ':']
}

/// Decimal rendering of a possibly negative number.
pub open spec fn spec_idigits(n: int) -> Seq<char> {
    if n < 0 {
        seq!['-'] + spec_udigits((-n) as nat)
    } else {
        spec_udigits(n as nat)
    }
}

/// The stored rendering of a session record.
pub open spec fn spec_encode(s: Session) -> Seq<char> {
    uid_prefix() + spec_idigits(s.uid as int) + exp_prefix() + spec_udigits(s.exp as nat)
        + seq!['}']
}

/// The number denoted by a canonical, possibly sign-prefixed rendering,
/// if it fits in a thirty-two bit signed integer.
pub open spec fn spec_parse_i32(s: Seq<char>) -> Option<i32> {
    if s.len() > 0 && s[0] == '-' {
        match spec_parse_u64(s.subrange(1, s.len() as int)) {
            Some(v) => if 0 < v <= 0x8000_0000 {
                Some((-(v as int)) as i32)
            } else {
                None
            },
            None => None,
        }
    } else {
        match spec_parse_u64(s) {
            Some(v) => if v <= 0x7fff_ffff {
                Some(v as i32)
            } else {
                None
            },
            None => None,
        }
    }
}

/// The session denoted by a stored record, or `None` for any corrupt
/// rendering.
pub open spec fn spec_parse_session(s: Seq<char>) -> Option<Session> {
    let n = s.len() as int;
    let c = find_from(s, ',', 0);
    if n < 17 || c < 8 || c + 8 > n || s.subrange(0, 7) != uid_prefix()
        || s.subrange(c, c + 7) != exp_prefix() || s[n - 1] != '}' {
        None
    } else {
        match spec_parse_i32(s.subrange(7, c)) {
            Some(u) => match spec_parse_u64(s.subrange(c + 7, n - 1)) {
                Some(e) => Some(Session { uid: u, exp: e }),
                None => None,
            },
            None => None,
        }
    }
}

impl Session {
    /// Renders the record this session is stored as.
    pub fn to_record(&self) -> (r: String)
        ensures
            r@ == spec_encode(*self),
    {
        proof {
            reveal_strlit("{\"uid\":");
            reveal_strlit(",\"exp\":");
            reveal_strlit("-");
            reveal_strlit("}");
        }
        let mut s = "{\"uid\":".to_owned();
        assert(s@ =~= uid_prefix());
        if self.uid < 0 {
            s.append("-");
            let m: u64 = (-(self.uid as i64)) as u64;
            let d = u64_to_string(m);
            s.append(d.as_str());
            assert(s@ =~= uid_prefix() + spec_idigits(self.uid as int));
        } else {
            let d = u64_to_string(self.uid as u64);
            s.append(d.as_str());
            assert(s@ =~= uid_prefix() + spec_idigits(self.uid as int));
        }
        s.append(",\"exp\":");
        let e = u64_to_string(self.exp);
        s.append(e.as_str());
        s.append("}");
        assert(s@ =~= spec_encode(*self));
        s
    }
}

/// Parses a stored record; any corrupt rendering yields `None`.
pub fn parse_from_str(ctx: &str) -> (r: Option<Session>)
    ensures
        r == spec_parse_session(ctx@),
{
    let ghost sv = ctx@;
    let n = ctx.unicode_len();
    if n < 17 {
        return None;
    }
    proof {
        lemma_find_from(sv, ',', 0);
    }
    let c = find_char(ctx, ',', 0, n);
    if c < 8 || c > n - 8 {
        return None;
    }
    if !(ctx.get_char(0) == '{' && ctx.get_char(1) == '"' && ctx.get_char(2) == 'u'
        && ctx.get_char(3) == 'i' && ctx.get_char(4) == 'd' && ctx.get_char(5) == '"'
        && ctx.get_char(6) == ':') {
        proof {
            let p = sv.subrange(0, 7);
            assert(p[0] == sv[0] && p[1] == sv[1] && p[2] == sv[2] && p[3] == sv[3]
                && p[4] == sv[4] && p[5] == sv[5] && p[6] == sv[6]);
        }
        return None;
    }
    assert(sv.subrange(0, 7) =~= uid_prefix());
    if !(ctx.get_char(c + 1) == '"' && ctx.get_char(c + 2) == 'e' && ctx.get_char(c + 3) == 'x'
        && ctx.get_char(c + 4) == 'p' && ctx.get_char(c + 5) == '"'
        && ctx.get_char(c + 6) == ':') {
        proof {
            let p = sv.subrange(c as int, c + 7);
            assert(p[0] == sv[c as int] && p[1] == sv[c + 1] && p[2] == sv[c + 2]
                && p[3] == sv[c + 3] && p[4] == sv[c + 4] && p[5] == sv[c + 5]
                && p[6] == sv[c + 6]);
        }
        return None;
    }
    assert(sv.subrange(c as int, c + 7) =~= exp_prefix());
    if ctx.get_char(n - 1) != '}' {
        return None;
    }
    let ghost uf = sv.subrange(7, c as int);
    let uid: i32;
    if ctx.get_char(7) == '-' {
        assert(uf[0] == '-');
        let v = match parse_u64_range(ctx, 8, c, n) {
            Some(v) => v,
            None => {
                proof {
                    assert(uf.subrange(1, uf.len() as int) =~= sv.subrange(8, c as int));
                }
                return None;
            },
        };
        proof {
            assert(uf.subrange(1, uf.len() as int) =~= sv.subrange(8, c as int));
        }
        if v == 0 || v > 0x8000_0000 {
            return None;
        }
        uid = (-(v as i64)) as i32;
        assert(uid as int == -(v as int));
    } else {
        assert(uf.len() > 0 && uf[0] != '-');
        let v = match parse_u64_range(ctx, 7, c, n) {
            Some(v) => v,
            None => {
                proof {
                    assert(uf =~= sv.subrange(7, c as int));
                }
                return None;
            },
        };
        if v > 0x7fff_ffff {
            return None;
        }
        uid = v as i32;
    }
    let exp = match parse_u64_range(ctx, c + 7, n - 1, n) {
        Some(e) => e,
        None => {
            return None;
        },
    };
    Some(Session { uid, exp })
}

/// Digits never contain the record separators.
proof fn lemma_digits_not_special(s: Seq<char>)
    requires
        forall|i: int| 0 <= i < s.len() ==> is_digit(#[trigger] s[i]),
    ensures
        forall|i: int| 0 <= i < s.len() ==> s[i] != ',',
        forall|i: int| 0 <= i < s.len() ==> s[i] != '}',
{
    assert forall|i: int| 0 <= i < s.len() implies s[i] != ',' && s[i] != '}' by {
        assert(is_digit(s[i]));
    }
}

/// Parsing a rendered record gives back the session it renders: the codec
/// round-trips for every session.
pub proof fn lemma_session_roundtrip(s: Session)
    ensures
        spec_parse_session(spec_encode(s)) == Some(s),
{
    let e = spec_encode(s);
    let u = spec_idigits(s.uid as int);
    let x = spec_udigits(s.exp as nat);
    let ul = u.len() as int;
    let xl = x.len() as int;
    let n = e.len() as int;
    if s.uid < 0 {
        lemma_udigits_canonical((-(s.uid as int)) as nat);
        assert(forall|i: int| 1 <= i < ul ==> is_digit(#[trigger] u[i]));
        lemma_digits_not_special(u.subrange(1, ul));
        assert(forall|i: int| 0 <= i < ul ==> u[i] != ',' && u[i] != '}') by {
            assert(forall|i: int| 1 <= i < ul ==>
                u.subrange(1, ul)[i - 1] == #[trigger] u[i]);
        }
    } else {
        lemma_udigits_canonical(s.uid as nat);
        lemma_digits_not_special(u);
    }
    lemma_udigits_canonical(s.exp as nat);
    lemma_digits_not_special(x);
    assert(ul >= 1 && xl >= 1);
    assert(n == 15 + ul + xl);
    // The first comma is the one opening the exp prefix.
    let cpos = 7 + ul;
    assert(e[cpos] == ',');
    assert(forall|j: int| 0 <= j < 7 ==> e[j] == uid_prefix()[j]);
    assert(forall|j: int| 7 <= j < cpos ==> e[j] == u[j - 7]);
    assert(forall|j: int| 0 <= j < cpos ==> e[j] != ',');
    lemma_find_from_exact(e, ',', 0, cpos);
    assert(find_from(e, ',', 0) == cpos);
    assert(e.subrange(0, 7) =~= uid_prefix());
    assert(e.subrange(cpos, cpos + 7) =~= exp_prefix());
    assert(e[n - 1] == '}');
    assert(e.subrange(7, cpos) =~= u);
    assert(e.subrange(cpos + 7, n - 1) =~= x);
    // The uid field denotes the uid.
    if s.uid < 0 {
        let m = (-(s.uid as int)) as nat;
        assert(u[0] == '-');
        assert(u.subrange(1, ul) =~= spec_udigits(m));
        assert(digits_val(spec_udigits(m)) == m);
        assert(0 < m <= 0x8000_0000);
        assert(spec_parse_i32(u) == Some(s.uid));
    } else {
        assert(u[0] != '-') by {
            lemma_udigits_canonical(s.uid as nat);
            assert(is_digit(u[0]));
        }
        assert(spec_parse_i32(u) == Some(s.uid));
    }
    assert(spec_parse_u64(x) == Some(s.exp));
}

/// The store key a token's record is filed under.
pub open spec fn spec_session_key(token: Seq<char>) -> Seq<char> {
    seq!['s', 'e', 's', 's', 'i', 'o', 'n', '-'] + token
}

/// Derives the store key for a token.
pub fn session_key(token: &str) -> (r: String)
    ensures
        r@ == spec_session_key(token@),
{
    proof {
        reveal_strlit("session-");
    }
    let mut s = "session-".to_owned();
    s.append(token);
    assert(s@ =~= spec_session_key(token@));
    s
}

/// Distinct tokens are filed under distinct keys.
pub proof fn lemma_session_key_injective(t1: Seq<char>, t2: Seq<char>)
    requires
        t1 != t2,
    ensures
        spec_session_key(t1) != spec_session_key(t2),
{
    let k1 = spec_session_key(t1);
    let k2 = spec_session_key(t2);
    assert(k1.len() == 8 + t1.len());
    assert(k2.len() == 8 + t2.len());
    if k1 == k2 {
        assert(t1.len() == t2.len());
        assert(t1 =~= t2) by {
            assert(forall|i: int| 0 <= i < t1.len() ==> #[trigger] t1[i] == k1[i + 8]);
            assert(forall|i: int| 0 <= i < t2.len() ==> #[trigger] t2[i] == k2[i + 8]);
        }
    }
}

/// What resolving a fetched record yields: a missing, corrupt, or expired
/// record is no valid session, with no distinction among the three.
pub open spec fn spec_resolve_record(record: Option<Seq<char>>, now: u64) -> Option<Session> {
    match record {
        None => None,
        Some(r) => match spec_parse_session(r) {
            None => None,
            Some(s) => if s.exp > now {
                Some(s)
            } else {
                None
            },
        },
    }
}

/// The view of an optionally fetched record.
pub open spec fn record_view(record: Option<&String>) -> Option<Seq<char>> {
    match record {
        None => None,
        Some(r) => Some(r@),
    }
}

/// Resolves a fetched record: parses it and checks expiry against `now`.
pub fn resolve_record(record: Option<&String>, now: u64) -> (r: Option<Session>)
    ensures
        r == spec_resolve_record(record_view(record), now),
{
    match record {
        None => None,
        Some(rec) => match parse_from_str(rec.as_str()) {
            None => None,
            Some(s) => if s.exp > now {
                Some(s)
            } else {
                None
            },
        },
    }
}

/// Whatever the record, resolution never yields a session past its expiry.
pub proof fn lemma_resolve_only_unexpired(record: Option<Seq<char>>, now: u64)
    ensures
        spec_resolve_record(record, now) matches Some(s) ==> s.exp > now,
{
}

/// A stored session past its expiry never resolves.
pub proof fn lemma_expired_record_rejected(s: Session, now: u64)
    requires
        s.exp <= now,
    ensures
        spec_resolve_record(Some(spec_encode(s)), now) is None,
{
    lemma_session_roundtrip(s);
}

/// The content of the external store, keyed records over store keys.
pub open spec fn store_resolve(
    store: Map<Seq<char>, Seq<char>>,
    token: Seq<char>,
    now: u64,
) -> Option<Session> {
    if store.dom().contains(spec_session_key(token)) {
        spec_resolve_record(Some(store[spec_session_key(token)]), now)
    } else {
        None
    }
}

/// The store after a token's record is written.
pub open spec fn store_create(
    store: Map<Seq<char>, Seq<char>>,
    token: Seq<char>,
    record: Seq<char>,
) -> Map<Seq<char>, Seq<char>> {
    store.insert(spec_session_key(token), record)
}

/// The store after a token is invalidated; deleting an absent key changes
/// nothing, so invalidation is idempotent.
pub open spec fn store_invalidate(
    store: Map<Seq<char>, Seq<char>>,
    token: Seq<char>,
) -> Map<Seq<char>, Seq<char>> {
    store.remove(spec_session_key(token))
}

/// After a token is invalidated, resolving it always fails, whatever the
/// store held before.
pub proof fn lemma_resolve_after_invalidate(
    store: Map<Seq<char>, Seq<char>>,
    token: Seq<char>,
    now: u64,
)
    ensures
        store_resolve(store_invalidate(store, token), token, now) is None,
{
}

/// Writing one token's record leaves every other token's resolution
/// unchanged: a later login never touches an earlier session.
pub proof fn lemma_create_independent(
    store: Map<Seq<char>, Seq<char>>,
    t1: Seq<char>,
    record: Seq<char>,
    t2: Seq<char>,
    now: u64,
)
    requires
        t1 != t2,
    ensures
        store_resolve(store_create(store, t1, record), t2, now) == store_resolve(store, t2, now),
{
    lemma_session_key_injective(t1, t2);
}

/// Invalidating one token leaves every other token's resolution unchanged.
pub proof fn lemma_invalidate_independent(
    store: Map<Seq<char>, Seq<char>>,
    t1: Seq<char>,
    t2: Seq<char>,
    now: u64,
)
    requires
        t1 != t2,
    ensures
        store_resolve(store_invalidate(store, t1), t2, now) == store_resolve(store, t2, now),
{
    lemma_session_key_injective(t1, t2);
}

/// Two sessions stored under distinct tokens are independently valid:
/// each resolves to its own record, and invalidating the first leaves the
/// second untouched.
pub proof fn lemma_sessions_independent(
    store: Map<Seq<char>, Seq<char>>,
    t1: Seq<char>,
    t2: Seq<char>,
    r1: Seq<char>,
    r2: Seq<char>,
    now: u64,
)
    requires
        t1 != t2,
    ensures
        store_resolve(store_create(store_create(store, t1, r1), t2, r2), t1, now)
            == spec_resolve_record(Some(r1), now),
        store_resolve(store_create(store_create(store, t1, r1), t2, r2), t2, now)
            == spec_resolve_record(Some(r2), now),
        store_resolve(
            store_invalidate(store_create(store_create(store, t1, r1), t2, r2), t1),
            t2,
            now,
        ) == spec_resolve_record(Some(r2), now),
{
    lemma_session_key_injective(t1, t2);
}

} // verus!
