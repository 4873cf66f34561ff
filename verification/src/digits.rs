//! Decimal rendering and parsing of integers, used by the session record
//! codec and by connection-string builders.

use vstd::prelude::*;

verus! {

/// The character for a single decimal digit value.
pub open spec fn digit_char(d: int) -> char {
    ((48 + d) as u8) as char
}

/// Canonical decimal rendering of a natural number, most significant
/// digit first, no leading zeros.
pub open spec fn spec_udigits(n: nat) -> Seq<char>
    decreases n,
{
    if n < 10 {
        seq![digit_char(n as int)]
    } else {
        spec_udigits(n / 10).push(digit_char((n % 10) as int))
    }
}

/// A one-character string for a single decimal digit.
fn digit_str(d: u64) -> (r: &'static str)
    requires
        d < 10,
    ensures
        r@ =~= seq![digit_char(d as int)],
{
    proof {
        reveal_strlit("0");
        reveal_strlit("1");
        reveal_strlit("2");
        reveal_strlit("3");
        reveal_strlit("4");
        reveal_strlit("5");
        reveal_strlit("6");
        reveal_strlit("7");
        reveal_strlit("8");
        reveal_strlit("9");
    }
    if d == 0 {
        "0"
    } else if d == 1 {
        "1"
    } else if d == 2 {
        "2"
    } else if d == 3 {
        "3"
    } else if d == 4 {
        "4"
    } else if d == 5 {
        "5"
    } else if d == 6 {
        "6"
    } else if d == 7 {
        "7"
    } else if d == 8 {
        "8"
    } else {
        "9"
    }
}

/// Renders a natural number in decimal.
pub fn u64_to_string(n: u64) -> (r: String)
    ensures
        r@ == spec_udigits(n as nat),
    decreases n,
{
    if n < 10 {
        digit_str(n).to_owned()
    } else {
        let mut s = u64_to_string(n / 10);
        s.append(digit_str(n % 10));
        s
    }
}

/// Whether a character is a decimal digit.
pub open spec fn is_digit(c: char) -> bool {
    48 <= c as int <= 57
}

/// Whether a character sequence is the canonical decimal rendering of
/// some natural number: nonempty, digits only, no leading zero.
pub open spec fn is_canonical_digits(s: Seq<char>) -> bool {
    &&& s.len() > 0
    &&& (forall|i: int| 0 <= i < s.len() ==> is_digit(#[trigger] s[i]))
    &&& (s.len() == 1 || s[0] != '0')
}

/// The numeric value of a digit sequence, most significant digit first.
pub open spec fn digits_val(s: Seq<char>) -> nat
    decreases s.len(),
{
    if s.len() == 0 {
        0
    } else {
        (digits_val(s.drop_last()) * 10 + (s.last() as int - 48)) as nat
    }
}

/// The number denoted by a canonical decimal rendering, if the sequence
/// is one and the value fits in sixty-four bits.
pub open spec fn spec_parse_u64(s: Seq<char>) -> Option<u64> {
    if is_canonical_digits(s) && digits_val(s) <= u64::MAX {
        Some(digits_val(s) as u64)
    } else {
        None
    }
}

/// The canonical rendering of a natural number denotes that number.
pub proof fn lemma_udigits_canonical(n: nat)
    ensures
        is_canonical_digits(spec_udigits(n)),
        digits_val(spec_udigits(n)) == n,
        spec_udigits(n)[0] == '0' <==> n == 0,
    decreases n,
{
    if n < 10 {
        let s = spec_udigits(n);
        assert(s =~= seq![digit_char(n as int)]);
        assert(s.drop_last() =~= Seq::<char>::empty());
        assert(digits_val(s) == digits_val(s.drop_last()) * 10 + (s.last() as int - 48));
    } else {
        lemma_udigits_canonical(n / 10);
        let p = spec_udigits(n / 10);
        let s = spec_udigits(n);
        assert(s == p.push(digit_char((n % 10) as int)));
        assert(s.drop_last() =~= p);
        assert(s.last() == digit_char((n % 10) as int));
        assert(digits_val(s) == digits_val(p) * 10 + (n % 10));
        assert(digits_val(p) == n / 10);
        assert(n / 10 * 10 + n % 10 == n) by (nonlinear_arith);
        assert(forall|i: int|
            0 <= i < s.len() ==> is_digit(#[trigger] s[i])) by {
            assert(forall|i: int| 0 <= i < p.len() ==> is_digit(#[trigger] p[i]));
        }
        assert(s[0] == p[0]);
        assert(n / 10 > 0);
    }
}

/// Every prefix of a digit sequence denotes no more than the whole.
pub proof fn lemma_digits_val_prefix_le(s: Seq<char>, i: int)
    requires
        0 <= i <= s.len(),
        forall|j: int| 0 <= j < s.len() ==> is_digit(#[trigger] s[j]),
    ensures
        digits_val(s.subrange(0, i)) <= digits_val(s),
    decreases s.len() - i,
{
    if i == s.len() {
        assert(s.subrange(0, i) =~= s);
    } else {
        lemma_digits_val_prefix_le(s, i + 1);
        let p = s.subrange(0, i);
        let q = s.subrange(0, i + 1);
        assert(q.drop_last() =~= p);
        assert(digits_val(q) == digits_val(p) * 10 + (q.last() as int - 48));
        assert(digits_val(p) * 10 >= digits_val(p)) by (nonlinear_arith)
            requires digits_val(p) >= 0;
    }
}

/// Parses the characters of `s` between `from` and `to` as a canonical
/// decimal number.
pub fn parse_u64_range(s: &str, from: usize, to: usize, n: usize) -> (r: Option<u64>)
    requires
        n == s@.len(),
        from <= to <= n,
    ensures
        r == spec_parse_u64(s@.subrange(from as int, to as int)),
{
    let ghost field = s@.subrange(from as int, to as int);
    if to == from {
        return None;
    }
    if to - from > 1 && s.get_char(from) == '0' {
        assert(field[0] == '0' && field.len() > 1);
        return None;
    }
    let mut acc: u64 = 0;
    let mut i: usize = from;
    while i < to
        invariant
            from <= i <= to <= n,
            n == s@.len(),
            field == s@.subrange(from as int, to as int),
            forall|j: int| 0 <= j < i - from ==> is_digit(#[trigger] field[j]),
            acc == digits_val(field.subrange(0, i - from)),
            to - from > 1 ==> field[0] != '0',
        decreases to - i,
    {
        let c = s.get_char(i);
        assert(c == field[i - from]);
        let v = c as u32;
        if v < 48 || v > 57 {
            assert(!is_digit(field[i - from]));
            assert(!is_canonical_digits(field));
            return None;
        }
        let d = (v - 48) as u64;
        assert(is_digit(field[i - from]));
        if acc > (u64::MAX - d) / 10 {
            proof {
                let p1 = field.subrange(0, i + 1 - from);
                assert(p1.drop_last() =~= field.subrange(0, i - from));
                assert(p1.last() == field[i - from]);
                assert(digits_val(p1) == acc * 10 + d);
                assert(acc * 10 + d > u64::MAX) by (nonlinear_arith)
                    requires acc > (u64::MAX - d) / 10, d <= 9, acc <= u64::MAX;
                if forall|j: int| 0 <= j < field.len() ==> is_digit(#[trigger] field[j]) {
                    lemma_digits_val_prefix_le(field, i + 1 - from);
                    assert(digits_val(field) > u64::MAX);
                }
            }
            return None;
        }
        assert(acc * 10 + d <= u64::MAX) by (nonlinear_arith)
            requires acc <= (u64::MAX - d) / 10, d <= 9;
        let ghost p1 = field.subrange(0, i + 1 - from);
        proof {
            assert(p1.drop_last() =~= field.subrange(0, i - from));
            assert(p1.last() == field[i - from]);
        }
        acc = acc * 10 + d;
        i = i + 1;
    }
    assert(field.subrange(0, to - from) =~= field);
    assert(is_canonical_digits(field));
    Some(acc)
}

} // verus!
