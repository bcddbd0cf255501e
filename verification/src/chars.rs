//! Character-level utilities shared by the parsing and session code: moving
//! between `String` and `Vec<char>`, trimming, prefix tests, substring
//! search, and decimal digits.

use vstd::prelude::*;

use crate::editor::{is_space, is_space_char, scan_word_right, scan_ws_left, scan_ws_right};

verus! {

/// The characters of `s` in order.
pub fn string_to_chars(s: &str) -> (r: Vec<char>)
    ensures
        r@ == s@,
{
    let n = s.unicode_len();
    let mut r: Vec<char> = Vec::new();
    let mut i: usize = 0;
    while i < n
        invariant
            0 <= i <= n == s@.len(),
            r@ == s@.take(i as int),
        decreases n - i,
    {
        r.push(s.get_char(i));
        proof {
            assert(r@ =~= s@.take(i + 1));
        }
        i = i + 1;
    }
    proof {
        assert(s@.take(n as int) =~= s@);
    }
    r
}

/// Relies on `String::from_iter` over `char`: the string holds exactly the
/// given characters, in order.
#[verifier::external_body]
pub(crate) fn chars_to_string(v: &Vec<char>) -> (r: String)
    ensures
        r@ == v@,
{
    v.iter().collect()
}

/// `s` with leading and trailing whitespace removed, as `str::trim` leaves
/// it.
pub open spec fn trim_spec(s: Seq<char>) -> Seq<char> {
    let a = scan_ws_right(s, 0);
    let b = scan_ws_left(s, s.len() as int);
    if a <= b {
        s.subrange(a, b)
    } else {
        Seq::empty()
    }
}

/// Removes leading and trailing whitespace.
pub fn trim_chars(v: &Vec<char>) -> (r: Vec<char>)
    ensures
        r@ == trim_spec(v@),
{
    let ghost s = v@;
    let n = v.len();
    let mut a: usize = 0;
    while a < n && is_space_char(v[a])
        invariant
            0 <= a <= n == s.len(),
            s == v@,
            scan_ws_right(s, a as int) == scan_ws_right(s, 0),
        decreases n - a,
    {
        a = a + 1;
    }
    assert(a as int == scan_ws_right(s, 0));
    let mut b: usize = n;
    while b > 0 && is_space_char(v[b - 1])
        invariant
            0 <= b <= n == s.len(),
            s == v@,
            scan_ws_left(s, b as int) == scan_ws_left(s, s.len() as int),
        decreases b,
    {
        b = b - 1;
    }
    assert(b as int == scan_ws_left(s, s.len() as int));
    let mut r: Vec<char> = Vec::new();
    if a >= b {
        assert(r@ =~= trim_spec(s));
        return r;
    }
    let mut i: usize = a;
    while i < b
        invariant
            a <= i <= b <= n == s.len(),
            s == v@,
            r@ == s.subrange(a as int, i as int),
        decreases b - i,
    {
        r.push(v[i]);
        proof {
            assert(r@ =~= s.subrange(a as int, i + 1));
        }
        i = i + 1;
    }
    r
}

/// Whether `p` is a prefix of `v`.
pub fn starts_with_chars(v: &Vec<char>, p: &Vec<char>) -> (r: bool)
    ensures
        r == p@.is_prefix_of(v@),
{
    if p.len() > v.len() {
        assert(!p@.is_prefix_of(v@));
        return false;
    }
    let mut i: usize = 0;
    while i < p.len()
        invariant
            0 <= i <= p.len() <= v.len(),
            forall|j: int| 0 <= j < i ==> v@[j] == p@[j],
        decreases p.len() - i,
    {
        if v[i] != p[i] {
            assert(!p@.is_prefix_of(v@));
            return false;
        }
        i = i + 1;
    }
    assert(p@.is_prefix_of(v@)) by {
        assert(p@ =~= v@.subrange(0, p@.len() as int));
    }
    true
}

/// Whether `t` occurs in `s` as a contiguous run.
pub open spec fn seq_contains(s: Seq<char>, t: Seq<char>) -> bool {
    exists|i: int| 0 <= i <= s.len() - t.len() && #[trigger] s.subrange(i, i + t.len()) == t
}

/// Whether `pat` occurs in `v` as a contiguous run.
pub fn contains_chars(v: &Vec<char>, pat: &Vec<char>) -> (r: bool)
    ensures
        r == seq_contains(v@, pat@),
{
    if pat.len() > v.len() {
        assert(!seq_contains(v@, pat@));
        return false;
    }
    if pat.len() == 0 {
        assert(seq_contains(v@, pat@)) by {
            assert(v@.subrange(0, 0 + pat@.len() as int) =~= pat@);
        }
        return true;
    }
    let bound = v.len() - pat.len();
    let mut i: usize = 0;
    while i <= bound
        invariant
            0 < pat.len() <= v.len(),
            bound == v.len() - pat.len(),
            0 <= i <= bound + 1,
            forall|k: int| 0 <= k < i ==> #[trigger] v@.subrange(k, k + pat@.len()) != pat@,
        decreases bound + 1 - i,
    {
        let mut j: usize = 0;
        let mut hit = true;
        while j < pat.len() && hit
            invariant
                0 <= j <= pat.len(),
                i + pat.len() <= v.len(),
                hit ==> forall|k: int| 0 <= k < j ==> v@[i + k] == #[trigger] pat@[k],
                !hit ==> v@.subrange(i as int, i + pat@.len()) != pat@,
            decreases 2 * (pat.len() - j) + if hit {
                1int
            } else {
                0int
            },
        {
            if v[i + j] != pat[j] {
                proof {
                    assert(v@.subrange(i as int, i + pat@.len())[j as int] != pat@[j as int]);
                }
                hit = false;
            } else {
                j = j + 1;
            }
        }
        if hit {
            proof {
                assert(v@.subrange(i as int, i + pat@.len()) =~= pat@);
            }
            return true;
        }
        i = i + 1;
    }
    proof {
        assert forall|k: int| 0 <= k <= v@.len() - pat@.len() implies #[trigger] v@.subrange(
            k,
            k + pat@.len(),
        ) != pat@ by {
            assert(k < i);
        }
    }
    false
}

/// Whether `c` is a decimal digit.
pub open spec fn is_digit(c: char) -> bool {
    c == '0' || c == '1' || c == '2' || c == '3' || c == '4' || c == '5' || c == '6' || c == '7'
        || c == '8' || c == '9'
}

/// The value of the digit `c`.
pub open spec fn digit_val(c: char) -> int {
    if c == '0' {
        0
    } else if c == '1' {
        1
    } else if c == '2' {
        2
    } else if c == '3' {
        3
    } else if c == '4' {
        4
    } else if c == '5' {
        5
    } else if c == '6' {
        6
    } else if c == '7' {
        7
    } else if c == '8' {
        8
    } else {
        9
    }
}

/// The digit whose value is `d`.
pub open spec fn digit_char(d: int) -> char {
    if d == 0 {
        '0'
    } else if d == 1 {
        '1'
    } else if d == 2 {
        '2'
    } else if d == 3 {
        '3'
    } else if d == 4 {
        '4'
    } else if d == 5 {
        '5'
    } else if d == 6 {
        '6'
    } else if d == 7 {
        '7'
    } else if d == 8 {
        '8'
    } else {
        '9'
    }
}

/// Whether every character of `t` is a decimal digit.
pub open spec fn all_digits(t: Seq<char>) -> bool {
    forall|j: int| 0 <= j < t.len() ==> is_digit(t[j])
}

/// The number the digit run `t` denotes, most significant digit first.
pub open spec fn dec_value(t: Seq<char>) -> int
    decreases t.len(),
{
    if t.len() == 0 {
        0
    } else {
        dec_value(t.drop_last()) * 10 + digit_val(t.last())
    }
}

/// A digit run never denotes a negative number.
pub proof fn lemma_dec_value_nonneg(t: Seq<char>)
    ensures
        dec_value(t) >= 0,
    decreases t.len(),
{
    if t.len() > 0 {
        lemma_dec_value_nonneg(t.drop_last());
    }
}

/// Decides whether `c` is a decimal digit, exactly as `is_digit` states.
pub fn is_digit_char(c: char) -> (r: bool)
    ensures
        r == is_digit(c),
{
    c >= '0' && c <= '9'
}

/// The value of the digit `c`.
pub fn digit_value(c: char) -> (d: u32)
    requires
        is_digit(c),
    ensures
        d == digit_val(c),
        d <= 9,
{
    if c == '0' {
        0
    } else if c == '1' {
        1
    } else if c == '2' {
        2
    } else if c == '3' {
        3
    } else if c == '4' {
        4
    } else if c == '5' {
        5
    } else if c == '6' {
        6
    } else if c == '7' {
        7
    } else if c == '8' {
        8
    } else {
        9
    }
}

/// The decimal digits of `n`, most significant first.
pub open spec fn dec_str(n: int) -> Seq<char>
    decreases n,
{
    if n < 10 {
        seq![digit_char(n)]
    } else {
        dec_str(n / 10).push(digit_char(n % 10))
    }
}

/// Appends the decimal digits of `n` to `out`.
pub fn push_dec(n: u32, out: &mut Vec<char>)
    ensures
        final(out)@ == old(out)@ + dec_str(n as int),
    decreases n,
{
    if n < 10 {
        out.push(digit_of(n));
        proof {
            assert(final(out)@ =~= old(out)@ + dec_str(n as int));
        }
    } else {
        proof {
            assert(n / 10 < n && n / 10 >= 1) by (nonlinear_arith)
                requires
                    n >= 10,
            ;
        }
        push_dec(n / 10, out);
        out.push(digit_of(n % 10));
        proof {
            assert(final(out)@ =~= old(out)@ + dec_str(n as int));
        }
    }
}

/// The whitespace-separated tokens of `s` from position `i` on, in order.
pub open spec fn tokens_from(s: Seq<char>, i: int) -> Seq<Seq<char>>
    decreases s.len() - i,
    via tokens_from_dec
{
    if 0 <= i <= s.len() {
        let a = scan_ws_right(s, i);
        if a >= s.len() {
            Seq::empty()
        } else {
            let b = scan_word_right(s, a);
            seq![s.subrange(a, b)] + tokens_from(s, b)
        }
    } else {
        Seq::empty()
    }
}

#[via_fn]
proof fn tokens_from_dec(s: Seq<char>, i: int) {
    if 0 <= i <= s.len() {
        crate::editor::lemma_scan_ws_right_props(s, i);
        let a = scan_ws_right(s, i);
        if a < s.len() {
            assert(!is_space(s[a]));
            crate::editor::lemma_scan_word_right_props(s, a + 1);
            assert(scan_word_right(s, a) == scan_word_right(s, a + 1));
        }
    }
}

/// The first token that is made of digits alone, if any.
pub open spec fn first_digit_token(ts: Seq<Seq<char>>) -> Option<Seq<char>>
    decreases ts.len(),
{
    if ts.len() == 0 {
        None
    } else if all_digits(ts[0]) {
        Some(ts[0])
    } else {
        first_digit_token(ts.skip(1))
    }
}

/// The number a digit token denotes, when it fits the counter.
pub open spec fn token_value(t: Seq<char>) -> Option<u32> {
    if dec_value(t) <= u32::MAX {
        Some(dec_value(t) as u32)
    } else {
        None
    }
}

/// What scanning `s` for its first all-digit token yields: that token's
/// number, or nothing when no such token exists or its number does not fit.
pub open spec fn extract_spec(s: Seq<char>) -> Option<u32> {
    match first_digit_token(tokens_from(s, 0)) {
        Some(t) => token_value(t),
        None => None,
    }
}

/// The digit for a value below ten.
fn digit_of(d: u32) -> (c: char)
    requires
        d <= 9,
    ensures
        c == digit_char(d as int),
{
    if d == 0 {
        '0'
    } else if d == 1 {
        '1'
    } else if d == 2 {
        '2'
    } else if d == 3 {
        '3'
    } else if d == 4 {
        '4'
    } else if d == 5 {
        '5'
    } else if d == 6 {
        '6'
    } else if d == 7 {
        '7'
    } else if d == 8 {
        '8'
    } else {
        '9'
    }
}

} // verus!
