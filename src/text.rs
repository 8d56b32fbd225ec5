//! Small text helpers: decimal digits, comparisons and affixes.

use vstd::prelude::*;
use vstd::string::*;

verus! {

/// Whether `c` is an ASCII decimal digit.
pub open spec fn is_digit(c: char) -> bool {
    '0' <= c && c <= '9'
}

/// The value of an ASCII digit.
pub open spec fn digit_value(c: char) -> nat {
    (c as nat - '0' as nat) as nat
}

/// The digit character for `d < 10`.
pub open spec fn digit_char(d: nat) -> char {
    if d == 0 { '0' }
    else if d == 1 { '1' }
    else if d == 2 { '2' }
    else if d == 3 { '3' }
    else if d == 4 { '4' }
    else if d == 5 { '5' }
    else if d == 6 { '6' }
    else if d == 7 { '7' }
    else if d == 8 { '8' }
    else { '9' }
}

/// The number that a sequence of digits denotes, most significant first.
pub open spec fn digits_value(s: Seq<char>) -> nat
    decreases s.len(),
{
    if s.len() == 0 {
        0
    } else {
        digits_value(s.drop_last()) * 10 + digit_value(s.last())
    }
}

/// Whether `s` is a non-empty run of ASCII digits.
pub open spec fn all_digits(s: Seq<char>) -> bool {
    s.len() > 0 && forall|i: int| 0 <= i < s.len() ==> is_digit(#[trigger] s[i])
}

/// The unsigned number written in `s`, if `s` is a non-empty run of digits
/// whose value is at most `max`.
pub open spec fn parse_uint_spec(s: Seq<char>, max: nat) -> Option<nat> {
    if all_digits(s) && digits_value(s) <= max {
        Some(digits_value(s))
    } else {
        None
    }
}

/// The shortest decimal form of `n`.
pub open spec fn dec_string(n: nat) -> Seq<char>
    decreases n,
{
    if n < 10 {
        seq![digit_char(n)]
    } else {
        dec_string(n / 10).push(digit_char(n % 10))
    }
}

/// The decimal form of a signed integer, with a leading `-` when negative.
pub open spec fn int_string(n: int) -> Seq<char> {
    if n < 0 {
        seq!['-'] + dec_string((-n) as nat)
    } else {
        dec_string(n as nat)
    }
}

/// The middle of `s` when it starts with `pre` and ends with `post`.
pub open spec fn between(s: Seq<char>, pre: Seq<char>, post: Seq<char>) -> Option<Seq<char>> {
    if s.len() >= pre.len() + post.len() && s.subrange(0, pre.len() as int) == pre
        && s.subrange(s.len() - post.len(), s.len() as int) == post {
        Some(s.subrange(pre.len() as int, s.len() - post.len()))
    } else {
        None
    }
}

/// Whether `pre` is a prefix of `s`.
pub open spec fn starts_with(s: Seq<char>, pre: Seq<char>) -> bool {
    s.len() >= pre.len() && s.subrange(0, pre.len() as int) == pre
}

/// Whether the two texts are equal.
pub fn text_eq(a: &str, b: &str) -> (r: bool)
    ensures
        r == (a@ == b@),
{
    let n = a.unicode_len();
    if n != b.unicode_len() {
        return false;
    }
    let mut i: usize = 0;
    while i < n
        invariant
            n == a@.len() == b@.len(),
            i <= n,
            forall|k: int| 0 <= k < i ==> a@[k] == b@[k],
        decreases n - i,
    {
        if a.get_char(i) != b.get_char(i) {
            return false;
        }
        i = i + 1;
    }
    assert(a@ =~= b@);
    true
}

/// Whether `s` begins with `pre`.
pub fn text_starts_with(s: &str, pre: &str) -> (r: bool)
    ensures
        r == starts_with(s@, pre@),
{
    let n = s.unicode_len();
    let m = pre.unicode_len();
    if m > n {
        return false;
    }
    text_eq(s.substring_char(0, m), pre)
}

/// The middle of `s` between `pre` and `post`, when `s` has both.
pub fn text_between<'a>(s: &'a str, pre: &str, post: &str) -> (r: Option<&'a str>)
    ensures
        r is Some <==> between(s@, pre@, post@) is Some,
        r is Some ==> r->Some_0@ == between(s@, pre@, post@)->Some_0,
{
    let n = s.unicode_len();
    let a = pre.unicode_len();
    let b = post.unicode_len();
    if n < a || n - a < b {
        return None;
    }
    if !text_eq(s.substring_char(0, a), pre) || !text_eq(s.substring_char(n - b, n), post) {
        return None;
    }
    Some(s.substring_char(a, n - b))
}

/// The digit for `d < 10`, as text.
fn digit_text(d: u64) -> (r: &'static str)
    requires
        d < 10,
    ensures
        r@ == seq![digit_char(d as nat)],
{
    proof {
        reveal_strlit("0"); reveal_strlit("1"); reveal_strlit("2"); reveal_strlit("3");
        reveal_strlit("4"); reveal_strlit("5"); reveal_strlit("6"); reveal_strlit("7");
        reveal_strlit("8"); reveal_strlit("9");
    }
    let r = if d == 0 { "0" }
    else if d == 1 { "1" }
    else if d == 2 { "2" }
    else if d == 3 { "3" }
    else if d == 4 { "4" }
    else if d == 5 { "5" }
    else if d == 6 { "6" }
    else if d == 7 { "7" }
    else if d == 8 { "8" }
    else { "9" };
    assert(r@ =~= seq![digit_char(d as nat)]);
    r
}

/// The shortest decimal form of `n`.
pub fn u64_to_text(n: u64) -> (r: String)
    ensures
        r@ == dec_string(n as nat),
    decreases n,
{
    if n < 10 {
        let mut r = String::new();
        r.append(digit_text(n));
        assert(r@ =~= dec_string(n as nat));
        r
    } else {
        let mut r = u64_to_text(n / 10);
        r.append(digit_text(n % 10));
        assert(r@ =~= dec_string(n as nat));
        r
    }
}

/// The decimal form of a signed integer.
pub fn i64_to_text(n: i64) -> (r: String)
    ensures
        r@ == int_string(n as int),
{
    if n < 0 {
        let m: u64 = if n == i64::MIN { 9223372036854775808u64 } else { (-n) as u64 };
        let mut r = String::new();
        proof { reveal_strlit("-"); }
        r.append("-");
        let d = u64_to_text(m);
        r.append(d.as_str());
        assert(r@ =~= int_string(n as int));
        r
    } else {
        u64_to_text(n as u64)
    }
}

/// The unsigned number written in `s`, if `s` is a run of digits whose value is at most `max`.
pub fn parse_uint(s: &str, max: u64) -> (r: Option<u64>)
    ensures
        r is Some <==> parse_uint_spec(s@, max as nat) is Some,
        r is Some ==> r->Some_0 as nat == parse_uint_spec(s@, max as nat)->Some_0,
{
    let n = s.unicode_len();
    if n == 0 {
        return None;
    }
    let mut v: u64 = 0;
    let mut i: usize = 0;
    while i < n
        invariant
            n == s@.len(),
            i <= n,
            v as nat == digits_value(s@.subrange(0, i as int)),
            v <= max,
            forall|k: int| 0 <= k < i ==> is_digit(#[trigger] s@[k]),
        decreases n - i,
    {
        let c = s.get_char(i);
        let ghost pre = s@.subrange(0, i as int);
        let ghost post = s@.subrange(0, i + 1);
        assert(post.drop_last() =~= pre);
        if !('0' <= c && c <= '9') {
            assert(!all_digits(s@));
            return None;
        }
        let d: u64 = (c as u32 - '0' as u32) as u64;
        assert(digits_value(post) == digits_value(pre) * 10 + d);
        if d > max || v > (max - d) / 10 {
            proof {
                lemma_digits_prefix_le(s@, i + 1);
            }
            assert(digits_value(post) > max) by (nonlinear_arith)
                requires
                    d > max || v > (max - d) / 10,
                    digits_value(post) == v * 10 + d;
            return None;
        }
        assert(v * 10 + d <= max) by (nonlinear_arith)
            requires
                v <= (max - d) / 10,
                d <= max;
        v = v * 10 + d;
        i = i + 1;
    }
    assert(s@.subrange(0, n as int) =~= s@);
    Some(v)
}

/// A longer prefix of digits is worth at least as much as a shorter one.
proof fn lemma_digits_prefix_le(s: Seq<char>, k: int)
    requires
        0 <= k <= s.len(),
    ensures
        digits_value(s.subrange(0, k)) <= digits_value(s),
    decreases s.len() - k,
{
    if k < s.len() {
        lemma_digits_prefix_le(s, k + 1);
        let a = s.subrange(0, k);
        let b = s.subrange(0, k + 1);
        assert(b.drop_last() =~= a);
        assert(digits_value(b) == digits_value(a) * 10 + digit_value(b.last()));
    } else {
        assert(s.subrange(0, k) =~= s);
    }
}

} // verus!
