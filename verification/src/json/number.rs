//! Number tokens: what counts as a number, and as an integer.

use vstd::prelude::*;
use crate::decimal::{decimal_text, integer_text, is_digit};

verus! {

/// The number of digits that stand in `t` from position `from` on, up to
/// the first character that is no digit.
pub open spec fn digit_run(t: Seq<char>, from: int) -> nat
    decreases t.len() - from,
{
    if 0 <= from < t.len() && is_digit(t[from]) {
        1 + digit_run(t, from + 1)
    } else {
        0
    }
}

/// The length of the sign that `t` begins with: one for `-`, else zero.
pub open spec fn sign_len(t: Seq<char>) -> nat {
    if t.len() > 0 && t[0] == '-' {
        1
    } else {
        0
    }
}

/// The length of the fraction of `t` at position `at`: a point and the digits
/// behind it, or zero where no point stands there.
pub open spec fn fraction_len(t: Seq<char>, at: int) -> nat {
    if 0 <= at < t.len() && t[at] == '.' {
        1 + digit_run(t, at + 1)
    } else {
        0
    }
}

/// The length of the sign of an exponent at position `at`: one for `+` or `-`.
pub open spec fn exponent_sign_len(t: Seq<char>, at: int) -> nat {
    if 0 <= at < t.len() && (t[at] == '+' || t[at] == '-') {
        1
    } else {
        0
    }
}

/// The number of digits of the exponent whose letter stands at position `at`.
pub open spec fn exponent_digits(t: Seq<char>, at: int) -> nat {
    digit_run(t, at + 1 + exponent_sign_len(t, at + 1))
}

/// The length of the exponent of `t` at position `at`: the letter, the sign if
/// there is one and the digits, or zero where no `e` or `E` stands there.
pub open spec fn exponent_len(t: Seq<char>, at: int) -> nat {
    if 0 <= at < t.len() && (t[at] == 'e' || t[at] == 'E') {
        1 + exponent_sign_len(t, at + 1) + exponent_digits(t, at)
    } else {
        0
    }
}

/// Whether `t` is an integer token: an optional `-`, then `0` alone or a
/// digit other than `0` with any digits behind it, and nothing else.
pub open spec fn is_integer_token(t: Seq<char>) -> bool {
    let a = sign_len(t) as int;
    let d = digit_run(t, a) as int;
    &&& d >= 1
    &&& (t[a] == '0' ==> d == 1)
    &&& a + d == t.len()
}

/// Whether `t` is a number token: an integer part as in an integer token, then
/// optionally a point with at least one digit, then optionally an exponent
/// with at least one digit, and nothing else.
pub open spec fn is_number_token(t: Seq<char>) -> bool {
    let a = sign_len(t) as int;
    let d = digit_run(t, a) as int;
    let f = fraction_len(t, a + d) as int;
    let e = exponent_len(t, a + d + f) as int;
    &&& d >= 1
    &&& (t[a] == '0' ==> d == 1)
    &&& f != 1
    &&& (e > 0 ==> exponent_digits(t, a + d + f) >= 1)
    &&& a + d + f + e == t.len()
}

/// Where only digits stand from `from` on, the run of digits reaches the end.
pub proof fn lemma_digit_run_to_end(t: Seq<char>, from: int)
    requires
        0 <= from <= t.len(),
        forall|k: int| from <= k < t.len() ==> is_digit(#[trigger] t[k]),
    ensures
        digit_run(t, from) == t.len() - from,
    decreases t.len() - from,
{
    if from < t.len() {
        lemma_digit_run_to_end(t, from + 1);
    }
}

/// Decimal notation is made of digits, and begins with `0` only for zero.
pub proof fn lemma_decimal_text_digits(n: nat)
    ensures
        decimal_text(n).len() >= 1,
        forall|k: int| 0 <= k < decimal_text(n).len() ==> is_digit(#[trigger] decimal_text(n)[k]),
        decimal_text(n)[0] == '0' ==> decimal_text(n).len() == 1,
        decimal_text(n)[0] == '0' <==> n == 0,
    decreases n,
{
    if n >= 10 {
        lemma_decimal_text_digits(n / 10);
    }
}

/// Whatever `i` is, `integer_text(i)` is an integer token.
pub proof fn lemma_integer_text_is_integer_token(i: int)
    ensures
        is_integer_token(integer_text(i)),
{
    let t = integer_text(i);
    if i < 0 {
        let digits = decimal_text((-i) as nat);
        lemma_decimal_text_digits((-i) as nat);
        assert(forall|k: int| 1 <= k < t.len() ==> t[k] == digits[k - 1]);
        lemma_digit_run_to_end(t, 1);
    } else {
        lemma_decimal_text_digits(i as nat);
        lemma_digit_run_to_end(t, 0);
    }
}

/// The characters of `s`, for access by position.
fn chars_of(s: &str) -> (v: Vec<char>)
    ensures
        v@ == s@,
{
    let mut v: Vec<char> = Vec::new();
    for c in it: s.chars()
        invariant
            it.seq() == s@,
            v@ == s@.subrange(0, it.index() as int),
    {
        v.push(c);
        assert(v@ =~= s@.subrange(0, it.index() + 1));
    }
    assert(v@ =~= s@);
    v
}

/// Counts the digits that stand in `t` from position `from` on.
fn count_digits(t: &Vec<char>, from: usize) -> (k: usize)
    requires
        from <= t.len(),
    ensures
        k == digit_run(t@, from as int),
        from + k <= t.len(),
{
    let mut i: usize = from;
    while i < t.len() && '0' <= t[i] && t[i] <= '9'
        invariant
            from <= i <= t.len(),
            digit_run(t@, from as int) == (i - from) + digit_run(t@, i as int),
        decreases t.len() - i,
    {
        i = i + 1;
    }
    i - from
}

/// Decides whether `t` is a number token.
fn scan_number(t: &Vec<char>) -> (r: bool)
    ensures
        r == is_number_token(t@),
{
    let n = t.len();
    let a: usize = if n > 0 && t[0] == '-' {
        1
    } else {
        0
    };
    let d = count_digits(t, a);
    if d == 0 || (t[a] == '0' && d != 1) {
        return false;
    }
    let mut at: usize = a + d;
    if at < n && t[at] == '.' {
        let f = count_digits(t, at + 1);
        if f == 0 {
            return false;
        }
        at = at + 1 + f;
    }
    if at < n && (t[at] == 'e' || t[at] == 'E') {
        let s: usize = if at + 1 < n && (t[at + 1] == '+' || t[at + 1] == '-') {
            1
        } else {
            0
        };
        let x = count_digits(t, at + 1 + s);
        if x == 0 {
            return false;
        }
        at = at + 1 + s + x;
    }
    at == n
}

/// Decides whether `text` is a number token.
pub fn is_number(text: &str) -> (r: bool)
    ensures
        r == is_number_token(text@),
{
    let chars = chars_of(text);
    scan_number(&chars)
}

} // verus!
