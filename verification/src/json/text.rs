//! String tokens: how a text is written between quotes.

use vstd::prelude::*;
use crate::decimal::is_digit;

verus! {

/// Whether `c` is a control character, which JSON never admits bare in a string.
pub open spec fn is_control(c: char) -> bool {
    (c as int) < 0x20
}

/// Whether `c` has to be written as an escape sequence inside a string.
pub open spec fn needs_escape(c: char) -> bool {
    is_control(c) || c == '"' || c == '\\'
}

/// The lower-case character that writes the hexadecimal digit `d`.
pub open spec fn hex_char(d: int) -> char
    recommends
        0 <= d <= 15,
{
    if d < 10 {
        (d + 48) as char
    } else {
        (d + 87) as char
    }
}

/// How one character stands inside a string: itself, a two-character escape
/// for the quote, the backslash and the five named control characters, and
/// `\u00XX` for every other control character.
pub open spec fn escape_of(c: char) -> Seq<char> {
    if c == '"' {
        seq!['\\', '"']
    } else if c == '\\' {
        seq!['\\', '\\']
    } else if c == '\u{8}' {
        seq!['\\', 'b']
    } else if c == '\u{c}' {
        seq!['\\', 'f']
    } else if c == '\n' {
        seq!['\\', 'n']
    } else if c == '\r' {
        seq!['\\', 'r']
    } else if c == '\t' {
        seq!['\\', 't']
    } else if is_control(c) {
        seq!['\\', 'u', '0', '0', hex_char((c as int) / 16), hex_char((c as int) % 16)]
    } else {
        seq![c]
    }
}

/// The characters of `s`, each as it stands inside a string.
pub open spec fn escaped(s: Seq<char>) -> Seq<char>
    decreases s.len(),
{
    if s.len() == 0 {
        Seq::empty()
    } else {
        escaped(s.drop_last()) + escape_of(s.last())
    }
}

/// The string token for `s`: its escaped characters between two quotes.
pub open spec fn quoted(s: Seq<char>) -> Seq<char> {
    seq!['"'] + escaped(s) + seq!['"']
}

/// Whether no character of `s` needs an escape.
pub open spec fn is_plain(s: Seq<char>) -> bool {
    forall|k: int| 0 <= k < s.len() ==> !needs_escape(#[trigger] s[k])
}

/// Whether `c` may follow a backslash to make an escape of two characters.
pub open spec fn is_escape_letter(c: char) -> bool {
    c == '"' || c == '\\' || c == '/' || c == 'b' || c == 'f' || c == 'n' || c == 'r' || c == 't'
}

/// Whether `c` is a hexadecimal digit, in either case.
pub open spec fn is_hex_digit(c: char) -> bool {
    is_digit(c) || ('a' <= c && c <= 'f') || ('A' <= c && c <= 'F')
}

/// Whether `t` can stand between the quotes of a string token: it is made of
/// characters other than the quote, the backslash and the control characters,
/// of escapes of two characters, and of `\u` with four hexadecimal digits.
pub open spec fn is_string_body(t: Seq<char>) -> bool
    decreases t.len(),
{
    if t.len() == 0 {
        true
    } else if t[0] != '\\' {
        !is_control(t[0]) && t[0] != '"' && is_string_body(t.skip(1))
    } else if t.len() >= 2 && is_escape_letter(t[1]) {
        is_string_body(t.skip(2))
    } else if t.len() >= 6 && t[1] == 'u' {
        is_hex_digit(t[2]) && is_hex_digit(t[3]) && is_hex_digit(t[4]) && is_hex_digit(t[5])
            && is_string_body(t.skip(6))
    } else {
        false
    }
}

/// Whether `t` is a string token.
pub open spec fn is_string_token(t: Seq<char>) -> bool {
    &&& t.len() >= 2
    &&& t[0] == '"'
    &&& t[t.len() - 1] == '"'
    &&& is_string_body(t.subrange(1, t.len() - 1))
}

/// Escaping distributes over concatenation.
pub proof fn lemma_escaped_concat(a: Seq<char>, b: Seq<char>)
    ensures
        escaped(a + b) == escaped(a) + escaped(b),
    decreases b.len(),
{
    if b.len() == 0 {
        assert(a + b =~= a);
        assert(escaped(a) + escaped(b) =~= escaped(a));
    } else {
        assert((a + b).drop_last() =~= a + b.drop_last());
        assert((a + b).last() == b.last());
        lemma_escaped_concat(a, b.drop_last());
        assert(escaped(a + b) =~= escaped(a) + escaped(b));
    }
}

/// A run of characters that need no escape stands for itself.
pub proof fn lemma_escaped_plain(s: Seq<char>)
    requires
        is_plain(s),
    ensures
        escaped(s) == s,
    decreases s.len(),
{
    if s.len() > 0 {
        assert(forall|k: int| 0 <= k < s.drop_last().len() ==> s.drop_last()[k] == s[k]);
        lemma_escaped_plain(s.drop_last());
        assert(!needs_escape(s[s.len() - 1]));
        assert(escaped(s) =~= s);
    }
}

/// A single character is escaped as its own escape sequence.
pub proof fn lemma_escaped_one(c: char)
    ensures
        escaped(seq![c]) == escape_of(c),
{
    let none = Seq::<char>::empty();
    assert(seq![c].drop_last() =~= none);
    assert(escaped(none) =~= none);
    assert(escaped(seq![c]) =~= escaped(none) + escape_of(c));
}

/// Two texts that can each stand inside a string can stand there together.
pub proof fn lemma_string_body_concat(a: Seq<char>, b: Seq<char>)
    requires
        is_string_body(a),
        is_string_body(b),
    ensures
        is_string_body(a + b),
    decreases a.len(),
{
    if a.len() == 0 {
        assert(a + b =~= b);
    } else if a[0] != '\\' {
        assert((a + b).skip(1) =~= a.skip(1) + b);
        lemma_string_body_concat(a.skip(1), b);
    } else if a.len() >= 2 && is_escape_letter(a[1]) {
        assert((a + b).skip(2) =~= a.skip(2) + b);
        lemma_string_body_concat(a.skip(2), b);
    } else {
        assert((a + b).skip(6) =~= a.skip(6) + b);
        lemma_string_body_concat(a.skip(6), b);
    }
}

/// What a character is written as can stand inside a string.
pub proof fn lemma_escape_is_string_body(c: char)
    ensures
        is_string_body(escape_of(c)),
{
    let t = escape_of(c);
    let none = Seq::<char>::empty();
    assert(is_string_body(none));
    if t.len() == 1 {
        assert(t.skip(1) =~= none);
    } else if t.len() == 2 {
        assert(t.skip(2) =~= none);
    } else {
        assert(t.skip(6) =~= none);
        assert(is_hex_digit(hex_char((c as int) / 16)));
        assert(is_hex_digit(hex_char((c as int) % 16)));
    }
}

/// The escaped characters of any text can stand inside a string.
pub proof fn lemma_escaped_is_string_body(s: Seq<char>)
    ensures
        is_string_body(escaped(s)),
    decreases s.len(),
{
    if s.len() > 0 {
        lemma_escaped_is_string_body(s.drop_last());
        lemma_escape_is_string_body(s.last());
        lemma_string_body_concat(escaped(s.drop_last()), escape_of(s.last()));
    }
}

/// Whatever `s` holds, `quoted(s)` is a string token.
pub proof fn lemma_quoted_is_string_token(s: Seq<char>)
    ensures
        is_string_token(quoted(s)),
{
    let t = quoted(s);
    lemma_escaped_is_string_body(s);
    assert(t.subrange(1, t.len() - 1) =~= escaped(s));
}

/// The one-character text of a hexadecimal digit.
fn hex_str(d: u32) -> (s: &'static str)
    requires
        d <= 15,
    ensures
        s@ == seq![hex_char(d as int)],
{
    proof {
        reveal_strlit("0");
        reveal_strlit("1");
        reveal_strlit("2");
        reveal_strlit("3");
        reveal_strlit("4");
        reveal_strlit("5");
        reveal_strlit("6");
        reveal_strlit("7");
        reveal_strlit("8");
        reveal_strlit("9");
        reveal_strlit("a");
        reveal_strlit("b");
        reveal_strlit("c");
        reveal_strlit("d");
        reveal_strlit("e");
        reveal_strlit("f");
    }
    let s = match d {
        0 => "0",
        1 => "1",
        2 => "2",
        3 => "3",
        4 => "4",
        5 => "5",
        6 => "6",
        7 => "7",
        8 => "8",
        9 => "9",
        10 => "a",
        11 => "b",
        12 => "c",
        13 => "d",
        14 => "e",
        _ => "f",
    };
    assert(s@ =~= seq![hex_char(d as int)]);
    s
}

/// Whether `c` has to be written as an escape sequence inside a string.
fn must_escape(c: char) -> (r: bool)
    ensures
        r == needs_escape(c),
{
    (c as u32) < 0x20 || c == '"' || c == '\\'
}

/// Appends the escape sequence of `c` to `out`.
fn push_escape(out: &mut String, c: char)
    requires
        needs_escape(c),
    ensures
        final(out)@ == old(out)@ + escape_of(c),
{
    proof {
        reveal_strlit("\\\"");
        reveal_strlit("\\\\");
        reveal_strlit("\\b");
        reveal_strlit("\\f");
        reveal_strlit("\\n");
        reveal_strlit("\\r");
        reveal_strlit("\\t");
        reveal_strlit("\\u00");
    }
    if c == '"' {
        out.append("\\\"");
    } else if c == '\\' {
        out.append("\\\\");
    } else if c == '\u{8}' {
        out.append("\\b");
    } else if c == '\u{c}' {
        out.append("\\f");
    } else if c == '\n' {
        out.append("\\n");
    } else if c == '\r' {
        out.append("\\r");
    } else if c == '\t' {
        out.append("\\t");
    } else {
        let code: u32 = c as u32;
        out.append("\\u00");
        out.append(hex_str(code / 16));
        out.append(hex_str(code % 16));
    }
    assert(out@ =~= old(out)@ + escape_of(c));
}

/// Appends the string token for `s` to `out`.
pub fn push_quoted(out: &mut String, s: &str)
    ensures
        final(out)@ == old(out)@ + quoted(s@),
{
    let ghost before = out@;
    let n = s.unicode_len();
    out.append("\"");
    proof {
        reveal_strlit("\"");
    }
    let mut start: usize = 0;
    let mut i: usize = 0;
    for c in it: s.chars()
        invariant
            it.seq() == s@,
            n == s@.len(),
            i == it.index(),
            start <= i <= n,
            is_plain(s@.subrange(start as int, i as int)),
            out@ == before + seq!['"'] + escaped(s@.subrange(0, start as int)),
    {
        if must_escape(c) {
            out.append(s.substring_char(start, i));
            push_escape(out, c);
            proof {
                let done = s@.subrange(0, start as int);
                let run = s@.subrange(start as int, i as int);
                lemma_escaped_plain(run);
                lemma_escaped_concat(done, run);
                lemma_escaped_concat(done + run, seq![c]);
                lemma_escaped_one(c);
                assert(done + run + seq![c] =~= s@.subrange(0, i + 1));
                assert(s@.subrange(i + 1, i + 1) =~= Seq::<char>::empty());
            }
            start = i + 1;
        } else {
            assert(is_plain(s@.subrange(start as int, i + 1))) by {
                assert(forall|k: int|
                    0 <= k < i - start ==> s@.subrange(start as int, i + 1)[k] == s@.subrange(
                        start as int,
                        i as int,
                    )[k]);
            }
        }
        i = i + 1;
    }
    out.append(s.substring_char(start, n));
    out.append("\"");
    proof {
        let done = s@.subrange(0, start as int);
        let run = s@.subrange(start as int, n as int);
        lemma_escaped_plain(run);
        lemma_escaped_concat(done, run);
        assert(done + run =~= s@);
        assert(out@ =~= before + quoted(s@));
    }
}

} // verus!
