//! Character-level string helpers used by the protocol logic.
use vstd::prelude::*;
use vstd::string::*;

verus! {

/// Whether the two strings hold the same characters.
pub(crate) fn str_eq(a: &str, b: &str) -> (r: bool)
    ensures
        r == (a@ == b@),
{
    let x = a.to_owned();
    let y = b.to_owned();
    x == y
}

/// Calls `String::push`, which std documents as appending the character to
/// the end of the string.
#[verifier::external_body]
pub(crate) fn push_char(s: &mut String, c: char)
    ensures
        final(s)@ == old(s)@.push(c),
{
    s.push(c)
}

/// The decimal text of `n`.
pub open spec fn decimal_text(n: nat) -> Seq<char>
    decreases n,
{
    if n < 10 {
        seq![digit_char(n)]
    } else {
        decimal_text(n / 10) + seq![digit_char(n % 10)]
    }
}

/// The character of a decimal digit.
pub open spec fn digit_char(d: nat) -> char {
    if d == 0 { '0' } else if d == 1 { '1' } else if d == 2 { '2' } else if d == 3 { '3' } else if d == 4 {
        '4'
    } else if d == 5 { '5' } else if d == 6 { '6' } else if d == 7 { '7' } else if d == 8 { '8' } else { '9' }
}

fn digit_char_exec(d: u64) -> (r: char)
    requires
        d < 10,
    ensures
        r == digit_char(d as nat),
{
    if d == 0 { '0' } else if d == 1 { '1' } else if d == 2 { '2' } else if d == 3 { '3' } else if d == 4 {
        '4'
    } else if d == 5 { '5' } else if d == 6 { '6' } else if d == 7 { '7' } else if d == 8 { '8' } else { '9' }
}

/// The decimal text of `n`.
pub fn decimal_string(n: u64) -> (r: String)
    ensures
        r@ == decimal_text(n as nat),
    decreases n,
{
    if n < 10 {
        let mut s = String::new();
        crate::text::push_char(&mut s, digit_char_exec(n));
        proof {
            assert(s@ =~= seq![digit_char(n as nat)]);
        }
        s
    } else {
        let mut s = decimal_string(n / 10);
        crate::text::push_char(&mut s, digit_char_exec(n % 10));
        s
    }
}

/// A hexadecimal digit, in lower case.
pub open spec fn hex_digit(d: nat) -> char {
    if d < 10 {
        digit_char(d)
    } else if d == 10 { 'a' } else if d == 11 { 'b' } else if d == 12 { 'c' } else if d == 13 { 'd' } else if d == 14 {
        'e'
    } else { 'f' }
}

/// The lower-case hexadecimal text of `n`, without leading zeros.
pub open spec fn hex_text(n: nat) -> Seq<char>
    decreases n,
{
    if n < 16 {
        seq![hex_digit(n)]
    } else {
        hex_text(n / 16) + seq![hex_digit(n % 16)]
    }
}

fn hex_digit_exec(d: u32) -> (r: char)
    requires
        d < 16,
    ensures
        r == hex_digit(d as nat),
{
    if d < 10 {
        digit_char_exec(d as u64)
    } else if d == 10 { 'a' } else if d == 11 { 'b' } else if d == 12 { 'c' } else if d == 13 { 'd' } else if d == 14 {
        'e'
    } else { 'f' }
}

/// How Rust's `Debug` writes one character inside a quoted string:
/// backslash, double quote, newline, carriage return, tab and NUL with a
/// backslash; other ASCII control characters as `\u{..}` with their code in
/// hexadecimal; every other character as itself.
pub open spec fn debug_escape(c: char) -> Seq<char> {
    if c == '"' {
        seq!['\\', '"']
    } else if c == '\\' {
        seq!['\\', '\\']
    } else if c == '\n' {
        seq!['\\', 'n']
    } else if c == '\r' {
        seq!['\\', 'r']
    } else if c == '\t' {
        seq!['\\', 't']
    } else if c == '\0' {
        seq!['\\', '0']
    } else if (c as u32) < 0x20 || (c as u32) == 0x7f {
        seq!['\\', 'u', '{'] + hex_text(c as u32 as nat) + seq!['}']
    } else {
        seq![c]
    }
}

/// The escaped characters of `s`, one after the other.
pub open spec fn debug_escaped(s: Seq<char>) -> Seq<char>
    decreases s.len(),
{
    if s.len() == 0 {
        Seq::empty()
    } else {
        debug_escaped(s.drop_last()) + debug_escape(s.last())
    }
}

/// A string as Rust's `Debug` writes it: in double quotes, escaped as
/// `debug_escape` says. (Debug also escapes the unprintable characters
/// beyond ASCII; those are kept as they are here.)
pub open spec fn debug_quoted(s: Seq<char>) -> Seq<char> {
    seq!['"'] + debug_escaped(s) + seq!['"']
}

fn push_escape(r: &mut String, c: char)
    ensures
        final(r)@ == old(r)@ + debug_escape(c),
{
    let code = c as u32;
    if c == '"' {
        push_char(r, '\\');
        push_char(r, '"');
    } else if c == '\\' {
        push_char(r, '\\');
        push_char(r, '\\');
    } else if c == '\n' {
        push_char(r, '\\');
        push_char(r, 'n');
    } else if c == '\r' {
        push_char(r, '\\');
        push_char(r, 'r');
    } else if c == '\t' {
        push_char(r, '\\');
        push_char(r, 't');
    } else if c == '\0' {
        push_char(r, '\\');
        push_char(r, '0');
    } else if code < 0x20 || code == 0x7f {
        push_char(r, '\\');
        push_char(r, 'u');
        push_char(r, '{');
        proof {
            reveal_with_fuel(hex_text, 2);
        }
        if code >= 16 {
            push_char(r, hex_digit_exec(code / 16));
        }
        push_char(r, hex_digit_exec(code % 16));
        push_char(r, '}');
    } else {
        push_char(r, c);
    }
    proof {
        assert(final(r)@ =~= old(r)@ + debug_escape(c)) by {
            reveal_with_fuel(hex_text, 2);
        }
    }
}

/// A string as Rust's `Debug` writes it (see `debug_quoted`).
pub fn debug_quoted_exec(s: &str) -> (r: String)
    ensures
        r@ == debug_quoted(s@),
{
    let mut r = String::new();
    push_char(&mut r, '"');
    let n = s.unicode_len();
    let mut i: usize = 0;
    while i < n
        invariant
            n == s@.len(),
            i <= n,
            r@ == seq!['"'] + debug_escaped(s@.subrange(0, i as int)),
        decreases n - i,
    {
        let c = s.get_char(i);
        push_escape(&mut r, c);
        proof {
            assert(s@.subrange(0, i + 1).drop_last() =~= s@.subrange(0, i as int));
            assert(s@.subrange(0, i + 1).last() == c);
            assert(r@ =~= seq!['"'] + debug_escaped(s@.subrange(0, i + 1)));
        }
        i = i + 1;
    }
    push_char(&mut r, '"');
    proof {
        assert(s@.subrange(0, n as int) =~= s@);
    }
    r
}

/// `true` when `prefix` is a prefix of `s`.
pub open spec fn has_prefix(s: Seq<char>, prefix: Seq<char>) -> bool {
    prefix.len() <= s.len() && s.subrange(0, prefix.len() as int) == prefix
}

/// Whether `s` begins with `prefix`.
pub fn starts_with(s: &str, prefix: &str) -> (r: bool)
    ensures
        r == has_prefix(s@, prefix@),
{
    let n = s.unicode_len();
    let m = prefix.unicode_len();
    if m > n {
        return false;
    }
    let mut i: usize = 0;
    while i < m
        invariant
            m <= n,
            n == s@.len(),
            m == prefix@.len(),
            i <= m,
            forall|j: int| 0 <= j < i ==> s@[j] == prefix@[j],
        decreases m - i,
    {
        if s.get_char(i) != prefix.get_char(i) {
            assert(s@.subrange(0, m as int)[i as int] != prefix@[i as int]);
            return false;
        }
        i = i + 1;
    }
    assert(s@.subrange(0, m as int) =~= prefix@);
    true
}

/// The characters of `s` from `from` on.
pub fn suffix_from(s: &str, from: usize) -> (r: String)
    requires
        from <= s@.len(),
    ensures
        r@ == s@.subrange(from as int, s@.len() as int),
{
    let n = s.unicode_len();
    s.substring_char(from, n).to_string()
}

/// The concatenation of `a` and `b`.
pub fn concat(a: &str, b: &str) -> (r: String)
    ensures
        r@ == a@ + b@,
{
    let mut r = a.to_string();
    r.append(b);
    r
}

/// The concatenation of `a`, `b` and `c`.
pub fn concat3(a: &str, b: &str, c: &str) -> (r: String)
    ensures
        r@ == a@ + b@ + c@,
{
    let mut r = a.to_string();
    r.append(b);
    r.append(c);
    r
}

/// `s` with every `from` character replaced by `to`.
pub open spec fn replace_char(s: Seq<char>, from: char, to: char) -> Seq<char> {
    Seq::new(s.len(), |i: int| if s[i] == from { to } else { s[i] })
}

/// Replaces every occurrence of the character `from` in `s` by `to`.
pub fn replace_char_exec(s: &str, from: char, to: char) -> (r: String)
    ensures
        r@ == replace_char(s@, from, to),
{
    let n = s.unicode_len();
    let mut r = String::new();
    let mut i: usize = 0;
    while i < n
        invariant
            n == s@.len(),
            i <= n,
            r@ =~= replace_char(s@, from, to).subrange(0, i as int),
        decreases n - i,
    {
        let c = s.get_char(i);
        if c == from {
            push_char(&mut r, to);
        } else {
            push_char(&mut r, c);
        }
        i = i + 1;
    }
    r
}

} // verus!
