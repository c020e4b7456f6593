//! Rendering of the agent's JSON wire formats: decimal numbers, fixed-point
//! numbers with two fraction digits, string escaping, booleans.

use vstd::prelude::*;
use vstd::string::*;

verus! {

/// The decimal digit character for `d` (`0 <= d < 10`).
pub open spec fn spec_digit(d: int) -> Seq<char> {
    if d == 0 {
        "0"@
    } else if d == 1 {
        "1"@
    } else if d == 2 {
        "2"@
    } else if d == 3 {
        "3"@
    } else if d == 4 {
        "4"@
    } else if d == 5 {
        "5"@
    } else if d == 6 {
        "6"@
    } else if d == 7 {
        "7"@
    } else if d == 8 {
        "8"@
    } else {
        "9"@
    }
}

/// The lowercase hexadecimal digit character for `d` (`0 <= d < 16`).
pub open spec fn spec_hex_digit(d: int) -> Seq<char> {
    if d < 10 {
        spec_digit(d)
    } else if d == 10 {
        "a"@
    } else if d == 11 {
        "b"@
    } else if d == 12 {
        "c"@
    } else if d == 13 {
        "d"@
    } else if d == 14 {
        "e"@
    } else {
        "f"@
    }
}

/// `n` written in decimal, with no leading zeroes (a lone `0` for zero).
pub open spec fn spec_dec(n: nat) -> Seq<char>
    decreases n,
{
    if n < 10 {
        spec_digit(n as int)
    } else {
        spec_dec(n / 10) + spec_digit((n % 10) as int)
    }
}

/// `v` hundredths written as a fixed-point decimal with exactly two fraction
/// digits: `1234` is written `12.34`, `500` is written `5.00`.
pub open spec fn spec_centi(v: nat) -> Seq<char> {
    spec_dec(v / 100) + "."@ + spec_digit(((v % 100) / 10) as int) + spec_digit((v % 10) as int)
}

/// A boolean as a JSON literal.
pub open spec fn spec_bool_json(b: bool) -> Seq<char> {
    if b {
        "true"@
    } else {
        "false"@
    }
}

/// How one character is written inside a JSON string: quote and backslash
/// get a backslash escape, the common control characters their short
/// escapes, the remaining control characters a `\u00..` escape, and
/// everything else stands for itself.
pub open spec fn spec_escaped_char(c: char) -> Seq<char> {
    if c == '"' {
        "\\\""@
    } else if c == '\\' {
        "\\\\"@
    } else if c == '\u{8}' {
        "\\b"@
    } else if c == '\t' {
        "\\t"@
    } else if c == '\n' {
        "\\n"@
    } else if c == '\u{c}' {
        "\\f"@
    } else if c == '\r' {
        "\\r"@
    } else if (c as int) < 32 {
        "\\u00"@ + spec_hex_digit(c as int / 16) + spec_hex_digit(c as int % 16)
    } else {
        seq![c]
    }
}

/// A whole character sequence written inside a JSON string.
pub open spec fn spec_escaped(s: Seq<char>) -> Seq<char>
    decreases s.len(),
{
    if s.len() == 0 {
        Seq::empty()
    } else {
        spec_escaped(s.drop_last()) + spec_escaped_char(s.last())
    }
}

/// Appends the decimal digit `d` to `out`.
pub(crate) fn push_digit(out: &mut String, d: u64)
    requires
        d < 10,
    ensures
        final(out)@ == old(out)@ + spec_digit(d as int),
{
    if d == 0 {
        out.append("0");
    } else if d == 1 {
        out.append("1");
    } else if d == 2 {
        out.append("2");
    } else if d == 3 {
        out.append("3");
    } else if d == 4 {
        out.append("4");
    } else if d == 5 {
        out.append("5");
    } else if d == 6 {
        out.append("6");
    } else if d == 7 {
        out.append("7");
    } else if d == 8 {
        out.append("8");
    } else {
        out.append("9");
    }
}

/// Appends the lowercase hexadecimal digit `d` to `out`.
pub(crate) fn push_hex_digit(out: &mut String, d: u64)
    requires
        d < 16,
    ensures
        final(out)@ == old(out)@ + spec_hex_digit(d as int),
{
    if d < 10 {
        push_digit(out, d);
    } else if d == 10 {
        out.append("a");
    } else if d == 11 {
        out.append("b");
    } else if d == 12 {
        out.append("c");
    } else if d == 13 {
        out.append("d");
    } else if d == 14 {
        out.append("e");
    } else {
        out.append("f");
    }
}

/// Appends `n` in decimal to `out`.
pub(crate) fn push_dec(out: &mut String, n: u64)
    ensures
        final(out)@ == old(out)@ + spec_dec(n as nat),
    decreases n,
{
    if n < 10 {
        push_digit(out, n);
    } else {
        push_dec(out, n / 10);
        push_digit(out, n % 10);
        proof {
            assert(old(out)@ + spec_dec(n as nat) =~= (old(out)@ + spec_dec((n / 10) as nat))
                + spec_digit((n % 10) as int));
        }
    }
}

/// Appends `v` hundredths as a fixed-point decimal to `out`.
pub(crate) fn push_centi(out: &mut String, v: u64)
    ensures
        final(out)@ == old(out)@ + spec_centi(v as nat),
{
    push_dec(out, v / 100);
    out.append(".");
    push_digit(out, (v % 100) / 10);
    push_digit(out, v % 10);
    proof {
        assert(old(out)@ + spec_centi(v as nat) =~= (((old(out)@ + spec_dec((v / 100) as nat))
            + "."@) + spec_digit(((v % 100) / 10) as int)) + spec_digit((v % 10) as int));
    }
}

/// Appends `b` as a JSON boolean literal to `out`.
pub(crate) fn push_bool(out: &mut String, b: bool)
    ensures
        final(out)@ == old(out)@ + spec_bool_json(b),
{
    if b {
        out.append("true");
    } else {
        out.append("false");
    }
}

/// Appends `s`, escaped for the inside of a JSON string, to `out`.
pub(crate) fn push_escaped(out: &mut String, s: &str)
    ensures
        final(out)@ == old(out)@ + spec_escaped(s@),
{
    let len = s.unicode_len();
    let mut i: usize = 0;
    while i < len
        invariant
            i <= len,
            len == s@.len(),
            out@ == old(out)@ + spec_escaped(s@.subrange(0, i as int)),
        decreases len - i,
    {
        let c = s.get_char(i);
        let code = c as u32;
        if c == '"' {
            out.append("\\\"");
        } else if c == '\\' {
            out.append("\\\\");
        } else if c == '\u{8}' {
            out.append("\\b");
        } else if c == '\t' {
            out.append("\\t");
        } else if c == '\n' {
            out.append("\\n");
        } else if c == '\u{c}' {
            out.append("\\f");
        } else if c == '\r' {
            out.append("\\r");
        } else if code < 32 {
            out.append("\\u00");
            push_hex_digit(out, (code / 16) as u64);
            push_hex_digit(out, (code % 16) as u64);
            proof {
                assert(spec_escaped_char(c) =~= (("\\u00"@ + spec_hex_digit(c as int / 16))
                    + spec_hex_digit(c as int % 16)));
            }
        } else {
            let piece = s.substring_char(i, i + 1);
            out.append(piece);
            proof {
                assert(s@.subrange(i as int, i + 1 as int) =~= seq![s@[i as int]]);
            }
        }
        proof {
            let pre = s@.subrange(0, i as int);
            let post = s@.subrange(0, i + 1 as int);
            assert(post.drop_last() =~= pre);
            assert(post.last() == s@[i as int]);
            assert(spec_escaped(post) == spec_escaped(pre) + spec_escaped_char(s@[i as int]));
            assert(old(out)@ + spec_escaped(post) =~= (old(out)@ + spec_escaped(pre))
                + spec_escaped_char(s@[i as int]));
        }
        i = i + 1;
    }
    proof {
        assert(s@.subrange(0, s@.len() as int) =~= s@);
    }
}

/// `n` rendered in decimal, with no leading zeroes.
pub fn render_dec(n: u64) -> (out: String)
    ensures
        out@ == spec_dec(n as nat),
{
    let mut out = String::new();
    push_dec(&mut out, n);
    proof {
        assert(Seq::<char>::empty() + spec_dec(n as nat) =~= spec_dec(n as nat));
    }
    out
}

/// `v` hundredths rendered as a fixed-point decimal with exactly two
/// fraction digits.
pub fn render_centi(v: u64) -> (out: String)
    ensures
        out@ == spec_centi(v as nat),
{
    let mut out = String::new();
    push_centi(&mut out, v);
    proof {
        assert(Seq::<char>::empty() + spec_centi(v as nat) =~= spec_centi(v as nat));
    }
    out
}

/// `s` escaped for the inside of a JSON string.
pub fn escape_json(s: &str) -> (out: String)
    ensures
        out@ == spec_escaped(s@),
{
    let mut out = String::new();
    push_escaped(&mut out, s);
    proof {
        assert(Seq::<char>::empty() + spec_escaped(s@) =~= spec_escaped(s@));
    }
    out
}

} // verus!
