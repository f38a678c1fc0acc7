//! Percent-escaping of caller-supplied path segments and query components.
//!
//! A caller-supplied string placed into a URL path (a project name, a branch
//! name, a file path) may contain reserved characters such as `/`, `%` or a
//! space.  Escaping replaces every such character with `%XX` (two uppercase
//! hex digits of its code) so that the value occupies exactly one path
//! segment.  Unreserved characters (ASCII letters, digits, `-`, `.`, `_`,
//! `~`) pass through unchanged; characters outside the ASCII range also pass
//! through unchanged.  Unescaping reverses the transformation.

use vstd::prelude::*;

verus! {

/// Characters that are written unescaped: ASCII letters, digits, and the
/// unreserved marks `-`, `.`, `_`, `~`.
pub open spec fn is_unreserved(c: char) -> bool {
    let n = c as u32;
    (97 <= n && n <= 122) || (65 <= n && n <= 90) || (48 <= n && n <= 57) || n == 45 || n == 46
        || n == 95 || n == 126
}

/// The uppercase hexadecimal digit for a value below 16.
pub open spec fn spec_hex_digit(n: u32) -> char
    recommends
        n < 16,
{
    if n < 10 {
        (n + 48) as char
    } else {
        (n + 55) as char
    }
}

/// How one character is rendered: itself if unreserved or non-ASCII,
/// otherwise `%` followed by two uppercase hex digits of its code.
pub open spec fn escape_char(c: char) -> Seq<char> {
    if is_unreserved(c) {
        seq![c]
    } else if (c as u32) < 128 {
        seq!['%', spec_hex_digit((c as u32) / 16), spec_hex_digit((c as u32) % 16)]
    } else {
        seq![c]
    }
}

/// The escaped form of a string: each character rendered in order.
pub open spec fn escape_seq(s: Seq<char>) -> Seq<char>
    decreases s.len(),
{
    if s.len() == 0 {
        Seq::empty()
    } else {
        escape_char(s[0]) + escape_seq(s.drop_first())
    }
}

/// The numeric value of an uppercase hexadecimal digit, 16 if not one.
pub open spec fn spec_hex_val(c: char) -> u32 {
    let n = c as u32;
    if 48 <= n && n <= 57 {
        (n - 48) as u32
    } else if 65 <= n && n <= 70 {
        (n - 55) as u32
    } else {
        16
    }
}

/// True when `c` is an uppercase hexadecimal digit.
pub open spec fn is_hex(c: char) -> bool {
    spec_hex_val(c) < 16
}

/// Escaping a single character is rendering that character.
proof fn lemma_escape_singleton(c: char)
    ensures
        escape_seq(seq![c]) == escape_char(c),
{
    let s = seq![c];
    assert(s.len() == 1);
    assert(s[0] == c);
    assert(s.drop_first() =~= Seq::<char>::empty());
    assert(escape_seq(s) == escape_char(s[0]) + escape_seq(s.drop_first()));
    assert(escape_seq(s.drop_first()) == Seq::<char>::empty());
    assert(escape_char(c) + Seq::<char>::empty() =~= escape_char(c));
}

/// The unescaped form of a string: each `%XX` with hex digits becomes the
/// character with code `XX`; every other character passes through.
pub open spec fn unescape_seq(s: Seq<char>) -> Seq<char>
    decreases s.len(),
{
    if s.len() == 0 {
        Seq::empty()
    } else if s[0] == '%' && s.len() >= 3 && is_hex(s[1]) && is_hex(s[2]) {
        seq![(spec_hex_val(s[1]) * 16 + spec_hex_val(s[2])) as char] + unescape_seq(s.skip(3))
    } else {
        seq![s[0]] + unescape_seq(s.drop_first())
    }
}

/// Escaping distributes over concatenation.
proof fn lemma_escape_append(a: Seq<char>, b: Seq<char>)
    ensures
        escape_seq(a + b) == escape_seq(a) + escape_seq(b),
    decreases a.len(),
{
    if a.len() == 0 {
        assert(a + b =~= b);
        assert(escape_seq(a) + escape_seq(b) =~= escape_seq(b));
    } else {
        lemma_escape_append(a.drop_first(), b);
        assert((a + b).drop_first() =~= a.drop_first() + b);
        assert(escape_seq(a + b) =~= escape_seq(a) + escape_seq(b));
    }
}

/// The uppercase hexadecimal digit of a value below 16.
fn hex_digit(n: u32) -> (c: char)
    requires
        n < 16,
    ensures
        c == spec_hex_digit(n),
{
    if n < 10 {
        ((48 + n as u8) as char)
    } else {
        ((55 + n as u8) as char)
    }
}

/// Escape the characters of `s` into `out`.
pub(crate) fn escape_chars(s: &Vec<char>, out: &mut Vec<char>)
    ensures
        final(out)@ == old(out)@ + escape_seq(s@),
{
    let n = s.len();
    let mut i: usize = 0;
    while i < n
        invariant
            i <= n,
            n == s@.len(),
            out@ == old(out)@ + escape_seq(s@.take(i as int)),
        decreases n - i,
    {
        let c = s[i];
        let code = c as u32;
        if (97 <= code && code <= 122) || (65 <= code && code <= 90) || (48 <= code && code <= 57)
            || code == 45 || code == 46 || code == 95 || code == 126 {
            assert(is_unreserved(c));
            out.push(c);
        } else if code < 128 {
            assert(!is_unreserved(c));
            out.push('%');
            out.push(hex_digit(code / 16));
            out.push(hex_digit(code % 16));
        } else {
            assert(!is_unreserved(c));
            out.push(c);
        }
        proof {
            assert(s@.take(i + 1) =~= s@.take(i as int) + seq![s@[i as int]]);
            lemma_escape_append(s@.take(i as int), seq![s@[i as int]]);
            lemma_escape_singleton(s@[i as int]);
            assert(out@ =~= old(out)@ + escape_seq(s@.take(i + 1)));
        }
        i = i + 1;
    }
    proof {
        assert(s@.take(n as int) =~= s@);
    }
}

/// The characters of a string, in order.
///
/// Relies on str::chars, which yields exactly the characters that form the
/// string's view.
#[verifier::external_body]
pub(crate) fn str_chars(s: &str) -> (r: Vec<char>)
    ensures
        r@ == s@,
{
    s.chars().collect()
}

/// A string holding the given characters, in order.
///
/// Relies on String implementing FromIterator<char>: collecting characters
/// builds the string whose view is exactly that character sequence.
#[verifier::external_body]
pub(crate) fn chars_to_string(v: Vec<char>) -> (r: String)
    ensures
        r@ == v@,
{
    v.into_iter().collect()
}

/// The escaped form of a caller-supplied path segment or query component.
pub fn path_escaped(s: &str) -> (r: String)
    ensures
        r@ == escape_seq(s@),
{
    let chars = str_chars(s);
    let mut out: Vec<char> = Vec::new();
    escape_chars(&chars, &mut out);
    chars_to_string(out)
}

/// The numeric value of an uppercase hexadecimal digit, 16 if not one.
fn hex_val(c: char) -> (v: u32)
    ensures
        v == spec_hex_val(c),
{
    let n = c as u32;
    if 48 <= n && n <= 57 {
        n - 48
    } else if 65 <= n && n <= 70 {
        n - 55
    } else {
        16
    }
}

/// Unescape the characters of `s` from position `i` on into `out`.
fn unescape_from(s: &Vec<char>, i: usize, out: &mut Vec<char>)
    requires
        i <= s@.len(),
    ensures
        final(out)@ == old(out)@ + unescape_seq(s@.skip(i as int)),
    decreases s@.len() - i,
{
    if i == s.len() {
        proof {
            assert(s@.skip(i as int) =~= Seq::<char>::empty());
        }
        return ;
    }
    let ghost t = s@.skip(i as int);
    proof {
        assert(t.len() == s@.len() - i);
        assert(t[0] == s@[i as int]);
    }
    let c = s[i];
    if c == '%' && s.len() - i >= 3 {
        let h1 = s[i + 1];
        let h2 = s[i + 2];
        let v1 = hex_val(h1);
        let v2 = hex_val(h2);
        if v1 < 16 && v2 < 16 {
            proof {
                assert(t[1] == s@[i + 1]);
                assert(t[2] == s@[i + 2]);
                assert(t.skip(3) =~= s@.skip(i + 3));
            }
            out.push(((v1 * 16 + v2) as u8) as char);
            unescape_from(s, i + 3, out);
            proof {
                assert(out@ =~= old(out)@ + unescape_seq(t));
            }
            return ;
        }
        proof {
            assert(!(is_hex(t[1]) && is_hex(t[2])));
            assert(t.drop_first() =~= s@.skip(i + 1));
        }
        out.push(c);
        unescape_from(s, i + 1, out);
        proof {
            assert(out@ =~= old(out)@ + unescape_seq(t));
        }
        return ;
    }
    proof {
        assert(!(t[0] == '%' && t.len() >= 3 && is_hex(t[1]) && is_hex(t[2])));
        assert(t.drop_first() =~= s@.skip(i + 1));
    }
    out.push(c);
    unescape_from(s, i + 1, out);
    proof {
        assert(out@ =~= old(out)@ + unescape_seq(t));
    }
}

/// The unescaped form of a path segment or query component.
pub fn path_unescaped(s: &str) -> (r: String)
    ensures
        r@ == unescape_seq(s@),
{
    let chars = str_chars(s);
    let mut out: Vec<char> = Vec::new();
    unescape_from(&chars, 0, &mut out);
    proof {
        assert(chars@.skip(0) =~= chars@);
    }
    chars_to_string(out)
}

/// An escaped segment never holds a raw `/`: a caller-supplied value,
/// whatever it contains, occupies exactly one path segment.
pub proof fn lemma_escaped_has_no_slash(s: Seq<char>)
    ensures
        forall|i: int| 0 <= i < escape_seq(s).len() ==> escape_seq(s)[i] != '/',
    decreases s.len(),
{
    if s.len() == 0 {
    } else {
        let c = s[0];
        let e = escape_char(c);
        lemma_escaped_has_no_slash(s.drop_first());
        assert forall|i: int| 0 <= i < e.len() implies e[i] != '/' by {
            vstd::utf8::char_u32_cast(e[i], e[i] as u32);
            assert(('/' as u32) == 47);
            if is_unreserved(c) || (c as u32) >= 128 {
                assert((c as u32) != 47);
            } else {
                assert((e[0] as u32) == 37);
                assert(spec_hex_digit((c as u32) / 16) as u32 != 47);
                assert(spec_hex_digit((c as u32) % 16) as u32 != 47);
            }
        }
        assert(escape_seq(s) == e + escape_seq(s.drop_first()));
    }
}

/// Unescaping undoes escaping: for every string, decoding the escaped form
/// yields back the original, character for character.
pub proof fn lemma_unescape_escape(s: Seq<char>)
    ensures
        unescape_seq(escape_seq(s)) == s,
    decreases s.len(),
{
    if s.len() == 0 {
    } else {
        let c = s[0];
        let e = escape_char(c);
        let rest = escape_seq(s.drop_first());
        let t = e + rest;
        lemma_unescape_escape(s.drop_first());
        assert(escape_seq(s) == t);
        if is_unreserved(c) || (c as u32) >= 128 {
            assert(t.len() >= 1 && t[0] == c);
            assert((c as u32) != 37);
            assert(c != '%') by {
                vstd::utf8::char_u32_cast(c, c as u32);
            }
            assert(t.drop_first() =~= rest);
            assert(unescape_seq(t) == seq![c] + unescape_seq(rest));
            assert(seq![c] + s.drop_first() =~= s);
        } else {
            let code = c as u32;
            let h1 = spec_hex_digit(code / 16);
            let h2 = spec_hex_digit(code % 16);
            assert(t.len() >= 3 && t[0] == '%' && t[1] == h1 && t[2] == h2);
            assert(spec_hex_val(h1) == code / 16);
            assert(spec_hex_val(h2) == code % 16);
            assert(spec_hex_val(h1) * 16 + spec_hex_val(h2) == code);
            assert((code as char) == c) by {
                vstd::utf8::char_u32_cast(c, code);
            }
            assert(t.skip(3) =~= rest);
            assert(unescape_seq(t) == seq![c] + unescape_seq(rest));
            assert(seq![c] + s.drop_first() =~= s);
        }
    }
}

} // verus!
