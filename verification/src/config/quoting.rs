//! Texts as quoted strings of a configuration file: what is written for a
//! text, what a quoted string stands for, and that the second undoes the
//! first.

use vstd::prelude::*;
use vstd::string::*;

verus! {

/// A character that a quoted string cannot hold as it is: a control
/// character.
pub open spec fn is_control(c: char) -> bool {
    c < ' ' || c == '\u{7f}'
}

/// The sixteen digits, in order.
pub open spec fn digits() -> Seq<char> {
    seq!['0', '1', '2', '3', '4', '5', '6', '7', '8', '9', 'A', 'B', 'C', 'D', 'E', 'F']
}

/// Whether a character is one of the sixteen digits.
pub open spec fn is_digit(c: char) -> bool {
    ('0' <= c && c <= '9') || ('A' <= c && c <= 'F')
}

/// The number that a digit stands for.
pub open spec fn digit_value(c: char) -> int {
    if c <= '9' {
        c as int - '0' as int
    } else {
        c as int - 'A' as int + 10
    }
}

/// The character with a code below 256.
pub open spec fn char_of(code: int) -> char {
    (code as u8) as char
}

/// What is written for one character: a backslash before a quote and before
/// a backslash, `\u00` and two digits for a control character, and the
/// character itself otherwise.
pub open spec fn escaped_char(c: char) -> Seq<char> {
    if c == '"' || c == '\\' {
        seq!['\\', c]
    } else if is_control(c) {
        seq!['\\', 'u', '0', '0', digits()[c as int / 16], digits()[c as int % 16]]
    } else {
        seq![c]
    }
}

/// What is written for a text, between the quotes.
pub open spec fn escaped(s: Seq<char>) -> Seq<char>
    decreases s.len(),
{
    if s.len() == 0 {
        s
    } else {
        escaped_char(s[0]) + escaped(s.skip(1))
    }
}

/// The quoted string that is written for a text.
pub open spec fn quoted(s: Seq<char>) -> Seq<char> {
    seq!['"'] + escaped(s) + seq!['"']
}

/// Whether a text can stand between the quotes of a quoted string: it is
/// made of characters that are no quote, no backslash and no control
/// character, and of the escapes `\"`, `\\` and `\u00` with two digits.
pub open spec fn well_escaped(t: Seq<char>) -> bool
    decreases t.len(),
{
    if t.len() == 0 {
        true
    } else if t[0] == '\\' {
        if t.len() >= 2 && (t[1] == '"' || t[1] == '\\') {
            well_escaped(t.skip(2))
        } else {
            t.len() >= 6 && t[1] == 'u' && t[2] == '0' && t[3] == '0' && is_digit(t[4])
                && is_digit(t[5]) && well_escaped(t.skip(6))
        }
    } else {
        t[0] != '"' && !is_control(t[0]) && well_escaped(t.skip(1))
    }
}

/// What a well escaped text stands for: each escape gives one character,
/// every other character gives itself.
pub open spec fn unescaped(t: Seq<char>) -> Seq<char>
    decreases t.len(),
{
    if t.len() == 0 {
        t
    } else if t[0] == '\\' {
        if t.len() >= 2 && (t[1] == '"' || t[1] == '\\') {
            seq![t[1]] + unescaped(t.skip(2))
        } else if t.len() >= 6 {
            seq![char_of(16 * digit_value(t[4]) + digit_value(t[5]))] + unescaped(t.skip(6))
        } else {
            Seq::empty()
        }
    } else {
        seq![t[0]] + unescaped(t.skip(1))
    }
}

/// Whether a text is a quoted string: a quote, a well escaped text, a
/// quote.
pub open spec fn is_quoted(q: Seq<char>) -> bool {
    q.len() >= 2 && q[0] == '"' && q.last() == '"' && well_escaped(q.subrange(1, q.len() - 1))
}

/// The text that a quoted string stands for.
pub open spec fn unquoted(q: Seq<char>) -> Seq<char> {
    unescaped(q.subrange(1, q.len() - 1))
}

/// What is written for one character is well escaped and stands for that
/// character, whatever follows it.
pub proof fn lemma_escaped_char(c: char, rest: Seq<char>)
    requires
        well_escaped(rest),
    ensures
        well_escaped(escaped_char(c) + rest),
        unescaped(escaped_char(c) + rest) == seq![c] + unescaped(rest),
{
    let t = escaped_char(c) + rest;
    if c == '"' || c == '\\' {
        assert(t[0] == '\\' && t[1] == c);
        assert(t.skip(2) =~= rest);
    } else if is_control(c) {
        let hi = c as int / 16;
        let lo = c as int % 16;
        assert(0 <= hi < 8 && 0 <= lo < 16);
        assert(t[0] == '\\' && t[1] == 'u' && t[2] == '0' && t[3] == '0');
        assert(t[4] == digits()[hi] && t[5] == digits()[lo]);
        assert(is_digit(digits()[hi]) && digit_value(digits()[hi]) == hi);
        assert(is_digit(digits()[lo]) && digit_value(digits()[lo]) == lo);
        assert(t.skip(6) =~= rest);
        assert(char_of(16 * hi + lo) == c);
    } else {
        assert(t[0] == c);
        assert(t.skip(1) =~= rest);
    }
}

/// What is written for a text is well escaped and stands for the text.
pub proof fn lemma_escaped(s: Seq<char>)
    ensures
        well_escaped(escaped(s)),
        unescaped(escaped(s)) == s,
    decreases s.len(),
{
    if s.len() > 0 {
        lemma_escaped(s.skip(1));
        lemma_escaped_char(s[0], escaped(s.skip(1)));
        assert(seq![s[0]] + s.skip(1) =~= s);
    }
}

/// The quoted string that is written for a text is a quoted string, and
/// stands for the text.
pub proof fn lemma_quoted(s: Seq<char>)
    ensures
        is_quoted(quoted(s)),
        unquoted(quoted(s)) == s,
{
    lemma_escaped(s);
    let q = quoted(s);
    assert(q.subrange(1, q.len() - 1) =~= escaped(s));
}

/// One of the sixteen digits, as text.
fn digit(n: u32) -> (r: &'static str)
    requires
        n < 16,
    ensures
        r@ == seq![digits()[n as int]],
{
    let all = "0123456789ABCDEF";
    proof {
        reveal_strlit("0123456789ABCDEF");
        assert(all@ =~= digits());
    }
    let r = all.substring_char(n as usize, n as usize + 1);
    assert(r@ =~= seq![digits()[n as int]]);
    r
}

/// Writes a text as a quoted string.
pub fn quote(s: &str) -> (r: String)
    ensures
        r@ == quoted(s@),
        is_quoted(r@),
        unquoted(r@) == s@,
{
    let n: usize = s.unicode_len();
    let mut out = String::new();
    out.append("\"");
    proof {
        reveal_strlit("\"");
        reveal_strlit("\\\"");
        reveal_strlit("\\\\");
        reveal_strlit("\\u00");
        assert("\""@ =~= seq!['"']);
        assert("\\\""@ =~= seq!['\\', '"']);
        assert("\\\\"@ =~= seq!['\\', '\\']);
        assert("\\u00"@ =~= seq!['\\', 'u', '0', '0']);
        assert(s@.skip(0) =~= s@);
    }
    let mut i: usize = 0;
    while i < n
        invariant
            n == s@.len(),
            i <= n,
            out@ + escaped(s@.skip(i as int)) == seq!['"'] + escaped(s@),
            "\\\""@ == seq!['\\', '"'],
            "\\\\"@ == seq!['\\', '\\'],
            "\\u00"@ == seq!['\\', 'u', '0', '0'],
        decreases n - i,
    {
        let ghost rest = s@.skip(i as int);
        let ghost before = out@;
        let c = s.get_char(i);
        proof {
            assert(rest[0] == c);
            assert(rest.skip(1) =~= s@.skip(i + 1));
        }
        if c == '"' {
            out.append("\\\"");
        } else if c == '\\' {
            out.append("\\\\");
        } else if c < ' ' || c == '\u{7f}' {
            let code: u32 = c as u32;
            out.append("\\u00");
            out.append(digit(code / 16));
            out.append(digit(code % 16));
            proof {
                assert(out@ =~= before + escaped_char(c));
            }
        } else {
            out.append(s.substring_char(i, i + 1));
            proof {
                assert(s@.subrange(i as int, i + 1) =~= seq![c]);
            }
        }
        proof {
            assert(out@ =~= before + escaped_char(c));
            assert(out@ + escaped(s@.skip(i + 1)) =~= before + (escaped_char(c) + escaped(
                rest.skip(1),
            )));
        }
        i += 1;
    }
    proof {
        assert(s@.skip(n as int) =~= Seq::<char>::empty());
        assert(out@ =~= seq!['"'] + escaped(s@));
        lemma_quoted(s@);
    }
    out.append("\"");
    out
}

} // verus!
