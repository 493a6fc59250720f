use vstd::prelude::*;

verus! {

use crate::utilities::strings::push_char;

/// The character for one hexadecimal digit, lower case.
pub open spec fn hex_digit(d: int) -> char {
    if d == 0 { '0' }
    else if d == 1 { '1' }
    else if d == 2 { '2' }
    else if d == 3 { '3' }
    else if d == 4 { '4' }
    else if d == 5 { '5' }
    else if d == 6 { '6' }
    else if d == 7 { '7' }
    else if d == 8 { '8' }
    else if d == 9 { '9' }
    else if d == 10 { 'a' }
    else if d == 11 { 'b' }
    else if d == 12 { 'c' }
    else if d == 13 { 'd' }
    else if d == 14 { 'e' }
    else { 'f' }
}

/// The escape of one character inside a JSON string literal: quote, backslash
/// and the named control characters get a two-character escape, the remaining
/// control characters a `\u00XX` escape, and every other character stands for
/// itself.
pub open spec fn json_escape_char(c: char) -> Seq<char> {
    if c == '"' { seq!['\\', '"'] }
    else if c == '\\' { seq!['\\', '\\'] }
    else if c == '\u{8}' { seq!['\\', 'b'] }
    else if c == '\t' { seq!['\\', 't'] }
    else if c == '\n' { seq!['\\', 'n'] }
    else if c == '\u{c}' { seq!['\\', 'f'] }
    else if c == '\r' { seq!['\\', 'r'] }
    else if (c as u32) < 0x20 {
        seq!['\\', 'u', '0', '0', hex_digit((c as u32 / 16) as int), hex_digit((c as u32 % 16) as int)]
    } else {
        seq![c]
    }
}

/// The body of a JSON string literal holding the characters of `s`.
pub open spec fn json_escape(s: Seq<char>) -> Seq<char>
    decreases s.len(),
{
    if s.len() == 0 {
        Seq::empty()
    } else {
        json_escape_char(s[0]) + json_escape(s.drop_first())
    }
}

/// A whole JSON string literal for `s`: the escaped body between quotes.
pub open spec fn json_string(s: Seq<char>) -> Seq<char> {
    seq!['"'] + json_escape(s) + seq!['"']
}

proof fn lemma_json_escape_snoc(s: Seq<char>)
    requires
        s.len() > 0,
    ensures
        json_escape(s) == json_escape(s.drop_last()) + json_escape_char(s.last()),
    decreases s.len(),
{
    if s.len() == 1 {
        assert(s.drop_first() =~= Seq::<char>::empty());
        assert(s.drop_last() =~= Seq::<char>::empty());
        assert(json_escape(s) =~= json_escape(s.drop_last()) + json_escape_char(s.last()));
    } else {
        let t = s.drop_first();
        lemma_json_escape_snoc(t);
        assert(t.drop_last() =~= s.drop_last().drop_first());
        assert(t.last() == s.last());
        assert(s.drop_last().len() > 0);
        assert(s.drop_last()[0] == s[0]);
        assert(json_escape(s.drop_last()) == json_escape_char(s[0]) + json_escape(
            s.drop_last().drop_first(),
        ));
        assert(json_escape(s) =~= json_escape(s.drop_last()) + json_escape_char(s.last()));
    }
}

fn hex_exec(d: u32) -> (c: char)
    requires
        d < 16,
    ensures
        c == hex_digit(d as int),
{
    if d == 0 { '0' }
    else if d == 1 { '1' }
    else if d == 2 { '2' }
    else if d == 3 { '3' }
    else if d == 4 { '4' }
    else if d == 5 { '5' }
    else if d == 6 { '6' }
    else if d == 7 { '7' }
    else if d == 8 { '8' }
    else if d == 9 { '9' }
    else if d == 10 { 'a' }
    else if d == 11 { 'b' }
    else if d == 12 { 'c' }
    else if d == 13 { 'd' }
    else if d == 14 { 'e' }
    else { 'f' }
}

fn push_escaped_char(out: &mut String, c: char)
    ensures
        final(out)@ == old(out)@ + json_escape_char(c),
{
    if c == '"' {
        push_char(out, '\\');
        push_char(out, '"');
    } else if c == '\\' {
        push_char(out, '\\');
        push_char(out, '\\');
    } else if c == '\u{8}' {
        push_char(out, '\\');
        push_char(out, 'b');
    } else if c == '\t' {
        push_char(out, '\\');
        push_char(out, 't');
    } else if c == '\n' {
        push_char(out, '\\');
        push_char(out, 'n');
    } else if c == '\u{c}' {
        push_char(out, '\\');
        push_char(out, 'f');
    } else if c == '\r' {
        push_char(out, '\\');
        push_char(out, 'r');
    } else if (c as u32) < 0x20 {
        let x = c as u32;
        push_char(out, '\\');
        push_char(out, 'u');
        push_char(out, '0');
        push_char(out, '0');
        push_char(out, hex_exec(x / 16));
        push_char(out, hex_exec(x % 16));
    } else {
        push_char(out, c);
    }
    proof {
        assert(out@ =~= old(out)@ + json_escape_char(c));
    }
}

/// Renders `s` as a JSON string literal, quotes included.
pub fn json_string_exec(s: &str) -> (r: String)
    ensures
        r@ == json_string(s@),
{
    let n = s.unicode_len();
    let mut out = String::new();
    push_char(&mut out, '"');
    let mut i: usize = 0;
    while i < n
        invariant
            i <= n,
            n == s@.len(),
            out@ == seq!['"'] + json_escape(s@.take(i as int)),
        decreases n - i,
    {
        let c = s.get_char(i);
        push_escaped_char(&mut out, c);
        i = i + 1;
        proof {
            let t = s@.take(i as int);
            assert(t.drop_last() =~= s@.take(i as int - 1));
            assert(t.last() == c);
            lemma_json_escape_snoc(t);
            assert(out@ =~= seq!['"'] + json_escape(t));
        }
    }
    push_char(&mut out, '"');
    proof {
        assert(s@.take(n as int) =~= s@);
        assert(out@ =~= json_string(s@));
    }
    out
}

} // verus!
