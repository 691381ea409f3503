//! Building blocks for JSON text: decimal rendering of integers and of
//! fixed-point fractions, JSON string escaping, and comma-joined lists.
//! Everything is specified over `Seq<char>` and built in exec code as
//! `Vec<char>`.

use vstd::prelude::*;

verus! {

/// The character for one decimal digit.
pub open spec fn dec_digit(d: nat) -> char {
    if d == 0 {
        '0'
    } else if d == 1 {
        '1'
    } else if d == 2 {
        '2'
    } else if d == 3 {
        '3'
    } else if d == 4 {
        '4'
    } else if d == 5 {
        '5'
    } else if d == 6 {
        '6'
    } else if d == 7 {
        '7'
    } else if d == 8 {
        '8'
    } else {
        '9'
    }
}

/// Decimal text of a natural number, most significant digit first,
/// without leading zeros (a lone zero for 0).
pub open spec fn dec_text(n: nat) -> Seq<char>
    decreases n,
{
    if n < 10 {
        seq![dec_digit(n)]
    } else {
        dec_text(n / 10).push(dec_digit(n % 10))
    }
}

fn digit_char(d: u64) -> (c: char)
    requires
        d < 10,
    ensures
        c == dec_digit(d as nat),
{
    match d {
        0 => '0',
        1 => '1',
        2 => '2',
        3 => '3',
        4 => '4',
        5 => '5',
        6 => '6',
        7 => '7',
        8 => '8',
        _ => '9',
    }
}

/// Appends the decimal text of `n`.
pub fn push_dec(out: &mut Vec<char>, n: u64)
    ensures
        final(out)@ == old(out)@ + dec_text(n as nat),
    decreases n,
{
    if n < 10 {
        out.push(digit_char(n));
        assert(out@ =~= old(out)@ + dec_text(n as nat));
    } else {
        push_dec(out, n / 10);
        out.push(digit_char(n % 10));
        assert(out@ =~= old(out)@ + dec_text(n as nat));
    }
}

/// The fractional digits of a value counted in hundredths, with trailing
/// zeros trimmed down to at least one digit.
pub open spec fn frac_hundredths(h: nat) -> Seq<char> {
    if h % 100 == 0 {
        seq!['0']
    } else if h % 10 == 0 {
        seq![dec_digit((h / 10) % 10)]
    } else {
        seq![dec_digit((h % 100) / 10), dec_digit(h % 10)]
    }
}

/// Decimal text of a non-negative value counted in hundredths:
/// the whole part, a point, then the fraction.
pub open spec fn hundredths_text(h: nat) -> Seq<char> {
    dec_text(h / 100) + seq!['.'] + frac_hundredths(h)
}

/// Decimal text of a signed value counted in hundredths.
pub open spec fn signed_hundredths_text(t: int) -> Seq<char> {
    if t < 0 {
        seq!['-'] + hundredths_text((-t) as nat)
    } else {
        hundredths_text(t as nat)
    }
}

/// Appends the decimal text of `h` hundredths.
pub fn push_hundredths(out: &mut Vec<char>, h: u64)
    ensures
        final(out)@ == old(out)@ + hundredths_text(h as nat),
{
    push_dec(out, h / 100);
    out.push('.');
    if h % 100 == 0 {
        out.push('0');
    } else if h % 10 == 0 {
        out.push(digit_char((h / 10) % 10));
    } else {
        out.push(digit_char((h % 100) / 10));
        out.push(digit_char(h % 10));
    }
    assert(out@ =~= old(out)@ + hundredths_text(h as nat));
}

/// Appends the decimal text of `t` hundredths, with a sign when negative.
pub fn push_signed_hundredths(out: &mut Vec<char>, t: i64)
    requires
        t > i64::MIN,
    ensures
        final(out)@ == old(out)@ + signed_hundredths_text(t as int),
{
    if t < 0 {
        out.push('-');
        let a: u64 = (-t) as u64;
        push_hundredths(out, a);
        assert(out@ =~= old(out)@ + signed_hundredths_text(t as int));
    } else {
        push_hundredths(out, t as u64);
    }
}

/// The character for one lower-case hexadecimal digit.
pub open spec fn hex_digit(d: nat) -> char {
    if d < 10 {
        dec_digit(d)
    } else if d == 10 {
        'a'
    } else if d == 11 {
        'b'
    } else if d == 12 {
        'c'
    } else if d == 13 {
        'd'
    } else if d == 14 {
        'e'
    } else {
        'f'
    }
}

fn hex_char(d: u32) -> (c: char)
    requires
        d < 16,
    ensures
        c == hex_digit(d as nat),
{
    match d {
        0 => '0',
        1 => '1',
        2 => '2',
        3 => '3',
        4 => '4',
        5 => '5',
        6 => '6',
        7 => '7',
        8 => '8',
        9 => '9',
        10 => 'a',
        11 => 'b',
        12 => 'c',
        13 => 'd',
        14 => 'e',
        _ => 'f',
    }
}

/// How one character appears inside a JSON string literal: quote and
/// backslash are escaped, control characters get their short escape or a
/// `\u00..` sequence, and every other character stands for itself.
pub open spec fn esc_char(c: char) -> Seq<char> {
    if c == '"' {
        seq!['\\', '"']
    } else if c == '\\' {
        seq!['\\', '\\']
    } else if c == '\u{08}' {
        seq!['\\', 'b']
    } else if c == '\u{0C}' {
        seq!['\\', 'f']
    } else if c == '\n' {
        seq!['\\', 'n']
    } else if c == '\r' {
        seq!['\\', 'r']
    } else if c == '\t' {
        seq!['\\', 't']
    } else if (c as u32) < 0x20 {
        seq!['\\', 'u', '0', '0', hex_digit((c as u32 / 16) as nat), hex_digit((c as u32 % 16) as nat)]
    } else {
        seq![c]
    }
}

/// A whole character sequence escaped for a JSON string literal.
pub open spec fn esc_text(s: Seq<char>) -> Seq<char>
    decreases s.len(),
{
    if s.len() == 0 {
        Seq::empty()
    } else {
        esc_text(s.drop_last()) + esc_char(s.last())
    }
}

/// A JSON string literal: a quote, the escaped characters, a quote.
pub open spec fn quoted(s: Seq<char>) -> Seq<char> {
    seq!['"'] + esc_text(s) + seq!['"']
}

fn push_esc_char(out: &mut Vec<char>, c: char)
    ensures
        final(out)@ == old(out)@ + esc_char(c),
{
    if c == '"' {
        out.push('\\');
        out.push('"');
    } else if c == '\\' {
        out.push('\\');
        out.push('\\');
    } else if c == '\u{08}' {
        out.push('\\');
        out.push('b');
    } else if c == '\u{0C}' {
        out.push('\\');
        out.push('f');
    } else if c == '\n' {
        out.push('\\');
        out.push('n');
    } else if c == '\r' {
        out.push('\\');
        out.push('r');
    } else if c == '\t' {
        out.push('\\');
        out.push('t');
    } else if (c as u32) < 0x20 {
        out.push('\\');
        out.push('u');
        out.push('0');
        out.push('0');
        out.push(hex_char(c as u32 / 16));
        out.push(hex_char(c as u32 % 16));
    } else {
        out.push(c);
    }
    assert(out@ =~= old(out)@ + esc_char(c));
}

/// Appends the characters of `s` unchanged.
pub fn push_lit(out: &mut Vec<char>, s: &str)
    ensures
        final(out)@ == old(out)@ + s@,
{
    let n = s.unicode_len();
    let mut i: usize = 0;
    while i < n
        invariant
            n == s@.len(),
            i <= n,
            out@ == old(out)@ + s@.take(i as int),
        decreases n - i,
    {
        let c = s.get_char(i);
        out.push(c);
        assert(out@ =~= old(out)@ + s@.take(i + 1 as int));
        i += 1;
    }
    assert(s@.take(n as int) =~= s@);
}

/// Appends `s` as a JSON string literal, quoted and escaped.
pub fn push_quoted(out: &mut Vec<char>, s: &str)
    ensures
        final(out)@ == old(out)@ + quoted(s@),
{
    out.push('"');
    let n = s.unicode_len();
    let mut i: usize = 0;
    while i < n
        invariant
            n == s@.len(),
            i <= n,
            out@ == old(out)@ + seq!['"'] + esc_text(s@.take(i as int)),
        decreases n - i,
    {
        let c = s.get_char(i);
        push_esc_char(out, c);
        proof {
            let pre = s@.take(i as int);
            let post = s@.take(i + 1 as int);
            assert(post.drop_last() =~= pre);
            assert(post.last() == s@[i as int]);
            assert(esc_text(post) == esc_text(pre) + esc_char(s@[i as int]));
        }
        i += 1;
    }
    out.push('"');
    assert(s@.take(n as int) =~= s@);
    assert(out@ =~= old(out)@ + quoted(s@));
}

/// Relies on `String`'s `FromIterator<char>` implementation: collecting
/// characters yields the string of exactly those characters in order.
#[verifier::external_body]
pub(crate) fn chars_to_string(v: Vec<char>) -> (s: String)
    ensures
        s@ == v@,
{
    v.into_iter().collect()
}

/// Pieces of text joined by commas.
pub open spec fn join_comma(items: Seq<Seq<char>>) -> Seq<char>
    decreases items.len(),
{
    if items.len() == 0 {
        Seq::empty()
    } else if items.len() == 1 {
        items[0]
    } else {
        join_comma(items.drop_last()) + seq![','] + items.last()
    }
}

/// Appending one more piece extends a comma-joined list by a comma and the
/// piece, except that the first piece stands alone.
pub proof fn lemma_join_comma_push(items: Seq<Seq<char>>, x: Seq<char>)
    ensures
        join_comma(items.push(x)) == if items.len() == 0 {
            x
        } else {
            (join_comma(items) + seq![','] + x)
        },
{
    assert(items.push(x).drop_last() =~= items);
    assert(items.push(x).last() == x);
}

} // verus!
