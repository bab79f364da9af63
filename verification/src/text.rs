//! Text building blocks shared by the renderers: decimal line numbers,
//! space padding, fill characters, and label capitalization.

use vstd::prelude::*;

verus! {

/// The decimal digit character for `d` below ten.
pub open spec fn spec_digit(d: int) -> char {
    if d == 0 {
        '0'
    } else if d == 1 {
        '1'
    } else if d == 2 {
        '2'
    } else if d == 3 {
        '3'
    } else if d == 4 {
        '4'
    } else if d == 5 {
        '5'
    } else if d == 6 {
        '6'
    } else if d == 7 {
        '7'
    } else if d == 8 {
        '8'
    } else {
        '9'
    }
}

/// Decimal representation of a non-negative number, most significant digit
/// first.
pub open spec fn spec_decimal(n: int) -> Seq<char>
    decreases n,
{
    if n < 10 {
        seq![spec_digit(n)]
    } else {
        spec_decimal(n / 10) + seq![spec_digit(n % 10)]
    }
}

/// A decimal representation has at least one digit and no more than the
/// number itself plus one.
pub proof fn lemma_decimal_len(n: int)
    requires
        n >= 0,
    ensures
        1 <= spec_decimal(n).len() <= n + 1,
    decreases n,
{
    if n >= 10 {
        lemma_decimal_len(n / 10);
    }
}

/// `n` copies of one character; empty when `n` is not positive.
pub open spec fn spec_repeat(c: char, n: int) -> Seq<char>
    decreases n,
{
    if n <= 0 {
        Seq::empty()
    } else {
        spec_repeat(c, n - 1).push(c)
    }
}

/// Pad width for the line numbers of a cell with `k` source lines: the
/// digit width of the largest index `k - 1` (one column when there are no
/// lines to number).
pub open spec fn spec_index_width(k: int) -> int {
    if k > 0 {
        spec_decimal(k - 1).len() as int
    } else {
        1
    }
}

/// The numeric prefix of one rendered line: the number right-aligned in a
/// field of `w` characters (never truncated), then `"| "`.
pub open spec fn spec_line_prefix(i: int, w: int) -> Seq<char> {
    spec_repeat(' ', w - spec_decimal(i).len()) + spec_decimal(i) + seq!['|', ' ']
}

/// Uppercases one ASCII letter; any other character is kept as it is.
pub open spec fn spec_upper(c: char) -> char {
    if 'a' <= c && c <= 'z' {
        ((c as u8) - 32) as char
    } else {
        c
    }
}

/// The input with its first character uppercased when it is an ASCII
/// letter; empty input stays empty.
pub open spec fn spec_capitalized(s: Seq<char>) -> Seq<char> {
    if s.len() == 0 {
        s
    } else {
        seq![spec_upper(s[0])] + s.subrange(1, s.len() as int)
    }
}

/// Relies on `String::push`: appends exactly one character.
#[verifier::external_body]
pub(crate) fn push_char(s: &mut String, c: char)
    ensures
        final(s)@ == old(s)@ + seq![c],
{
    s.push(c);
}

fn digit_char(d: usize) -> (c: char)
    requires
        d < 10,
    ensures
        c == spec_digit(d as int),
{
    match d {
        0 => '0',
        1 => '1',
        2 => '2',
        3 => '3',
        4 => '4',
        5 => '5',
        6 => '6',
        7 => '7',
        8 => '8',
        _ => '9',
    }
}

/// Appends the decimal representation of `n`.
pub fn push_decimal(out: &mut String, n: usize)
    ensures
        final(out)@ == old(out)@ + spec_decimal(n as int),
    decreases n,
{
    if n >= 10 {
        push_decimal(out, n / 10);
        push_char(out, digit_char(n % 10));
        proof {
            assert((old(out)@ + spec_decimal(n as int / 10)) + seq![spec_digit(n as int % 10)]
                =~= old(out)@ + spec_decimal(n as int));
        }
    } else {
        push_char(out, digit_char(n));
    }
}

/// The number of decimal digits of `n`.
pub fn dec_width(n: usize) -> (w: usize)
    ensures
        w == spec_decimal(n as int).len(),
    decreases n,
{
    if n < 10 {
        1
    } else {
        proof {
            lemma_decimal_len(n as int / 10);
        }
        let r = dec_width(n / 10);
        r + 1
    }
}

/// The pad width for the line numbers of a cell with `k` source lines.
pub fn index_width(k: usize) -> (w: usize)
    ensures
        w as int == spec_index_width(k as int),
{
    if k > 0 {
        dec_width(k - 1)
    } else {
        1
    }
}

/// Appends `n` copies of one character.
pub fn push_repeat(out: &mut String, c: char, n: usize)
    ensures
        final(out)@ == old(out)@ + spec_repeat(c, n as int),
{
    let mut i: usize = 0;
    while i < n
        invariant
            i <= n,
            out@ == old(out)@ + spec_repeat(c, i as int),
        decreases n - i,
    {
        push_char(out, c);
        i += 1;
        proof {
            assert((old(out)@ + spec_repeat(c, i as int - 1)) + seq![c] =~= old(out)@ + spec_repeat(
                c,
                i as int,
            ));
        }
    }
}

/// Appends the numeric prefix of one rendered line.
pub fn push_line_prefix(out: &mut String, i: usize, w: usize)
    ensures
        final(out)@ == old(out)@ + spec_line_prefix(i as int, w as int),
{
    let d = dec_width(i);
    let pad = if d < w {
        w - d
    } else {
        0
    };
    proof {
        assert(spec_repeat(' ', pad as int) =~= spec_repeat(
            ' ',
            w as int - spec_decimal(i as int).len(),
        ));
    }
    push_repeat(out, ' ', pad);
    push_decimal(out, i);
    push_char(out, '|');
    push_char(out, ' ');
    proof {
        assert((((old(out)@ + spec_repeat(' ', w as int - spec_decimal(i as int).len()))
            + spec_decimal(i as int)) + seq!['|']) + seq![' '] =~= old(out)@ + spec_line_prefix(
            i as int,
            w as int,
        ));
    }
}

fn upper_char(c: char) -> (r: char)
    ensures
        r == spec_upper(c),
{
    if 'a' <= c && c <= 'z' {
        ((c as u8) - 32) as char
    } else {
        c
    }
}

/// The input with its first character uppercased when it is an ASCII
/// letter, used for the human-readable labels in separators.
pub fn capitalize(s: &str) -> (r: String)
    ensures
        r@ == spec_capitalized(s@),
{
    let n = s.unicode_len();
    if n == 0 {
        let r = String::new();
        proof {
            assert(r@ =~= spec_capitalized(s@));
        }
        return r;
    }
    let first = s.get_char(0);
    let mut out = String::new();
    push_char(&mut out, upper_char(first));
    let rest = s.substring_char(1, n);
    out.append(rest);
    proof {
        assert(out@ =~= spec_capitalized(s@));
    }
    out
}

} // verus!
