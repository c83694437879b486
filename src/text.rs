//! Building text: decimal numbers, padding and joining.

use vstd::prelude::*;

verus! {

/// Relies on `String::push`: appends one character at the end.
pub assume_specification[ String::push ](s: &mut String, ch: char)
    ensures
        final(s)@ == old(s)@.push(ch),
;

/// The character of a decimal digit.
pub open spec fn digit_char(d: int) -> char {
    if d == 0 { '0' }
    else if d == 1 { '1' }
    else if d == 2 { '2' }
    else if d == 3 { '3' }
    else if d == 4 { '4' }
    else if d == 5 { '5' }
    else if d == 6 { '6' }
    else if d == 7 { '7' }
    else if d == 8 { '8' }
    else { '9' }
}

/// The decimal text of `n`, without leading zeros.
pub open spec fn dec(n: nat) -> Seq<char>
    decreases n,
{
    if n < 10 {
        seq![digit_char(n as int)]
    } else {
        dec(n / 10).push(digit_char((n % 10) as int))
    }
}

/// The decimal text of `n`, with a leading zero below ten.
pub open spec fn dec2(n: nat) -> Seq<char> {
    if n < 10 { seq!['0'] + dec(n) } else { dec(n) }
}

/// `k` spaces.
pub open spec fn spaces(k: nat) -> Seq<char> {
    Seq::new(k, |i: int| ' ')
}

/// `t` followed by spaces up to `width` characters; `t` alone if it is wider.
pub open spec fn padded(t: Seq<char>, width: nat) -> Seq<char> {
    if t.len() >= width { t } else { t + spaces((width - t.len()) as nat) }
}

/// The character of a decimal digit.
pub fn digit(d: u64) -> (c: char)
    requires
        d < 10,
    ensures
        c == digit_char(d as int),
{
    match d {
        0 => '0',
        1 => '1',
        2 => '2',
        3 => '3',
        4 => '4',
        5 => '5',
        6 => '6',
        7 => '7',
        8 => '8',
        _ => '9',
    }
}

/// Appends the character of a decimal digit.
pub fn push_digit(s: &mut String, d: u64)
    requires
        d < 10,
    ensures
        final(s)@ == old(s)@.push(digit_char(d as int)),
{
    s.push(digit(d));
}

/// Appends the decimal text of `n`.
pub fn push_decimal(s: &mut String, n: u64)
    ensures
        final(s)@ == old(s)@ + dec(n as nat),
    decreases n,
{
    if n < 10 {
        s.push(digit(n));
        assert(s@ =~= old(s)@ + dec(n as nat));
    } else {
        push_decimal(s, n / 10);
        s.push(digit(n % 10));
        assert(s@ =~= old(s)@ + dec(n as nat));
    }
}

/// The lines joined by newlines.
pub open spec fn joined(lines: Seq<Seq<char>>) -> Seq<char>
    decreases lines.len(),
{
    if lines.len() == 0 {
        seq![]
    } else if lines.len() == 1 {
        lines[0]
    } else {
        joined(lines.drop_last()) + seq!['\n'] + lines.last()
    }
}

/// The text of each string.
pub open spec fn texts(v: Seq<String>) -> Seq<Seq<char>> {
    v.map_values(|s: String| s@)
}

/// Joins lines with newlines.
pub fn join_lines(lines: &Vec<String>) -> (r: String)
    ensures
        r@ == joined(texts(lines@)),
{
    let mut s = String::new();
    let mut i: usize = 0;
    while i < lines.len()
        invariant
            i <= lines@.len(),
            s@ == joined(texts(lines@.subrange(0, i as int))),
        decreases lines@.len() - i,
    {
        if i > 0 {
            s.push('\n');
        }
        s.append(lines[i].as_str());
        let ghost next = lines@.subrange(0, i + 1);
        assert(texts(next).drop_last() =~= texts(lines@.subrange(0, i as int)));
        assert(texts(next).last() == lines@[i as int]@);
        i = i + 1;
        assert(s@ =~= joined(texts(next)));
    }
    assert(lines@.subrange(0, lines@.len() as int) =~= lines@);
    s
}

/// Appends `t`, then spaces up to `width` characters.
pub fn push_padded(s: &mut String, t: &str, width: usize)
    ensures
        final(s)@ == old(s)@ + padded(t@, width as nat),
{
    let n = t.unicode_len();
    s.append(t);
    let mut k: usize = n;
    while k < width
        invariant
            n == t@.len(),
            n <= k,
            k <= width || k == n,
            s@ == old(s)@ + t@ + spaces((k - n) as nat),
        decreases width - k,
    {
        s.push(' ');
        k = k + 1;
        assert(s@ =~= old(s)@ + t@ + spaces((k - n) as nat));
    }
    if n >= width {
        assert(spaces(0) =~= Seq::<char>::empty());
        assert(s@ =~= old(s)@ + padded(t@, width as nat));
    } else {
        assert(k == width);
        assert(s@ =~= old(s)@ + padded(t@, width as nat));
    }
}

} // verus!
