//! Parsing duration expressions such as `5s`, `250 ms` or `2m`.

use vstd::prelude::*;

verus! {

/// Whether a character has the Unicode `White_Space` property.
pub open spec fn is_white(c: char) -> bool {
    let u = c as u32;
    (0x09 <= u <= 0x0D) || u == 0x20 || u == 0x85 || u == 0xA0 || u == 0x1680 || (0x2000 <= u <= 0x200A)
        || u == 0x2028 || u == 0x2029 || u == 0x202F || u == 0x205F || u == 0x3000
}

/// Whether `char::is_alphabetic` holds of a character.
pub uninterp spec fn is_letter(c: char) -> bool;

/// Relies on `char::is_alphabetic`: whether the character has the Unicode
/// `Alphabetic` property, a fact of the character alone.
#[verifier::external_body]
fn letter(c: char) -> (r: bool)
    ensures
        r == is_letter(c),
{
    c.is_alphabetic()
}

fn white(c: char) -> (r: bool)
    ensures
        r == is_white(c),
{
    let u = c as u32;
    (0x09 <= u && u <= 0x0D) || u == 0x20 || u == 0x85 || u == 0xA0 || u == 0x1680 || (0x2000 <= u && u
        <= 0x200A) || u == 0x2028 || u == 0x2029 || u == 0x202F || u == 0x205F || u == 0x3000
}

/// Why a number could not be read.
#[derive(Clone, Copy, Debug, PartialEq, Eq, Structural)]
pub enum ValueError {
    /// There were no characters.
    Empty,
    /// A character is not a decimal digit.
    InvalidDigit,
    /// The number does not fit in a `u64`.
    Overflow,
}

/// Why a duration expression was refused.
#[derive(Clone, Copy, Debug, PartialEq, Eq, Structural)]
pub enum ParseDurationError {
    InvalidFormat,
    InvalidValue(ValueError),
}

/// The number of leading white-space characters of `s`.
pub open spec fn lead(s: Seq<char>) -> nat
    decreases s.len(),
{
    if s.len() > 0 && is_white(s[0]) { 1 + lead(s.drop_first()) } else { 0 }
}

/// The number of trailing white-space characters of `s`.
pub open spec fn trail(s: Seq<char>) -> nat
    decreases s.len(),
{
    if s.len() > 0 && is_white(s.last()) { 1 + trail(s.drop_last()) } else { 0 }
}

/// `s` without leading and trailing white space.
#[verifier::opaque]
pub open spec fn trimmed(s: Seq<char>) -> Seq<char> {
    let a = lead(s);
    if a == s.len() { seq![] } else { s.subrange(a as int, s.len() - trail(s)) }
}

/// Whether position `i` is marked in `marks`; positions past its end are not.
pub open spec fn marked(marks: Seq<bool>, i: int) -> bool {
    0 <= i < marks.len() && marks[i]
}

/// Whether the character at `i` of `t` ends the number: white space, or a
/// character marked alphabetic, the marks of `t` starting at `offset` in
/// `marks`.
pub open spec fn ends_number(t: Seq<char>, marks: Seq<bool>, offset: int, i: int) -> bool {
    is_white(t[i]) || marked(marks, offset + i)
}

/// Whether some character of `t` ends the number.
pub open spec fn has_end(t: Seq<char>, marks: Seq<bool>, offset: int) -> bool {
    exists|i: int| 0 <= i < t.len() && ends_number(t, marks, offset, i)
}

/// The first position of `t` whose character ends the number.
#[verifier::opaque]
pub open spec fn first_end(t: Seq<char>, marks: Seq<bool>, offset: int) -> int
    recommends
        has_end(t, marks, offset),
{
    choose|i: int|
        0 <= i < t.len() && ends_number(t, marks, offset, i) && forall|j: int|
            0 <= j < i ==> !ends_number(t, marks, offset, j)
}

/// The value of a decimal digit character.
pub open spec fn digit_value(c: char) -> nat {
    (c as u32 - 48) as nat
}

/// Whether `c` is an ASCII decimal digit.
pub open spec fn is_digit(c: char) -> bool {
    48 <= c as u32 <= 57
}

/// Reads the digits of `s` after the value `acc`, left to right: a non-digit
/// is an invalid digit, a value past `u64::MAX` an overflow.
pub open spec fn read_digits(s: Seq<char>, acc: nat) -> Result<nat, ValueError>
    decreases s.len(),
{
    if s.len() == 0 {
        Ok(acc)
    } else if !is_digit(s[0]) {
        Err(ValueError::InvalidDigit)
    } else if acc * 10 + digit_value(s[0]) > u64::MAX {
        Err(ValueError::Overflow)
    } else {
        read_digits(s.drop_first(), acc * 10 + digit_value(s[0]))
    }
}

/// Reads an unsigned decimal number with an optional leading `+`.
#[verifier::opaque]
pub open spec fn read_u64(s: Seq<char>) -> Result<nat, ValueError> {
    if s.len() == 0 {
        Err(ValueError::Empty)
    } else if s[0] == '+' {
        if s.len() == 1 { Err(ValueError::InvalidDigit) } else { read_digits(s.drop_first(), 0) }
    } else {
        read_digits(s, 0)
    }
}

/// The milliseconds in one of a unit: `ms`, `s` or `m`; 0 for anything else.
#[verifier::opaque]
pub open spec fn unit_millis(u: Seq<char>) -> nat {
    if u == seq!['m', 's'] { 1 } else if u == seq!['s'] { 1000 } else if u == seq!['m'] { 60_000 } else { 0 }
}

/// What a duration expression denotes, in milliseconds, where `marks` tells
/// which characters are alphabetic: after trimming, a number that runs up to
/// the first white-space or alphabetic character, then a unit, each trimmed.
/// A duration of more than `u64::MAX` seconds overflows.
pub open spec fn duration_of_marked(input: Seq<char>, marks: Seq<bool>) -> Result<nat, ParseDurationError> {
    let t = trimmed(input);
    let a = lead(input) as int;
    if !has_end(t, marks, a) {
        Err(ParseDurationError::InvalidFormat)
    } else {
        let p = first_end(t, marks, a);
        match read_u64(trimmed(t.subrange(0, p))) {
            Err(e) => Err(ParseDurationError::InvalidValue(e)),
            Ok(v) => {
                let u = unit_millis(trimmed(t.subrange(p, t.len() as int)));
                if u == 0 {
                    Err(ParseDurationError::InvalidFormat)
                } else if v * u / 1000 > u64::MAX {
                    Err(ParseDurationError::InvalidValue(ValueError::Overflow))
                } else {
                    Ok(v * u)
                }
            },
        }
    }
}

/// Which characters of `s` are alphabetic.
pub open spec fn alphabetic_marks(s: Seq<char>) -> Seq<bool> {
    Seq::new(s.len(), |i: int| is_letter(s[i]))
}

/// What a duration expression denotes, in milliseconds.
pub open spec fn duration_of(input: Seq<char>) -> Result<nat, ParseDurationError> {
    duration_of_marked(input, alphabetic_marks(input))
}

fn chars_of(input: &str) -> (r: Vec<char>)
    ensures
        r@ == input@,
{
    let n = input.unicode_len();
    let mut r: Vec<char> = Vec::new();
    let mut i: usize = 0;
    while i < n
        invariant
            n == input@.len(),
            i <= n,
            r@ == input@.subrange(0, i as int),
        decreases n - i,
    {
        r.push(input.get_char(i));
        i = i + 1;
        assert(r@ =~= input@.subrange(0, i as int));
    }
    assert(r@ =~= input@);
    r
}

/// The bounds, within `lo..hi`, of what is left of `v[lo..hi]` once trimmed.
fn trim_range(v: &Vec<char>, lo: usize, hi: usize) -> (r: (usize, usize))
    requires
        lo <= hi <= v@.len(),
    ensures
        lo <= r.0 <= r.1 <= hi,
        r.0 == lo + lead(v@.subrange(lo as int, hi as int)),
        v@.subrange(r.0 as int, r.1 as int) == trimmed(v@.subrange(lo as int, hi as int)),
{
    reveal(trimmed);
    let ghost s = v@.subrange(lo as int, hi as int);
    let mut a: usize = lo;
    while a < hi && white(v[a])
        invariant
            lo <= a <= hi <= v@.len(),
            s == v@.subrange(lo as int, hi as int),
            lead(s) == (a - lo) + lead(v@.subrange(a as int, hi as int)),
            forall|k: int| lo <= k < a ==> is_white(v@[k]),
        decreases hi - a,
    {
        assert(v@.subrange(a as int, hi as int).drop_first() =~= v@.subrange(a + 1, hi as int));
        a = a + 1;
    }
    assert(lead(v@.subrange(a as int, hi as int)) == 0);
    if a == hi {
        assert(v@.subrange(a as int, a as int) =~= seq![]);
        return (a, a);
    }
    let mut b: usize = hi;
    while b > lo && white(v[b - 1])
        invariant
            lo <= a < hi,
            lo <= b <= hi <= v@.len(),
            !is_white(v@[a as int]),
            s == v@.subrange(lo as int, hi as int),
            trail(s) == (hi - b) + trail(v@.subrange(lo as int, b as int)),
            forall|k: int| b <= k < hi ==> is_white(v@[k]),
        decreases b,
    {
        assert(v@.subrange(lo as int, b as int).drop_last() =~= v@.subrange(lo as int, b - 1));
        b = b - 1;
    }
    assert(trail(v@.subrange(lo as int, b as int)) == 0);
    assert(b > a);
    assert(v@.subrange(a as int, b as int) =~= s.subrange(lead(s) as int, s.len() - trail(s)));
    (a, b)
}

/// Reads `v[x..y]` as an unsigned decimal number.
fn read_number(v: &Vec<char>, x: usize, y: usize) -> (r: Result<u64, ValueError>)
    requires
        x <= y <= v@.len(),
    ensures
        match read_u64(v@.subrange(x as int, y as int)) {
            Ok(n) => r is Ok && r->Ok_0 as nat == n,
            Err(e) => r == Err::<u64, ValueError>(e),
        },
{
    reveal(read_u64);
    let ghost s = v@.subrange(x as int, y as int);
    if x == y {
        return Err(ValueError::Empty);
    }
    let mut i: usize = x;
    if v[x] == '+' {
        if y - x == 1 {
            return Err(ValueError::InvalidDigit);
        }
        assert(s.drop_first() =~= v@.subrange(x + 1, y as int));
        i = x + 1;
    }
    let mut acc: u64 = 0;
    while i < y
        invariant
            x <= i <= y <= v@.len(),
            s == v@.subrange(x as int, y as int),
            read_u64(s) == read_digits(v@.subrange(i as int, y as int), acc as nat),
        decreases y - i,
    {
        let c = v[i];
        let ghost rest = v@.subrange(i as int, y as int);
        assert(rest[0] == c);
        let cu = c as u32;
        if !(48 <= cu && cu <= 57) {
            assert(!is_digit(rest[0]));
            return Err(ValueError::InvalidDigit);
        }
        let d: u64 = (cu - 48) as u64;
        assert(d as nat == digit_value(rest[0]));
        let n: u128 = acc as u128 * 10 + d as u128;
        if n > u64::MAX as u128 {
            return Err(ValueError::Overflow);
        }
        assert(rest.drop_first() =~= v@.subrange(i + 1, y as int));
        acc = n as u64;
        i = i + 1;
    }
    Ok(acc)
}

/// The milliseconds in one of the unit `v[x..y]`, 0 where it is no unit.
fn read_unit(v: &Vec<char>, x: usize, y: usize) -> (r: u64)
    requires
        x <= y <= v@.len(),
    ensures
        r == unit_millis(v@.subrange(x as int, y as int)),
        r <= 60_000,
{
    reveal(unit_millis);
    let ghost u = v@.subrange(x as int, y as int);
    let ghost ms = seq!['m', 's'];
    let ghost sec = seq!['s'];
    let ghost min = seq!['m'];
    assert(ms.len() == 2 && ms[0] == 'm' && ms[1] == 's');
    assert(sec.len() == 1 && sec[0] == 's');
    assert(min.len() == 1 && min[0] == 'm');
    if y - x == 2 && v[x] == 'm' && v[x + 1] == 's' {
        assert(u =~= ms);
        1
    } else if y - x == 1 && v[x] == 's' {
        assert(u =~= sec);
        1000
    } else if y - x == 1 && v[x] == 'm' {
        assert(u =~= min);
        60_000
    } else {
        assert(u != ms) by {
            if u == ms {
                assert(u[0] == v@[x as int] && u[1] == v@[x + 1]);
            }
        }
        assert(u != sec && u != min) by {
            if u == sec || u == min {
                assert(u[0] == v@[x as int]);
            }
        }
        0
    }
}

/// The first position in `a..b` whose character ends the number, or `b`.
fn find_end(v: &Vec<char>, marks: &Vec<bool>, a: usize, b: usize) -> (i: usize)
    requires
        a <= b <= v@.len(),
    ensures
        a <= i <= b,
        i == b <==> !has_end(v@.subrange(a as int, b as int), marks@, a as int),
        i < b ==> first_end(v@.subrange(a as int, b as int), marks@, a as int) == i - a,
{
    reveal(first_end);
    let ghost t = v@.subrange(a as int, b as int);
    let ghost m = marks@;
    let mut i: usize = a;
    while i < b && !(white(v[i]) || (i < marks.len() && marks[i]))
        invariant
            a <= i <= b <= v@.len(),
            t == v@.subrange(a as int, b as int),
            m == marks@,
            forall|j: int| 0 <= j < i - a ==> !ends_number(t, m, a as int, j),
        decreases b - i,
    {
        assert(t[i - a] == v@[i as int]);
        i = i + 1;
    }
    if i == b {
        assert(!has_end(t, m, a as int));
        return i;
    }
    let ghost p = (i - a) as int;
    assert(t[p] == v@[i as int]);
    assert(ends_number(t, m, a as int, p));
    assert(has_end(t, m, a as int));
    assert(first_end(t, m, a as int) == p) by {
        let q = first_end(t, m, a as int);
        assert(0 <= q < t.len() && ends_number(t, m, a as int, q) && forall|j: int|
            0 <= j < q ==> !ends_number(t, m, a as int, j));
        if q > p {
            assert(!ends_number(t, m, a as int, p));
        }
    }
    i
}

/// Parses the characters of a duration expression into milliseconds, where
/// `alphabetic` marks the characters that are alphabetic: a number, optional
/// white space, then `ms`, `s` or `m`, with white space around it all
/// allowed.
pub fn parse_marked(chars: &Vec<char>, alphabetic: &Vec<bool>) -> (r: Result<u128, ParseDurationError>)
    ensures
        match duration_of_marked(chars@, alphabetic@) {
            Ok(ms) => r == Ok::<u128, ParseDurationError>(ms as u128),
            Err(e) => r == Err::<u128, ParseDurationError>(e),
        },
{
    let v = chars;
    let (a, b) = trim_range(v, 0, v.len());
    let ghost t = v@.subrange(a as int, b as int);
    assert(v@.subrange(0, v@.len() as int) =~= v@);
    let i = find_end(v, alphabetic, a, b);
    if i == b {
        return Err(ParseDurationError::InvalidFormat);
    }
    let ghost p = (i - a) as int;
    let (x, y) = trim_range(v, a, i);
    assert(v@.subrange(a as int, i as int) =~= t.subrange(0, p));
    let value = match read_number(v, x, y) {
        Ok(n) => n,
        Err(e) => {
            return Err(ParseDurationError::InvalidValue(e));
        },
    };
    let (ux, uy) = trim_range(v, i, b);
    assert(v@.subrange(i as int, b as int) =~= t.subrange(p, t.len() as int));
    let unit = read_unit(v, ux, uy);
    if unit == 0 {
        return Err(ParseDurationError::InvalidFormat);
    }
    let wide: u128 = value as u128;
    assert(wide * (unit as u128) <= 0xffff_ffff_ffff_ffff * 60_000) by (nonlinear_arith)
        requires
            wide <= 0xffff_ffff_ffff_ffff,
            unit <= 60_000,
    ;
    let ms: u128 = wide * unit as u128;
    if ms / 1000 > u64::MAX as u128 {
        return Err(ParseDurationError::InvalidValue(ValueError::Overflow));
    }
    Ok(ms)
}

/// Parses a duration expression into milliseconds: a number, optional white
/// space, then `ms`, `s` or `m`, with white space around it all allowed.
pub fn parse_duration(input: &str) -> (r: Result<u128, ParseDurationError>)
    ensures
        match duration_of(input@) {
            Ok(ms) => r == Ok::<u128, ParseDurationError>(ms as u128),
            Err(e) => r == Err::<u128, ParseDurationError>(e),
        },
{
    let v = chars_of(input);
    let mut marks: Vec<bool> = Vec::new();
    let mut i: usize = 0;
    while i < v.len()
        invariant
            i <= v@.len(),
            marks@ == alphabetic_marks(v@).subrange(0, i as int),
        decreases v@.len() - i,
    {
        marks.push(letter(v[i]));
        i = i + 1;
        assert(marks@ =~= alphabetic_marks(v@).subrange(0, i as int));
    }
    assert(marks@ =~= alphabetic_marks(v@));
    parse_marked(&v, &marks)
}

/// The error in words.
pub open spec fn duration_error_text(e: ParseDurationError) -> Seq<char> {
    match e {
        ParseDurationError::InvalidFormat => "invalid duration format"@,
        ParseDurationError::InvalidValue(v) => "invalid duration value: "@ + value_error_text(v),
    }
}

/// Why a number could not be read, in words.
pub open spec fn value_error_text(e: ValueError) -> Seq<char> {
    match e {
        ValueError::Empty => "cannot parse integer from empty string"@,
        ValueError::InvalidDigit => "invalid digit found in string"@,
        ValueError::Overflow => "number too large to fit in target type"@,
    }
}

impl ValueError {
    /// The error in words.
    pub fn message(&self) -> (r: &'static str)
        ensures
            r@ == value_error_text(*self),
    {
        match self {
            ValueError::Empty => "cannot parse integer from empty string",
            ValueError::InvalidDigit => "invalid digit found in string",
            ValueError::Overflow => "number too large to fit in target type",
        }
    }
}

impl ParseDurationError {
    /// The error in words.
    pub fn message(&self) -> (r: String)
        ensures
            r@ == duration_error_text(*self),
    {
        match self {
            ParseDurationError::InvalidFormat => String::from_str("invalid duration format"),
            ParseDurationError::InvalidValue(v) => {
                let mut s = String::from_str("invalid duration value: ");
                s.append(v.message());
                s
            },
        }
    }
}

} // verus!
