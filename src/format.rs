//! Shared numeric formatting: byte counts and percentages.

use vstd::prelude::*;
use crate::text::{dec, dec2, push_decimal};

verus! {

/// Bytes in a kibibyte.
pub const KIB: u64 = 1024;

/// `1024` to the power `k`.
pub open spec fn unit_of(k: nat) -> nat
    decreases k,
{
    if k == 0 { 1 } else { 1024 * unit_of((k - 1) as nat) }
}

/// The binary bracket of a byte count: 0 for bytes, 1 for KiB, up to 5 for PiB.
pub open spec fn bracket(bytes: nat) -> nat {
    if bytes < unit_of(1) { 0 }
    else if bytes < unit_of(2) { 1 }
    else if bytes < unit_of(3) { 2 }
    else if bytes < unit_of(4) { 3 }
    else if bytes < unit_of(5) { 4 }
    else { 5 }
}

/// The suffix of a bracket.
pub open spec fn suffix(k: nat) -> Seq<char> {
    if k == 0 { seq!['B'] }
    else if k == 1 { seq!['K', 'i', 'B'] }
    else if k == 2 { seq!['M', 'i', 'B'] }
    else if k == 3 { seq!['G', 'i', 'B'] }
    else if k == 4 { seq!['T', 'i', 'B'] }
    else { seq!['P', 'i', 'B'] }
}

/// `whole.hundredths suffix` of a byte count in a given unit, truncated.
pub open spec fn scaled_text(bytes: nat, unit: nat, sfx: Seq<char>) -> Seq<char>
    recommends
        unit > 0,
{
    dec(bytes / unit) + seq!['.'] + dec2((bytes % unit) * 100 / unit) + seq![' '] + sfx
}

/// The human-readable text of a byte count.
pub open spec fn size_text(bytes: nat) -> Seq<char> {
    scaled_text(bytes, unit_of(bracket(bytes)), suffix(bracket(bytes)))
}

proof fn lemma_units()
    ensures
        unit_of(0) == 1,
        unit_of(1) == 1024,
        unit_of(2) == 1024 * 1024,
        unit_of(3) == 1024 * 1024 * 1024,
        unit_of(4) == 1024 * 1024 * 1024 * 1024,
        unit_of(5) == 1024 * 1024 * 1024 * 1024 * 1024,
{
    reveal_with_fuel(unit_of, 6);
}

fn push_suffix(s: &mut String, k: u64)
    requires
        k <= 5,
    ensures
        final(s)@ == old(s)@ + suffix(k as nat),
{
    if k == 0 {
        s.push('B');
    } else {
        if k == 1 {
            s.push('K');
        } else if k == 2 {
            s.push('M');
        } else if k == 3 {
            s.push('G');
        } else if k == 4 {
            s.push('T');
        } else {
            s.push('P');
        }
        s.push('i');
        s.push('B');
    }
    assert(s@ =~= old(s)@ + suffix(k as nat));
}

fn push_two_digits(s: &mut String, n: u64)
    ensures
        final(s)@ == old(s)@ + dec2(n as nat),
{
    if n < 10 {
        s.push('0');
    }
    push_decimal(s, n);
    assert(s@ =~= old(s)@ + dec2(n as nat));
}

/// Formats a byte count in binary units with two truncated decimals,
/// using integer arithmetic only (`1536` gives `1.50 KiB`).
pub fn human_readable_size(bytes: u64) -> (r: String)
    ensures
        r@ == size_text(bytes as nat),
{
    proof {
        lemma_units();
    }
    let mut unit: u64 = 1;
    let mut k: u64 = 0;
    while k < 5 && bytes / KIB >= unit
        invariant
            k <= 5,
            unit == unit_of(k as nat),
            unit_of(0) == 1,
            unit_of(1) == 1024,
            unit_of(2) == 1024 * 1024,
            unit_of(3) == 1024 * 1024 * 1024,
            unit_of(4) == 1024 * 1024 * 1024 * 1024,
            unit_of(5) == 1024 * 1024 * 1024 * 1024 * 1024,
            forall|j: nat| j <= k ==> #[trigger] unit_of(j) <= bytes || j == 0,
        decreases 5 - k,
    {
        unit = unit * KIB;
        k = k + 1;
    }
    assert(k as nat == bracket(bytes as nat));
    let mut s = String::new();
    push_decimal(&mut s, bytes / unit);
    s.push('.');
    push_two_digits(&mut s, (bytes % unit) * 100 / unit);
    s.push(' ');
    push_suffix(&mut s, k);
    assert(s@ =~= size_text(bytes as nat));
    s
}

/// Tenths of a percent of `numerator / denominator`: 0 for a zero denominator,
/// `u64::MAX` where the quotient does not fit.
pub open spec fn percent_tenths(numerator: nat, denominator: nat) -> nat {
    if denominator == 0 {
        0
    } else if numerator * 1000 / denominator > u64::MAX {
        u64::MAX as nat
    } else {
        numerator * 1000 / denominator
    }
}

/// `whole.tenth` of a tenths-of-a-percent value.
pub open spec fn tenths_text(tenths: nat) -> Seq<char> {
    dec(tenths / 10) + seq!['.'] + dec(tenths % 10)
}

/// Computes tenths of a percent in wide integer arithmetic.
pub fn percentage_tenths(numerator: u64, denominator: u64) -> (r: u64)
    ensures
        r == percent_tenths(numerator as nat, denominator as nat),
{
    if denominator == 0 {
        0
    } else {
        let wide: u128 = (numerator as u128) * 1000 / (denominator as u128);
        if wide > u64::MAX as u128 {
            u64::MAX
        } else {
            wide as u64
        }
    }
}

/// Formats `numerator / denominator` as a percentage with one decimal
/// (`1` of `3` gives `33.3`; a zero denominator gives `0.0`).
pub fn percentage(numerator: u64, denominator: u64) -> (r: String)
    ensures
        r@ == tenths_text(percent_tenths(numerator as nat, denominator as nat)),
{
    let tenths = percentage_tenths(numerator, denominator);
    let mut s = String::new();
    push_decimal(&mut s, tenths / 10);
    s.push('.');
    push_decimal(&mut s, tenths % 10);
    assert(s@ =~= tenths_text(tenths as nat));
    s
}

/// How full a resource is, banded from a tenths-of-a-percent value.
#[derive(Clone, Copy, Debug, PartialEq, Eq, Structural)]
pub enum Severity {
    Nominal,
    Warning,
    Critical,
}

/// Above 90 % is critical, above 70 % a warning, the rest nominal.
pub open spec fn severity_of(tenths: nat) -> Severity {
    if tenths > 900 {
        Severity::Critical
    } else if tenths > 700 {
        Severity::Warning
    } else {
        Severity::Nominal
    }
}

/// Bands a tenths-of-a-percent value.
pub fn severity(tenths: u64) -> (r: Severity)
    ensures
        r == severity_of(tenths as nat),
{
    if tenths > 900 {
        Severity::Critical
    } else if tenths > 700 {
        Severity::Warning
    } else {
        Severity::Nominal
    }
}

} // verus!
