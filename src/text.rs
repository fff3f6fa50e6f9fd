//! Small text helpers for what the interface shows.
use vstd::prelude::*;

verus! {

/// Relies on `String::push`: appends one character.
#[verifier::external_body]
pub(crate) fn push_char(s: &mut String, c: char)
    ensures
        final(s)@ == old(s)@.push(c),
{
    s.push(c)
}

/// Relies on `String::push_str`: appends the characters of `t`.
#[verifier::external_body]
pub(crate) fn push_str(s: &mut String, t: &str)
    ensures
        final(s)@ == old(s)@ + t@,
{
    s.push_str(t)
}

/// The decimal digit character for `d`.
pub open spec fn digit(d: int) -> char {
    ((d + 48) as u8) as char
}

fn digit_char(d: u64) -> (c: char)
    requires
        d < 10,
    ensures
        c == digit(d as int),
{
    ((d as u8) + 48) as char
}

/// The decimal numeral of `n`, without leading zeros.
pub open spec fn decimal(n: nat) -> Seq<char>
    decreases n,
{
    if n < 10 {
        seq![digit(n as int)]
    } else {
        decimal(n / 10).push(digit((n % 10) as int))
    }
}

/// The decimal numeral of `n`, padded with a zero to at least two digits.
pub open spec fn two_digits(n: nat) -> Seq<char> {
    if n < 10 {
        seq!['0', digit(n as int)]
    } else {
        decimal(n)
    }
}

/// Appends the decimal numeral of `n`.
pub(crate) fn push_decimal(s: &mut String, n: u32)
    ensures
        final(s)@ == old(s)@ + decimal(n as nat),
    decreases n,
{
    let ghost before = s@;
    if n >= 10 {
        push_decimal(s, n / 10);
    }
    push_char(s, digit_char((n % 10) as u64));
    assert(s@ =~= before + decimal(n as nat));
}

/// `mm:ss` for a time of `ms` milliseconds: minutes within the hour and
/// seconds within the minute, each as two digits.
pub open spec fn clock_text(ms: u64) -> Seq<char> {
    let secs = ms as int / 1000;
    let min = (secs / 60) % 60;
    let sec = secs % 60;
    seq![digit(min / 10), digit(min % 10), ':', digit(sec / 10), digit(sec % 10)]
}

/// Formats a time of `duration` milliseconds as `mm:ss`, minutes taken within
/// the hour.
pub fn fmt_duration(duration: u64) -> (r: String)
    ensures
        r@ == clock_text(duration),
{
    let secs = duration / 1000;
    let min = (secs / 60) % 60;
    let sec = secs % 60;
    let mut s = String::new();
    push_char(&mut s, digit_char(min / 10));
    push_char(&mut s, digit_char(min % 10));
    push_char(&mut s, ':');
    push_char(&mut s, digit_char(sec / 10));
    push_char(&mut s, digit_char(sec % 10));
    assert(s@ =~= clock_text(duration));
    s
}

} // verus!
