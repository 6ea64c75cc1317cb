//! Durations written as clock readings.

use crate::text::{decimal, push_char, push_decimal};
use vstd::prelude::*;

verus! {

/// The quotient of `a` by a positive `b`, rounded toward zero.
pub open spec fn quotient(a: int, b: int) -> int {
    if a >= 0 {
        a / b
    } else {
        -((-a) / b)
    }
}

/// What `quotient` leaves: it has the sign of `a`, or is zero.
pub open spec fn remainder(a: int, b: int) -> int {
    a - b * quotient(a, b)
}

/// `v` in at least two characters: a number below ten gets a zero in front of
/// it, and a negative one its sign.
pub open spec fn two_digits(v: int) -> Seq<char> {
    if v < 0 {
        seq!['-'] + decimal((-v) as nat)
    } else if v < 10 {
        seq!['0'] + decimal(v as nat)
    } else {
        decimal(v as nat)
    }
}

/// Hours, minutes and seconds of `seconds`, each in two digits, with colons
/// between them. The hours are not wrapped at a day.
pub open spec fn uptime_text(seconds: int) -> Seq<char> {
    two_digits(quotient(seconds, 3600)) + seq![':'] + two_digits(
        quotient(remainder(seconds, 3600), 60),
    ) + seq![':'] + two_digits(remainder(seconds, 60))
}

/// Hours and minutes of `seconds`, each in two digits, with a colon between
/// them. The hours are not wrapped at a day.
pub open spec fn hours_minutes_text(seconds: int) -> Seq<char> {
    two_digits(quotient(seconds, 3600)) + seq![':'] + two_digits(
        remainder(quotient(seconds, 60), 60),
    )
}

/// The absolute value of `v`.
pub fn magnitude(v: i64) -> (m: u64)
    ensures
        v >= 0 ==> m == v,
        v < 0 ==> m == -v,
{
    if v >= 0 {
        v as u64
    } else if v == i64::MIN {
        0x8000_0000_0000_0000
    } else {
        (0 - v) as u64
    }
}

/// Appends `v` in at least two characters.
pub fn push_two_digits(out: &mut String, v: i64)
    ensures
        final(out)@ == old(out)@ + two_digits(v as int),
{
    if v < 0 {
        push_char(out, '-');
        push_decimal(out, magnitude(v));
    } else {
        if v < 10 {
            push_char(out, '0');
        }
        push_decimal(out, v as u64);
    }
}

/// Quotient and remainder of `a` by `b`, both rounded toward zero.
pub fn divide(a: i64, b: i64) -> (qr: (i64, i64))
    requires
        b > 0,
    ensures
        qr.0 == quotient(a as int, b as int),
        qr.1 == remainder(a as int, b as int),
{
    if a >= 0 {
        let n: u64 = a as u64;
        let d: u64 = b as u64;
        let q: u64 = n / d;
        let r: u64 = n % d;
        assert(n == d * q + r) by (nonlinear_arith)
            requires
                d > 0,
                q == n / d,
                r == n % d,
        ;
        (q as i64, r as i64)
    } else {
        let m: u64 = magnitude(a);
        let d: u64 = b as u64;
        let q: u64 = m / d;
        let r: u64 = m % d;
        assert(m == d * q + r && q <= m) by (nonlinear_arith)
            requires
                d > 0,
                q == m / d,
                r == m % d,
        ;
        assert(-r == remainder(a as int, b as int)) by (nonlinear_arith)
            requires
                a == -m,
                b == d,
                m == d * q + r,
                remainder(a as int, b as int) == a - b * (-q),
        ;
        if q == 0x8000_0000_0000_0000 {
            (i64::MIN, 0 - (r as i64))
        } else {
            (0 - (q as i64), 0 - (r as i64))
        }
    }
}

/// A duration of `seconds` as `HH:MM:SS`.
pub fn format_uptime(seconds: i64) -> (text: String)
    ensures
        text@ == uptime_text(seconds as int),
{
    let (hours, rest) = divide(seconds, 3600);
    let (minutes, _) = divide(rest, 60);
    let (_, secs) = divide(seconds, 60);
    let mut text = String::new();
    push_two_digits(&mut text, hours);
    push_char(&mut text, ':');
    push_two_digits(&mut text, minutes);
    push_char(&mut text, ':');
    push_two_digits(&mut text, secs);
    text
}

/// A duration of `seconds` as `HH:MM`.
pub fn format_hours_minutes(seconds: i64) -> (text: String)
    ensures
        text@ == hours_minutes_text(seconds as int),
{
    let (hours, _) = divide(seconds, 3600);
    let (all_minutes, _) = divide(seconds, 60);
    let (_, minutes) = divide(all_minutes, 60);
    let mut text = String::new();
    push_two_digits(&mut text, hours);
    push_char(&mut text, ':');
    push_two_digits(&mut text, minutes);
    text
}

} // verus!
