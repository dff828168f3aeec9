//! Timestamp display formatting: a calendar timestamp rendered as
//! `MM/DD/YY HH:MM:SS`, each field zero-padded to two digits.

use vstd::prelude::*;
use crate::model::DateStamp;

verus! {

/// The decimal digit character for a value below ten.
pub open spec fn digit_char(d: u8) -> char
    recommends
        d < 10,
{
    if d == 0 {
        '0'
    } else if d == 1 {
        '1'
    } else if d == 2 {
        '2'
    } else if d == 3 {
        '3'
    } else if d == 4 {
        '4'
    } else if d == 5 {
        '5'
    } else if d == 6 {
        '6'
    } else if d == 7 {
        '7'
    } else if d == 8 {
        '8'
    } else {
        '9'
    }
}

/// A value below one hundred written as exactly two decimal digits,
/// zero-padded.
pub open spec fn two_digits(n: u8) -> Seq<char>
    recommends
        n < 100,
{
    seq![digit_char(n / 10), digit_char(n % 10)]
}

/// A timestamp written as `MM/DD/YY HH:MM:SS`: month, day and two-digit
/// year separated by slashes, then a space, then hour, minute and second
/// separated by colons, every field zero-padded to two digits.
pub open spec fn stamp_chars(d: DateStamp) -> Seq<char>
    recommends
        d.wf(),
{
    two_digits(d.month) + seq!['/'] + two_digits(d.day) + seq!['/'] + two_digits(
        (d.year % 100) as u8,
    ) + seq![' '] + two_digits(d.hour) + seq![':'] + two_digits(d.minute) + seq![':'] + two_digits(
        d.second,
    )
}

/// The one-character string for a decimal digit.
fn digit_str(d: u8) -> (s: &'static str)
    requires
        d < 10,
    ensures
        s@ =~= seq![digit_char(d)],
{
    proof {
        reveal_strlit("0");
        reveal_strlit("1");
        reveal_strlit("2");
        reveal_strlit("3");
        reveal_strlit("4");
        reveal_strlit("5");
        reveal_strlit("6");
        reveal_strlit("7");
        reveal_strlit("8");
        reveal_strlit("9");
    }
    match d {
        0 => "0",
        1 => "1",
        2 => "2",
        3 => "3",
        4 => "4",
        5 => "5",
        6 => "6",
        7 => "7",
        8 => "8",
        _ => "9",
    }
}

/// Appends a value below one hundred as two zero-padded decimal digits.
fn push_two_digits(out: &mut String, n: u8)
    requires
        n < 100,
    ensures
        final(out)@ == old(out)@ + two_digits(n),
{
    let tens = n / 10;
    let ones = n % 10;
    out.append(digit_str(tens));
    out.append(digit_str(ones));
    proof {
        assert(out@ =~= old(out)@ + two_digits(n));
    }
}

/// Renders a timestamp for display as `MM/DD/YY HH:MM:SS`.
pub fn format_stamp(d: &DateStamp) -> (s: String)
    requires
        d.wf(),
    ensures
        s@ == stamp_chars(*d),
{
    proof {
        reveal_strlit("/");
        reveal_strlit(" ");
        reveal_strlit(":");
    }
    let mut s = String::new();
    push_two_digits(&mut s, d.month);
    s.append("/");
    push_two_digits(&mut s, d.day);
    s.append("/");
    push_two_digits(&mut s, (d.year % 100) as u8);
    s.append(" ");
    push_two_digits(&mut s, d.hour);
    s.append(":");
    push_two_digits(&mut s, d.minute);
    s.append(":");
    push_two_digits(&mut s, d.second);
    proof {
        assert(s@ =~= stamp_chars(*d));
    }
    s
}

} // verus!
