//! Formatting of numbers and dates.

use crate::ledger::Date;
use vstd::prelude::*;
use vstd::string::StringExecFns;

verus! {

/// The character for a decimal digit.
pub open spec fn digit_char(digit: int) -> char {
    if digit == 0 {
        '0'
    } else if digit == 1 {
        '1'
    } else if digit == 2 {
        '2'
    } else if digit == 3 {
        '3'
    } else if digit == 4 {
        '4'
    } else if digit == 5 {
        '5'
    } else if digit == 6 {
        '6'
    } else if digit == 7 {
        '7'
    } else if digit == 8 {
        '8'
    } else {
        '9'
    }
}

/// A number in base ten, without sign or leading zeros.
pub open spec fn decimal(n: nat) -> Seq<char>
    decreases n,
{
    if n < 10 {
        seq![digit_char(n as int)]
    } else {
        decimal(n / 10) + seq![digit_char((n % 10) as int)]
    }
}

/// A number in base ten, with a leading zero if it is below ten.
pub open spec fn two_digits(n: nat) -> Seq<char> {
    if n < 10 {
        seq!['0'] + decimal(n)
    } else {
        decimal(n)
    }
}

/// A date as year, month and day with hyphens between them. Month and day
/// take at least two digits; the year is written as it is.
pub open spec fn format_date_spec(date: Date) -> Seq<char> {
    decimal(date.year as nat) + seq!['-'] + two_digits(date.month as nat) + seq!['-'] + two_digits(
        date.day as nat,
    )
}

/// `char::to_string`: a string that holds the character and nothing else.
#[verifier::external_body]
pub(crate) fn char_to_string(c: char) -> (text: String)
    ensures
        text@ == seq![c],
{
    c.to_string()
}

fn digit(d: u64) -> (c: char)
    requires
        d < 10,
    ensures
        c == digit_char(d as int),
{
    if d == 0 {
        '0'
    } else if d == 1 {
        '1'
    } else if d == 2 {
        '2'
    } else if d == 3 {
        '3'
    } else if d == 4 {
        '4'
    } else if d == 5 {
        '5'
    } else if d == 6 {
        '6'
    } else if d == 7 {
        '7'
    } else if d == 8 {
        '8'
    } else {
        '9'
    }
}

/// Appends `n` in base ten to `text`.
pub fn push_decimal(text: &mut String, n: u64)
    ensures
        final(text)@ == old(text)@ + decimal(n as nat),
    decreases n,
{
    if n >= 10 {
        push_decimal(text, n / 10);
    }
    let last = char_to_string(digit(n % 10));
    text.append(last.as_str());
}

/// Appends `n` to `text`, with a leading zero if it is below ten.
pub fn push_two_digits(text: &mut String, n: u64)
    ensures
        final(text)@ == old(text)@ + two_digits(n as nat),
{
    if n < 10 {
        proof {
            reveal_strlit("0");
        }
        text.append("0");
    }
    push_decimal(text, n);
}

/// A date as text, in the form of a ledger: `2024-01-31`.
pub fn format_date(date: &Date) -> (text: String)
    ensures
        text@ == format_date_spec(*date),
{
    proof {
        reveal_strlit("-");
    }
    let mut text = String::new();
    push_decimal(&mut text, date.year as u64);
    text.append("-");
    push_two_digits(&mut text, date.month as u64);
    text.append("-");
    push_two_digits(&mut text, date.day as u64);
    text
}

} // verus!
