//! The day on which an order is recorded when the caller names none.

use vstd::prelude::*;
use vstd::string::StrSliceExecFns;
use crate::decimal::{digit_value, is_digit};

verus! {

/// The number that the two digit characters `tens` and `ones` write.
pub open spec fn two_digits(tens: char, ones: char) -> nat {
    10 * digit_value(tens) + digit_value(ones)
}

/// Whether `text` has the form of a calendar date, year first: a year, a
/// hyphen, a month from `01` to `12`, a hyphen, and a day from `01` to `31`.
/// A year from 0 to 9999 is four digits, so that the text reads `YYYY-MM-DD`.
/// A later year is `+` and five digits or more, an earlier one `-` and four
/// digits or more.
pub open spec fn is_date_text(text: Seq<char>) -> bool {
    let n = text.len() as int;
    &&& n >= 10
    &&& text[n - 6] == '-'
    &&& text[n - 3] == '-'
    &&& is_digit(text[n - 5]) && is_digit(text[n - 4])
    &&& is_digit(text[n - 2]) && is_digit(text[n - 1])
    &&& 1 <= two_digits(text[n - 5], text[n - 4]) <= 12
    &&& 1 <= two_digits(text[n - 2], text[n - 1]) <= 31
    &&& forall|i: int| 1 <= i < n - 6 ==> is_digit(#[trigger] text[i])
    &&& if is_digit(text[0]) {
        n == 10
    } else if text[0] == '+' {
        n >= 12
    } else {
        text[0] == '-' && n >= 11
    }
}

/// Reads the clock with `chrono::Local::now` and writes the date of what it
/// returns with `chrono::DateTime::format` and the pattern `%Y-%m-%d`.
///
/// Believed without proof: the text has the form that chrono documents for
/// these three specifiers. Which day it names depends on the clock and on the
/// time zone of the machine, so nothing is said of that. `Local::now` does not
/// return where the clock stands before 1970.
#[verifier::external_body]
pub(crate) fn local_today() -> (text: String)
    ensures
        is_date_text(text@),
{
    chrono::Local::now().format("%Y-%m-%d").to_string()
}

/// The value of the digit `c`, or `None` where `c` is no digit.
fn digit_of(c: char) -> (value: Option<u8>)
    ensures
        match value {
            Some(v) => is_digit(c) && v == digit_value(c),
            None => !is_digit(c),
        },
{
    if c == '0' {
        Some(0)
    } else if c == '1' {
        Some(1)
    } else if c == '2' {
        Some(2)
    } else if c == '3' {
        Some(3)
    } else if c == '4' {
        Some(4)
    } else if c == '5' {
        Some(5)
    } else if c == '6' {
        Some(6)
    } else if c == '7' {
        Some(7)
    } else if c == '8' {
        Some(8)
    } else if c == '9' {
        Some(9)
    } else {
        None
    }
}

/// The number that the characters `tens` and `ones` write, if both are
/// digits.
fn two_digits_of(tens: char, ones: char) -> (value: Option<u8>)
    ensures
        match value {
            Some(v) => is_digit(tens) && is_digit(ones) && v == two_digits(tens, ones),
            None => !is_digit(tens) || !is_digit(ones),
        },
{
    match (digit_of(tens), digit_of(ones)) {
        (Some(t), Some(o)) => Some(10 * t + o),
        _ => None,
    }
}

/// Whether `text` has the form of a calendar date, as `is_date_text` says.
///
/// The library asks this of no date that it is given: an order keeps whatever
/// text it came with. The form is the one that the date of the clock has.
pub fn reads_as_date(text: &str) -> (yes: bool)
    ensures
        yes == is_date_text(text@),
{
    let n = text.unicode_len();
    if n < 10 {
        return false;
    }
    if text.get_char(n - 6) != '-' || text.get_char(n - 3) != '-' {
        return false;
    }
    let month = two_digits_of(text.get_char(n - 5), text.get_char(n - 4));
    let day = two_digits_of(text.get_char(n - 2), text.get_char(n - 1));
    match (month, day) {
        (Some(m), Some(d)) => {
            if m < 1 || m > 12 || d < 1 || d > 31 {
                return false;
            }
        },
        _ => {
            return false;
        },
    }
    let mut i: usize = 1;
    while i < n - 6
        invariant
            1 <= i <= n - 6,
            n == text@.len(),
            forall|k: int| 1 <= k < i ==> is_digit(#[trigger] text@[k]),
        decreases n - i,
    {
        if digit_of(text.get_char(i)).is_none() {
            return false;
        }
        i += 1;
    }
    let first = text.get_char(0);
    if digit_of(first).is_some() {
        n == 10
    } else if first == '+' {
        n >= 12
    } else {
        first == '-' && n >= 11
    }
}

/// The date that a command means: the one it names, or `today` where it names
/// none.
pub open spec fn resolved(given: Option<String>, today: Seq<char>) -> Seq<char> {
    match given {
        Some(date) => date@,
        None => today,
    }
}

/// The date that a command means: `given` as it stands, whatever it holds, or
/// `today` where there is none.
pub fn resolve_date(given: Option<String>, today: String) -> (date: String)
    ensures
        date@ == resolved(given, today@),
{
    match given {
        Some(date) => date,
        None => today,
    }
}

} // verus!
