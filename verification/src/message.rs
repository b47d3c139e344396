//! The lines that tell the user what was done.

use vstd::prelude::*;
use crate::decimal::{decimal_digits, push_decimal};

verus! {

/// The line that confirms a recorded order. `price` is the text of the unit
/// price as it is to be shown.
pub open spec fn added_line(
    item: Seq<char>,
    quantity: nat,
    price: Seq<char>,
    date: Seq<char>,
) -> Seq<char> {
    "Order added: "@ + item + " x"@ + decimal_digits(quantity) + " @ $"@ + price + " on "@ + date
}

/// The line that reports what was spent on one day. `total` is the text of the
/// sum as it is to be shown.
pub open spec fn total_line(date: Seq<char>, total: Seq<char>) -> Seq<char> {
    "Total for "@ + date + ": $"@ + total
}

/// The line that confirms an export.
pub open spec fn exported_line(filepath: Seq<char>) -> Seq<char> {
    "Orders exported to "@ + filepath
}

/// Words the confirmation of a recorded order.
pub fn added_message(item: &str, quantity: u32, price: &str, date: &str) -> (line: String)
    ensures
        line@ == added_line(item@, quantity as nat, price@, date@),
{
    let mut line = "Order added: ".to_owned();
    line.append(item);
    line.append(" x");
    push_decimal(&mut line, quantity);
    line.append(" @ $");
    line.append(price);
    line.append(" on ");
    line.append(date);
    line
}

/// Words the report of one day's spending.
pub fn total_message(date: &str, total: &str) -> (line: String)
    ensures
        line@ == total_line(date@, total@),
{
    let mut line = "Total for ".to_owned();
    line.append(date);
    line.append(": $");
    line.append(total);
    line
}

/// Words the confirmation of an export.
pub fn exported_message(filepath: &str) -> (line: String)
    ensures
        line@ == exported_line(filepath@),
{
    let mut line = "Orders exported to ".to_owned();
    line.append(filepath);
    line
}

} // verus!
