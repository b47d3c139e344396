//! What the user asked for, and what is to be done about it.

use vstd::prelude::*;
use crate::order::{Order, OrderView};
use crate::date::{is_date_text, local_today, resolve_date, resolved};

verus! {

/// A request as the user wrote it. A date may be left out.
#[derive(Debug)]
pub enum Command<P> {
    /// Record a purchase.
    Add { item: String, quantity: u32, price: P, date: Option<String> },
    /// Report what was spent on one day.
    DailyTotal { date: Option<String> },
    /// Write all the orders to a file.
    Export { filepath: String },
}

/// What is to be done for a command, with every date settled.
#[derive(Debug)]
pub enum Action<P> {
    /// Put this order into the store.
    Record { order: Order<P> },
    /// Add up the orders of this day.
    Total { date: String },
    /// Write the CSV document to this path.
    Export { filepath: String },
}

/// Whether `action` is what `command` asks for on the day `today`: the same
/// request, with `today` in the place of a date that was left out.
pub open spec fn carries_out<P>(command: Command<P>, today: Seq<char>, action: Action<P>) -> bool {
    match command {
        Command::Add { item, quantity, price, date } => {
            &&& action is Record
            &&& action->order@ == (OrderView {
                item_name: item@,
                quantity,
                price: price,
                date: resolved(date, today),
            })
        },
        Command::DailyTotal { date } => {
            &&& action is Total
            &&& action->Total_date@ == resolved(date, today)
        },
        Command::Export { filepath } => {
            &&& action is Export
            &&& action->Export_filepath@ == filepath@
        },
    }
}

/// Settles what is to be done for `command` on the day `today`.
pub fn plan<P>(command: Command<P>, today: String) -> (action: Action<P>)
    ensures
        carries_out(command, today@, action),
{
    match command {
        Command::Add { item, quantity, price, date } => {
            let date = resolve_date(date, today);
            Action::Record { order: Order::new(item, quantity, price, date) }
        },
        Command::DailyTotal { date } => Action::Total { date: resolve_date(date, today) },
        Command::Export { filepath } => Action::Export { filepath },
    }
}

/// Settles what is to be done for `command` now: a date that was left out is
/// the local date of this moment. An export needs no date, and the clock is
/// not read for it.
pub fn plan_now<P>(command: Command<P>) -> (action: Action<P>)
    ensures
        exists|day: Seq<char>|
            #[trigger] carries_out(command, day, action) && (command is Export || is_date_text(day)),
{
    match command {
        Command::Export { filepath } => {
            let action = Action::Export { filepath };
            assert(carries_out(command, Seq::<char>::empty(), action));
            action
        },
        other => {
            let day = local_today();
            plan(other, day)
        },
    }
}

} // verus!
