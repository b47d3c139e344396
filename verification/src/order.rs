//! One recorded purchase.

use vstd::prelude::*;

verus! {

/// One purchase: what was bought, how many of it, the price of one, and the
/// day.
///
/// The price is a type parameter. The library stores and hands back a price
/// and never looks inside it; a caller keeps there whatever it computes with,
/// or the text that it wants written out.
///
/// The date is free text. By convention it reads `YYYY-MM-DD`, but nothing is
/// checked, and two dates are the same day only if they are the same text.
#[derive(Debug)]
pub struct Order<P> {
    pub item_name: String,
    pub quantity: u32,
    pub price: P,
    pub date: String,
}

/// What an order holds, as mathematical values.
pub struct OrderView<P> {
    pub item_name: Seq<char>,
    pub quantity: u32,
    pub price: P,
    pub date: Seq<char>,
}

impl<P> View for Order<P> {
    type V = OrderView<P>;

    open spec fn view(&self) -> OrderView<P> {
        OrderView {
            item_name: self.item_name@,
            quantity: self.quantity,
            price: self.price,
            date: self.date@,
        }
    }
}

impl<P> Order<P> {
    /// An order of `quantity` times `item_name` at `price` each, bought on
    /// `date`. Every value is taken as it is.
    pub fn new(item_name: String, quantity: u32, price: P, date: String) -> (order: Self)
        ensures
            order@ == (OrderView { item_name: item_name@, quantity, price, date: date@ }),
    {
        Order { item_name, quantity, price, date }
    }
}

} // verus!
