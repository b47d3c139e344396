//! The orders that have been recorded, in the order in which they came.

use vstd::prelude::*;
use crate::order::{Order, OrderView};

verus! {

/// The recorded orders, oldest first.
///
/// A ledger only grows: `add_order` puts one order at the end, and nothing
/// changes or removes an order that is in it. An order is known by its
/// position.
#[derive(Debug)]
pub struct Ledger<P> {
    orders: Vec<Order<P>>,
}

impl<P> View for Ledger<P> {
    type V = Seq<OrderView<P>>;

    closed spec fn view(&self) -> Seq<OrderView<P>> {
        self.orders@.map_values(|o: Order<P>| o@)
    }
}

/// The orders among `orders` whose date is exactly `date`, in their order.
pub open spec fn orders_on<P>(orders: Seq<OrderView<P>>, date: Seq<char>) -> Seq<OrderView<P>> {
    orders.filter(|o: OrderView<P>| o.date == date)
}

/// Whether `end` is a sum that `step` can reach from `start` by taking in the
/// orders of `orders` one after the other, oldest first: `start` itself where
/// there is no order, and else what `step` makes of the sum over all but the
/// last order, and of the quantity and the price of the last.
pub open spec fn sums_to<P, T, F: Fn(T, u32, &P) -> T>(
    orders: Seq<OrderView<P>>,
    start: T,
    step: F,
    end: T,
) -> bool
    decreases orders.len(),
{
    if orders.len() == 0 {
        end == start
    } else {
        exists|mid: T|
            {
                &&& sums_to(orders.drop_last(), start, step, mid)
                &&& #[trigger] call_ensures(
                    step,
                    (mid, orders.last().quantity, &orders.last().price),
                    end,
                )
            }
    }
}

/// The ledger after the orders of `later` have been added to `ledger`, one
/// after the other.
pub open spec fn after_adding<P>(ledger: Seq<OrderView<P>>, later: Seq<OrderView<P>>) -> Seq<
    OrderView<P>,
>
    decreases later.len(),
{
    if later.len() == 0 {
        ledger
    } else {
        after_adding(ledger, later.drop_last()).push(later.last())
    }
}

impl<P> Ledger<P> {
    /// A ledger with nothing in it.
    pub fn new() -> (ledger: Self)
        ensures
            ledger@ == Seq::<OrderView<P>>::empty(),
    {
        Ledger { orders: Vec::new() }
    }

    /// Records `order` after all the orders that are there. Nothing about the
    /// order is checked, and the orders that are there stay as they are.
    pub fn add_order(&mut self, order: Order<P>)
        ensures
            final(self)@ == old(self)@.push(order@),
    {
        self.orders.push(order);
    }

    /// How many orders are recorded.
    pub fn len(&self) -> (n: usize)
        ensures
            n == self@.len(),
    {
        self.orders.len()
    }

    /// All the orders, oldest first, for reading.
    pub fn orders(&self) -> (all: &Vec<Order<P>>)
        ensures
            all@.len() == self@.len(),
            forall|i: int| 0 <= i < all@.len() ==> (#[trigger] all@[i])@ == self@[i],
    {
        &self.orders
    }

    /// The order at `position`, counted from zero, if there is one.
    pub fn get(&self, position: usize) -> (found: Option<&Order<P>>)
        ensures
            match found {
                Some(order) => position < self@.len() && order@ == self@[position as int],
                None => position >= self@.len(),
            },
    {
        if position < self.orders.len() {
            Some(&self.orders[position])
        } else {
            None
        }
    }

    /// The orders of the day `date`, oldest first. A date matches only if it
    /// is the same text. No order of that day is no failure: the result is
    /// then empty.
    pub fn on_date(&self, date: &str) -> (found: Vec<&Order<P>>)
        ensures
            found@.map_values(|o: &Order<P>| o@) == orders_on(self@, date@),
    {
        let wanted = date.to_owned();
        let mut found: Vec<&Order<P>> = Vec::new();
        let mut i: usize = 0;
        proof {
            reveal(Seq::filter);
        }
        while i < self.orders.len()
            invariant
                i <= self.orders.len(),
                wanted@ == date@,
                found@.map_values(|o: &Order<P>| o@) == orders_on(self@.take(i as int), date@),
            decreases self.orders.len() - i,
        {
            let order = &self.orders[i];
            proof {
                assert(self@.take(i + 1) =~= self@.take(i as int).push(order@));
                law_add_then_on_date(self@.take(i as int), order@, date@);
            }
            if order.date == wanted {
                found.push(order);
            }
            i += 1;
        }
        assert(self@.take(i as int) =~= self@);
        found
    }

    /// What was spent on the day `date`: `zero`, and for each order of that
    /// day, oldest first, what `add_cost` makes of the sum so far and of the
    /// quantity and the price of the order. A day without orders is no
    /// failure: it gives `zero`.
    ///
    /// The library does not compute with prices, so the caller says in
    /// `add_cost` how the cost of an order is added to a sum.
    pub fn daily_total<T, F: Fn(T, u32, &P) -> T>(&self, date: &str, zero: T, add_cost: F) -> (total: T)
        requires
            forall|sum: T, quantity: u32, price: &P| call_requires(add_cost, (sum, quantity, price)),
        ensures
            sums_to(orders_on(self@, date@), zero, add_cost, total),
    {
        let wanted = date.to_owned();
        let mut total = zero;
        let mut i: usize = 0;
        proof {
            reveal(Seq::filter);
        }
        while i < self.orders.len()
            invariant
                i <= self.orders.len(),
                wanted@ == date@,
                forall|sum: T, quantity: u32, price: &P| call_requires(add_cost, (sum, quantity, price)),
                sums_to(orders_on(self@.take(i as int), date@), zero, add_cost, total),
            decreases self.orders.len() - i,
        {
            let order = &self.orders[i];
            proof {
                assert(self@.take(i + 1) =~= self@.take(i as int).push(order@));
                law_add_then_on_date(self@.take(i as int), order@, date@);
            }
            if order.date == wanted {
                let ghost before = total;
                total = add_cost(total, order.quantity, &order.price);
                proof {
                    law_add_then_daily_total(self@.take(i as int), order@, date@, zero, add_cost, total);
                    assert(call_ensures(add_cost, (before, order@.quantity, &order@.price), total));
                }
            }
            i += 1;
        }
        assert(self@.take(i as int) =~= self@);
        total
    }
}

/// Adding an order adds it to the orders of its own day, after those that were
/// there, and leaves the orders of every other day as they were.
pub proof fn law_add_then_on_date<P>(ledger: Seq<OrderView<P>>, order: OrderView<P>, date: Seq<char>)
    ensures
        order.date == date ==> orders_on(ledger.push(order), date) == orders_on(ledger, date).push(
            order,
        ),
        order.date != date ==> orders_on(ledger.push(order), date) == orders_on(ledger, date),
{
    reveal(Seq::filter);
    assert(ledger.push(order).drop_last() =~= ledger);
}

/// Adding an order raises the total of its own day by the cost of that order:
/// the totals of the day after the order is added are those that one step for
/// this order reaches from a total of the day before. The total of every other
/// day stays what it was.
pub proof fn law_add_then_daily_total<P, T, F: Fn(T, u32, &P) -> T>(
    ledger: Seq<OrderView<P>>,
    order: OrderView<P>,
    date: Seq<char>,
    zero: T,
    add_cost: F,
    total: T,
)
    ensures
        order.date == date ==> (sums_to(orders_on(ledger.push(order), date), zero, add_cost, total)
            <==> exists|before: T|
            {
                &&& sums_to(orders_on(ledger, date), zero, add_cost, before)
                &&& #[trigger] call_ensures(add_cost, (before, order.quantity, &order.price), total)
            }),
        order.date != date ==> (sums_to(orders_on(ledger.push(order), date), zero, add_cost, total)
            <==> sums_to(orders_on(ledger, date), zero, add_cost, total)),
{
    law_add_then_on_date(ledger, order, date);
    if order.date == date {
        let earlier = orders_on(ledger, date);
        let now = earlier.push(order);
        assert(now.drop_last() =~= earlier);
        assert(now.last() == order);
    }
}

/// A day on which no order was recorded has no orders, and its total is the
/// zero that the sum starts from.
pub proof fn law_day_without_orders<P, T, F: Fn(T, u32, &P) -> T>(
    ledger: Seq<OrderView<P>>,
    date: Seq<char>,
    zero: T,
    add_cost: F,
    total: T,
)
    requires
        forall|i: int| 0 <= i < ledger.len() ==> (#[trigger] ledger[i]).date != date,
    ensures
        orders_on(ledger, date) == Seq::<OrderView<P>>::empty(),
        sums_to(orders_on(ledger, date), zero, add_cost, total) <==> total == zero,
    decreases ledger.len(),
{
    reveal(Seq::filter);
    if ledger.len() > 0 {
        law_day_without_orders(ledger.drop_last(), date, zero, add_cost, total);
        assert(ledger.drop_last().push(ledger.last()) =~= ledger);
        law_add_then_on_date(ledger.drop_last(), ledger.last(), date);
    }
}

/// Orders once recorded stay: however many orders are added later, every
/// order that was in the ledger is still there, at its position and unchanged,
/// and the later ones follow in the order in which they were added.
pub proof fn law_orders_stay<P>(ledger: Seq<OrderView<P>>, later: Seq<OrderView<P>>)
    ensures
        after_adding(ledger, later).len() == ledger.len() + later.len(),
        forall|i: int| 0 <= i < ledger.len() ==> (#[trigger] after_adding(ledger, later)[i]) == ledger[i],
        forall|i: int|
            ledger.len() <= i < ledger.len() + later.len() ==> (#[trigger] after_adding(ledger, later)[i])
                == later[i - ledger.len()],
    decreases later.len(),
{
    if later.len() > 0 {
        law_orders_stay(ledger, later.drop_last());
    }
}

} // verus!
