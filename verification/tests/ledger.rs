use timhortons_tracker::ledger::Ledger;
use timhortons_tracker::order::Order;

fn order(item: &str, quantity: u32, price: f64, date: &str) -> Order<f64> {
    Order::new(item.to_string(), quantity, price, date.to_string())
}

fn add_cost(sum: f64, quantity: u32, price: &f64) -> f64 {
    sum + quantity as f64 * *price
}

#[test]
fn order_new_keeps_every_value() {
    let o = order("Coffee", 2, 1.75, "2024-01-05");
    assert_eq!(o.item_name, "Coffee");
    assert_eq!(o.quantity, 2);
    assert_eq!(o.price, 1.75);
    assert_eq!(o.date, "2024-01-05");
}

#[test]
fn order_new_accepts_any_text_as_date() {
    let o = order("", 0, -1.0, "not a date");
    assert_eq!(o.item_name, "");
    assert_eq!(o.quantity, 0);
    assert_eq!(o.price, -1.0);
    assert_eq!(o.date, "not a date");
}

#[test]
fn new_ledger_is_empty() {
    let ledger: Ledger<f64> = Ledger::new();
    assert_eq!(ledger.len(), 0);
    assert!(ledger.orders().is_empty());
    assert!(ledger.get(0).is_none());
}

#[test]
fn add_order_puts_the_order_at_the_end() {
    let mut ledger = Ledger::new();
    ledger.add_order(order("Coffee", 2, 1.75, "2024-01-05"));
    ledger.add_order(order("Donut", 3, 1.25, "2024-01-06"));
    assert_eq!(ledger.len(), 2);
    let last = ledger.get(1).unwrap();
    assert_eq!(last.item_name, "Donut");
    assert_eq!(last.quantity, 3);
    assert_eq!(last.price, 1.25);
    assert_eq!(last.date, "2024-01-06");
    assert!(ledger.get(2).is_none());
}

#[test]
fn earlier_orders_stay_as_they_were() {
    let mut ledger = Ledger::new();
    ledger.add_order(order("Coffee", 2, 1.75, "2024-01-05"));
    ledger.add_order(order("Donut", 3, 1.25, "2024-01-05"));
    for n in 0..20u32 {
        ledger.add_order(order("Bagel", n, 0.5, "2024-01-07"));
    }
    assert_eq!(ledger.len(), 22);
    let first = ledger.get(0).unwrap();
    assert_eq!(first.item_name, "Coffee");
    assert_eq!(first.quantity, 2);
    assert_eq!(first.price, 1.75);
    assert_eq!(first.date, "2024-01-05");
    let second = &ledger.orders()[1];
    assert_eq!(second.item_name, "Donut");
    assert_eq!(second.quantity, 3);
    assert_eq!(second.price, 1.25);
    assert_eq!(second.date, "2024-01-05");
}

#[test]
fn on_date_picks_the_orders_of_the_day_in_order() {
    let mut ledger = Ledger::new();
    ledger.add_order(order("Coffee", 2, 1.75, "2024-01-05"));
    ledger.add_order(order("Tea", 1, 2.0, "2024-01-06"));
    ledger.add_order(order("Donut", 3, 1.25, "2024-01-05"));
    let found = ledger.on_date("2024-01-05");
    assert_eq!(found.len(), 2);
    assert_eq!(found[0].item_name, "Coffee");
    assert_eq!(found[1].item_name, "Donut");
    let other = ledger.on_date("2024-01-06");
    assert_eq!(other.len(), 1);
    assert_eq!(other[0].item_name, "Tea");
}

#[test]
fn on_date_of_a_day_without_orders_is_empty() {
    let mut ledger = Ledger::new();
    ledger.add_order(order("Coffee", 2, 1.75, "2024-01-05"));
    assert!(ledger.on_date("2024-01-04").is_empty());
    let nothing: Ledger<f64> = Ledger::new();
    assert!(nothing.on_date("2024-01-05").is_empty());
}

#[test]
fn dates_match_only_as_the_same_text() {
    let mut ledger = Ledger::new();
    ledger.add_order(order("Coffee", 1, 2.10, "2024-03-01"));
    assert_eq!(ledger.on_date("2024-03-01").len(), 1);
    assert!(ledger.on_date("2024-3-1").is_empty());
    assert!(ledger.on_date("2024-03-01 ").is_empty());
    assert!(ledger.on_date("").is_empty());
    assert_eq!(ledger.daily_total("2024-3-1", 0.0, add_cost), 0.0);
}

#[test]
fn daily_total_of_a_day_without_orders_is_zero() {
    let empty: Ledger<f64> = Ledger::new();
    assert_eq!(empty.daily_total("2024-01-05", 0.0, add_cost), 0.0);
    let mut ledger = Ledger::new();
    ledger.add_order(order("Coffee", 2, 1.75, "2024-01-05"));
    let total = ledger.daily_total("2024-01-06", 0.0, add_cost);
    assert_eq!(total, 0.0);
    assert_eq!(format!("{:.2}", total), "0.00");
}

#[test]
fn daily_total_sums_the_orders_that_share_a_date() {
    let mut ledger = Ledger::new();
    ledger.add_order(order("Coffee", 2, 1.75, "2024-01-05"));
    ledger.add_order(order("Donut", 3, 1.25, "2024-01-05"));
    assert_eq!(ledger.daily_total("2024-01-05", 0.0, add_cost), 7.25);
}

#[test]
fn daily_total_leaves_other_days_out() {
    let mut ledger = Ledger::new();
    ledger.add_order(order("Coffee", 2, 1.75, "2024-01-05"));
    ledger.add_order(order("Tea", 4, 2.0, "2024-01-06"));
    ledger.add_order(order("Donut", 3, 1.25, "2024-01-05"));
    assert_eq!(ledger.daily_total("2024-01-05", 0.0, add_cost), 7.25);
    assert_eq!(ledger.daily_total("2024-01-06", 0.0, add_cost), 8.0);
}

#[test]
fn adding_an_order_raises_the_total_of_its_day_by_its_cost() {
    let mut ledger = Ledger::new();
    ledger.add_order(order("Coffee", 2, 1.75, "2024-01-05"));
    ledger.add_order(order("Tea", 4, 2.0, "2024-01-06"));
    let before = ledger.daily_total("2024-01-05", 0.0, add_cost);
    let other_before = ledger.daily_total("2024-01-06", 0.0, add_cost);
    ledger.add_order(order("Donut", 3, 1.25, "2024-01-05"));
    let after = ledger.daily_total("2024-01-05", 0.0, add_cost);
    assert_eq!(after, before + 3.0 * 1.25);
    assert_eq!(ledger.daily_total("2024-01-06", 0.0, add_cost), other_before);
}

#[test]
fn daily_total_takes_the_orders_oldest_first() {
    let mut ledger = Ledger::new();
    ledger.add_order(order("a", 1, 0.0, "d"));
    ledger.add_order(order("b", 2, 0.0, "d"));
    ledger.add_order(order("c", 3, 0.0, "e"));
    ledger.add_order(order("d", 4, 0.0, "d"));
    let seen = ledger.daily_total("d", Vec::new(), |mut seen: Vec<u32>, quantity: u32, _price: &f64| {
        seen.push(quantity);
        seen
    });
    assert_eq!(seen, vec![1, 2, 4]);
}

#[test]
fn daily_total_starts_from_the_given_zero() {
    let mut ledger = Ledger::new();
    ledger.add_order(order("Coffee", 2, 1.5, "2024-01-05"));
    assert_eq!(ledger.daily_total("2024-01-05", 10.0, add_cost), 13.0);
    assert_eq!(ledger.daily_total("2024-01-06", 10.0, add_cost), 10.0);
}
