//! A ledger of purchases: what was bought, how many, at what unit price and on
//! which day.
//!
//! The library keeps the records in the order in which they were added, picks
//! out those of one day, lays all of them out as a CSV document and words the
//! lines that a front end prints. It never computes with a price: the price of
//! an order is a type parameter, stored and handed back as it came.

pub mod command;
pub mod date;
pub mod decimal;
pub mod export;
pub mod failure;
pub mod ledger;
pub mod message;
pub mod order;
