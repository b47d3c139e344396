//! All the orders as one CSV document.
//!
//! The document is a header record and then one record for each order, in the
//! order of the ledger. Each record has the four fields `item_name`,
//! `quantity`, `price` and `date`. Quoting and the end of a record are the
//! `csv` crate's, in its default configuration.

use vstd::prelude::*;
use crate::decimal::{decimal_digits, decimal_text};
use crate::ledger::Ledger;
use crate::order::{Order, OrderView};

verus! {

/// The bytes that the `csv` crate writes for one record with the fields
/// `fields`: the fields separated by commas, quoted where the crate finds it
/// necessary, and the record terminator.
pub uninterp spec fn csv_record(fields: Seq<Seq<char>>) -> Seq<u8>;

/// Makes a writer over an empty byte vector with `csv::Writer::from_writer`,
/// writes the one record to it with `csv::Writer::write_record`, and takes the
/// bytes back with `csv::Writer::into_inner`.
///
/// Believed without proof: the bytes depend on the fields alone, and neither
/// call fails. A byte vector takes every write, and a writer holds the number
/// of fields of a record only against that of an earlier record, and this
/// writer has seen none.
#[verifier::external_body]
fn encode_record(fields: &Vec<String>) -> (bytes: Vec<u8>)
    ensures
        bytes@ == csv_record(fields.deep_view()),
{
    let mut writer = csv::Writer::from_writer(Vec::new());
    writer.write_record(fields).unwrap();
    writer.into_inner().unwrap()
}

/// The names of the four columns, as the header record carries them.
pub open spec fn header_fields() -> Seq<Seq<char>> {
    seq!["item_name"@, "quantity"@, "price"@, "date"@]
}

/// The four fields of the record of `order`, where `price_text` gives the text
/// of a price.
pub open spec fn order_fields<P>(order: OrderView<P>, price_text: spec_fn(P) -> Seq<char>) -> Seq<
    Seq<char>,
> {
    seq![
        order.item_name,
        decimal_digits(order.quantity as nat),
        price_text(order.price),
        order.date,
    ]
}

/// The record of each order, in the order of `orders`.
pub open spec fn order_records<P>(
    orders: Seq<OrderView<P>>,
    price_text: spec_fn(P) -> Seq<char>,
) -> Seq<Seq<u8>> {
    orders.map_values(|order: OrderView<P>| csv_record(order_fields(order, price_text)))
}

/// The whole document: the header record, then the record of each order.
pub open spec fn export_document<P>(
    orders: Seq<OrderView<P>>,
    price_text: spec_fn(P) -> Seq<char>,
) -> Seq<u8> {
    csv_record(header_fields()) + order_records(orders, price_text).flatten()
}

/// The text of a price that is kept as text: the text itself.
pub open spec fn as_written() -> spec_fn(String) -> Seq<char> {
    |price: String| price@
}

/// What each of `records` holds, as mathematical values.
pub open spec fn record_views(records: Seq<Vec<u8>>) -> Seq<Seq<u8>> {
    records.map_values(|record: Vec<u8>| record@)
}

/// Puts a document together from its records as they were encoded: `header`
/// first, then each of `records` in turn.
pub fn assemble(header: Vec<u8>, records: &Vec<Vec<u8>>) -> (document: Vec<u8>)
    ensures
        document@ == header@ + record_views(records@).flatten(),
{
    let mut document = header;
    let mut i: usize = 0;
    while i < records.len()
        invariant
            i <= records.len(),
            document@ == header@ + record_views(records@).take(i as int).flatten(),
        decreases records.len() - i,
    {
        let record = &records[i];
        proof {
            let done = record_views(records@).take(i as int);
            assert(record_views(records@).take(i + 1) =~= done.push(record@));
            done.lemma_flatten_push(record@);
        }
        document.extend_from_slice(record.as_slice());
        i += 1;
    }
    assert(record_views(records@).take(i as int) =~= record_views(records@));
    document
}

/// The fields of the header record.
fn header_record() -> (fields: Vec<String>)
    ensures
        fields.deep_view() == header_fields(),
{
    let mut fields: Vec<String> = Vec::new();
    fields.push("item_name".to_owned());
    fields.push("quantity".to_owned());
    fields.push("price".to_owned());
    fields.push("date".to_owned());
    fields
}

/// The fields of the record of `order`.
fn order_record(order: &Order<String>) -> (fields: Vec<String>)
    ensures
        fields.deep_view() == order_fields(order@, as_written()),
{
    let mut fields: Vec<String> = Vec::new();
    fields.push(order.item_name.clone());
    fields.push(decimal_text(order.quantity));
    fields.push(order.price.clone());
    fields.push(order.date.clone());
    fields
}

/// The CSV document of a ledger whose prices are text: the header record,
/// then one record for each order, oldest first. A ledger with no orders
/// gives the header record alone.
pub fn export_to_csv(ledger: &Ledger<String>) -> (document: Vec<u8>)
    ensures
        document@ == export_document(ledger@, as_written()),
{
    let orders = ledger.orders();
    let header = encode_record(&header_record());
    let mut records: Vec<Vec<u8>> = Vec::new();
    let mut i: usize = 0;
    while i < orders.len()
        invariant
            i <= orders.len(),
            orders@.len() == ledger@.len(),
            forall|k: int| 0 <= k < orders@.len() ==> (#[trigger] orders@[k])@ == ledger@[k],
            record_views(records@) == order_records(ledger@.take(i as int), as_written()),
        decreases orders.len() - i,
    {
        let record = encode_record(&order_record(&orders[i]));
        assert(record_views(records@.push(record)) =~= record_views(records@).push(record@));
        records.push(record);
        i += 1;
    }
    assert(ledger@.take(i as int) =~= ledger@);
    assemble(header, &records)
}

/// Adding an order adds one record to the document, after all that was there:
/// the record with the four values of that order.
pub proof fn law_add_then_export<P>(
    ledger: Seq<OrderView<P>>,
    order: OrderView<P>,
    price_text: spec_fn(P) -> Seq<char>,
)
    ensures
        export_document(ledger.push(order), price_text) == export_document(ledger, price_text)
            + csv_record(order_fields(order, price_text)),
{
    let earlier = order_records(ledger, price_text);
    let record = csv_record(order_fields(order, price_text));
    assert(order_records(ledger.push(order), price_text) =~= earlier.push(record));
    earlier.lemma_flatten_push(record);
}

/// The document is the header record and then exactly one record for each
/// order, in the order of the ledger, each made of the four values of its
/// order. A ledger without orders gives the header record alone.
pub proof fn law_export_layout<P>(ledger: Seq<OrderView<P>>, price_text: spec_fn(P) -> Seq<char>)
    ensures
        export_document(ledger, price_text) == csv_record(header_fields()) + order_records(
            ledger,
            price_text,
        ).flatten(),
        order_records(ledger, price_text).len() == ledger.len(),
        forall|i: int|
            0 <= i < ledger.len() ==> (#[trigger] order_records(ledger, price_text)[i]) == csv_record(
                order_fields(ledger[i], price_text),
            ),
        ledger.len() == 0 ==> export_document(ledger, price_text) == csv_record(header_fields()),
{
    if ledger.len() == 0 {
    }
}

} // verus!
