//! A result laid out as a table of text.

use crate::model::{QueryResult, Value, ValueView};
use crate::numeral::{render_signed_decimal, signed_decimal_text};
use vstd::prelude::*;

verus! {

/// How a value is written in a table: `<null>` for NULL, `true` or `false`,
/// the decimal's literal, the integer in decimal, or the text itself.
pub open spec fn shown(value: ValueView) -> Seq<char> {
    match value {
        ValueView::Boolean(Some(b)) => if b {
            "true"@
        } else {
            "false"@
        },
        ValueView::Decimal(Some(d)) => d,
        ValueView::Integer(Some(i)) => signed_decimal_text(i as int),
        ValueView::String(Some(s)) => s,
        ValueView::Timestamp(Some(t)) => t,
        _ => "<null>"@,
    }
}

/// The values of a row, each as it is written in a table.
pub open spec fn shown_row(row: Seq<ValueView>) -> Seq<Seq<char>> {
    Seq::new(row.len(), |j: int| shown(row[j]))
}

/// The rows of a result, each value as it is written in a table.
pub open spec fn shown_rows(rows: Seq<Seq<ValueView>>) -> Seq<Seq<Seq<char>>> {
    Seq::new(rows.len(), |i: int| shown_row(rows[i]))
}

/// Writes a value as it stands in a table.
pub fn show(value: &Value) -> (s: String)
    ensures
        s@ == shown(value@),
{
    match value {
        Value::Boolean(Some(b)) => {
            if *b {
                String::from_str("true")
            } else {
                String::from_str("false")
            }
        },
        Value::Decimal(Some(d)) => String::from_str(d.as_str()),
        Value::Integer(Some(i)) => render_signed_decimal(*i),
        Value::String(Some(s)) => s.clone(),
        Value::Timestamp(Some(t)) => t.clone(),
        _ => String::from_str("<null>"),
    }
}

/// Writes the values of a row as they stand in a table.
pub fn show_row(row: &Vec<Value>) -> (record: Vec<String>)
    ensures
        record.deep_view() == shown_row(row.deep_view()),
{
    let mut record: Vec<String> = Vec::new();
    let mut j: usize = 0;
    while j < row.len()
        invariant
            j <= row.len(),
            record.len() == j,
            forall|k: int| 0 <= k < j ==> (#[trigger] record@[k])@ == shown(row@[k]@),
        decreases row.len() - j,
    {
        record.push(show(&row[j]));
        j += 1;
    }
    assert(record.deep_view() =~= shown_row(row.deep_view()));
    record
}

/// `tabled::builder::Builder`, which collects a header and records and
/// builds a table from them. Nothing inside it is seen here.
#[verifier::external_type_specification]
#[verifier::external_body]
pub struct ExBuilder(tabled::builder::Builder);

/// The header that a table builder holds, if one was set.
pub uninterp spec fn builder_header(builder: tabled::builder::Builder) -> Option<Seq<Seq<char>>>;

/// The records that a table builder holds, in the order in which they came.
pub uninterp spec fn builder_records(builder: tabled::builder::Builder) -> Seq<Seq<Seq<char>>>;

/// The text of the table that `tabled` builds from a header and records, in
/// the style it starts with: what `Builder::build` and then the table's
/// `to_string` give for a builder that holds them. Nothing more is said of
/// the text than that it depends on the header and the records alone.
pub uninterp spec fn table_text(header: Option<Seq<Seq<char>>>, records: Seq<Seq<Seq<char>>>) -> Seq<
    char,
>;

/// Calls `tabled::builder::Builder::default`. Unproved: the builder holds
/// neither header nor records.
#[verifier::external_body]
fn new_builder() -> (builder: tabled::builder::Builder)
    ensures
        builder_header(builder) is None,
        builder_records(builder) == Seq::<Seq<Seq<char>>>::empty(),
{
    tabled::builder::Builder::default()
}

/// Calls `Builder::set_header` on a builder that has no header yet.
/// Unproved: the builder then holds the names as its header, and its
/// records as before.
#[verifier::external_body]
fn set_header(builder: &mut tabled::builder::Builder, names: &Vec<String>)
    requires
        builder_header(*old(builder)) is None,
    ensures
        builder_header(*final(builder)) == Some(names.deep_view()),
        builder_records(*final(builder)) == builder_records(*old(builder)),
{
    builder.set_header(names);
}

/// Calls `Builder::push_record`. Unproved: the record comes behind the
/// records that the builder holds, and the header stays.
#[verifier::external_body]
fn push_record(builder: &mut tabled::builder::Builder, record: Vec<String>)
    ensures
        builder_records(*final(builder)) == builder_records(*old(builder)).push(
            record.deep_view(),
        ),
        builder_header(*final(builder)) == builder_header(*old(builder)),
{
    builder.push_record(record);
}

/// Calls `Builder::build` and writes the table out with `to_string`.
/// Unproved: the text is the one that [`table_text`] names for the header
/// and the records that the builder holds.
#[verifier::external_body]
fn build_text(builder: tabled::builder::Builder) -> (text: String)
    ensures
        text@ == table_text(builder_header(builder), builder_records(builder)),
{
    builder.build().to_string()
}

/// Format result as a table: the names as header, then one record for each
/// row, each value written as [`shown`] says.
pub fn table_result(qr: &QueryResult) -> (text: String)
    ensures
        text@ == table_text(Some(qr@.names), shown_rows(qr@.values)),
{
    let mut builder = new_builder();
    set_header(&mut builder, &qr.names);
    let mut i: usize = 0;
    while i < qr.values.len()
        invariant
            i <= qr.values.len(),
            builder_header(builder) == Some(qr@.names),
            builder_records(builder) == shown_rows(qr@.values).take(i as int),
        decreases qr.values.len() - i,
    {
        let record = show_row(&qr.values[i]);
        assert(record.deep_view() == shown_rows(qr@.values)[i as int]);
        push_record(&mut builder, record);
        assert(shown_rows(qr@.values).take(i as int).push(shown_rows(qr@.values)[i as int])
            =~= shown_rows(qr@.values).take(i + 1));
        i += 1;
    }
    assert(shown_rows(qr@.values).take(i as int) =~= shown_rows(qr@.values));
    build_text(builder)
}

} // verus!
