//! What of a result and of a parameter goes into JSON.

use crate::model::{Decimal, Parameter, QueryResult, Value, ValueView};
use vstd::prelude::*;

verus! {

/// A JSON value that is neither array nor object.
#[derive(Clone, Debug, PartialEq, Eq)]
pub enum JsonScalar {
    Null,
    Bool(bool),
    /// A number without fraction.
    Integer(i64),
    /// A number, by its decimal literal.
    Decimal(Decimal),
    Text(String),
}

/// What a [`JsonScalar`] holds.
pub enum JsonScalarView {
    Null,
    Bool(bool),
    Integer(i64),
    Decimal(Seq<char>),
    Text(Seq<char>),
}

impl View for JsonScalar {
    type V = JsonScalarView;

    open spec fn view(&self) -> JsonScalarView {
        match self {
            JsonScalar::Null => JsonScalarView::Null,
            JsonScalar::Bool(b) => JsonScalarView::Bool(*b),
            JsonScalar::Integer(i) => JsonScalarView::Integer(*i),
            JsonScalar::Decimal(d) => JsonScalarView::Decimal(d@),
            JsonScalar::Text(s) => JsonScalarView::Text(s@),
        }
    }
}

impl DeepView for JsonScalar {
    type V = JsonScalarView;

    open spec fn deep_view(&self) -> JsonScalarView {
        self@
    }
}

/// A result as it goes into JSON: an object of the names and, under
/// `values`, the rows.
#[derive(Clone, Debug, PartialEq, Eq)]
pub struct JsonResult {
    pub names: Vec<String>,
    pub values: Vec<Vec<JsonScalar>>,
}

/// A parameter as it goes into JSON: an object of its name and, under
/// `type`, the name of its kind.
#[derive(Clone, Debug, PartialEq, Eq)]
pub struct JsonParameter {
    pub name: String,
    pub kind: &'static str,
}

/// The JSON value of a typed value: null for a NULL of any kind, the
/// boolean, the number, or the text; a timestamp is text.
pub open spec fn json_of(value: ValueView) -> JsonScalarView {
    match value {
        ValueView::Boolean(Some(b)) => JsonScalarView::Bool(b),
        ValueView::Decimal(Some(d)) => JsonScalarView::Decimal(d),
        ValueView::Integer(Some(i)) => JsonScalarView::Integer(i),
        ValueView::String(Some(s)) => JsonScalarView::Text(s),
        ValueView::Timestamp(Some(t)) => JsonScalarView::Text(t),
        _ => JsonScalarView::Null,
    }
}

/// The JSON values of the rows of a result.
pub open spec fn json_rows(rows: Seq<Seq<ValueView>>) -> Seq<Seq<JsonScalarView>> {
    Seq::new(rows.len(), |i: int| Seq::new(rows[i].len(), |j: int| json_of(rows[i][j])))
}

/// Turns a typed value into its JSON value.
pub fn value_json(value: Value) -> (json: JsonScalar)
    ensures
        json@ == json_of(value@),
{
    match value {
        Value::Boolean(Some(b)) => JsonScalar::Bool(b),
        Value::Decimal(Some(d)) => JsonScalar::Decimal(d),
        Value::Integer(Some(i)) => JsonScalar::Integer(i),
        Value::String(Some(s)) => JsonScalar::Text(s),
        Value::Timestamp(Some(t)) => JsonScalar::Text(t),
        _ => JsonScalar::Null,
    }
}

/// Turns a result into what goes into JSON: the names as they are, and
/// every value of every row as its JSON value.
pub fn result_json(qr: QueryResult) -> (json: JsonResult)
    ensures
        json.names.deep_view() == qr@.names,
        json.values.deep_view() == json_rows(qr@.values),
{
    let ghost given = qr@.values;
    let mut values: Vec<Vec<JsonScalar>> = Vec::new();
    for row in rows: qr.values
        invariant
            given.len() == rows.seq().len(),
            forall|i: int|
                0 <= i < rows.seq().len() ==> (#[trigger] rows.seq()[i]).deep_view() == given[i],
            values.len() == rows.index(),
            forall|i: int|
                0 <= i < values.len() ==> (#[trigger] values@[i]).deep_view() == json_rows(
                    given,
                )[i],
    {
        let ghost fed = row.deep_view();
        let mut cells: Vec<JsonScalar> = Vec::new();
        for value in it: row
            invariant
                fed.len() == it.seq().len(),
                forall|j: int| 0 <= j < it.seq().len() ==> (#[trigger] it.seq()[j])@ == fed[j],
                cells.len() == it.index(),
                forall|j: int| 0 <= j < cells.len() ==> (#[trigger] cells@[j])@ == json_of(fed[j]),
        {
            cells.push(value_json(value));
        }
        assert(cells.deep_view() =~= json_rows(given)[values.len() as int]);
        values.push(cells);
    }
    assert(values.deep_view() =~= json_rows(given));
    JsonResult { names: qr.names, values }
}

/// Turns a parameter into what goes into JSON.
pub fn parameter_json(parameter: Parameter) -> (json: JsonParameter)
    ensures
        json.name@ == parameter@.name,
        json.kind@ == parameter@.kind.spec_name(),
{
    JsonParameter { kind: parameter.kind.name(), name: parameter.name }
}

} // verus!
