//! The typed values shared by database, plugin and caller, with the
//! mathematical view of each.

use crate::numeral::{check_decimal_literal, is_decimal_literal};
use vstd::prelude::*;

verus! {

/// The kinds of value that a parameter or a column can have.
#[derive(Clone, Copy, Debug, PartialEq, Eq, Structural)]
pub enum ValueKind {
    Boolean,
    Decimal,
    Integer,
    String,
    Timestamp,
}

impl View for ValueKind {
    type V = ValueKind;

    open spec fn view(&self) -> ValueKind {
        *self
    }
}

impl DeepView for ValueKind {
    type V = ValueKind;

    open spec fn deep_view(&self) -> ValueKind {
        *self
    }
}

impl ValueKind {
    /// The name under which the kind is published.
    pub open spec fn spec_name(self) -> Seq<char> {
        match self {
            ValueKind::Boolean => "bool"@,
            ValueKind::Decimal => "decimal"@,
            ValueKind::Integer => "integer"@,
            ValueKind::String => "string"@,
            ValueKind::Timestamp => "timestamp"@,
        }
    }

    /// The name under which the kind is published.
    pub fn name(&self) -> (s: &'static str)
        ensures
            s@ == self.spec_name(),
    {
        match self {
            ValueKind::Boolean => "bool",
            ValueKind::Decimal => "decimal",
            ValueKind::Integer => "integer",
            ValueKind::String => "string",
            ValueKind::Timestamp => "timestamp",
        }
    }
}

/// A decimal number, held as the literal that writes it. The literal always
/// reads as a 64-bit binary float, which is the number it stands for.
#[derive(Debug, PartialEq, Eq)]
pub struct Decimal {
    text: String,
}

impl Clone for Decimal {
    fn clone(&self) -> (d: Decimal)
        ensures
            d@ == self@,
    {
        proof {
            use_type_invariant(self);
        }
        Decimal { text: self.text.clone() }
    }
}

impl View for Decimal {
    type V = Seq<char>;

    closed spec fn view(&self) -> Seq<char> {
        self.text@
    }
}

impl DeepView for Decimal {
    type V = Seq<char>;

    open spec fn deep_view(&self) -> Seq<char> {
        self@
    }
}

impl Decimal {
    #[verifier::type_invariant]
    spec fn well_formed(self) -> bool {
        is_decimal_literal(self.text@)
    }

    /// Accepts `text` exactly when it is a literal of a 64-bit float.
    pub fn parse(text: &str) -> (r: Option<Decimal>)
        ensures
            r is Some <==> is_decimal_literal(text@),
            r matches Some(d) ==> d@ == text@,
    {
        if check_decimal_literal(text) {
            Some(Decimal { text: String::from_str(text) })
        } else {
            None
        }
    }

    /// The literal.
    pub fn as_str(&self) -> (s: &str)
        ensures
            s@ == self@,
            is_decimal_literal(s@),
    {
        proof {
            use_type_invariant(self);
        }
        self.text.as_str()
    }

}

/// A typed value; `None` inside a variant is SQL NULL of that kind.
#[derive(Clone, Debug, PartialEq, Eq)]
pub enum Value {
    Boolean(Option<bool>),
    Decimal(Option<Decimal>),
    Integer(Option<i64>),
    String(Option<String>),
    Timestamp(Option<String>),
}

/// What a [`Value`] holds.
pub enum ValueView {
    Boolean(Option<bool>),
    Decimal(Option<Seq<char>>),
    Integer(Option<i64>),
    String(Option<Seq<char>>),
    Timestamp(Option<Seq<char>>),
}

impl ValueView {
    pub open spec fn kind(self) -> ValueKind {
        match self {
            ValueView::Boolean(_) => ValueKind::Boolean,
            ValueView::Decimal(_) => ValueKind::Decimal,
            ValueView::Integer(_) => ValueKind::Integer,
            ValueView::String(_) => ValueKind::String,
            ValueView::Timestamp(_) => ValueKind::Timestamp,
        }
    }

    pub open spec fn is_null(self) -> bool {
        match self {
            ValueView::Boolean(b) => b is None,
            ValueView::Decimal(d) => d is None,
            ValueView::Integer(i) => i is None,
            ValueView::String(s) => s is None,
            ValueView::Timestamp(t) => t is None,
        }
    }

    /// The NULL of a kind.
    pub open spec fn null(kind: ValueKind) -> ValueView {
        match kind {
            ValueKind::Boolean => ValueView::Boolean(None),
            ValueKind::Decimal => ValueView::Decimal(None),
            ValueKind::Integer => ValueView::Integer(None),
            ValueKind::String => ValueView::String(None),
            ValueKind::Timestamp => ValueView::Timestamp(None),
        }
    }
}

impl View for Value {
    type V = ValueView;

    open spec fn view(&self) -> ValueView {
        match self {
            Value::Boolean(b) => ValueView::Boolean(*b),
            Value::Decimal(d) => ValueView::Decimal(
                match d {
                    Some(d) => Some(d@),
                    None => None,
                },
            ),
            Value::Integer(i) => ValueView::Integer(*i),
            Value::String(s) => ValueView::String(
                match s {
                    Some(s) => Some(s@),
                    None => None,
                },
            ),
            Value::Timestamp(t) => ValueView::Timestamp(
                match t {
                    Some(t) => Some(t@),
                    None => None,
                },
            ),
        }
    }
}

impl DeepView for Value {
    type V = ValueView;

    open spec fn deep_view(&self) -> ValueView {
        self@
    }
}

impl Value {
    pub fn kind(&self) -> (k: ValueKind)
        ensures
            k == self@.kind(),
    {
        match self {
            Value::Boolean(_) => ValueKind::Boolean,
            Value::Decimal(_) => ValueKind::Decimal,
            Value::Integer(_) => ValueKind::Integer,
            Value::String(_) => ValueKind::String,
            Value::Timestamp(_) => ValueKind::Timestamp,
        }
    }

    pub fn is_null(&self) -> (b: bool)
        ensures
            b == self@.is_null(),
    {
        match self {
            Value::Boolean(b) => b.is_none(),
            Value::Decimal(d) => d.is_none(),
            Value::Integer(i) => i.is_none(),
            Value::String(s) => s.is_none(),
            Value::Timestamp(t) => t.is_none(),
        }
    }

    /// The NULL of a kind.
    pub fn null(kind: ValueKind) -> (v: Value)
        ensures
            v@ == ValueView::null(kind),
    {
        match kind {
            ValueKind::Boolean => Value::Boolean(None),
            ValueKind::Decimal => Value::Decimal(None),
            ValueKind::Integer => Value::Integer(None),
            ValueKind::String => Value::String(None),
            ValueKind::Timestamp => Value::Timestamp(None),
        }
    }

    /// A second value that holds the same.
    pub fn duplicate(&self) -> (v: Value)
        ensures
            v@ == self@,
    {
        match self {
            Value::Boolean(b) => Value::Boolean(*b),
            Value::Decimal(Some(d)) => Value::Decimal(Some(d.clone())),
            Value::Decimal(None) => Value::Decimal(None),
            Value::Integer(i) => Value::Integer(*i),
            Value::String(Some(s)) => Value::String(Some(s.clone())),
            Value::String(None) => Value::String(None),
            Value::Timestamp(Some(t)) => Value::Timestamp(Some(t.clone())),
            Value::Timestamp(None) => Value::Timestamp(None),
        }
    }
}

/// A value with its name: a parameter handed in, or a cell of a row.
#[derive(Clone, Debug, PartialEq, Eq)]
pub struct NamedValue {
    pub name: String,
    pub value: Value,
}

/// What a [`NamedValue`] holds.
pub struct NamedValueView {
    pub name: Seq<char>,
    pub value: ValueView,
}

impl View for NamedValue {
    type V = NamedValueView;

    open spec fn view(&self) -> NamedValueView {
        NamedValueView { name: self.name@, value: self.value@ }
    }
}

impl DeepView for NamedValue {
    type V = NamedValueView;

    open spec fn deep_view(&self) -> NamedValueView {
        self@
    }
}

impl NamedValue {
    /// A second named value that holds the same.
    pub fn duplicate(&self) -> (v: NamedValue)
        ensures
            v@ == self@,
    {
        NamedValue { name: self.name.clone(), value: self.value.duplicate() }
    }
}

/// A parameter that a plugin declares.
#[derive(Clone, Debug, PartialEq, Eq)]
pub struct Parameter {
    pub name: String,
    pub kind: ValueKind,
}

/// What a [`Parameter`] holds.
pub struct ParameterView {
    pub name: Seq<char>,
    pub kind: ValueKind,
}

impl View for Parameter {
    type V = ParameterView;

    open spec fn view(&self) -> ParameterView {
        ParameterView { name: self.name@, kind: self.kind }
    }
}

impl DeepView for Parameter {
    type V = ParameterView;

    open spec fn deep_view(&self) -> ParameterView {
        self@
    }
}

/// What a plugin says of itself. The order of the parameters is the order in
/// which they are bound.
#[derive(Clone, Debug, PartialEq, Eq)]
pub struct Metadata {
    pub description: String,
    pub parameters: Vec<Parameter>,
}

/// What a [`Metadata`] holds.
pub struct MetadataView {
    pub description: Seq<char>,
    pub parameters: Seq<ParameterView>,
}

impl View for Metadata {
    type V = MetadataView;

    open spec fn view(&self) -> MetadataView {
        MetadataView {
            description: self.description@,
            parameters: self.parameters.deep_view(),
        }
    }
}

impl DeepView for Metadata {
    type V = MetadataView;

    open spec fn deep_view(&self) -> MetadataView {
        self@
    }
}

/// Rows under a header of column names.
#[derive(Clone, Debug, PartialEq, Eq)]
pub struct QueryResult {
    pub names: Vec<String>,
    pub values: Vec<Vec<Value>>,
}

/// What a [`QueryResult`] holds.
pub struct QueryResultView {
    pub names: Seq<Seq<char>>,
    pub values: Seq<Seq<ValueView>>,
}

impl QueryResultView {
    /// Every row has one cell per column.
    pub open spec fn rectangular(self) -> bool {
        forall|i: int| 0 <= i < self.values.len() ==> (#[trigger] self.values[i]).len()
            == self.names.len()
    }

    /// Two results can be added when they have the same header.
    pub open spec fn compatible(self, other: QueryResultView) -> bool {
        self.names == other.names
    }
}

impl View for QueryResult {
    type V = QueryResultView;

    open spec fn view(&self) -> QueryResultView {
        QueryResultView { names: self.names.deep_view(), values: self.values.deep_view() }
    }
}

impl DeepView for QueryResult {
    type V = QueryResultView;

    open spec fn deep_view(&self) -> QueryResultView {
        self@
    }
}

impl QueryResult {
    /// Whether every row has one cell per column.
    pub fn is_rectangular(&self) -> (b: bool)
        ensures
            b == self@.rectangular(),
    {
        let width = self.names.len();
        let mut i: usize = 0;
        while i < self.values.len()
            invariant
                i <= self.values.len(),
                width == self.names.len(),
                forall|j: int| 0 <= j < i ==> (#[trigger] self.values@[j]).len() == width,
            decreases self.values.len() - i,
        {
            if self.values[i].len() != width {
                assert(self@.values[i as int].len() != self@.names.len());
                return false;
            }
            i += 1;
        }
        assert forall|j: int| 0 <= j < self@.values.len() implies (#[trigger] self@.values[j]).len()
            == self@.names.len() by {
            assert(self@.values[j].len() == self.values@[j].len());
        }
        true
    }
}

} // verus!
