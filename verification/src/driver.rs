//! What differs between the database drivers: the positional marker, the
//! SQL types they report, and which variables they bind.

use crate::model::ValueKind;
use crate::text::same_text;
use vstd::prelude::*;

verus! {

/// The database drivers that the engine knows.
#[derive(Clone, Copy, Debug, PartialEq, Eq, Structural)]
pub enum Driver {
    Sqlite,
    Postgres,
}

impl Driver {
    /// The name under which the driver is configured and listed.
    pub open spec fn spec_name(self) -> Seq<char> {
        match self {
            Driver::Sqlite => "sqlite"@,
            Driver::Postgres => "postgres"@,
        }
    }

    /// What the driver writes before the number of a positional parameter.
    pub open spec fn spec_prefix(self) -> Seq<char> {
        match self {
            Driver::Sqlite => "?"@,
            Driver::Postgres => "$"@,
        }
    }

    /// The name under which the driver is configured and listed.
    pub fn name(&self) -> (s: &'static str)
        ensures
            s@ == self.spec_name(),
    {
        match self {
            Driver::Sqlite => "sqlite",
            Driver::Postgres => "postgres",
        }
    }

    /// What the driver writes before the number of a positional parameter.
    pub fn prefix(&self) -> (s: &'static str)
        ensures
            s@ == self.spec_prefix(),
    {
        match self {
            Driver::Sqlite => "?",
            Driver::Postgres => "$",
        }
    }
}

/// The kind of value of a column that SQLite declares as `decl`. The match
/// is exact: case counts.
pub open spec fn sqlite_kind_of(decl: Seq<char>) -> Option<ValueKind> {
    if decl == "INTEGER"@ {
        Some(ValueKind::Integer)
    } else if decl == "TEXT"@ {
        Some(ValueKind::String)
    } else if decl == "BOOL"@ {
        Some(ValueKind::Boolean)
    } else if decl == "REAL"@ {
        Some(ValueKind::Decimal)
    } else {
        None
    }
}

/// The kind of value of a column whose Postgres type has the object
/// identifier `oid`: the two-, four- and eight-byte integers, text, boolean,
/// and the four- and eight-byte floats.
pub open spec fn postgres_kind_of(oid: u32) -> Option<ValueKind> {
    if oid == 21 || oid == 23 || oid == 20 {
        Some(ValueKind::Integer)
    } else if oid == 25 {
        Some(ValueKind::String)
    } else if oid == 16 {
        Some(ValueKind::Boolean)
    } else if oid == 700 || oid == 701 {
        Some(ValueKind::Decimal)
    } else {
        None
    }
}

/// The kind of value of a column that SQLite declares as `decl`.
pub fn sqlite_kind(decl: &str) -> (kind: Option<ValueKind>)
    ensures
        kind == sqlite_kind_of(decl@),
{
    if same_text(decl, "INTEGER") {
        Some(ValueKind::Integer)
    } else if same_text(decl, "TEXT") {
        Some(ValueKind::String)
    } else if same_text(decl, "BOOL") {
        Some(ValueKind::Boolean)
    } else if same_text(decl, "REAL") {
        Some(ValueKind::Decimal)
    } else {
        None
    }
}

/// The kind of value of a column whose Postgres type has the object
/// identifier `oid`.
pub fn postgres_kind(oid: u32) -> (kind: Option<ValueKind>)
    ensures
        kind == postgres_kind_of(oid),
{
    if oid == 21 || oid == 23 || oid == 20 {
        Some(ValueKind::Integer)
    } else if oid == 25 {
        Some(ValueKind::String)
    } else if oid == 16 {
        Some(ValueKind::Boolean)
    } else if oid == 700 || oid == 701 {
        Some(ValueKind::Decimal)
    } else {
        None
    }
}

/// A column of a prepared statement.
#[derive(Clone, Debug, PartialEq, Eq)]
pub struct Column {
    /// The column's name.
    pub name: String,
    /// The SQL type, as the driver writes it.
    pub sql_type: String,
    /// The kind of value that the type maps to, if any.
    pub kind: Option<ValueKind>,
}

/// What a [`Column`] holds.
pub struct ColumnView {
    pub name: Seq<char>,
    pub sql_type: Seq<char>,
    pub kind: Option<ValueKind>,
}

impl View for Column {
    type V = ColumnView;

    open spec fn view(&self) -> ColumnView {
        ColumnView { name: self.name@, sql_type: self.sql_type@, kind: self.kind }
    }
}

impl DeepView for Column {
    type V = ColumnView;

    open spec fn deep_view(&self) -> ColumnView {
        self@
    }
}

impl Column {
    /// A column as SQLite reports it. A column without a declared type has
    /// the empty type, which maps to no kind.
    pub fn sqlite(name: &str, decl_type: Option<&str>) -> (column: Column)
        ensures
            column@.name == name@,
            column@.sql_type == match decl_type {
                Some(decl) => decl@,
                None => Seq::<char>::empty(),
            },
            column@.kind == sqlite_kind_of(column@.sql_type),
    {
        let sql_type = match decl_type {
            Some(decl) => String::from_str(decl),
            None => String::new(),
        };
        let kind = sqlite_kind(sql_type.as_str());
        Column { name: String::from_str(name), sql_type, kind }
    }

    /// A column as Postgres reports it: the type by its object identifier
    /// and by the name under which it is shown.
    pub fn postgres(name: &str, oid: u32, type_text: &str) -> (column: Column)
        ensures
            column@ == (ColumnView {
                name: name@,
                sql_type: type_text@,
                kind: postgres_kind_of(oid),
            }),
    {
        Column {
            name: String::from_str(name),
            sql_type: String::from_str(type_text),
            kind: postgres_kind(oid),
        }
    }
}

} // verus!
