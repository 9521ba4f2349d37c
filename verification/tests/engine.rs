use query_runner::driver::{postgres_kind, sqlite_kind, Column, Driver};
use query_runner::engine::{
    accumulate, name_row, names_of, prepare, statement_for, Binding, ExecutionState,
};
use query_runner::error::EngineError;
use query_runner::model::{Decimal, NamedValue, QueryResult, Value, ValueKind};
use query_runner::plugin::{Handle, Plugin, PluginError};
use query_runner::test_collect::{Execution, Query};

fn named(name: &str, value: Value) -> NamedValue {
    NamedValue {
        name: name.to_string(),
        value,
    }
}

fn broken(message: &str) -> PluginError {
    PluginError {
        message: message.to_string(),
    }
}

/// Answers every second row with what it has seen since the last answer,
/// and the rest at the end; fails on a row that starts with a NULL.
struct Pairs {
    seen: Vec<Vec<Value>>,
    rows: Vec<Vec<NamedValue>>,
    ends: Vec<Vec<String>>,
}

impl Pairs {
    fn new() -> Pairs {
        Pairs {
            seen: vec![],
            rows: vec![],
            ends: vec![],
        }
    }

    fn flush(&mut self, names: Vec<String>) -> Option<QueryResult> {
        if self.seen.is_empty() {
            None
        } else {
            Some(QueryResult {
                names,
                values: std::mem::take(&mut self.seen),
            })
        }
    }
}

impl Handle for Pairs {
    fn query_string(&self) -> Result<String, PluginError> {
        Ok("SELECT a, b FROM T WHERE a > {{low}} AND b = {{tag}} AND c = {{low}}".to_string())
    }

    fn variables(&self) -> Result<Vec<NamedValue>, PluginError> {
        Ok(vec![
            named("low", Value::Integer(Some(3))),
            named("none", Value::String(None)),
            named("tag", Value::String(Some("x".to_string()))),
        ])
    }

    fn row(&mut self, row: Vec<NamedValue>) -> Result<Option<QueryResult>, PluginError> {
        if row.first().map(|c| c.value.is_null()).unwrap_or(false) {
            return Err(broken("a row without a key"));
        }
        let names: Vec<String> = row.iter().map(|c| c.name.clone()).collect();
        self.rows.push(row.clone());
        self.seen.push(row.into_iter().map(|c| c.value).collect());
        if self.seen.len() == 2 {
            Ok(self.flush(names))
        } else {
            Ok(None)
        }
    }

    fn end(&mut self, columns: Vec<String>) -> Result<Option<QueryResult>, PluginError> {
        self.ends.push(columns.clone());
        Ok(self.flush(columns))
    }
}

fn columns() -> Vec<Column> {
    vec![
        Column::sqlite("a", Some("INTEGER")),
        Column::sqlite("b", Some("TEXT")),
    ]
}

fn cells(a: i64, b: &str) -> Vec<Value> {
    vec![Value::Integer(Some(a)), Value::String(Some(b.to_string()))]
}

#[test]
fn partial_results_add_up_from_the_left() {
    let mut state = ExecutionState::new(Pairs::new(), columns());
    assert_eq!(state.column_count(), 2);
    for (a, b) in [(1, "one"), (2, "two"), (3, "three"), (4, "four"), (5, "five")] {
        state.row(cells(a, b)).unwrap();
    }
    assert_eq!(state.result.as_ref().unwrap().values.len(), 4);
    assert_eq!(
        state.handle.rows[0],
        vec![
            named("a", Value::Integer(Some(1))),
            named("b", Value::String(Some("one".to_string())))
        ]
    );
    let sum = state.end().unwrap().unwrap();
    assert_eq!(sum.names, vec!["a".to_string(), "b".to_string()]);
    assert_eq!(
        sum.values,
        vec![
            cells(1, "one"),
            cells(2, "two"),
            cells(3, "three"),
            cells(4, "four"),
            cells(5, "five")
        ]
    );
}

#[test]
fn the_end_is_told_the_column_names() {
    let state = ExecutionState::new(Pairs::new(), columns());
    assert_eq!(state.end().unwrap(), None);

    let mut state = ExecutionState::new(Pairs::new(), columns());
    state.row(cells(1, "one")).unwrap();
    let sum = state.end().unwrap().unwrap();
    assert_eq!(sum.names, vec!["a".to_string(), "b".to_string()]);
    assert_eq!(sum.values, vec![cells(1, "one")]);
}

#[test]
fn a_failing_plugin_fails_the_execution() {
    let mut state = ExecutionState::new(Pairs::new(), columns());
    state.row(cells(1, "one")).unwrap();
    let e = state
        .row(vec![Value::Integer(None), Value::String(None)])
        .unwrap_err();
    assert_eq!(e, EngineError::PluginExecution(broken("a row without a key")));
    assert_eq!(e.message(), "a row without a key");
    assert_eq!(
        accumulate(None, Err(broken("trap"))),
        Err(EngineError::PluginExecution(broken("trap")))
    );
    assert_eq!(accumulate(None, Ok(None)), Ok(None));
}

#[test]
fn an_unsupported_type_is_named() {
    let state = ExecutionState::new(
        Pairs::new(),
        vec![
            Column::sqlite("a", Some("INTEGER")),
            Column::sqlite("b", Some("BLOB")),
            Column::sqlite("c", None),
            Column::postgres("d", 1114, "timestamp"),
        ],
    );
    assert_eq!(state.column_kind(0), Ok(ValueKind::Integer));
    let e = state.column_kind(1).unwrap_err();
    assert_eq!(e, EngineError::UnsupportedType("BLOB".to_string()));
    assert_eq!(e.message(), "unsupported type BLOB");
    assert_eq!(
        state.column_kind(2).unwrap_err().message(),
        "unsupported type "
    );
    assert_eq!(
        state.column_kind(3).unwrap_err().message(),
        "unsupported type timestamp"
    );
}

#[test]
fn sql_types_map_to_kinds() {
    assert_eq!(sqlite_kind("INTEGER"), Some(ValueKind::Integer));
    assert_eq!(sqlite_kind("TEXT"), Some(ValueKind::String));
    assert_eq!(sqlite_kind("BOOL"), Some(ValueKind::Boolean));
    assert_eq!(sqlite_kind("REAL"), Some(ValueKind::Decimal));
    for other in ["integer", "Text", "BOOLEAN", "INT", "FLOAT", "", "BLOB", "INTEGER "] {
        assert_eq!(sqlite_kind(other), None, "{other}");
    }
    for oid in [20, 21, 23] {
        assert_eq!(postgres_kind(oid), Some(ValueKind::Integer));
    }
    assert_eq!(postgres_kind(25), Some(ValueKind::String));
    assert_eq!(postgres_kind(16), Some(ValueKind::Boolean));
    assert_eq!(postgres_kind(700), Some(ValueKind::Decimal));
    assert_eq!(postgres_kind(701), Some(ValueKind::Decimal));
    for oid in [0, 17, 18, 19, 22, 24, 26, 1043, 1114, 1700, u32::MAX] {
        assert_eq!(postgres_kind(oid), None, "{oid}");
    }
    let c = Column::postgres("n", 23, "int4");
    assert_eq!((c.name.as_str(), c.sql_type.as_str()), ("n", "int4"));
    assert_eq!(c.kind, Some(ValueKind::Integer));
    assert_eq!(Column::sqlite("n", None).sql_type, "");
}

#[test]
fn drivers_have_their_markers() {
    assert_eq!(Driver::Sqlite.name(), "sqlite");
    assert_eq!(Driver::Postgres.name(), "postgres");
    assert_eq!(Driver::Sqlite.prefix(), "?");
    assert_eq!(Driver::Postgres.prefix(), "$");
}

#[test]
fn sqlite_leaves_nulls_unbound() {
    let statement = prepare(&Pairs::new(), Driver::Sqlite).unwrap();
    assert_eq!(
        statement.sql,
        "SELECT a, b FROM T WHERE a > ?1 AND b = ?3 AND c = ?1"
    );
    assert_eq!(
        statement.bindings,
        vec![
            Binding {
                position: 1,
                value: Value::Integer(Some(3))
            },
            Binding {
                position: 3,
                value: Value::String(Some("x".to_string()))
            },
        ]
    );
}

#[test]
fn postgres_binds_every_variable() {
    let statement = prepare(&Pairs::new(), Driver::Postgres).unwrap();
    assert_eq!(
        statement.sql,
        "SELECT a, b FROM T WHERE a > $1 AND b = $3 AND c = $1"
    );
    assert_eq!(
        statement.bindings,
        vec![
            Binding {
                position: 1,
                value: Value::Integer(Some(3))
            },
            Binding {
                position: 2,
                value: Value::String(None)
            },
            Binding {
                position: 3,
                value: Value::String(Some("x".to_string()))
            },
        ]
    );
}

#[test]
fn a_statement_keeps_decimals_and_order() {
    let variables = vec![
        named("d", Value::Decimal(Decimal::parse("1.50"))),
        named("t", Value::Timestamp(None)),
        named("b", Value::Boolean(Some(false))),
    ];
    let statement = statement_for(Driver::Sqlite, "{{b}}{{d}}{{t}}{{x}}", &variables);
    assert_eq!(statement.sql, "?3?1?2{{x}}");
    assert_eq!(statement.bindings.len(), 2);
    assert_eq!(statement.bindings[0].position, 1);
    assert_eq!(
        statement.bindings[0].value,
        Value::Decimal(Decimal::parse("1.50"))
    );
    assert_eq!(statement.bindings[1].position, 3);
    assert_eq!(statement_for(Driver::Postgres, "", &vec![]).bindings, vec![]);
}

#[test]
fn cells_get_the_names_of_their_columns() {
    assert_eq!(
        name_row(&columns(), cells(7, "seven")),
        vec![
            named("a", Value::Integer(Some(7))),
            named("b", Value::String(Some("seven".to_string())))
        ]
    );
    assert_eq!(names_of(&columns()), vec!["a".to_string(), "b".to_string()]);
    assert_eq!(name_row(&vec![], vec![]), vec![]);
}

#[test]
fn the_collecting_plugin_hands_out_what_it_was_fed() {
    let query = Query {};
    let metadata = query.metadata().unwrap();
    assert_eq!(metadata.description, "test plugin collecting results");
    assert_eq!(metadata.parameters.len(), 1);
    let variables = vec![named("customer_id", Value::Integer(Some(123)))];
    let mut run: Execution = query.start(variables.clone()).unwrap();
    assert_eq!(
        run.query_string().unwrap(),
        "SELECT order_id FROM Orders WHERE customer_id = {{customer_id}} ORDER BY order_id"
    );
    assert_eq!(run.variables().unwrap(), variables);
    assert_eq!(
        run.row(vec![named("order_id", Value::Integer(Some(1234)))]),
        Ok(None)
    );
    assert_eq!(
        run.row(vec![named("order_id", Value::Integer(None))]),
        Ok(None)
    );
    let out = run.end(vec!["order_id".to_string()]).unwrap().unwrap();
    assert_eq!(out.names, vec!["order_id".to_string()]);
    assert_eq!(
        out.values,
        vec![vec![Value::Integer(Some(1234))], vec![Value::Integer(None)]]
    );
    // What was handed out is gone.
    let again = run.end(vec![]).unwrap().unwrap();
    assert_eq!(again.values, Vec::<Vec<Value>>::new());
}
