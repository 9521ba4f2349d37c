use query_runner::connection::{
    load_connections, ConnectionEntry, DBConnection, Field, SqliteLocation,
};
use query_runner::driver::Column;
use query_runner::engine::ExecutionState;
use query_runner::error::EngineError;
use query_runner::model::{
    Decimal, Metadata, NamedValue, Parameter, QueryResult, Value, ValueKind,
};
use query_runner::plugin::{Handle, Plugin, PluginError};
use query_runner::state::{Started, State};
use query_runner::test_collect::{Execution, Query};

/// The plugins of the scenarios: the collecting plugin of the library, and
/// one that collects the name and e-mail of a user.
enum TestPlugin {
    Collect(Query),
    Collect2,
}

impl Plugin for TestPlugin {
    type Run = Execution;

    fn metadata(&self) -> Result<Metadata, PluginError> {
        match self {
            TestPlugin::Collect(query) => query.metadata(),
            TestPlugin::Collect2 => Ok(Metadata {
                description: "test plugin collecting results".to_string(),
                parameters: vec![Parameter {
                    name: "user_name".to_string(),
                    kind: ValueKind::String,
                }],
            }),
        }
    }

    fn start(&self, variables: Vec<NamedValue>) -> Result<Execution, PluginError> {
        match self {
            TestPlugin::Collect(query) => query.start(variables),
            TestPlugin::Collect2 => Ok(Execution::new(
                "SELECT name, email FROM Users WHERE username = {{user_name}}".to_string(),
                variables,
            )),
        }
    }
}

fn text(s: &str) -> Field {
    Field::Text(s.to_string())
}

fn test_state() -> State<TestPlugin> {
    let entries = vec![
        (
            "memory".to_string(),
            ConnectionEntry {
                db: text("sqlite"),
                path: text("memory"),
                config: Field::Missing,
            },
        ),
        (
            "postgres1".to_string(),
            ConnectionEntry {
                db: text("postgres"),
                path: Field::Missing,
                config: text("host=localhost user=postgres password=password"),
            },
        ),
    ];
    State {
        connections: load_connections(&entries).unwrap(),
        plugins: vec![
            ("test_collect".to_string(), TestPlugin::Collect(Query {})),
            ("test_collect2".to_string(), TestPlugin::Collect2),
        ],
    }
}

fn open(st: &State<TestPlugin>, connection: &str) -> rusqlite::Connection {
    match st.get_connection(connection).unwrap() {
        DBConnection::SqliteConnection(SqliteLocation::Memory) => {
            rusqlite::Connection::open_in_memory().unwrap()
        }
        other => panic!("not an in-memory database: {:?}", other),
    }
}

fn driver_error(e: rusqlite::Error) -> EngineError {
    EngineError::Driver(e.to_string())
}

fn decimal(d: f64) -> Decimal {
    Decimal::parse(&format!("{}", d)).unwrap()
}

/// Drives a started execution against an SQLite database.
fn execute<H: Handle>(
    conn: &rusqlite::Connection,
    started: Started<H>,
) -> Result<Option<QueryResult>, EngineError> {
    let mut stmt = conn.prepare(&started.statement.sql).map_err(driver_error)?;
    for binding in started.statement.bindings.iter() {
        let at = binding.position;
        match &binding.value {
            Value::Boolean(Some(b)) => stmt.raw_bind_parameter(at, b),
            Value::Decimal(Some(d)) => {
                stmt.raw_bind_parameter(at, d.as_str().parse::<f64>().unwrap())
            }
            Value::Integer(Some(i)) => stmt.raw_bind_parameter(at, i),
            Value::String(Some(s)) => stmt.raw_bind_parameter(at, s),
            Value::Timestamp(Some(t)) => stmt.raw_bind_parameter(at, t),
            _ => Ok(()),
        }
        .map_err(driver_error)?;
    }
    let columns: Vec<Column> = stmt
        .columns()
        .iter()
        .map(|c| Column::sqlite(c.name(), c.decl_type()))
        .collect();
    let mut state = ExecutionState::new(started.handle, columns);
    let mut rows = stmt.raw_query();
    while let Some(row) = rows.next().map_err(driver_error)? {
        let mut cells = Vec::with_capacity(state.column_count());
        for ix in 0..state.column_count() {
            let cell = match state.column_kind(ix)? {
                ValueKind::Integer => Value::Integer(row.get(ix).map_err(driver_error)?),
                ValueKind::String => Value::String(row.get(ix).map_err(driver_error)?),
                ValueKind::Boolean => Value::Boolean(row.get(ix).map_err(driver_error)?),
                ValueKind::Decimal => Value::Decimal(
                    row.get::<_, Option<f64>>(ix)
                        .map_err(driver_error)?
                        .map(decimal),
                ),
                ValueKind::Timestamp => Value::Timestamp(row.get(ix).map_err(driver_error)?),
            };
            cells.push(cell);
        }
        state.row(cells)?;
    }
    state.end()
}

fn run(
    st: &State<TestPlugin>,
    conn: &rusqlite::Connection,
    plugin: &str,
    connection: &str,
    variables: &[(&str, &str)],
) -> QueryResult {
    let raw: Vec<(String, String)> = variables
        .iter()
        .map(|(n, v)| (n.to_string(), v.to_string()))
        .collect();
    let started = st.run_untyped(plugin, connection, &raw).ok().unwrap();
    let res = execute(conn, started).unwrap().unwrap();
    assert!(res.is_rectangular());
    res
}

fn assert_result(res: &QueryResult, names: &[&str], values: &[&[Value]]) {
    assert_eq!(names.len(), res.names.len());
    for (expected, got) in names.iter().zip(res.names.iter()) {
        assert_eq!(expected, got)
    }
    assert_eq!(values.len(), res.values.len());
    for (expected, got) in values.iter().zip(res.values.iter()) {
        assert_eq!(expected.len(), got.len());
        for (expected_value, got_value) in expected.iter().zip(got.iter()) {
            match (expected_value, got_value) {
                (Value::Decimal(Some(d1)), Value::Decimal(Some(d2))) => assert!(
                    d1.as_str().parse::<f64>().unwrap() == d2.as_str().parse::<f64>().unwrap()
                ),
                _ => assert_eq!(expected_value, got_value),
            }
        }
    }
}

#[test]
fn ok_module() {
    let st = test_state();
    assert!(st.get_plugin("test_collect").is_ok());
}

#[test]
fn err_module() {
    let st = test_state();
    assert!(st.get_plugin("test_collect_missing").is_err());
}

#[test]
fn module_parameters() {
    let st = test_state();
    let m = st.get_plugin("test_collect").unwrap();
    let params = st.get_metadata(m).unwrap().parameters;
    assert_eq!(1, params.len());
    let p = params.get(0).expect("no parameter at index 0");
    assert_eq!("customer_id", &p.name);
    assert_eq!(ValueKind::Integer, p.kind);
}

#[test]
fn sqlite_integer() {
    let st = test_state();
    let conn = open(&st, "memory");
    conn.execute(
        "CREATE TABLE Orders (
                order_id     INTEGER PRIMARY KEY,
                customer_id  INTEGER NOT NULL
            )",
        (),
    )
    .unwrap();
    conn.execute(
        "INSERT INTO Orders (order_id, customer_id) VALUES (?1, ?2), (?3, ?4)",
        (1234, 123, 1235, 123),
    )
    .unwrap();

    let res = run(&st, &conn, "test_collect", "memory", &[("customer_id", "123")]);
    assert_result(
        &res,
        &["order_id"],
        &[
            &[Value::Integer(Some(1234))],
            &[Value::Integer(Some(1235))],
        ],
    );
}

#[test]
fn sqlite_text() {
    let st = test_state();
    let conn = open(&st, "memory");
    conn.execute(
        "CREATE TABLE Orders (
                order_id     TEXT PRIMARY KEY,
                customer_id  INTEGER NOT NULL
            )",
        (),
    )
    .unwrap();
    conn.execute(
        "INSERT INTO Orders (order_id, customer_id) VALUES (?1, ?2), (?3, ?4)",
        ("1234", 123, "1235", 123),
    )
    .unwrap();

    let res = run(&st, &conn, "test_collect", "memory", &[("customer_id", "123")]);
    assert_result(
        &res,
        &["order_id"],
        &[
            &[Value::String(Some("1234".to_string()))],
            &[Value::String(Some("1235".to_string()))],
        ],
    );
}

#[test]
fn sqlite_bool() {
    let st = test_state();
    let conn = open(&st, "memory");
    conn.execute(
        "CREATE TABLE Orders (
            order_id     BOOL,
            customer_id  INTEGER NOT NULL
        )",
        (),
    )
    .unwrap();
    conn.execute(
        "INSERT INTO Orders (order_id, customer_id) VALUES (?1, ?2), (?3, ?4)",
        (true, 123, false, 123),
    )
    .unwrap();

    let res = run(&st, &conn, "test_collect", "memory", &[("customer_id", "123")]);
    assert_result(
        &res,
        &["order_id"],
        &[
            &[Value::Boolean(Some(false))],
            &[Value::Boolean(Some(true))],
        ],
    );
}

#[test]
fn sqlite_decimal() {
    let st = test_state();
    let conn = open(&st, "memory");
    conn.execute(
        "CREATE TABLE Orders (
                order_id     REAL,
                customer_id  INTEGER NOT NULL
            )",
        (),
    )
    .unwrap();
    conn.execute(
        "INSERT INTO Orders (order_id, customer_id) VALUES (?1, ?2), (?3, ?4)",
        (123.4, 123, 123.5, 123),
    )
    .unwrap();

    let res = run(&st, &conn, "test_collect", "memory", &[("customer_id", "123")]);
    assert_result(
        &res,
        &["order_id"],
        &[
            &[Value::Decimal(Some(decimal(123.4)))],
            &[Value::Decimal(Some(decimal(123.5)))],
        ],
    );
}

#[test]
fn sqlite_null_result() {
    let st = test_state();
    let conn = open(&st, "memory");
    conn.execute(
        "CREATE TABLE Users (
                username  TEXT PRIMARY KEY,
                name  TEXT NOT NULL,
                email TEXT
            )",
        (),
    )
    .unwrap();
    conn.execute(
        "INSERT INTO Users (username, name, email) VALUES (?1, ?2, ?3), (?4, ?5, NULL)",
        (
            "john",
            "John Doe",
            "john.doe@example.com",
            "jane",
            "Jane Doe",
        ),
    )
    .unwrap();

    let res = run(&st, &conn, "test_collect2", "memory", &[("user_name", "john")]);
    assert_result(
        &res,
        &["name", "email"],
        &[&[
            Value::String(Some("John Doe".to_string())),
            Value::String(Some("john.doe@example.com".to_string())),
        ]],
    );

    let res = run(&st, &conn, "test_collect2", "memory", &[("user_name", "jane")]);
    assert_result(
        &res,
        &["name", "email"],
        &[&[
            Value::String(Some("Jane Doe".to_string())),
            Value::String(None),
        ]],
    );
}
