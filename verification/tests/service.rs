use query_runner::connection::{
    connection_from, load_connections, new_connection, ConfigError, ConnectionEntry, DBConnection,
    Field, SqliteLocation,
};
use query_runner::driver::Driver;
use query_runner::error::EngineError;
use query_runner::model::{Metadata, NamedValue, Parameter, QueryResult, Value, ValueKind};
use query_runner::order::{precedes, sort_pairs};
use query_runner::parse::ParseError;
use query_runner::plugin::{Plugin, PluginError};
use query_runner::response::AppError;
use query_runner::state::{find_entry, State};
use query_runner::table::table_result;
use query_runner::test_collect::{Execution, Query};

fn text(s: &str) -> Field {
    Field::Text(s.to_string())
}

fn entry(db: Field, path: Field, config: Field) -> ConnectionEntry {
    ConnectionEntry { db, path, config }
}

fn memory() -> ConnectionEntry {
    entry(text("sqlite"), text("memory"), Field::Missing)
}

fn postgres1() -> ConnectionEntry {
    entry(
        text("postgres"),
        Field::Missing,
        text("host=localhost user=postgres password=password"),
    )
}

#[test]
fn load_connections_from_file() {
    let entries = vec![
        ("memory".to_string(), memory()),
        ("postgres1".to_string(), postgres1()),
    ];
    let connections = load_connections(&entries).unwrap();
    let memory = find_entry(&connections, "memory").map(|i| &connections[i].1);
    assert!(memory.is_some());
    assert!(matches!(memory, Some(DBConnection::SqliteConnection(_))));
    let postgres1 = find_entry(&connections, "postgres1").map(|i| &connections[i].1);
    assert!(postgres1.is_some());
    assert!(matches!(
        postgres1,
        Some(DBConnection::PostgresConnection(_))
    ));
}

#[test]
fn an_entry_describes_its_connection() {
    assert_eq!(
        new_connection(&memory()),
        Ok(DBConnection::SqliteConnection(SqliteLocation::Memory))
    );
    assert_eq!(
        new_connection(&entry(text("sqlite"), text("data/orders.db"), Field::NotString)),
        Ok(DBConnection::SqliteConnection(SqliteLocation::File(
            "data/orders.db".to_string()
        )))
    );
    assert_eq!(
        new_connection(&entry(text("sqlite"), text("Memory"), Field::Missing)),
        Ok(DBConnection::SqliteConnection(SqliteLocation::File(
            "Memory".to_string()
        )))
    );
    assert_eq!(
        new_connection(&postgres1()),
        Ok(DBConnection::PostgresConnection(
            "host=localhost user=postgres password=password".to_string()
        ))
    );
    assert_eq!(
        new_connection(&memory()).unwrap().db_type(),
        "sqlite"
    );
    assert_eq!(new_connection(&postgres1()).unwrap().db_type(), "postgres");
    assert_eq!(new_connection(&postgres1()).unwrap().driver(), Driver::Postgres);
}

#[test]
fn a_bad_entry_is_refused_with_its_reason() {
    let cases = [
        (
            entry(Field::Missing, text("memory"), Field::Missing),
            ConfigError::NoDb,
            "No db field",
        ),
        (
            entry(Field::NotString, text("memory"), Field::Missing),
            ConfigError::DbNotString,
            "db field is not a string",
        ),
        (
            entry(text("mysql"), text("memory"), text("x")),
            ConfigError::UnknownDatabase("mysql".to_string()),
            "unknown database type mysql",
        ),
        (
            entry(text("SQLITE"), text("memory"), text("x")),
            ConfigError::UnknownDatabase("SQLITE".to_string()),
            "unknown database type SQLITE",
        ),
        (
            entry(text("sqlite"), Field::Missing, text("x")),
            ConfigError::NoPath,
            "No path provided",
        ),
        (
            entry(text("sqlite"), Field::NotString, text("x")),
            ConfigError::PathNotString,
            "path is not a string",
        ),
        (
            entry(text("postgres"), text("memory"), Field::Missing),
            ConfigError::NoConfig,
            "No config provided",
        ),
        (
            entry(text("postgres"), text("memory"), Field::NotString),
            ConfigError::ConfigNotString,
            "config is not a string",
        ),
    ];
    for (entry, error, message) in cases {
        assert_eq!(new_connection(&entry), Err(error.clone()));
        assert_eq!(error.message(), message);
    }
}

#[test]
fn the_driver_has_a_say_on_a_connection_string() {
    let bad = entry(text("postgres"), Field::Missing, text("port=not-a-number"));
    match new_connection(&bad) {
        Err(ConfigError::InvalidConfig(message)) => {
            assert_eq!(
                message,
                "port=not-a-number"
                    .parse::<tokio_postgres::Config>()
                    .unwrap_err()
                    .to_string()
            );
        }
        other => panic!("accepted: {:?}", other),
    }
    assert_eq!(
        connection_from(&postgres1(), Some("no".to_string())),
        Err(ConfigError::InvalidConfig("no".to_string()))
    );
    assert_eq!(
        ConfigError::InvalidConfig("no".to_string()).message(),
        "no"
    );
    // The driver's objection counts for nothing where it has no say.
    assert_eq!(
        connection_from(&memory(), Some("no".to_string())),
        Ok(DBConnection::SqliteConnection(SqliteLocation::Memory))
    );
}

#[test]
fn the_first_bad_entry_fails_the_configuration() {
    let entries = vec![
        ("a".to_string(), memory()),
        (
            "b".to_string(),
            entry(text("oracle"), Field::Missing, Field::Missing),
        ),
        (
            "c".to_string(),
            entry(Field::Missing, Field::Missing, Field::Missing),
        ),
    ];
    assert_eq!(
        load_connections(&entries),
        Err(ConfigError::UnknownDatabase("oracle".to_string()))
    );
    assert_eq!(load_connections(&vec![]), Ok(vec![]));
}

/// The plugins of a service: the collecting plugin, one that asks for a
/// user's name, and one that does not answer.
enum TestPlugin {
    Collect(Query),
    Collect2,
    Mute,
}

impl Plugin for TestPlugin {
    type Run = Execution;

    fn metadata(&self) -> Result<Metadata, PluginError> {
        match self {
            TestPlugin::Collect(query) => query.metadata(),
            TestPlugin::Collect2 => Ok(Metadata {
                description: "test plugin collecting results".to_string(),
                parameters: vec![Parameter {
                    name: "user_name".to_string(),
                    kind: ValueKind::String,
                }],
            }),
            TestPlugin::Mute => Err(PluginError {
                message: "no export named metadata".to_string(),
            }),
        }
    }

    fn start(&self, variables: Vec<NamedValue>) -> Result<Execution, PluginError> {
        match self {
            TestPlugin::Collect(query) => query.start(variables),
            TestPlugin::Collect2 => Ok(Execution::new(
                "SELECT name, email FROM Users WHERE username = {{user_name}}".to_string(),
                variables,
            )),
            TestPlugin::Mute => Err(PluginError {
                message: "unreachable executed".to_string(),
            }),
        }
    }
}

fn service() -> State<TestPlugin> {
    State {
        connections: load_connections(&vec![
            ("postgres1".to_string(), postgres1()),
            ("memory".to_string(), memory()),
        ])
        .unwrap(),
        plugins: vec![
            ("test_collect2".to_string(), TestPlugin::Collect2),
            ("test_collect".to_string(), TestPlugin::Collect(Query {})),
        ],
    }
}

fn raw(pairs: &[(&str, &str)]) -> Vec<(String, String)> {
    pairs
        .iter()
        .map(|(n, v)| (n.to_string(), v.to_string()))
        .collect()
}

fn pair(a: &str, b: &str) -> (String, String) {
    (a.to_string(), b.to_string())
}

#[test]
fn connections() {
    assert_eq!(
        service().list_connections(),
        vec![pair("memory", "sqlite"), pair("postgres1", "postgres")]
    );
}

#[test]
fn plugins() {
    assert_eq!(
        service().list_plugins(),
        Ok(vec![
            pair("test_collect", "test plugin collecting results"),
            pair("test_collect2", "test plugin collecting results"),
        ])
    );
    let mut st = service();
    st.plugins.push(("mute".to_string(), TestPlugin::Mute));
    let e = st.list_plugins().unwrap_err();
    assert!(matches!(e, EngineError::PluginMetadata(_)));
    let answer = AppError::from_engine("", "", e);
    assert_eq!(answer, AppError::PluginMetadata);
    assert_eq!(answer.status(), 500);
    assert_eq!(answer.message(), "Error retrieving plugin metadata");
}

#[test]
fn plugin_metadata_not_found() {
    let e = service().plugin_metadata("missing").unwrap_err();
    assert_eq!(e, EngineError::PluginMissing("missing".to_string()));
    assert_eq!(e.message(), "no plugin named missing registered");
    let answer = AppError::from_engine("missing", "", e);
    assert_eq!(answer.status(), 404);
    assert_eq!(answer.message(), "plugin `missing` not found");
}

#[test]
fn plugin_metadata() {
    let metadata = service().plugin_metadata("test_collect").unwrap();
    assert_eq!(metadata.description, "test plugin collecting results");
    assert_eq!(
        metadata.parameters,
        vec![Parameter {
            name: "customer_id".to_string(),
            kind: ValueKind::Integer
        }]
    );
    assert_eq!(metadata.parameters[0].kind.name(), "integer");
}

#[test]
fn plugin_execute_missing_plugin() {
    let e = service()
        .run_untyped("missing", "postgres1", &raw(&[("user_name", "john")]))
        .err()
        .unwrap();
    let answer = AppError::from_engine("missing", "postgres1", e);
    assert_eq!(answer.status(), 404);
    assert_eq!(answer.message(), "plugin `missing` not found");
}

#[test]
fn plugin_execute_missing_connection() {
    let e = service()
        .run_untyped("test_collect2", "missing", &raw(&[("user_name", "john")]))
        .err()
        .unwrap();
    assert_eq!(e.message(), "no connection named missing registered");
    let answer = AppError::from_engine("test_collect2", "missing", e);
    assert_eq!(answer.status(), 404);
    assert_eq!(answer.message(), "connection `missing` not found");
}

#[test]
fn plugin_execute_missing_parameter() {
    let e = service()
        .run_untyped("test_collect2", "postgres1", &raw(&[("unknown", "john")]))
        .err()
        .unwrap();
    assert_eq!(
        e,
        EngineError::BadParameter(ParseError::MissingParameter("user_name".to_string()))
    );
    let answer = AppError::from_engine("test_collect2", "postgres1", e);
    assert_eq!(answer.status(), 400);
    assert_eq!(
        answer.message(),
        "plugin `test_collect2` failed on connection `postgres1` while parsing parameters: no value provided for parameter `user_name`"
    );
}

#[test]
fn the_plugin_is_looked_up_before_the_connection_and_the_parameters() {
    let st = service();
    assert!(matches!(
        st.run_untyped("missing", "missing", &raw(&[])),
        Err(EngineError::PluginMissing(_))
    ));
    assert!(matches!(
        st.run_untyped("test_collect", "missing", &raw(&[])),
        Err(EngineError::ConnectionMissing(_))
    ));
    assert!(matches!(
        st.run_untyped("test_collect", "memory", &raw(&[("customer_id", "x")])),
        Err(EngineError::BadParameter(_))
    ));
    assert!(matches!(
        st.run_typed("missing", "missing", vec![]),
        Err(EngineError::PluginMissing(_))
    ));
    assert!(matches!(
        st.run_typed("test_collect", "missing", vec![]),
        Err(EngineError::ConnectionMissing(_))
    ));
}

#[test]
fn a_started_execution_carries_its_statement() {
    let st = service();
    let started = st
        .run_untyped("test_collect", "memory", &raw(&[("customer_id", "123")]))
        .ok()
        .unwrap();
    assert_eq!(
        started.statement.sql,
        "SELECT order_id FROM Orders WHERE customer_id = ?1 ORDER BY order_id"
    );
    assert_eq!(started.statement.bindings.len(), 1);
    assert_eq!(started.statement.bindings[0].value, Value::Integer(Some(123)));
    let started = st
        .run_typed(
            "test_collect2",
            "postgres1",
            vec![NamedValue {
                name: "user_name".to_string(),
                value: Value::String(None),
            }],
        )
        .ok()
        .unwrap();
    assert_eq!(
        started.statement.sql,
        "SELECT name, email FROM Users WHERE username = $1"
    );
    assert_eq!(started.statement.bindings[0].value, Value::String(None));
}

#[test]
fn a_failed_execution_is_answered_with_500() {
    let mut st = service();
    st.plugins.push(("mute".to_string(), TestPlugin::Mute));
    let e = st.run_typed("mute", "memory", vec![]).err().unwrap();
    assert!(matches!(e, EngineError::PluginExecution(_)));
    let answer = AppError::from_engine("mute", "memory", e);
    assert_eq!(answer.status(), 500);
    assert_eq!(
        answer.message(),
        "plugin `mute` failed on connection `memory`: unreachable executed"
    );
    let answer = AppError::from_engine(
        "p",
        "c",
        EngineError::UnsupportedType("BLOB".to_string()),
    );
    assert_eq!(
        answer.message(),
        "plugin `p` failed on connection `c`: unsupported type BLOB"
    );
    let answer = AppError::from_engine("p", "c", EngineError::Driver("no such table".to_string()));
    assert_eq!(answer.status(), 500);
    assert_eq!(
        answer.message(),
        "plugin `p` failed on connection `c`: no such table"
    );
}

#[test]
fn the_last_entry_of_a_name_wins() {
    let mut st = service();
    st.connections
        .push(("memory".to_string(), new_connection(&postgres1()).unwrap()));
    assert_eq!(st.get_connection("memory").unwrap().db_type(), "postgres");
    assert_eq!(find_entry(&st.connections, "memory"), Some(2));
    assert_eq!(find_entry(&st.connections, "postgres1"), Some(0));
    assert_eq!(find_entry(&st.connections, ""), None);
}

#[test]
fn texts_sort_as_strings_compare() {
    let words = [
        "", "a", "A", "ab", "b", "aa", "é", "z", "zz", "Z", "1", "10", "2", "memory", "postgres1",
        "日本", "~",
    ];
    for a in words {
        for b in words {
            assert_eq!(precedes(a, b), a <= b, "{a} {b}");
        }
    }
    let mut pairs: Vec<(String, String)> = Vec::new();
    for (i, a) in words.iter().enumerate() {
        pairs.push(pair(a, words[(i * 7) % words.len()]));
        pairs.push(pair(words[(i * 5) % words.len()], a));
        pairs.push(pair("same", a));
    }
    let mut expected = pairs.clone();
    expected.sort();
    assert_eq!(sort_pairs(pairs), expected);
    assert_eq!(sort_pairs(vec![]), vec![]);
}

fn result(names: &[&str], rows: Vec<Vec<Value>>) -> QueryResult {
    QueryResult {
        names: names.iter().map(|n| n.to_string()).collect(),
        values: rows,
    }
}

#[test]
fn odd_results_are_laid_out_too() {
    assert_eq!(
        table_result(&result(&["a", "b"], vec![])),
        "+---+---+\n\
         | a | b |\n\
         +---+---+"
    );
    assert_eq!(
        table_result(&result(
            &["a"],
            vec![
                vec![Value::Integer(Some(1)), Value::Integer(Some(2))],
                vec![]
            ]
        )),
        "+---+---+\n\
         | a |   |\n\
         +---+---+\n\
         | 1 | 2 |\n\
         +---+---+\n\
         |   |   |\n\
         +---+---+"
    );
    assert_eq!(table_result(&result(&[], vec![])), "");
}
