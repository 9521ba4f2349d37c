//! The configured databases: what a configuration entry must hold, and the
//! connection that it describes.

use crate::driver::Driver;
use crate::text::same_text;
use vstd::prelude::*;

verus! {

/// What a configuration entry holds under one key.
#[derive(Clone, Debug, PartialEq, Eq)]
pub enum Field {
    /// The key is absent.
    Missing,
    /// The key is there, with something that is no string.
    NotString,
    /// The key is there, with this string.
    Text(String),
}

/// One entry of the connection configuration, as far as the engine reads it.
#[derive(Clone, Debug, PartialEq, Eq)]
pub struct ConnectionEntry {
    /// Under `db`: the driver's name.
    pub db: Field,
    /// Under `path`: where an SQLite database lies.
    pub path: Field,
    /// Under `config`: the connection string of a Postgres database.
    pub config: Field,
}

/// Where an SQLite database lies.
#[derive(Clone, Debug, PartialEq, Eq)]
pub enum SqliteLocation {
    /// In memory.
    Memory,
    /// In the file at this path.
    File(String),
}

/// A configured database.
#[derive(Clone, Debug, PartialEq, Eq)]
pub enum DBConnection {
    /// An SQLite database.
    SqliteConnection(SqliteLocation),
    /// A Postgres database, by its connection string.
    PostgresConnection(String),
}

/// Why a configuration entry describes no connection.
#[derive(Clone, Debug, PartialEq, Eq)]
pub enum ConfigError {
    NoDb,
    DbNotString,
    UnknownDatabase(String),
    NoPath,
    PathNotString,
    NoConfig,
    ConfigNotString,
    /// The Postgres driver rejects the connection string, with this message.
    InvalidConfig(String),
}

/// What a [`Field`] holds.
pub enum FieldView {
    Missing,
    NotString,
    Text(Seq<char>),
}

impl View for Field {
    type V = FieldView;

    open spec fn view(&self) -> FieldView {
        match self {
            Field::Missing => FieldView::Missing,
            Field::NotString => FieldView::NotString,
            Field::Text(s) => FieldView::Text(s@),
        }
    }
}

impl DeepView for Field {
    type V = FieldView;

    open spec fn deep_view(&self) -> FieldView {
        self@
    }
}

/// What a [`ConnectionEntry`] holds.
pub struct ConnectionEntryView {
    pub db: FieldView,
    pub path: FieldView,
    pub config: FieldView,
}

impl View for ConnectionEntry {
    type V = ConnectionEntryView;

    open spec fn view(&self) -> ConnectionEntryView {
        ConnectionEntryView { db: self.db@, path: self.path@, config: self.config@ }
    }
}

impl DeepView for ConnectionEntry {
    type V = ConnectionEntryView;

    open spec fn deep_view(&self) -> ConnectionEntryView {
        self@
    }
}

/// What a [`DBConnection`] holds.
pub enum DBConnectionView {
    SqliteMemory,
    SqliteFile(Seq<char>),
    Postgres(Seq<char>),
}

impl View for DBConnection {
    type V = DBConnectionView;

    open spec fn view(&self) -> DBConnectionView {
        match self {
            DBConnection::SqliteConnection(SqliteLocation::Memory) => DBConnectionView::SqliteMemory,
            DBConnection::SqliteConnection(SqliteLocation::File(path)) => DBConnectionView::SqliteFile(
                path@,
            ),
            DBConnection::PostgresConnection(config) => DBConnectionView::Postgres(config@),
        }
    }
}

impl DeepView for DBConnection {
    type V = DBConnectionView;

    open spec fn deep_view(&self) -> DBConnectionView {
        self@
    }
}

impl DBConnectionView {
    pub open spec fn driver(self) -> Driver {
        match self {
            DBConnectionView::Postgres(_) => Driver::Postgres,
            _ => Driver::Sqlite,
        }
    }
}

/// What a [`ConfigError`] holds.
pub enum ConfigErrorView {
    NoDb,
    DbNotString,
    UnknownDatabase(Seq<char>),
    NoPath,
    PathNotString,
    NoConfig,
    ConfigNotString,
    InvalidConfig(Seq<char>),
}

impl View for ConfigError {
    type V = ConfigErrorView;

    open spec fn view(&self) -> ConfigErrorView {
        match self {
            ConfigError::NoDb => ConfigErrorView::NoDb,
            ConfigError::DbNotString => ConfigErrorView::DbNotString,
            ConfigError::UnknownDatabase(db) => ConfigErrorView::UnknownDatabase(db@),
            ConfigError::NoPath => ConfigErrorView::NoPath,
            ConfigError::PathNotString => ConfigErrorView::PathNotString,
            ConfigError::NoConfig => ConfigErrorView::NoConfig,
            ConfigError::ConfigNotString => ConfigErrorView::ConfigNotString,
            ConfigError::InvalidConfig(message) => ConfigErrorView::InvalidConfig(message@),
        }
    }
}

impl DeepView for ConfigError {
    type V = ConfigErrorView;

    open spec fn deep_view(&self) -> ConfigErrorView {
        self@
    }
}

impl ConfigErrorView {
    /// The sentence that reports the error.
    pub open spec fn message(self) -> Seq<char> {
        match self {
            ConfigErrorView::NoDb => "No db field"@,
            ConfigErrorView::DbNotString => "db field is not a string"@,
            ConfigErrorView::UnknownDatabase(db) => "unknown database type "@ + db,
            ConfigErrorView::NoPath => "No path provided"@,
            ConfigErrorView::PathNotString => "path is not a string"@,
            ConfigErrorView::NoConfig => "No config provided"@,
            ConfigErrorView::ConfigNotString => "config is not a string"@,
            ConfigErrorView::InvalidConfig(message) => message,
        }
    }
}

impl ConfigError {
    /// The sentence that reports the error.
    pub fn message(&self) -> (s: String)
        ensures
            s@ == self@.message(),
    {
        match self {
            ConfigError::NoDb => String::from_str("No db field"),
            ConfigError::DbNotString => String::from_str("db field is not a string"),
            ConfigError::UnknownDatabase(db) => {
                let mut s = String::from_str("unknown database type ");
                s.append(db.as_str());
                s
            },
            ConfigError::NoPath => String::from_str("No path provided"),
            ConfigError::PathNotString => String::from_str("path is not a string"),
            ConfigError::NoConfig => String::from_str("No config provided"),
            ConfigError::ConfigNotString => String::from_str("config is not a string"),
            ConfigError::InvalidConfig(message) => message.clone(),
        }
    }
}

impl DBConnection {
    /// The driver that serves the connection.
    pub fn driver(&self) -> (d: Driver)
        ensures
            d == self@.driver(),
    {
        match self {
            DBConnection::SqliteConnection(_) => Driver::Sqlite,
            DBConnection::PostgresConnection(_) => Driver::Postgres,
        }
    }

    /// Type of connection: the name of its driver.
    pub fn db_type(&self) -> (s: &'static str)
        ensures
            s@ == self@.driver().spec_name(),
    {
        self.driver().name()
    }
}

/// Which driver an entry asks for.
pub open spec fn driver_of(entry: ConnectionEntryView) -> Result<Driver, ConfigErrorView> {
    match entry.db {
        FieldView::Missing => Err(ConfigErrorView::NoDb),
        FieldView::NotString => Err(ConfigErrorView::DbNotString),
        FieldView::Text(db) => if db == "sqlite"@ {
            Ok(Driver::Sqlite)
        } else if db == "postgres"@ {
            Ok(Driver::Postgres)
        } else {
            Err(ConfigErrorView::UnknownDatabase(db))
        },
    }
}

/// The connection that an entry describes, given what the Postgres driver
/// objects to in the connection string (`rejection`; nothing, if it accepts
/// it or was not asked). An SQLite database lies in memory if its path is
/// `memory`.
pub open spec fn connection_of(entry: ConnectionEntryView, rejection: Option<Seq<char>>) -> Result<
    DBConnectionView,
    ConfigErrorView,
> {
    match driver_of(entry) {
        Err(e) => Err(e),
        Ok(Driver::Sqlite) => match entry.path {
            FieldView::Missing => Err(ConfigErrorView::NoPath),
            FieldView::NotString => Err(ConfigErrorView::PathNotString),
            FieldView::Text(path) => if path == "memory"@ {
                Ok(DBConnectionView::SqliteMemory)
            } else {
                Ok(DBConnectionView::SqliteFile(path))
            },
        },
        Ok(Driver::Postgres) => match entry.config {
            FieldView::Missing => Err(ConfigErrorView::NoConfig),
            FieldView::NotString => Err(ConfigErrorView::ConfigNotString),
            FieldView::Text(config) => match rejection {
                Some(message) => Err(ConfigErrorView::InvalidConfig(message)),
                None => Ok(DBConnectionView::Postgres(config)),
            },
        },
    }
}

/// Which driver an entry asks for.
pub fn entry_driver(entry: &ConnectionEntry) -> (r: Result<Driver, ConfigError>)
    ensures
        match r {
            Ok(d) => driver_of(entry@) == Ok::<Driver, ConfigErrorView>(d),
            Err(e) => driver_of(entry@) == Err::<Driver, ConfigErrorView>(e@),
        },
{
    match &entry.db {
        Field::Missing => Err(ConfigError::NoDb),
        Field::NotString => Err(ConfigError::DbNotString),
        Field::Text(db) => {
            if same_text(db.as_str(), "sqlite") {
                Ok(Driver::Sqlite)
            } else if same_text(db.as_str(), "postgres") {
                Ok(Driver::Postgres)
            } else {
                Err(ConfigError::UnknownDatabase(db.clone()))
            }
        },
    }
}

/// Builds the connection that an entry describes, given what the Postgres
/// driver objects to in the connection string.
pub fn connection_from(entry: &ConnectionEntry, rejection: Option<String>) -> (r: Result<
    DBConnection,
    ConfigError,
>)
    ensures
        match r {
            Ok(c) => connection_of(entry@, rejection.deep_view()) == Ok::<
                DBConnectionView,
                ConfigErrorView,
            >(c@),
            Err(e) => connection_of(entry@, rejection.deep_view()) == Err::<
                DBConnectionView,
                ConfigErrorView,
            >(e@),
        },
{
    let driver = match entry_driver(entry) {
        Ok(driver) => driver,
        Err(e) => {
            return Err(e);
        },
    };
    match driver {
        Driver::Sqlite => match &entry.path {
            Field::Missing => Err(ConfigError::NoPath),
            Field::NotString => Err(ConfigError::PathNotString),
            Field::Text(path) => {
                if same_text(path.as_str(), "memory") {
                    Ok(DBConnection::SqliteConnection(SqliteLocation::Memory))
                } else {
                    Ok(DBConnection::SqliteConnection(SqliteLocation::File(path.clone())))
                }
            },
        },
        Driver::Postgres => match &entry.config {
            Field::Missing => Err(ConfigError::NoConfig),
            Field::NotString => Err(ConfigError::ConfigNotString),
            Field::Text(config) => match rejection {
                Some(message) => Err(ConfigError::InvalidConfig(message)),
                None => Ok(DBConnection::PostgresConnection(config.clone())),
            },
        },
    }
}

/// Puts a connection string before the Postgres driver, by `str::parse`
/// into `tokio_postgres::Config`: nothing comes back if the driver accepts
/// it, else the driver's message. Nothing is claimed of the answer: what the
/// driver accepts as a host differs between platforms.
#[verifier::external_body]
fn postgres_rejection(config: &str) -> (rejection: Option<String>) {
    match config.parse::<tokio_postgres::Config>() {
        Ok(_) => None,
        Err(e) => Some(e.to_string()),
    }
}

/// Whether the Postgres driver has a say on an entry: it asks for Postgres
/// and holds a connection string.
pub open spec fn asks_driver(entry: ConnectionEntryView) -> bool {
    driver_of(entry) == Ok::<Driver, ConfigErrorView>(Driver::Postgres) && entry.config is Text
}

/// Whether `r` is what comes of an entry: the connection or the error that
/// [`connection_of`] gives when the driver objects to nothing, or, where the
/// driver has a say, its rejection.
pub open spec fn comes_of(entry: ConnectionEntryView, r: Result<DBConnectionView, ConfigErrorView>)
    -> bool {
    r == connection_of(entry, None) || (asks_driver(entry) && r matches Err(
        ConfigErrorView::InvalidConfig(_),
    ))
}

/// Creates a new connection from a configuration entry. A Postgres
/// connection string is put before the driver, which may reject it.
pub fn new_connection(entry: &ConnectionEntry) -> (r: Result<DBConnection, ConfigError>)
    ensures
        match r {
            Ok(c) => comes_of(entry@, Ok(c@)),
            Err(e) => comes_of(entry@, Err(e@)),
        },
{
    let rejection = match (entry_driver(entry), &entry.config) {
        (Ok(Driver::Postgres), Field::Text(config)) => postgres_rejection(config.as_str()),
        _ => None,
    };
    connection_from(entry, rejection)
}

/// Builds the connections of a configuration, in the order of its entries,
/// each under the name of its entry. The first entry that describes no
/// connection fails the whole configuration.
pub fn load_connections(entries: &Vec<(String, ConnectionEntry)>) -> (r: Result<
    Vec<(String, DBConnection)>,
    ConfigError,
>)
    ensures
        match r {
            Ok(connections) => {
                &&& connections.len() == entries.len()
                &&& forall|i: int|
                    0 <= i < entries.len() ==> (#[trigger] connections[i]).0@ == entries[i].0@
                        && comes_of(entries[i].1@, Ok(connections[i].1@))
            },
            Err(e) => exists|k: int|
                0 <= k < entries.len() && comes_of((#[trigger] entries[k]).1@, Err(e@)) && forall|
                    i: int,
                |
                    0 <= i < k ==> connection_of((#[trigger] entries[i]).1@, None) is Ok,
        },
{
    let mut connections: Vec<(String, DBConnection)> = Vec::new();
    let mut i: usize = 0;
    while i < entries.len()
        invariant
            i <= entries.len(),
            connections.len() == i,
            forall|j: int|
                0 <= j < i ==> (#[trigger] connections[j]).0@ == entries[j].0@ && comes_of(
                    entries[j].1@,
                    Ok(connections[j].1@),
                ),
        decreases entries.len() - i,
    {
        let connection = match new_connection(&entries[i].1) {
            Ok(connection) => connection,
            Err(e) => {
                assert(comes_of(entries[i as int].1@, Err(e@)));
                assert forall|j: int| 0 <= j < i implies connection_of(
                    (#[trigger] entries[j]).1@,
                    None,
                ) is Ok by {
                    assert(comes_of(entries[j].1@, Ok(connections[j].1@)));
                }
                return Err(e);
            },
        };
        connections.push((entries[i].0.clone(), connection));
        i += 1;
    }
    Ok(connections)
}

} // verus!
