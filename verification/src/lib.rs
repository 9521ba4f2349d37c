//! Execution engine for sandboxed query plugins: the typed values that travel
//! between database, plugin and caller, the coercion of raw parameters, the
//! rewriting of placeholders, and the state machine that threads rows from a
//! driver through a plugin.

pub mod connection;
pub mod driver;
pub mod engine;
pub mod error;
pub mod json;
pub mod model;
pub mod numeral;
pub mod order;
pub mod parse;
pub mod plugin;
pub mod response;
pub mod result;
pub mod state;
pub mod table;
pub mod test_collect;
pub mod text;

pub use connection::{load_connections, DBConnection};
pub use engine::ExecutionState;
pub use model::{Metadata, NamedValue, Parameter, QueryResult, Value, ValueKind};
pub use parse::parse_parameter_values;
pub use result::add_result;
pub use state::State;
pub use table::table_result;
