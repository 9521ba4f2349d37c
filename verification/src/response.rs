//! How a failed request is answered over HTTP: the status and the message.

use crate::error::{EngineError, EngineErrorView};
use vstd::prelude::*;

verus! {

/// Any error that a request may meet.
#[derive(Clone, Debug, PartialEq, Eq)]
pub enum AppError {
    /// The plugin did not describe itself.
    PluginMetadata,
    /// No plugin has this name.
    PluginMissing(String),
    /// Plugin, connection, and what went wrong while the plugin ran.
    PluginExecution(String, String, String),
    /// No connection has this name.
    ConnectionMissing(String),
    /// Plugin, connection, and what is wrong with the parameters.
    ExecutionParameters(String, String, String),
}

/// What an [`AppError`] holds.
pub enum AppErrorView {
    PluginMetadata,
    PluginMissing(Seq<char>),
    PluginExecution(Seq<char>, Seq<char>, Seq<char>),
    ConnectionMissing(Seq<char>),
    ExecutionParameters(Seq<char>, Seq<char>, Seq<char>),
}

impl View for AppError {
    type V = AppErrorView;

    open spec fn view(&self) -> AppErrorView {
        match self {
            AppError::PluginMetadata => AppErrorView::PluginMetadata,
            AppError::PluginMissing(name) => AppErrorView::PluginMissing(name@),
            AppError::PluginExecution(plugin, connection, error) => AppErrorView::PluginExecution(
                plugin@,
                connection@,
                error@,
            ),
            AppError::ConnectionMissing(name) => AppErrorView::ConnectionMissing(name@),
            AppError::ExecutionParameters(
                plugin,
                connection,
                error,
            ) => AppErrorView::ExecutionParameters(plugin@, connection@, error@),
        }
    }
}

impl DeepView for AppError {
    type V = AppErrorView;

    open spec fn deep_view(&self) -> AppErrorView {
        self@
    }
}

impl AppErrorView {
    /// The HTTP status: 404 for what is not found, 400 for bad parameters,
    /// 500 for the rest.
    pub open spec fn status(self) -> u16 {
        match self {
            AppErrorView::ConnectionMissing(_) => 404,
            AppErrorView::PluginMissing(_) => 404,
            AppErrorView::ExecutionParameters(_, _, _) => 400,
            AppErrorView::PluginMetadata => 500,
            AppErrorView::PluginExecution(_, _, _) => 500,
        }
    }

    /// The message under `error` in the body.
    pub open spec fn message(self) -> Seq<char> {
        match self {
            AppErrorView::ConnectionMissing(name) => "connection `"@ + name + "` not found"@,
            AppErrorView::PluginMetadata => "Error retrieving plugin metadata"@,
            AppErrorView::PluginMissing(name) => "plugin `"@ + name + "` not found"@,
            AppErrorView::PluginExecution(plugin, connection, error) => "plugin `"@ + plugin
                + "` failed on connection `"@ + connection + "`: "@ + error,
            AppErrorView::ExecutionParameters(plugin, connection, error) => "plugin `"@ + plugin
                + "` failed on connection `"@ + connection + "` while parsing parameters: "@
                + error,
        }
    }
}

/// The error with which a request for `plugin` on `connection` is answered
/// when the engine fails with `error`.
pub open spec fn answered(plugin: Seq<char>, connection: Seq<char>, error: EngineErrorView)
    -> AppErrorView {
    match error {
        EngineErrorView::PluginMissing(name) => AppErrorView::PluginMissing(name),
        EngineErrorView::ConnectionMissing(name) => AppErrorView::ConnectionMissing(name),
        EngineErrorView::BadParameter(e) => AppErrorView::ExecutionParameters(
            plugin,
            connection,
            e.message(),
        ),
        EngineErrorView::PluginMetadata(_) => AppErrorView::PluginMetadata,
        _ => AppErrorView::PluginExecution(plugin, connection, error.message()),
    }
}

impl AppError {
    /// The HTTP status.
    pub fn status(&self) -> (code: u16)
        ensures
            code == self@.status(),
    {
        match self {
            AppError::ConnectionMissing(_) => 404,
            AppError::PluginMissing(_) => 404,
            AppError::ExecutionParameters(_, _, _) => 400,
            AppError::PluginMetadata => 500,
            AppError::PluginExecution(_, _, _) => 500,
        }
    }

    /// The message under `error` in the body.
    pub fn message(&self) -> (s: String)
        ensures
            s@ == self@.message(),
    {
        match self {
            AppError::ConnectionMissing(name) => {
                let mut s = String::from_str("connection `");
                s.append(name.as_str());
                s.append("` not found");
                s
            },
            AppError::PluginMetadata => String::from_str("Error retrieving plugin metadata"),
            AppError::PluginMissing(name) => {
                let mut s = String::from_str("plugin `");
                s.append(name.as_str());
                s.append("` not found");
                s
            },
            AppError::PluginExecution(plugin, connection, error) => {
                let mut s = String::from_str("plugin `");
                s.append(plugin.as_str());
                s.append("` failed on connection `");
                s.append(connection.as_str());
                s.append("`: ");
                s.append(error.as_str());
                s
            },
            AppError::ExecutionParameters(plugin, connection, error) => {
                let mut s = String::from_str("plugin `");
                s.append(plugin.as_str());
                s.append("` failed on connection `");
                s.append(connection.as_str());
                s.append("` while parsing parameters: ");
                s.append(error.as_str());
                s
            },
        }
    }

    /// The error with which a request for `plugin` on `connection` is
    /// answered when the engine fails with `error`.
    pub fn from_engine(plugin: &str, connection: &str, error: EngineError) -> (e: AppError)
        ensures
            e@ == answered(plugin@, connection@, error@),
    {
        match error {
            EngineError::PluginMissing(name) => AppError::PluginMissing(name),
            EngineError::ConnectionMissing(name) => AppError::ConnectionMissing(name),
            EngineError::BadParameter(e) => AppError::ExecutionParameters(
                String::from_str(plugin),
                String::from_str(connection),
                e.message(),
            ),
            EngineError::PluginMetadata(_) => AppError::PluginMetadata,
            other => {
                let message = other.message();
                AppError::PluginExecution(
                    String::from_str(plugin),
                    String::from_str(connection),
                    message,
                )
            },
        }
    }
}

} // verus!
