//! The ways in which an invocation can fail.

use crate::parse::{ParseError, ParseErrorView};
use crate::plugin::PluginError;
use vstd::prelude::*;

verus! {

/// Why an invocation was given up. No partial result survives any of these.
#[derive(Clone, Debug, PartialEq, Eq)]
pub enum EngineError {
    /// No plugin is registered under the name.
    PluginMissing(String),
    /// No connection is registered under the name.
    ConnectionMissing(String),
    /// The raw parameters do not fit the plugin's declaration.
    BadParameter(ParseError),
    /// The plugin did not describe itself.
    PluginMetadata(PluginError),
    /// The plugin failed while it was started, fed or ended.
    PluginExecution(PluginError),
    /// The database failed to connect, prepare, bind or hand out a row.
    Driver(String),
    /// A column has an SQL type for which there is no kind of value.
    UnsupportedType(String),
}

/// What an [`EngineError`] holds.
pub enum EngineErrorView {
    PluginMissing(Seq<char>),
    ConnectionMissing(Seq<char>),
    BadParameter(ParseErrorView),
    PluginMetadata(Seq<char>),
    PluginExecution(Seq<char>),
    Driver(Seq<char>),
    UnsupportedType(Seq<char>),
}

impl View for EngineError {
    type V = EngineErrorView;

    open spec fn view(&self) -> EngineErrorView {
        match self {
            EngineError::PluginMissing(name) => EngineErrorView::PluginMissing(name@),
            EngineError::ConnectionMissing(name) => EngineErrorView::ConnectionMissing(name@),
            EngineError::BadParameter(e) => EngineErrorView::BadParameter(e@),
            EngineError::PluginMetadata(e) => EngineErrorView::PluginMetadata(e@),
            EngineError::PluginExecution(e) => EngineErrorView::PluginExecution(e@),
            EngineError::Driver(message) => EngineErrorView::Driver(message@),
            EngineError::UnsupportedType(name) => EngineErrorView::UnsupportedType(name@),
        }
    }
}

impl DeepView for EngineError {
    type V = EngineErrorView;

    open spec fn deep_view(&self) -> EngineErrorView {
        self@
    }
}

impl EngineErrorView {
    /// The sentence that reports the error.
    pub open spec fn message(self) -> Seq<char> {
        match self {
            EngineErrorView::PluginMissing(name) => "no plugin named "@ + name + " registered"@,
            EngineErrorView::ConnectionMissing(name) => "no connection named "@ + name
                + " registered"@,
            EngineErrorView::BadParameter(e) => e.message(),
            EngineErrorView::PluginMetadata(message) => message,
            EngineErrorView::PluginExecution(message) => message,
            EngineErrorView::Driver(message) => message,
            EngineErrorView::UnsupportedType(name) => "unsupported type "@ + name,
        }
    }
}

impl EngineError {
    /// The sentence that reports the error.
    pub fn message(&self) -> (s: String)
        ensures
            s@ == self@.message(),
    {
        match self {
            EngineError::PluginMissing(name) => {
                let mut s = String::from_str("no plugin named ");
                s.append(name.as_str());
                s.append(" registered");
                s
            },
            EngineError::ConnectionMissing(name) => {
                let mut s = String::from_str("no connection named ");
                s.append(name.as_str());
                s.append(" registered");
                s
            },
            EngineError::BadParameter(e) => e.message(),
            EngineError::PluginMetadata(e) => e.message.clone(),
            EngineError::PluginExecution(e) => e.message.clone(),
            EngineError::Driver(message) => message.clone(),
            EngineError::UnsupportedType(name) => {
                let mut s = String::from_str("unsupported type ");
                s.append(name.as_str());
                s
            },
        }
    }
}

} // verus!
