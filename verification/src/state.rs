//! The registry of connections and plugins, and the steps that lead from a
//! request to a started execution.

use crate::connection::DBConnection;
use crate::engine::{prepare, statement_of, Statement};
use crate::error::{EngineError, EngineErrorView};
use crate::model::{Metadata, MetadataView, NamedValue, NamedValueView};
use crate::order::{sort_pairs, sorted};
use crate::parse::{parse_parameter_values, parsed_parameters, ParseErrorView};
use crate::plugin::{Handle, Plugin};
use crate::text::same_text;
use vstd::prelude::*;

verus! {

/// Where the entry for `name` stands: the last entry under that name wins.
pub open spec fn position_of<T>(entries: Seq<(String, T)>, name: Seq<char>) -> Option<int>
    decreases entries.len(),
{
    if entries.len() == 0 {
        None
    } else if entries.last().0@ == name {
        Some(entries.len() - 1)
    } else {
        position_of(entries.drop_last(), name)
    }
}

/// The position that [`position_of`] gives is one of an entry under the name.
pub proof fn lemma_position_of<T>(entries: Seq<(String, T)>, name: Seq<char>)
    ensures
        position_of(entries, name) matches Some(i) ==> 0 <= i < entries.len() && entries[i].0@
            == name,
        position_of(entries, name) is None ==> forall|i: int|
            0 <= i < entries.len() ==> (#[trigger] entries[i]).0@ != name,
    decreases entries.len(),
{
    if entries.len() > 0 && entries.last().0@ != name {
        lemma_position_of(entries.drop_last(), name);
        if position_of(entries, name) is None {
            assert forall|i: int| 0 <= i < entries.len() implies (#[trigger] entries[i]).0@
                != name by {
                if i < entries.len() - 1 {
                    assert(entries.drop_last()[i] == entries[i]);
                }
            }
        }
    }
}

/// Finds the entry for `name`.
pub fn find_entry<T>(entries: &Vec<(String, T)>, name: &str) -> (r: Option<usize>)
    ensures
        match r {
            Some(i) => position_of(entries@, name@) == Some(i as int) && i < entries.len(),
            None => position_of(entries@, name@) is None,
        },
{
    let mut i: usize = entries.len();
    assert(entries@.take(i as int) =~= entries@);
    while i > 0
        invariant
            i <= entries.len(),
            position_of(entries@, name@) == position_of(entries@.take(i as int), name@),
        decreases i,
    {
        i -= 1;
        assert(entries@.take(i + 1).drop_last() =~= entries@.take(i as int));
        if same_text(entries[i].0.as_str(), name) {
            return Some(i);
        }
    }
    None
}

/// A started execution: the plugin's handle and the statement that the
/// driver is to prepare for it.
pub struct Started<H: Handle> {
    pub handle: H,
    pub statement: Statement,
}

/// The connections and the plugins, each by name. Nothing changes them once
/// they are loaded.
pub struct State<P: Plugin> {
    /// Connections by name.
    pub connections: Vec<(String, DBConnection)>,
    /// Plugins by name.
    pub plugins: Vec<(String, P)>,
}

impl<P: Plugin> State<P> {
    /// Get plugin module by name.
    pub fn get_plugin(&self, plugin: &str) -> (r: Result<&P, EngineError>)
        ensures
            match position_of(self.plugins@, plugin@) {
                Some(i) => r == Ok::<&P, EngineError>(&self.plugins[i].1),
                None => r matches Err(e) && e@ == EngineErrorView::PluginMissing(plugin@),
            },
    {
        match find_entry(&self.plugins, plugin) {
            Some(i) => Ok(&self.plugins[i].1),
            None => Err(EngineError::PluginMissing(String::from_str(plugin))),
        }
    }

    /// Get a connection by name.
    pub fn get_connection(&self, connection: &str) -> (r: Result<&DBConnection, EngineError>)
        ensures
            match position_of(self.connections@, connection@) {
                Some(i) => r == Ok::<&DBConnection, EngineError>(&self.connections[i].1),
                None => r matches Err(e) && e@ == EngineErrorView::ConnectionMissing(connection@),
            },
    {
        match find_entry(&self.connections, connection) {
            Some(i) => Ok(&self.connections[i].1),
            None => Err(EngineError::ConnectionMissing(String::from_str(connection))),
        }
    }

    /// Get metadata for a module. It fails exactly when the plugin does.
    pub fn get_metadata(&self, module: &P) -> (r: Result<Metadata, EngineError>)
        ensures
            match r {
                Ok(metadata) => module.describes(metadata@),
                Err(e) => e is PluginMetadata,
            },
    {
        match module.metadata() {
            Ok(metadata) => Ok(metadata),
            Err(e) => Err(EngineError::PluginMetadata(e)),
        }
    }

    /// Whether `started` is an execution of `module` on `connection`, started
    /// with `variables`: the handle is one that the plugin starts with them,
    /// and the statement is built for the connection's driver from a query
    /// and from variables that the handle offers.
    pub open spec fn begins(
        connection: &DBConnection,
        module: &P,
        variables: Seq<NamedValueView>,
        started: &Started<P::Run>,
    ) -> bool {
        &&& module.starts(variables, &started.handle)
        &&& exists|query: Seq<char>, bound: Seq<NamedValueView>|
            #![trigger statement_of(connection@.driver(), query, bound)]
            started.handle.offers_query(query) && started.handle.offers_variables(bound)
                && started.statement@ == statement_of(connection@.driver(), query, bound)
    }

    /// Run a module knowing the connection and variables: starts the plugin
    /// and builds the statement for the connection's driver. It fails exactly
    /// when the plugin does.
    pub fn run(&self, connection: &DBConnection, module: &P, variables: Vec<NamedValue>) -> (r:
        Result<Started<P::Run>, EngineError>)
        ensures
            match r {
                Ok(started) => Self::begins(connection, module, variables.deep_view(), &started),
                Err(e) => e is PluginExecution,
            },
    {
        let handle = match module.start(variables) {
            Ok(handle) => handle,
            Err(e) => {
                return Err(EngineError::PluginExecution(e));
            },
        };
        let statement = match prepare(&handle, connection.driver()) {
            Ok(statement) => statement,
            Err(e) => {
                return Err(e);
            },
        };
        Ok(Started { handle, statement })
    }

    /// Run a plugin with typed parameters: resolves the plugin, then the
    /// connection, then starts the execution.
    pub fn run_typed(&self, plugin: &str, connection: &str, variables: Vec<NamedValue>) -> (r:
        Result<Started<P::Run>, EngineError>)
        ensures
            match (position_of(self.plugins@, plugin@), position_of(self.connections@, connection@)) {
                (None, _) => r matches Err(e) && e@ == EngineErrorView::PluginMissing(plugin@),
                (Some(_), None) => r matches Err(e) && e@ == EngineErrorView::ConnectionMissing(
                    connection@,
                ),
                (Some(p), Some(c)) => match r {
                    Ok(started) => Self::begins(
                        &self.connections[c].1,
                        &self.plugins[p].1,
                        variables.deep_view(),
                        &started,
                    ),
                    Err(e) => e is PluginExecution,
                },
            },
    {
        let module = match self.get_plugin(plugin) {
            Ok(module) => module,
            Err(e) => {
                return Err(e);
            },
        };
        let link = match self.get_connection(connection) {
            Ok(link) => link,
            Err(e) => {
                return Err(e);
            },
        };
        self.run(link, module, variables)
    }

    /// Run a plugin with untyped parameters: resolves the plugin, then the
    /// connection, asks the plugin for its parameters, coerces the raw
    /// values by them, and only then starts the execution.
    pub fn run_untyped(&self, plugin: &str, connection: &str, variables: &Vec<(String, String)>)
        -> (r: Result<Started<P::Run>, EngineError>)
        ensures
            match (position_of(self.plugins@, plugin@), position_of(self.connections@, connection@)) {
                (None, _) => r matches Err(e) && e@ == EngineErrorView::PluginMissing(plugin@),
                (Some(_), None) => r matches Err(e) && e@ == EngineErrorView::ConnectionMissing(
                    connection@,
                ),
                (Some(p), Some(c)) => match r {
                    Ok(started) => exists|metadata: MetadataView, values: Seq<NamedValueView>|
                        #![trigger self.plugins[p].1.describes(metadata), self.plugins[p].1.starts(values, &started.handle)]
                        self.plugins[p].1.describes(metadata) && parsed_parameters(
                            metadata.parameters,
                            variables.deep_view(),
                        ) == Ok::<Seq<NamedValueView>, ParseErrorView>(values) && Self::begins(
                            &self.connections[c].1,
                            &self.plugins[p].1,
                            values,
                            &started,
                        ),
                    Err(EngineError::BadParameter(e)) => exists|metadata: MetadataView|
                        #![trigger self.plugins[p].1.describes(metadata)]
                        self.plugins[p].1.describes(metadata) && parsed_parameters(
                            metadata.parameters,
                            variables.deep_view(),
                        ) == Err::<Seq<NamedValueView>, ParseErrorView>(e@),
                    Err(e) => e is PluginMetadata || e is PluginExecution,
                },
            },
    {
        let module = match self.get_plugin(plugin) {
            Ok(module) => module,
            Err(e) => {
                return Err(e);
            },
        };
        let link = match self.get_connection(connection) {
            Ok(link) => link,
            Err(e) => {
                return Err(e);
            },
        };
        let metadata = match self.get_metadata(module) {
            Ok(metadata) => metadata,
            Err(e) => {
                return Err(e);
            },
        };
        let values = match parse_parameter_values(&metadata.parameters, variables) {
            Ok(values) => values,
            Err(e) => {
                assert(module.describes(metadata@));
                return Err(EngineError::BadParameter(e));
            },
        };
        let ghost given = values.deep_view();
        match self.run(link, module, values) {
            Ok(started) => {
                assert(module.describes(metadata@) && module.starts(given, &started.handle));
                Ok(started)
            },
            Err(e) => Err(e),
        }
    }
}

impl<P: Plugin> State<P> {
    /// The connections as they are listed before sorting: each name with
    /// the name of its driver, in the order of the registry.
    pub open spec fn connection_pairs(&self) -> Seq<(Seq<char>, Seq<char>)> {
        Seq::new(
            self.connections.len() as nat,
            |i: int| (self.connections[i].0@, self.connections[i].1@.driver().spec_name()),
        )
    }

    /// Whether `pairs` lists the plugins in the order of the registry: each
    /// name with a description that its plugin gives of itself.
    pub open spec fn plugin_pairs(&self, pairs: Seq<(Seq<char>, Seq<char>)>) -> bool {
        &&& pairs.len() == self.plugins.len()
        &&& forall|i: int|
            0 <= i < pairs.len() ==> (#[trigger] pairs[i]).0 == self.plugins[i].0@ && exists|
                metadata: MetadataView,
            |
                #![trigger self.plugins[i].1.describes(metadata)]
                self.plugins[i].1.describes(metadata) && metadata.description == pairs[i].1
    }

    /// Lists the connections, each with the name of its driver, sorted by
    /// name.
    pub fn list_connections(&self) -> (list: Vec<(String, String)>)
        ensures
            sorted(list.deep_view()),
            list.deep_view().to_multiset() == self.connection_pairs().to_multiset(),
    {
        let mut pairs: Vec<(String, String)> = Vec::new();
        let mut i: usize = 0;
        while i < self.connections.len()
            invariant
                i <= self.connections.len(),
                pairs.len() == i,
                forall|j: int|
                    0 <= j < i ==> ((#[trigger] pairs[j]).0@, pairs[j].1@)
                        == self.connection_pairs()[j],
            decreases self.connections.len() - i,
        {
            let name = self.connections[i].0.clone();
            let db_type = String::from_str(self.connections[i].1.db_type());
            pairs.push((name, db_type));
            i += 1;
        }
        assert(pairs.deep_view() =~= self.connection_pairs());
        sort_pairs(pairs)
    }

    /// Asks every plugin for its description, in the order of the registry.
    /// It fails as soon as one plugin does.
    pub fn describe_plugins(&self) -> (r: Result<Vec<(String, String)>, EngineError>)
        ensures
            match r {
                Ok(pairs) => self.plugin_pairs(pairs.deep_view()),
                Err(e) => e is PluginMetadata,
            },
    {
        let mut pairs: Vec<(String, String)> = Vec::new();
        let mut i: usize = 0;
        while i < self.plugins.len()
            invariant
                i <= self.plugins.len(),
                pairs.len() == i,
                forall|j: int|
                    0 <= j < i ==> (#[trigger] pairs[j]).0@ == self.plugins[j].0@ && exists|
                        metadata: MetadataView,
                    |
                        #![trigger self.plugins[j].1.describes(metadata)]
                        self.plugins[j].1.describes(metadata) && metadata.description
                            == pairs[j].1@,
            decreases self.plugins.len() - i,
        {
            let metadata = match self.get_metadata(&self.plugins[i].1) {
                Ok(metadata) => metadata,
                Err(e) => {
                    return Err(e);
                },
            };
            assert(self.plugins[i as int].1.describes(metadata@));
            pairs.push((self.plugins[i].0.clone(), metadata.description));
            i += 1;
        }
        proof {
            let listed = pairs.deep_view();
            assert forall|j: int| 0 <= j < listed.len() implies (#[trigger] listed[j]).0
                == self.plugins[j].0@ && exists|metadata: MetadataView|
                #![trigger self.plugins[j].1.describes(metadata)]
                self.plugins[j].1.describes(metadata) && metadata.description == listed[j].1 by {
                assert(listed[j] == (pairs[j].0@, pairs[j].1@));
            }
            assert(self.plugin_pairs(listed));
        }
        Ok(pairs)
    }

    /// Lists the plugins, each with its description, sorted by name. It
    /// fails exactly when a plugin does not describe itself.
    pub fn list_plugins(&self) -> (r: Result<Vec<(String, String)>, EngineError>)
        ensures
            match r {
                Ok(list) => sorted(list.deep_view()) && exists|pairs: Seq<(Seq<char>, Seq<char>)>|
                    #![trigger self.plugin_pairs(pairs)]
                    self.plugin_pairs(pairs) && list.deep_view().to_multiset()
                        == pairs.to_multiset(),
                Err(e) => e is PluginMetadata,
            },
    {
        match self.describe_plugins() {
            Ok(pairs) => {
                assert(self.plugin_pairs(pairs.deep_view()));
                Ok(sort_pairs(pairs))
            },
            Err(e) => Err(e),
        }
    }

    /// The metadata of the plugin of a name: what that plugin says of
    /// itself.
    pub fn plugin_metadata(&self, plugin: &str) -> (r: Result<Metadata, EngineError>)
        ensures
            match position_of(self.plugins@, plugin@) {
                None => r matches Err(e) && e@ == EngineErrorView::PluginMissing(plugin@),
                Some(p) => match r {
                    Ok(metadata) => self.plugins[p].1.describes(metadata@),
                    Err(e) => e is PluginMetadata,
                },
            },
    {
        match self.get_plugin(plugin) {
            Ok(module) => self.get_metadata(module),
            Err(e) => Err(e),
        }
    }
}

} // verus!
