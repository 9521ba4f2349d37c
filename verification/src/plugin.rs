//! What the engine asks of a plugin and of one execution of it.

use crate::model::{
    Metadata, MetadataView, NamedValue, NamedValueView, QueryResult, QueryResultView,
};
use vstd::prelude::*;

verus! {

/// A plugin failed to answer.
#[derive(Clone, Debug, PartialEq, Eq)]
pub struct PluginError {
    pub message: String,
}

impl View for PluginError {
    type V = Seq<char>;

    open spec fn view(&self) -> Seq<char> {
        self.message@
    }
}

impl DeepView for PluginError {
    type V = Seq<char>;

    open spec fn deep_view(&self) -> Seq<char> {
        self@
    }
}

/// One execution of a plugin: it hands out its query and the variables to
/// bind, takes the rows one by one, and is told when they have ended.
///
/// What a handle promises of its answers is said by four relations. Left as
/// they are, they hold of every answer, and the handle promises nothing; a
/// handle that narrows them is held to them by each of its methods. A
/// failure is always possible.
pub trait Handle: Sized {
    /// Whether the execution may hand out `query`, with its `{{name}}`
    /// placeholders.
    open spec fn offers_query(&self, query: Seq<char>) -> bool {
        true
    }

    /// Whether the execution may ask for `variables` to be bound.
    open spec fn offers_variables(&self, variables: Seq<NamedValueView>) -> bool {
        true
    }

    /// Whether an execution in this state, fed `row`, may answer `answer`
    /// and go on as `after`.
    open spec fn row_step(
        &self,
        row: Seq<NamedValueView>,
        after: &Self,
        answer: Option<QueryResultView>,
    ) -> bool {
        true
    }

    /// Whether an execution in this state, told that the rows under
    /// `columns` have ended, may answer `answer` and go on as `after`.
    open spec fn end_step(
        &self,
        columns: Seq<Seq<char>>,
        after: &Self,
        answer: Option<QueryResultView>,
    ) -> bool {
        true
    }

    /// The query, with `{{name}}` placeholders.
    fn query_string(&self) -> (r: Result<String, PluginError>)
        ensures
            r matches Ok(query) ==> self.offers_query(query@),
    ;

    /// The variables to bind, which need not be those that the execution
    /// was started with.
    fn variables(&self) -> (r: Result<Vec<NamedValue>, PluginError>)
        ensures
            r matches Ok(variables) ==> self.offers_variables(variables.deep_view()),
    ;

    /// Takes one row of the database; may answer with a partial result.
    fn row(&mut self, row: Vec<NamedValue>) -> (r: Result<Option<QueryResult>, PluginError>)
        ensures
            r matches Ok(answer) ==> old(self).row_step(
                row.deep_view(),
                final(self),
                answer.deep_view(),
            ),
    ;

    /// Is told, under the names of the columns, that the rows have ended;
    /// may answer with a last result.
    fn end(&mut self, columns: Vec<String>) -> (r: Result<Option<QueryResult>, PluginError>)
        ensures
            r matches Ok(answer) ==> old(self).end_step(
                columns.deep_view(),
                final(self),
                answer.deep_view(),
            ),
    ;
}

/// A plugin: it describes itself and starts executions. As with a
/// [`Handle`], the two relations say what it promises; left as they are, it
/// promises nothing.
pub trait Plugin {
    /// The handle of a started execution.
    type Run: Handle;

    /// Whether the plugin may say `metadata` of itself.
    open spec fn describes(&self, metadata: MetadataView) -> bool {
        true
    }

    /// Whether the plugin, started with `variables`, may hand out `run`.
    open spec fn starts(&self, variables: Seq<NamedValueView>, run: &Self::Run) -> bool {
        true
    }

    /// What the plugin says of itself.
    fn metadata(&self) -> (r: Result<Metadata, PluginError>)
        ensures
            r matches Ok(metadata) ==> self.describes(metadata@),
    ;

    /// Starts an execution of its own, with nothing left from earlier ones.
    fn start(&self, variables: Vec<NamedValue>) -> (r: Result<Self::Run, PluginError>)
        ensures
            r matches Ok(run) ==> self.starts(variables.deep_view(), &run),
    ;
}

} // verus!
