//! One execution: the statement that a driver is to prepare, and the state
//! that takes the driver's rows to the plugin and adds up what it answers.

use crate::driver::{Column, ColumnView, Driver};
use crate::error::{EngineError, EngineErrorView};
use crate::model::{
    NamedValue, NamedValueView, QueryResult, QueryResultView, Value, ValueKind, ValueView,
};
use crate::parse::{positional, rewritten};
use crate::plugin::{Handle, PluginError};
use crate::result::{add_result, added};
use vstd::prelude::*;

verus! {

/// A value to bind, with its position in the statement, counted from 1.
#[derive(Clone, Debug, PartialEq, Eq)]
pub struct Binding {
    pub position: usize,
    pub value: Value,
}

/// What a [`Binding`] holds.
pub struct BindingView {
    pub position: nat,
    pub value: ValueView,
}

impl View for Binding {
    type V = BindingView;

    open spec fn view(&self) -> BindingView {
        BindingView { position: self.position as nat, value: self.value@ }
    }
}

impl DeepView for Binding {
    type V = BindingView;

    open spec fn deep_view(&self) -> BindingView {
        self@
    }
}

/// What a driver is to prepare and bind.
#[derive(Clone, Debug, PartialEq, Eq)]
pub struct Statement {
    /// The query, with the driver's positional markers.
    pub sql: String,
    /// The values to bind, by rising position.
    pub bindings: Vec<Binding>,
}

/// What a [`Statement`] holds.
pub struct StatementView {
    pub sql: Seq<char>,
    pub bindings: Seq<BindingView>,
}

impl View for Statement {
    type V = StatementView;

    open spec fn view(&self) -> StatementView {
        StatementView { sql: self.sql@, bindings: self.bindings.deep_view() }
    }
}

impl DeepView for Statement {
    type V = StatementView;

    open spec fn deep_view(&self) -> StatementView {
        self@
    }
}

/// The bindings for the first `count` variables: the variable at index `i`
/// goes to position `i + 1`. SQLite leaves a NULL unbound, which reads as
/// NULL; Postgres binds every variable.
pub open spec fn bindings_of(driver: Driver, variables: Seq<NamedValueView>, count: nat) -> Seq<
    BindingView,
>
    decreases count,
{
    if count == 0 {
        Seq::empty()
    } else {
        let i = (count - 1) as nat;
        let earlier = bindings_of(driver, variables, i);
        if driver == Driver::Sqlite && variables[i as int].value.is_null() {
            earlier
        } else {
            earlier.push(BindingView { position: i + 1, value: variables[i as int].value })
        }
    }
}

/// The statement for a query and its variables: the placeholders rewritten
/// to the driver's markers, numbered from 1, and the driver's bindings.
pub open spec fn statement_of(driver: Driver, query: Seq<char>, variables: Seq<NamedValueView>)
    -> StatementView {
    StatementView {
        sql: rewritten(driver.spec_prefix(), 1, query, variables, variables.len()),
        bindings: bindings_of(driver, variables, variables.len()),
    }
}

/// Every binding carries the value of the variable whose marker has the
/// binding's position for its number; the positions rise; SQLite has no
/// binding for a NULL, and Postgres has one for every variable.
pub proof fn lemma_bindings_follow_variables(
    driver: Driver,
    variables: Seq<NamedValueView>,
    count: nat,
)
    requires
        count <= variables.len(),
    ensures
        ({
            let bindings = bindings_of(driver, variables, count);
            &&& forall|k: int|
                0 <= k < bindings.len() ==> 1 <= (#[trigger] bindings[k]).position <= count
                    && bindings[k].value == variables[bindings[k].position - 1].value
            &&& forall|k: int, l: int|
                0 <= k < l < bindings.len() ==> (#[trigger] bindings[k]).position < (
                #[trigger] bindings[l]).position
            &&& driver == Driver::Sqlite ==> forall|k: int|
                0 <= k < bindings.len() ==> !(#[trigger] bindings[k]).value.is_null()
            &&& driver == Driver::Postgres ==> bindings.len() == count
            &&& forall|i: int|
                0 <= i < count && !(driver == Driver::Sqlite && variables[i].value.is_null())
                    ==> exists|k: int|
                    0 <= k < bindings.len() && (#[trigger] bindings[k]).position == i + 1
        }),
    decreases count,
{
    if count > 0 {
        let i = (count - 1) as nat;
        lemma_bindings_follow_variables(driver, variables, i);
        let earlier = bindings_of(driver, variables, i);
        let bindings = bindings_of(driver, variables, count);
        let skipped = driver == Driver::Sqlite && variables[i as int].value.is_null();
        assert forall|j: int|
            0 <= j < count && !(driver == Driver::Sqlite && variables[j].value.is_null()) implies exists|
            k: int,
        |
            0 <= k < bindings.len() && (#[trigger] bindings[k]).position == j + 1 by {
            if j < i {
                let k = choose|k: int|
                    0 <= k < earlier.len() && (#[trigger] earlier[k]).position == j + 1;
                assert(bindings[k] == earlier[k]);
            } else {
                assert(bindings[bindings.len() - 1].position == j + 1);
            }
        }
        if !skipped {
            assert forall|k: int, l: int| 0 <= k < l < bindings.len() implies (
            #[trigger] bindings[k]).position < (#[trigger] bindings[l]).position by {
                assert(bindings[k] == earlier[k]);
                if l < earlier.len() {
                    assert(bindings[l] == earlier[l]);
                }
            }
        }
    }
}

/// Builds the statement for a query and its variables.
pub fn statement_for(driver: Driver, query: &str, variables: &Vec<NamedValue>) -> (statement:
    Statement)
    ensures
        statement@ == statement_of(driver, query@, variables.deep_view()),
{
    let sql = positional(driver.prefix(), 1, query, variables);
    let ghost given = variables.deep_view();
    let mut bindings: Vec<Binding> = Vec::new();
    let mut i: usize = 0;
    assert(bindings.deep_view() =~= Seq::<BindingView>::empty());
    while i < variables.len()
        invariant
            i <= variables.len(),
            given == variables.deep_view(),
            bindings.deep_view() == bindings_of(driver, given, i as nat),
        decreases variables.len() - i,
    {
        let variable = &variables[i];
        assert(given[i as int].value == variable.value@);
        let skip = match driver {
            Driver::Sqlite => variable.value.is_null(),
            Driver::Postgres => false,
        };
        if !skip {
            let ghost earlier = bindings.deep_view();
            let binding = Binding { position: i + 1, value: variable.value.duplicate() };
            bindings.push(binding);
            assert(bindings.deep_view() =~= earlier.push(binding@));
        }
        i += 1;
    }
    Statement { sql, bindings }
}

/// Asks an execution for its query and variables and builds the statement
/// from them. What comes back is the statement of a query and of variables
/// that the execution offers; it fails exactly when the execution does.
pub fn prepare<H: Handle>(handle: &H, driver: Driver) -> (r: Result<Statement, EngineError>)
    ensures
        match r {
            Ok(statement) => exists|query: Seq<char>, variables: Seq<NamedValueView>|
                #![trigger statement_of(driver, query, variables)]
                handle.offers_query(query) && handle.offers_variables(variables) && statement@
                    == statement_of(driver, query, variables),
            Err(e) => e is PluginExecution,
        },
{
    let query = match handle.query_string() {
        Ok(query) => query,
        Err(e) => {
            return Err(EngineError::PluginExecution(e));
        },
    };
    let variables = match handle.variables() {
        Ok(variables) => variables,
        Err(e) => {
            return Err(EngineError::PluginExecution(e));
        },
    };
    let statement = statement_for(driver, query.as_str(), &variables);
    assert(statement@ == statement_of(driver, query@, variables.deep_view()));
    Ok(statement)
}

/// The names of the columns, in order.
pub open spec fn column_names(columns: Seq<ColumnView>) -> Seq<Seq<char>> {
    Seq::new(columns.len(), |i: int| columns[i].name)
}

/// The cells of a row, each under the name of its column.
pub open spec fn named_row(columns: Seq<ColumnView>, cells: Seq<ValueView>) -> Seq<
    NamedValueView,
> {
    Seq::new(cells.len(), |i: int| NamedValueView { name: columns[i].name, value: cells[i] })
}

/// Puts each cell of a row under the name of its column.
pub fn name_row(columns: &Vec<Column>, cells: Vec<Value>) -> (row: Vec<NamedValue>)
    requires
        cells.len() == columns.len(),
    ensures
        row.deep_view() == named_row(columns.deep_view(), cells.deep_view()),
{
    let ghost given = cells.deep_view();
    let mut row: Vec<NamedValue> = Vec::new();
    for cell in it: cells
        invariant
            it.seq().len() == columns.len(),
            given.len() == it.seq().len(),
            forall|j: int| 0 <= j < it.seq().len() ==> (#[trigger] it.seq()[j])@ == given[j],
            row.len() == it.index(),
            forall|j: int|
                0 <= j < row.len() ==> (#[trigger] row@[j])@ == (NamedValueView {
                    name: columns@[j].name@,
                    value: given[j],
                }),
    {
        let name = columns[row.len()].name.clone();
        row.push(NamedValue { name, value: cell });
    }
    assert(row.deep_view() =~= named_row(columns.deep_view(), given));
    row
}

/// Copies the names of the columns.
pub fn names_of(columns: &Vec<Column>) -> (names: Vec<String>)
    ensures
        names.deep_view() == column_names(columns.deep_view()),
{
    let mut names: Vec<String> = Vec::new();
    let mut i: usize = 0;
    while i < columns.len()
        invariant
            i <= columns.len(),
            names.len() == i,
            forall|j: int| 0 <= j < i ==> (#[trigger] names@[j])@ == columns@[j].name@,
        decreases columns.len() - i,
    {
        names.push(columns[i].name.clone());
        i += 1;
    }
    assert(names.deep_view() =~= column_names(columns.deep_view()));
    names
}

/// Adds what a plugin has answered to the sum so far: its answer is added
/// from the right; its failure fails the execution and nothing is kept.
pub fn accumulate(sum: Option<QueryResult>, answer: Result<Option<QueryResult>, PluginError>) -> (r:
    Result<Option<QueryResult>, EngineError>)
    ensures
        match r {
            Ok(total) => answer matches Ok(partial) && total.deep_view() == added(
                sum.deep_view(),
                partial.deep_view(),
            ),
            Err(e) => answer matches Err(failure) && e@ == EngineErrorView::PluginExecution(
                failure@,
            ),
        },
{
    match answer {
        Ok(partial) => Ok(add_result(sum, partial)),
        Err(e) => Err(EngineError::PluginExecution(e)),
    }
}

/// Everything that belongs to one execution of a plugin on a prepared
/// statement: the plugin's handle, the statement's columns, and the sum of
/// the partial results so far.
pub struct ExecutionState<H: Handle> {
    /// The plugin's side of the execution.
    pub handle: H,
    /// The columns of the prepared statement.
    pub columns: Vec<Column>,
    /// What the plugin has answered so far, added up from the left.
    pub result: Option<QueryResult>,
}

impl<H: Handle> ExecutionState<H> {
    /// The state before the first row.
    pub fn new(handle: H, columns: Vec<Column>) -> (state: Self)
        ensures
            state.handle == handle,
            state.columns == columns,
            state.result is None,
    {
        ExecutionState { handle, columns, result: None }
    }

    /// The number of cells in a row.
    pub fn column_count(&self) -> (n: usize)
        ensures
            n == self.columns.len(),
    {
        self.columns.len()
    }

    /// The kind of value to read from a column, or the error for a column
    /// whose SQL type maps to no kind.
    pub fn column_kind(&self, index: usize) -> (r: Result<ValueKind, EngineError>)
        requires
            index < self.columns.len(),
        ensures
            match self.columns[index as int].kind {
                Some(kind) => r == Ok::<ValueKind, EngineError>(kind),
                None => r matches Err(e) && e@ == EngineErrorView::UnsupportedType(
                    self.columns[index as int].sql_type@,
                ),
            },
    {
        match self.columns[index].kind {
            Some(kind) => Ok(kind),
            None => Err(EngineError::UnsupportedType(self.columns[index].sql_type.clone())),
        }
    }

    /// Feeds one row of the driver to the plugin, each cell under the name
    /// of its column, and adds what the plugin answers to the result. It
    /// fails exactly when the plugin does.
    pub fn row(&mut self, cells: Vec<Value>) -> (r: Result<(), EngineError>)
        requires
            cells.len() == old(self).columns.len(),
        ensures
            final(self).columns == old(self).columns,
            match r {
                Ok(_) => exists|answer: Option<QueryResultView>|
                    #![trigger added(old(self).result.deep_view(), answer)]
                    old(self).handle.row_step(
                        named_row(old(self).columns.deep_view(), cells.deep_view()),
                        &final(self).handle,
                        answer,
                    ) && final(self).result.deep_view() == added(
                        old(self).result.deep_view(),
                        answer,
                    ),
                Err(e) => e is PluginExecution,
            },
    {
        let named = name_row(&self.columns, cells);
        let answer = self.handle.row(named);
        let mut sum: Option<QueryResult> = None;
        std::mem::swap(&mut sum, &mut self.result);
        match accumulate(sum, answer) {
            Ok(total) => {
                self.result = total;
                Ok(())
            },
            Err(e) => Err(e),
        }
    }

    /// Tells the plugin that the rows have ended, under the names of the
    /// columns, and hands out the sum of all that it answered. It fails
    /// exactly when the plugin does.
    pub fn end(self) -> (r: Result<Option<QueryResult>, EngineError>)
        ensures
            match r {
                Ok(sum) => exists|answer: Option<QueryResultView>, after: H|
                    #![trigger self.handle.end_step(column_names(self.columns.deep_view()), &after, answer)]
                    self.handle.end_step(column_names(self.columns.deep_view()), &after, answer)
                        && sum.deep_view() == added(self.result.deep_view(), answer),
                Err(e) => e is PluginExecution,
            },
    {
        let names = names_of(&self.columns);
        let mut handle = self.handle;
        let answer = handle.end(names);
        assert(answer is Ok ==> self.handle.end_step(
            column_names(self.columns.deep_view()),
            &handle,
            answer->Ok_0.deep_view(),
        ));
        accumulate(self.result, answer)
    }
}

} // verus!
