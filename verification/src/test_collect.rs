//! A plugin that collects every row it is fed and hands them all out at the
//! end, under the column names it is told.

use crate::model::{
    Metadata, MetadataView, NamedValue, NamedValueView, Parameter, ParameterView, QueryResult,
    QueryResultView, Value, ValueKind, ValueView,
};
use crate::engine::{column_names, named_row, ExecutionState};
use crate::plugin::{Handle, Plugin, PluginError};
use crate::result::added;
use vstd::prelude::*;

verus! {

/// The values of a row, without their names.
pub open spec fn values_of(row: Seq<NamedValueView>) -> Seq<ValueView> {
    Seq::new(row.len(), |i: int| row[i].value)
}

/// The collecting plugin.
pub struct Query {}

/// One execution of the collecting plugin.
pub struct Execution {
    query_string: String,
    variables: Vec<NamedValue>,
    data: Vec<Vec<Value>>,
}

impl Query {
    /// The description that the plugin gives of itself.
    pub open spec fn description() -> Seq<char> {
        "test plugin collecting results"@
    }

    /// The query that every execution hands out.
    pub open spec fn query_text() -> Seq<char> {
        "SELECT order_id FROM Orders WHERE customer_id = {{customer_id}} ORDER BY order_id"@
    }

    /// The one parameter: the customer, an integer.
    pub open spec fn parameters() -> Seq<ParameterView> {
        seq![ParameterView { name: "customer_id"@, kind: ValueKind::Integer }]
    }
}

impl Execution {
    /// The query that the execution hands out.
    pub closed spec fn query(&self) -> Seq<char> {
        self.query_string@
    }

    /// The variables that the execution was started with.
    pub closed spec fn started_with(&self) -> Seq<NamedValueView> {
        self.variables.deep_view()
    }

    /// The rows collected so far, oldest first.
    pub closed spec fn collected(&self) -> Seq<Seq<ValueView>> {
        self.data.deep_view()
    }

    /// An execution that hands out `query_string` and `variables` and has
    /// collected nothing yet.
    pub fn new(query_string: String, variables: Vec<NamedValue>) -> (run: Execution)
        ensures
            run.query() == query_string@,
            run.started_with() == variables.deep_view(),
            run.collected() == Seq::<Seq<ValueView>>::empty(),
    {
        let data: Vec<Vec<Value>> = Vec::new();
        assert(data.deep_view() =~= Seq::<Seq<ValueView>>::empty());
        Execution { query_string, variables, data }
    }
}

/// Copies named values.
fn copy_variables(variables: &Vec<NamedValue>) -> (copy: Vec<NamedValue>)
    ensures
        copy.deep_view() == variables.deep_view(),
{
    let mut copy: Vec<NamedValue> = Vec::new();
    let mut i: usize = 0;
    while i < variables.len()
        invariant
            i <= variables.len(),
            copy.len() == i,
            forall|j: int| 0 <= j < i ==> copy@[j]@ == variables@[j]@,
        decreases variables.len() - i,
    {
        copy.push(variables[i].duplicate());
        i += 1;
    }
    assert(copy.deep_view() =~= variables.deep_view());
    copy
}

impl Handle for Execution {
    open spec fn offers_query(&self, query: Seq<char>) -> bool {
        query == self.query()
    }

    open spec fn offers_variables(&self, variables: Seq<NamedValueView>) -> bool {
        variables == self.started_with()
    }

    open spec fn row_step(
        &self,
        row: Seq<NamedValueView>,
        after: &Self,
        answer: Option<QueryResultView>,
    ) -> bool {
        &&& answer is None
        &&& after.collected() == self.collected().push(values_of(row))
        &&& after.query() == self.query()
        &&& after.started_with() == self.started_with()
    }

    open spec fn end_step(
        &self,
        columns: Seq<Seq<char>>,
        after: &Self,
        answer: Option<QueryResultView>,
    ) -> bool {
        &&& answer == Some(QueryResultView { names: columns, values: self.collected() })
        &&& after.collected() == Seq::<Seq<ValueView>>::empty()
        &&& after.query() == self.query()
        &&& after.started_with() == self.started_with()
    }

    fn query_string(&self) -> (r: Result<String, PluginError>)
        ensures
            r is Ok,
    {
        Ok(self.query_string.clone())
    }

    fn variables(&self) -> (r: Result<Vec<NamedValue>, PluginError>)
        ensures
            r is Ok,
    {
        Ok(copy_variables(&self.variables))
    }

    fn row(&mut self, row: Vec<NamedValue>) -> (r: Result<Option<QueryResult>, PluginError>)
        ensures
            r is Ok,
    {
        let ghost fed = row.deep_view();
        let ghost before = self.data.deep_view();
        let mut values: Vec<Value> = Vec::new();
        let mut row = row;
        let mut i: usize = 0;
        while i < row.len()
            invariant
                i <= row.len(),
                values.len() == i,
                row.deep_view() == fed,
                forall|j: int| 0 <= j < i ==> values@[j]@ == fed[j].value,
            decreases row.len() - i,
        {
            values.push(row[i].value.duplicate());
            i += 1;
        }
        assert(values.deep_view() =~= values_of(fed));
        self.data.push(values);
        assert(self.data.deep_view() =~= before.push(values_of(fed)));
        Ok(None)
    }

    fn end(&mut self, columns: Vec<String>) -> (r: Result<Option<QueryResult>, PluginError>)
        ensures
            r is Ok,
    {
        let mut values: Vec<Vec<Value>> = Vec::new();
        std::mem::swap(&mut values, &mut self.data);
        assert(self.data.deep_view() =~= Seq::<Seq<ValueView>>::empty());
        Ok(Some(QueryResult { names: columns, values }))
    }
}

impl Plugin for Query {
    type Run = Execution;

    open spec fn describes(&self, metadata: MetadataView) -> bool {
        metadata == (MetadataView {
            description: Query::description(),
            parameters: Query::parameters(),
        })
    }

    open spec fn starts(&self, variables: Seq<NamedValueView>, run: &Execution) -> bool {
        &&& run.query() == Query::query_text()
        &&& run.started_with() == variables
        &&& run.collected() == Seq::<Seq<ValueView>>::empty()
    }

    fn metadata(&self) -> (r: Result<Metadata, PluginError>)
        ensures
            r is Ok,
    {
        let mut parameters: Vec<Parameter> = Vec::new();
        let parameter = Parameter {
            name: String::from_str("customer_id"),
            kind: ValueKind::Integer,
        };
        parameters.push(parameter);
        assert(parameters.deep_view() =~= Query::parameters());
        Ok(
            Metadata {
                description: String::from_str("test plugin collecting results"),
                parameters,
            },
        )
    }

    fn start(&self, variables: Vec<NamedValue>) -> (r: Result<Execution, PluginError>)
        ensures
            r is Ok,
    {
        Ok(
            Execution::new(
                String::from_str(
                    "SELECT order_id FROM Orders WHERE customer_id = {{customer_id}} ORDER BY order_id",
                ),
                variables,
            ),
        )
    }
}

impl Execution {
    /// Every row collected so far has `width` cells.
    pub open spec fn uniform(&self, width: nat) -> bool {
        forall|i: int|
            0 <= i < self.collected().len() ==> (#[trigger] self.collected()[i]).len() == width
    }
}

/// A row fed to the collecting plugin is collected behind the earlier ones,
/// and nothing is answered yet. Rows of one width stay of one width.
pub proof fn lemma_row_is_collected(
    before: &Execution,
    row: Seq<NamedValueView>,
    after: &Execution,
    answer: Option<QueryResultView>,
)
    requires
        before.row_step(row, after, answer),
    ensures
        answer is None,
        after.collected() == before.collected().push(values_of(row)),
        before.uniform(row.len()) ==> after.uniform(row.len()),
{
    if before.uniform(row.len()) {
        assert forall|i: int| 0 <= i < after.collected().len() implies (
        #[trigger] after.collected()[i]).len() == row.len() by {
            if i < before.collected().len() {
                assert(after.collected()[i] == before.collected()[i]);
            }
        }
    }
}

/// At the end the collecting plugin answers with all collected rows under
/// the column names. If every row has one cell per column, the answer is
/// rectangular.
pub proof fn lemma_end_hands_out_rows(
    before: &Execution,
    columns: Seq<Seq<char>>,
    after: &Execution,
    answer: Option<QueryResultView>,
)
    requires
        before.end_step(columns, after, answer),
    ensures
        answer == Some(QueryResultView { names: columns, values: before.collected() }),
        before.uniform(columns.len()) ==> answer->Some_0.rectangular(),
{
}

/// Feeding a row through the execution state of the collecting plugin
/// collects the row's cells, in the order of the columns, and leaves the
/// result empty.
pub proof fn lemma_state_collects_row(
    before: ExecutionState<Execution>,
    cells: Seq<ValueView>,
    after: ExecutionState<Execution>,
)
    requires
        before.result is None,
        cells.len() == before.columns.len(),
        after.columns == before.columns,
        exists|answer: Option<QueryResultView>|
            #![trigger added(before.result.deep_view(), answer)]
            before.handle.row_step(
                named_row(before.columns.deep_view(), cells),
                &after.handle,
                answer,
            ) && after.result.deep_view() == added(before.result.deep_view(), answer),
    ensures
        after.result is None,
        after.handle.collected() == before.handle.collected().push(cells),
        before.handle.uniform(before.columns.len() as nat) ==> after.handle.uniform(
            after.columns.len() as nat,
        ),
{
    let row = named_row(before.columns.deep_view(), cells);
    let answer = choose|answer: Option<QueryResultView>|
        #![trigger added(before.result.deep_view(), answer)]
        before.handle.row_step(row, &after.handle, answer) && after.result.deep_view() == added(
            before.result.deep_view(),
            answer,
        );
    lemma_row_is_collected(&before.handle, row, &after.handle, answer);
    assert(values_of(row) =~= cells);
}

/// Ending the execution state of the collecting plugin, when nothing was
/// answered before, hands out the collected rows under the names of the
/// columns; the result is rectangular if every row has one cell per column.
pub proof fn lemma_state_ends_with_rows(
    state: ExecutionState<Execution>,
    sum: Option<QueryResultView>,
)
    requires
        state.result is None,
        exists|answer: Option<QueryResultView>, after: Execution|
            #![trigger state.handle.end_step(column_names(state.columns.deep_view()), &after, answer)]
            state.handle.end_step(column_names(state.columns.deep_view()), &after, answer) && sum
                == added(state.result.deep_view(), answer),
    ensures
        sum == Some(
            QueryResultView {
                names: column_names(state.columns.deep_view()),
                values: state.handle.collected(),
            },
        ),
        state.handle.uniform(state.columns.len() as nat) ==> sum->Some_0.rectangular(),
{
    let names = column_names(state.columns.deep_view());
    let (answer, after) = choose|answer: Option<QueryResultView>, after: Execution|
        #![trigger state.handle.end_step(column_names(state.columns.deep_view()), &after, answer)]
        state.handle.end_step(names, &after, answer) && sum == added(
            state.result.deep_view(),
            answer,
        );
    lemma_end_hands_out_rows(&state.handle, names, &after, answer);
}

} // verus!
