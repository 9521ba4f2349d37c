//! Adding up the partial results of one execution.

use crate::model::{QueryResult, QueryResultView};
use vstd::prelude::*;

verus! {

/// The sum of two optional results: the one that is there if the other is
/// missing; otherwise the header of the first over the rows of the first
/// followed by the rows of the second.
pub open spec fn added(a: Option<QueryResultView>, b: Option<QueryResultView>) -> Option<
    QueryResultView,
> {
    match (a, b) {
        (None, _) => b,
        (_, None) => a,
        (Some(a), Some(b)) => Some(QueryResultView { names: a.names, values: a.values + b.values }),
    }
}

/// Adds two results together.
pub fn add_result(qr1: Option<QueryResult>, qr2: Option<QueryResult>) -> (r: Option<QueryResult>)
    ensures
        r.deep_view() == added(qr1.deep_view(), qr2.deep_view()),
{
    match (qr1, qr2) {
        (None, qr2) => qr2,
        (qr1, None) => qr1,
        (Some(mut vec1), Some(mut vec2)) => {
            let ghost first = vec1.values.deep_view();
            let ghost second = vec2.values.deep_view();
            vec1.values.append(&mut vec2.values);
            assert(vec1.values.deep_view() =~= first + second);
            Some(vec1)
        },
    }
}

/// Adding to nothing gives the other result back.
pub proof fn lemma_add_nothing(x: Option<QueryResultView>)
    ensures
        added(None, x) == x,
        added(x, None) == x,
{
}

/// The sum of two results holds the rows of the first, then those of the
/// second, under the header of the first.
pub proof fn lemma_add_appends(a: QueryResultView, b: QueryResultView)
    ensures
        added(Some(a), Some(b)) matches Some(sum) && sum.values == a.values + b.values
            && sum.names == a.names,
{
}

/// The sum of two rectangular results with one header is rectangular, and
/// has that header.
pub proof fn lemma_add_rectangular(a: QueryResultView, b: QueryResultView)
    requires
        a.rectangular(),
        b.rectangular(),
        a.compatible(b),
    ensures
        added(Some(a), Some(b)) matches Some(sum) && sum.rectangular() && sum.compatible(a)
            && sum.compatible(b),
{
    let sum = added(Some(a), Some(b))->Some_0;
    assert forall|i: int| 0 <= i < sum.values.len() implies (#[trigger] sum.values[i]).len()
        == sum.names.len() by {
        if i < a.values.len() {
            assert(sum.values[i] == a.values[i]);
        } else {
            assert(sum.values[i] == b.values[i - a.values.len()]);
        }
    }
}

/// Adding is associative.
pub proof fn lemma_add_associative(
    a: Option<QueryResultView>,
    b: Option<QueryResultView>,
    c: Option<QueryResultView>,
)
    ensures
        added(added(a, b), c) == added(a, added(b, c)),
{
    if a is Some && b is Some && c is Some {
        let (x, y, z) = (a->Some_0, b->Some_0, c->Some_0);
        assert((x.values + y.values) + z.values =~= x.values + (y.values + z.values));
    }
}

} // verus!
