//! The order of texts, and of pairs of texts, by which listings are sorted.

use crate::text::to_chars;
use vstd::prelude::*;

verus! {

/// Whether `a` comes before `b`, or is `b`, character by character: the
/// order in which strings compare.
pub open spec fn text_le(a: Seq<char>, b: Seq<char>) -> bool
    decreases a.len(),
{
    if a.len() == 0 {
        true
    } else if b.len() == 0 {
        false
    } else if a[0] != b[0] {
        (a[0] as int) < (b[0] as int)
    } else {
        text_le(a.skip(1), b.skip(1))
    }
}

/// Whether the pair `x` comes before the pair `y`, or is `y`: by the first
/// texts, and by the second ones where the first are the same.
pub open spec fn pair_le(x: (Seq<char>, Seq<char>), y: (Seq<char>, Seq<char>)) -> bool {
    if x.0 == y.0 {
        text_le(x.1, y.1)
    } else {
        text_le(x.0, y.0)
    }
}

/// Whether no pair comes before an earlier one.
pub open spec fn sorted(s: Seq<(Seq<char>, Seq<char>)>) -> bool {
    forall|i: int, j: int| 0 <= i < j < s.len() ==> pair_le(#[trigger] s[i], #[trigger] s[j])
}

/// Of two texts, one comes before the other or they are the same.
pub proof fn lemma_text_le_total(a: Seq<char>, b: Seq<char>)
    ensures
        text_le(a, b) || text_le(b, a),
    decreases a.len(),
{
    if a.len() > 0 && b.len() > 0 && a[0] == b[0] {
        lemma_text_le_total(a.skip(1), b.skip(1));
    }
}

/// Two texts that come before each other are the same.
pub proof fn lemma_text_le_antisymmetric(a: Seq<char>, b: Seq<char>)
    requires
        text_le(a, b),
        text_le(b, a),
    ensures
        a == b,
    decreases a.len(),
{
    if a.len() == 0 || b.len() == 0 {
        assert(a =~= b);
    } else {
        lemma_text_le_antisymmetric(a.skip(1), b.skip(1));
        assert(a =~= seq![a[0]] + a.skip(1));
        assert(b =~= seq![b[0]] + b.skip(1));
    }
}

/// The order of texts is transitive.
pub proof fn lemma_text_le_transitive(a: Seq<char>, b: Seq<char>, c: Seq<char>)
    requires
        text_le(a, b),
        text_le(b, c),
    ensures
        text_le(a, c),
    decreases a.len(),
{
    if a.len() > 0 && a[0] == b[0] && b[0] == c[0] {
        lemma_text_le_transitive(a.skip(1), b.skip(1), c.skip(1));
    }
}

/// Of two pairs, one comes before the other or they are the same.
pub proof fn lemma_pair_le_total(x: (Seq<char>, Seq<char>), y: (Seq<char>, Seq<char>))
    ensures
        pair_le(x, y) || pair_le(y, x),
{
    lemma_text_le_total(x.0, y.0);
    lemma_text_le_total(x.1, y.1);
}

/// The order of pairs is transitive.
pub proof fn lemma_pair_le_transitive(
    x: (Seq<char>, Seq<char>),
    y: (Seq<char>, Seq<char>),
    z: (Seq<char>, Seq<char>),
)
    requires
        pair_le(x, y),
        pair_le(y, z),
    ensures
        pair_le(x, z),
{
    if x.0 == y.0 && y.0 == z.0 {
        lemma_text_le_transitive(x.1, y.1, z.1);
    } else if x.0 == y.0 {
    } else if y.0 == z.0 {
    } else {
        lemma_text_le_transitive(x.0, y.0, z.0);
        if x.0 == z.0 {
            lemma_text_le_antisymmetric(x.0, y.0);
        }
    }
}

/// Whether `a` comes before `b` or is `b`.
pub fn precedes(a: &str, b: &str) -> (r: bool)
    ensures
        r == text_le(a@, b@),
{
    let x = to_chars(a);
    let y = to_chars(b);
    let mut i: usize = 0;
    assert(x@.skip(0) =~= x@);
    assert(y@.skip(0) =~= y@);
    while i < x.len() && i < y.len()
        invariant
            x@ == a@,
            y@ == b@,
            i <= x.len(),
            i <= y.len(),
            text_le(a@, b@) == text_le(x@.skip(i as int), y@.skip(i as int)),
        decreases x.len() - i,
    {
        let ghost p = x@.skip(i as int);
        let ghost q = y@.skip(i as int);
        assert(p[0] == x@[i as int] && q[0] == y@[i as int]);
        assert(p.skip(1) =~= x@.skip(i + 1));
        assert(q.skip(1) =~= y@.skip(i + 1));
        if x[i] != y[i] {
            return x[i] < y[i];
        }
        i += 1;
    }
    i == x.len()
}

/// Whether the pair `x` comes before the pair `y` or is `y`.
pub fn pair_precedes(x: &(String, String), y: &(String, String)) -> (r: bool)
    ensures
        r == pair_le((x.0@, x.1@), (y.0@, y.1@)),
{
    if x.0 == y.0 {
        precedes(x.1.as_str(), y.1.as_str())
    } else {
        precedes(x.0.as_str(), y.0.as_str())
    }
}

/// A pair put into a sorted sequence behind every pair that comes before it
/// or is it, and before the first that does not, leaves the sequence sorted.
proof fn lemma_insert_keeps_sorted(
    s: Seq<(Seq<char>, Seq<char>)>,
    at: int,
    x: (Seq<char>, Seq<char>),
)
    requires
        sorted(s),
        0 <= at <= s.len(),
        forall|j: int| 0 <= j < at ==> pair_le(#[trigger] s[j], x),
        at < s.len() ==> !pair_le(s[at], x),
    ensures
        sorted(s.insert(at, x)),
{
    let t = s.insert(at, x);
    assert forall|i: int, j: int| 0 <= i < j < t.len() implies pair_le(
        #[trigger] t[i],
        #[trigger] t[j],
    ) by {
        if j < at {
            assert(t[i] == s[i] && t[j] == s[j]);
        } else if j == at {
            assert(t[i] == s[i]);
        } else if i == at {
            assert(t[j] == s[j - 1]);
            lemma_pair_le_total(s[at], x);
            if j - 1 > at {
                lemma_pair_le_transitive(x, s[at], s[j - 1]);
            }
        } else if i < at {
            assert(t[i] == s[i] && t[j] == s[j - 1]);
        } else {
            assert(t[i] == s[i - 1] && t[j] == s[j - 1]);
        }
    }
}

/// A sequence with one more element holds that element once more, and
/// everything else as often as before.
proof fn lemma_insert_to_multiset<A>(s: Seq<A>, at: int, x: A)
    requires
        0 <= at <= s.len(),
    ensures
        s.insert(at, x).to_multiset() == s.to_multiset().insert(x),
{
    let t = s.insert(at, x);
    t.to_multiset_ensures();
    assert(t.remove(at) =~= s);
    assert(t[at] == x);
    assert(t.contains(x));
    assert(t.to_multiset() =~= s.to_multiset().insert(x));
}

/// Sorts pairs of texts: by the first text, and by the second where the
/// first are the same.
pub fn sort_pairs(items: Vec<(String, String)>) -> (out: Vec<(String, String)>)
    ensures
        sorted(out.deep_view()),
        out.deep_view().to_multiset() == items.deep_view().to_multiset(),
{
    let ghost given = items.deep_view();
    let mut out: Vec<(String, String)> = Vec::new();
    assert(out.deep_view() =~= Seq::<(Seq<char>, Seq<char>)>::empty());
    assert(given.take(0) =~= Seq::<(Seq<char>, Seq<char>)>::empty());
    for item in it: items
        invariant
            given.len() == it.seq().len(),
            forall|j: int|
                0 <= j < it.seq().len() ==> ((#[trigger] it.seq()[j]).0@, it.seq()[j].1@)
                    == given[j],
            sorted(out.deep_view()),
            out.deep_view().to_multiset() == given.take(it.index() as int).to_multiset(),
    {
        let ghost before = out.deep_view();
        let ghost x = (item.0@, item.1@);
        let ghost k = it.index() as int;
        let mut at: usize = 0;
        while at < out.len() && pair_precedes(&out[at], &item)
            invariant
                at <= out.len(),
                before == out.deep_view(),
                x == (item.0@, item.1@),
                forall|j: int| 0 <= j < at ==> pair_le(#[trigger] before[j], x),
            decreases out.len() - at,
        {
            at += 1;
        }
        out.insert(at, item);
        proof {
            assert(out.deep_view() =~= before.insert(at as int, x));
            lemma_insert_keeps_sorted(before, at as int, x);
            lemma_insert_to_multiset(before, at as int, x);
            given.take(k).to_multiset_ensures();
            assert(given.take(k + 1) =~= given.take(k).push(given[k]));
        }
    }
    assert(given.take(given.len() as int) =~= given);
    out
}

} // verus!
