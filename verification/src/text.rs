//! Texts as sequences of characters: lowering, comparing and replacing.

use vstd::prelude::*;

verus! {

/// `c` lowered if it is an ASCII capital, otherwise `c` itself.
pub open spec fn lower_char(c: char) -> char {
    if 'A' <= c && c <= 'Z' {
        ((c as u8) + 32) as char
    } else {
        c
    }
}

/// `s` with every ASCII capital lowered.
pub open spec fn lowered(s: Seq<char>) -> Seq<char> {
    Seq::new(s.len(), |i: int| lower_char(s[i]))
}

/// `text` with every occurrence of `pat` replaced by `with`, scanning from the
/// left and resuming after each occurrence. An empty `pat` replaces nothing.
pub open spec fn replace_all(text: Seq<char>, pat: Seq<char>, with: Seq<char>) -> Seq<char>
    decreases text.len(),
{
    if pat.len() == 0 || text.len() < pat.len() {
        text
    } else if text.subrange(0, pat.len() as int) == pat {
        with + replace_all(text.skip(pat.len() as int), pat, with)
    } else {
        seq![text[0]] + replace_all(text.skip(1), pat, with)
    }
}

/// The characters of `s`, in order.
pub fn to_chars(s: &str) -> (v: Vec<char>)
    ensures
        v@ == s@,
{
    let mut v: Vec<char> = Vec::new();
    for c in it: s.chars()
        invariant
            it.seq() == s@,
            v@ == it.seq().take(it.index() as int),
    {
        v.push(c);
    }
    v
}

/// `c` lowered if it is an ASCII capital, otherwise `c` itself.
pub fn to_lower(c: char) -> (l: char)
    ensures
        l == lower_char(c),
{
    if 'A' <= c && c <= 'Z' {
        ((c as u8) + 32) as char
    } else {
        c
    }
}

/// Whether `s`, with its ASCII capitals lowered, reads exactly `word`.
pub fn lowered_eq(s: &Vec<char>, from: usize, word: &str) -> (b: bool)
    requires
        from <= s.len(),
    ensures
        b == (lowered(s@.skip(from as int)) == word@),
{
    let w = to_chars(word);
    if s.len() - from != w.len() {
        return false;
    }
    let mut i: usize = 0;
    while i < w.len()
        invariant
            from <= s.len(),
            s.len() - from == w.len(),
            w@ == word@,
            i <= w.len(),
            forall|j: int| 0 <= j < i ==> lower_char(s@[from + j]) == w@[j],
        decreases w.len() - i,
    {
        if to_lower(s[from + i]) != w[i] {
            assert(lowered(s@.skip(from as int))[i as int] != word@[i as int]);
            return false;
        }
        i += 1;
    }
    assert(lowered(s@.skip(from as int)) =~= word@);
    true
}

/// Whether `pat` stands in `text` at position `at`.
fn occurs_at(text: &Vec<char>, pat: &Vec<char>, at: usize) -> (b: bool)
    requires
        at + pat.len() <= text.len(),
    ensures
        b == (text@.subrange(at as int, at + pat.len()) == pat@),
{
    let mut j: usize = 0;
    while j < pat.len()
        invariant
            at + pat.len() <= text.len(),
            j <= pat.len(),
            forall|k: int| 0 <= k < j ==> text@[at + k] == pat@[k],
        decreases pat.len() - j,
    {
        if text[at + j] != pat[j] {
            assert(text@.subrange(at as int, at + pat.len())[j as int] != pat@[j as int]);
            return false;
        }
        j += 1;
    }
    assert(text@.subrange(at as int, at + pat.len()) =~= pat@);
    true
}

/// Replaces every occurrence of `pat` in `text` by `with`, scanning from the
/// left and resuming after each occurrence. An empty `pat` replaces nothing.
pub fn replace(text: &str, pat: &str, with: &str) -> (out: String)
    ensures
        out@ == replace_all(text@, pat@, with@),
{
    let t = to_chars(text);
    let p = to_chars(pat);
    let n = t.len();
    let m = p.len();
    if m == 0 || n < m {
        return String::from_str(text);
    }
    let mut out = String::new();
    let mut start: usize = 0;
    let mut i: usize = 0;
    proof {
        assert(t@.skip(0) =~= t@);
        assert(out@ + t@.subrange(0, 0) =~= Seq::<char>::empty());
        assert(Seq::<char>::empty() + replace_all(t@, p@, with@) =~= replace_all(t@, p@, with@));
    }
    while i <= n - m
        invariant
            t@ == text@,
            p@ == pat@,
            n == t.len(),
            m == p.len(),
            0 < m <= n,
            start <= i <= n,
            out@ + t@.subrange(start as int, i as int) + replace_all(t@.skip(i as int), p@, with@)
                == replace_all(t@, p@, with@),
        decreases n - i,
    {
        let ghost rest = t@.skip(i as int);
        assert(rest.subrange(0, m as int) =~= t@.subrange(i as int, i + m));
        if occurs_at(&t, &p, i) {
            out.append(text.substring_char(start, i));
            out.append(with);
            proof {
                assert(rest.skip(m as int) =~= t@.skip(i + m));
                assert(t@.subrange((i + m) as int, (i + m) as int) =~= Seq::<char>::empty());
            }
            i += m;
            start = i;
        } else {
            proof {
                assert(rest.skip(1) =~= t@.skip(i + 1));
                assert(t@.subrange(start as int, i as int) + seq![rest[0]] =~= t@.subrange(
                    start as int,
                    i + 1,
                ));
            }
            i += 1;
        }
    }
    proof {
        assert(t@.subrange(start as int, i as int) + t@.skip(i as int) =~= t@.subrange(
            start as int,
            n as int,
        ));
    }
    out.append(text.substring_char(start, n));
    out
}

/// Whether two texts hold the same characters.
pub fn same_text(a: &str, b: &str) -> (same: bool)
    ensures
        same == (a@ == b@),
{
    let x = to_chars(a);
    let y = to_chars(b);
    if x.len() != y.len() {
        return false;
    }
    let mut i: usize = 0;
    while i < x.len()
        invariant
            x@ == a@,
            y@ == b@,
            x.len() == y.len(),
            i <= x.len(),
            forall|j: int| 0 <= j < i ==> x@[j] == y@[j],
        decreases x.len() - i,
    {
        if x[i] != y[i] {
            return false;
        }
        i += 1;
    }
    assert(a@ =~= b@);
    true
}

} // verus!
