use vstd::prelude::*;

verus! {

/// Filtering a sequence with one more element at its end.
pub proof fn lemma_filter_push<A>(s: Seq<A>, x: A, p: spec_fn(A) -> bool)
    ensures
        s.push(x).filter(p) == (if p(x) {
            s.filter(p).push(x)
        } else {
            s.filter(p)
        }),
{
    reveal(Seq::filter);
    assert(s.push(x).drop_last() =~= s);
}

/// One more step of a loop that maps and then filters a prefix.
pub proof fn lemma_map_filter_step<A, B>(s: Seq<A>, i: int, f: spec_fn(A) -> B, p: spec_fn(B) -> bool)
    requires
        0 <= i < s.len(),
    ensures
        s.subrange(0, i + 1).map_values(f).filter(p) == (if p(f(s[i])) {
            s.subrange(0, i).map_values(f).filter(p).push(f(s[i]))
        } else {
            s.subrange(0, i).map_values(f).filter(p)
        }),
{
    assert(s.subrange(0, i + 1).map_values(f) =~= s.subrange(0, i).map_values(f).push(f(s[i])));
    lemma_filter_push(s.subrange(0, i).map_values(f), f(s[i]), p);
}

} // verus!

verus! {

/// What holds of every element of a sequence holds of every element it
/// keeps through a filter, beside the filter's own predicate.
pub proof fn lemma_filter_all<A>(s: Seq<A>, p: spec_fn(A) -> bool, q: spec_fn(A) -> bool)
    requires
        forall|i: int| 0 <= i < s.len() ==> q(#[trigger] s[i]),
    ensures
        forall|i: int|
            0 <= i < s.filter(p).len() ==> q(#[trigger] s.filter(p)[i]) && p(s.filter(p)[i]),
    decreases s.len(),
{
    reveal(Seq::filter);
    if s.len() > 0 {
        let sub = s.drop_last();
        assert forall|i: int| 0 <= i < sub.len() implies q(#[trigger] sub[i]) by {
            assert(sub[i] == s[i]);
        }
        lemma_filter_all(sub, p, q);
        let last = s[s.len() - 1];
        assert(q(last));
        let f = s.filter(p);
        let g = sub.filter(p);
        assert(f == (if p(last) {
            g.push(last)
        } else {
            g
        }));
        assert forall|i: int| 0 <= i < f.len() implies q(#[trigger] f[i]) && p(f[i]) by {
            if i < g.len() {
                assert(f[i] == g[i]);
            } else {
                assert(f[i] == last);
            }
        }
    }
}

/// What holds of every element of a sequence holds of every element left
/// after one is removed.
pub proof fn lemma_remove_all<A>(s: Seq<A>, k: int, q: spec_fn(A) -> bool)
    requires
        0 <= k < s.len(),
        forall|i: int| 0 <= i < s.len() ==> q(#[trigger] s[i]),
    ensures
        forall|i: int| 0 <= i < s.remove(k).len() ==> q(#[trigger] s.remove(k)[i]),
{
    assert forall|i: int| 0 <= i < s.remove(k).len() implies q(#[trigger] s.remove(k)[i]) by {
        if i < k {
            assert(s.remove(k)[i] == s[i]);
        } else {
            assert(s.remove(k)[i] == s[i + 1]);
        }
    }
}

/// Removing an element keeps the others in order.
pub proof fn lemma_remove_index<A>(s: Seq<A>, k: int, i: int)
    requires
        0 <= k < s.len(),
        0 <= i < s.len() - 1,
    ensures
        s.remove(k)[i] == (if i < k {
            s[i]
        } else {
            s[i + 1]
        }),
{
}

} // verus!
