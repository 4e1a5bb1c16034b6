//! Sequence combinators used to state what the differ and the planner emit.
use vstd::prelude::*;

verus! {

/// Concatenation of `f(x)` over the elements `x` of `s`, in order.
pub open spec fn flat_map<A, B>(s: Seq<A>, f: spec_fn(A) -> Seq<B>) -> Seq<B>
    decreases s.len(),
{
    if s.len() == 0 {
        Seq::empty()
    } else {
        flat_map(s.drop_last(), f) + f(s.last())
    }
}

pub proof fn lemma_flat_map_step<A, B>(s: Seq<A>, f: spec_fn(A) -> Seq<B>, i: int)
    requires
        0 <= i < s.len(),
    ensures
        flat_map(s.take(i + 1), f) == flat_map(s.take(i), f) + f(s[i]),
{
    assert(s.take(i + 1).drop_last() =~= s.take(i));
}

/// Whatever one element contributes appears in the whole.
pub proof fn lemma_flat_map_member<A, B>(s: Seq<A>, f: spec_fn(A) -> Seq<B>, i: int, x: B)
    requires
        0 <= i < s.len(),
        f(s[i]).contains(x),
    ensures
        flat_map(s, f).contains(x),
    decreases s.len(),
{
    if i == s.len() - 1 {
        let fs = f(s[i]);
        let k = choose|k: int| 0 <= k < fs.len() && #[trigger] fs[k] == x;
        let pre = flat_map(s.drop_last(), f);
        assert((pre + f(s.last()))[pre.len() + k] == x);
    } else {
        lemma_flat_map_member(s.drop_last(), f, i, x);
        let pre = flat_map(s.drop_last(), f);
        let k = choose|k: int| 0 <= k < pre.len() && #[trigger] pre[k] == x;
        assert((pre + f(s.last()))[k] == x);
    }
}

/// Every element of the whole comes from some element of `s`.
pub proof fn lemma_flat_map_origin<A, B>(s: Seq<A>, f: spec_fn(A) -> Seq<B>, x: B)
    requires
        flat_map(s, f).contains(x),
    ensures
        exists|i: int| 0 <= i < s.len() && #[trigger] f(s[i]).contains(x),
    decreases s.len(),
{
    let pre = flat_map(s.drop_last(), f);
    let whole = flat_map(s, f);
    let k = choose|k: int| 0 <= k < whole.len() && #[trigger] whole[k] == x;
    if k < pre.len() {
        assert(pre[k] == x);
        lemma_flat_map_origin(s.drop_last(), f, x);
        let i = choose|i: int| 0 <= i < s.drop_last().len() && #[trigger] f(s.drop_last()[i]).contains(x);
        assert(s.drop_last()[i] == s[i]);
    } else {
        let last = s.len() - 1;
        assert(f(s[last])[k - pre.len()] == x);
        assert(f(s[last]).contains(x));
    }
}

/// When no element contributes anything, the whole is empty.
pub proof fn lemma_flat_map_empty<A, B>(s: Seq<A>, f: spec_fn(A) -> Seq<B>)
    requires
        forall|i: int| 0 <= i < s.len() ==> (#[trigger] f(s[i])).len() == 0,
    ensures
        flat_map(s, f).len() == 0,
    decreases s.len(),
{
    if s.len() > 0 {
        assert forall|i: int| 0 <= i < s.drop_last().len() implies (#[trigger] f(
            s.drop_last()[i],
        )).len() == 0 by {
            assert(s.drop_last()[i] == s[i]);
        }
        lemma_flat_map_empty(s.drop_last(), f);
    }
}

} // verus!
