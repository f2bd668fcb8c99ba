use vstd::prelude::*;

verus! {

/// `a` is a subsequence of `b`: `b` holds every element of `a`, in the same order, with
/// possibly other elements in between.
pub open spec fn is_subseq<V>(a: Seq<V>, b: Seq<V>) -> bool {
    exists|pos: Seq<int>| is_embedding(a, b, pos)
}

/// `pos` places each element of `a` at a position of `b` holding it, in increasing order.
pub open spec fn is_embedding<V>(a: Seq<V>, b: Seq<V>, pos: Seq<int>) -> bool {
    &&& pos.len() == a.len()
    &&& forall|i: int, j: int| 0 <= i < j < pos.len() ==> pos[i] < pos[j]
    &&& forall|i: int| 0 <= i < pos.len() ==> 0 <= #[trigger] pos[i] < b.len() && b[pos[i]] == a[i]
}

/// A sequence is a subsequence of itself.
pub proof fn lemma_subseq_refl<V>(a: Seq<V>)
    ensures
        is_subseq(a, a),
{
    let pos = Seq::new(a.len(), |i: int| i);
    assert(is_embedding(a, a, pos));
}

/// A prefix of a subsequence is a subsequence.
pub proof fn lemma_subseq_prefix<V>(a: Seq<V>, b: Seq<V>, k: int)
    requires
        is_subseq(a, b),
        0 <= k <= a.len(),
    ensures
        is_subseq(a.subrange(0, k), b),
{
    let pos = choose|pos: Seq<int>| is_embedding(a, b, pos);
    let p = pos.subrange(0, k);
    assert(is_embedding(a.subrange(0, k), b, p));
}

/// Appending the same tail to both sides keeps a subsequence.
pub proof fn lemma_subseq_append<V>(a: Seq<V>, b: Seq<V>, c: Seq<V>)
    requires
        is_subseq(a, b),
    ensures
        is_subseq(a + c, b + c),
{
    let pos = choose|pos: Seq<int>| is_embedding(a, b, pos);
    let p = pos + Seq::new(c.len(), |i: int| b.len() + i);
    assert forall|i: int, j: int| 0 <= i < j < p.len() implies p[i] < p[j] by {
        if j >= pos.len() && i < pos.len() {
            assert(p[i] == pos[i]);
        }
    }
    assert forall|i: int| 0 <= i < p.len() implies 0 <= #[trigger] p[i] < (b + c).len() && (b
        + c)[p[i]] == (a + c)[i] by {
        if i < pos.len() {
            assert(p[i] == pos[i]);
        } else {
            assert(p[i] == b.len() + (i - pos.len()));
        }
    }
    assert(is_embedding(a + c, b + c, p));
}

} // verus!
