//! Summation over sequences of mathematical integers, together with the
//! lemmas the pipeline proofs lean on: extending a prefix, splitting at a
//! point, adding two sequences pointwise, and bounding or evaluating sums of
//! constant, bounded, or almost-zero sequences.

use vstd::prelude::*;

verus! {

/// Sum of a sequence of mathematical integers, folded from the back.
pub open spec fn sum(s: Seq<int>) -> int
    decreases s.len(),
{
    if s.len() == 0 {
        0
    } else {
        sum(s.drop_last()) + s.last()
    }
}

/// The mathematical integers held by a sequence of 64-bit words.
pub open spec fn ints(s: Seq<i64>) -> Seq<int> {
    s.map_values(|x: i64| x as int)
}

/// Extending a prefix by one element adds that element to the prefix sum.
pub proof fn lemma_sum_prefix_snoc(s: Seq<int>, i: int)
    requires
        0 <= i < s.len(),
    ensures
        sum(s.subrange(0, i + 1)) == sum(s.subrange(0, i)) + s[i],
{
    let p = s.subrange(0, i + 1);
    assert(p.drop_last() =~= s.subrange(0, i));
    assert(p.last() == s[i]);
}

/// Extending any subrange by one element adds that element to its sum.
pub proof fn lemma_sum_subrange_snoc(s: Seq<int>, a: int, b: int)
    requires
        0 <= a <= b < s.len(),
    ensures
        sum(s.subrange(a, b + 1)) == sum(s.subrange(a, b)) + s[b],
{
    let p = s.subrange(a, b + 1);
    assert(p.drop_last() =~= s.subrange(a, b));
    assert(p.last() == s[b]);
}

/// Summation distributes over concatenation.
pub proof fn lemma_sum_concat(a: Seq<int>, b: Seq<int>)
    ensures
        sum(a + b) == sum(a) + sum(b),
    decreases b.len(),
{
    if b.len() == 0 {
        assert(a + b =~= a);
    } else {
        assert((a + b).drop_last() =~= a + b.drop_last());
        assert((a + b).last() == b.last());
        lemma_sum_concat(a, b.drop_last());
    }
}

/// A prefix sum splits at any interior point.
pub proof fn lemma_sum_prefix_split(s: Seq<int>, a: int, b: int)
    requires
        0 <= a <= b <= s.len(),
    ensures
        sum(s.subrange(0, b)) == sum(s.subrange(0, a)) + sum(s.subrange(a, b)),
{
    assert(s.subrange(0, a) + s.subrange(a, b) =~= s.subrange(0, b));
    lemma_sum_concat(s.subrange(0, a), s.subrange(a, b));
}

/// Replacing one element changes the sum by the difference at that element.
pub proof fn lemma_sum_update(s: Seq<int>, i: int, v: int)
    requires
        0 <= i < s.len(),
    ensures
        sum(s.update(i, v)) == sum(s) - s[i] + v,
    decreases s.len(),
{
    let t = s.update(i, v);
    if i == s.len() - 1 {
        assert(t.drop_last() =~= s.drop_last());
        assert(t.last() == v);
    } else {
        assert(t.drop_last() =~= s.drop_last().update(i, v));
        assert(t.last() == s.last());
        lemma_sum_update(s.drop_last(), i, v);
    }
}

/// Adding two sequences pointwise adds their sums.
pub proof fn lemma_sum_pointwise_add(a: Seq<int>, b: Seq<int>, c: Seq<int>)
    requires
        a.len() == b.len(),
        c.len() == a.len(),
        forall|k: int| 0 <= k < c.len() ==> c[k] == a[k] + b[k],
    ensures
        sum(c) == sum(a) + sum(b),
    decreases c.len(),
{
    if c.len() > 0 {
        lemma_sum_pointwise_add(a.drop_last(), b.drop_last(), c.drop_last());
    }
}

/// A constant sequence sums to length times the constant.
pub proof fn lemma_sum_const(s: Seq<int>, c: int)
    requires
        forall|k: int| 0 <= k < s.len() ==> s[k] == c,
    ensures
        sum(s) == s.len() * c,
    decreases s.len(),
{
    if s.len() == 0 {
    } else {
        lemma_sum_const(s.drop_last(), c);
        assert((s.len() - 1) * c + c == s.len() as int * c) by (nonlinear_arith);
    }
}

/// A sequence of elements within `[-b, b]` sums to within `[-len * b, len * b]`.
pub proof fn lemma_sum_bound(s: Seq<int>, b: int)
    requires
        b >= 0,
        forall|k: int| 0 <= k < s.len() ==> -b <= #[trigger] s[k] <= b,
    ensures
        -(s.len() * b) <= sum(s) <= s.len() * b,
    decreases s.len(),
{
    if s.len() == 0 {
    } else {
        lemma_sum_bound(s.drop_last(), b);
        assert((s.len() - 1) * b + b == s.len() as int * b) by (nonlinear_arith);
    }
}

/// A sequence that is zero everywhere but at one index sums to that element.
pub proof fn lemma_sum_single_nonzero(s: Seq<int>, i: int)
    requires
        0 <= i < s.len(),
        forall|k: int| 0 <= k < s.len() && k != i ==> s[k] == 0,
    ensures
        sum(s) == s[i],
    decreases s.len(),
{
    if i == s.len() - 1 {
        lemma_sum_const(s.drop_last(), 0);
        assert((s.len() - 1) * 0 == 0) by (nonlinear_arith);
    } else {
        lemma_sum_single_nonzero(s.drop_last(), i);
    }
}

/// Word-to-integer conversion commutes with a single-element update.
pub proof fn lemma_ints_update(s: Seq<i64>, i: int, v: i64)
    requires
        0 <= i < s.len(),
    ensures
        ints(s.update(i, v)) == ints(s).update(i, v as int),
{
    assert(ints(s.update(i, v)) =~= ints(s).update(i, v as int));
}

} // verus!
