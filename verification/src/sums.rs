//! Sums over sequences, with the facts the ledger proofs need.

use vstd::prelude::*;

verus! {

/// The sum of `f` over the elements of `s`.
pub open spec fn sum_of<A>(s: Seq<A>, f: spec_fn(A) -> int) -> int
    decreases s.len(),
{
    if s.len() == 0 {
        0
    } else {
        sum_of(s.drop_last(), f) + f(s.last())
    }
}

/// Appending an element adds its value to the sum.
pub proof fn lemma_sum_push<A>(s: Seq<A>, x: A, f: spec_fn(A) -> int)
    ensures
        sum_of(s.push(x), f) == sum_of(s, f) + f(x),
{
    assert(s.push(x).drop_last() =~= s);
}

/// Replacing one element changes the sum by the difference of the values.
pub proof fn lemma_sum_update<A>(s: Seq<A>, j: int, x: A, f: spec_fn(A) -> int)
    requires
        0 <= j < s.len(),
    ensures
        sum_of(s.update(j, x), f) == sum_of(s, f) - f(s[j]) + f(x),
    decreases s.len(),
{
    let t = s.update(j, x);
    if j == s.len() - 1 {
        assert(t.drop_last() =~= s.drop_last());
    } else {
        assert(t.drop_last() =~= s.drop_last().update(j, x));
        lemma_sum_update(s.drop_last(), j, x, f);
    }
}

/// A sum of values that are all zero is zero.
pub proof fn lemma_sum_zero<A>(s: Seq<A>, f: spec_fn(A) -> int)
    requires
        forall|k: int| 0 <= k < s.len() ==> f(#[trigger] s[k]) == 0,
    ensures
        sum_of(s, f) == 0,
    decreases s.len(),
{
    if s.len() > 0 {
        assert forall|k: int| 0 <= k < s.drop_last().len() implies f(
            #[trigger] s.drop_last()[k],
        ) == 0 by {
            assert(s.drop_last()[k] == s[k]);
        }
        lemma_sum_zero(s.drop_last(), f);
        assert(f(s[s.len() - 1]) == 0);
    }
}

/// A sum of values that are all non-negative is non-negative.
pub proof fn lemma_sum_nonnegative<A>(s: Seq<A>, f: spec_fn(A) -> int)
    requires
        forall|k: int| 0 <= k < s.len() ==> f(#[trigger] s[k]) >= 0,
    ensures
        sum_of(s, f) >= 0,
    decreases s.len(),
{
    if s.len() > 0 {
        assert forall|k: int| 0 <= k < s.drop_last().len() implies f(
            #[trigger] s.drop_last()[k],
        ) >= 0 by {
            assert(s.drop_last()[k] == s[k]);
        }
        lemma_sum_nonnegative(s.drop_last(), f);
        assert(f(s[s.len() - 1]) >= 0);
    }
}

/// Extending a prefix by one element adds that element's value.
pub proof fn lemma_sum_take_next<A>(s: Seq<A>, k: int, f: spec_fn(A) -> int)
    requires
        0 <= k < s.len(),
    ensures
        sum_of(s.take(k + 1), f) == sum_of(s.take(k), f) + f(s[k]),
{
    assert(s.take(k + 1).drop_last() =~= s.take(k));
}

/// With non-negative values, a prefix sums to no more than the whole.
pub proof fn lemma_sum_prefix_le<A>(s: Seq<A>, k: int, f: spec_fn(A) -> int)
    requires
        0 <= k <= s.len(),
        forall|i: int| 0 <= i < s.len() ==> f(#[trigger] s[i]) >= 0,
    ensures
        sum_of(s.take(k), f) <= sum_of(s, f),
    decreases s.len(),
{
    if k < s.len() {
        assert(s.drop_last().take(k) =~= s.take(k));
        assert forall|i: int| 0 <= i < s.drop_last().len() implies f(
            #[trigger] s.drop_last()[i],
        ) >= 0 by {
            assert(s.drop_last()[i] == s[i]);
        }
        lemma_sum_prefix_le(s.drop_last(), k, f);
        assert(f(s[s.len() - 1]) >= 0);
    } else {
        assert(s.take(k) =~= s);
    }
}

} // verus!
