//! Sums of a per-element weight over a sequence, as used by the node counters.

use vstd::prelude::*;

verus! {

/// Sum of `f` over the elements of `s`.
pub open spec fn tally<A>(s: Seq<A>, f: spec_fn(A) -> nat) -> nat
    decreases s.len(),
{
    if s.len() == 0 {
        0
    } else {
        tally(s.drop_last(), f) + f(s.last())
    }
}

/// Appending an element adds its weight.
pub proof fn lemma_tally_push<A>(s: Seq<A>, x: A, f: spec_fn(A) -> nat)
    ensures
        tally(s.push(x), f) == tally(s, f) + f(x),
{
    assert(s.push(x).drop_last() =~= s);
}

/// The sum over a prefix one longer adds the next element's weight.
pub proof fn lemma_tally_take<A>(s: Seq<A>, i: int, f: spec_fn(A) -> nat)
    requires
        0 <= i < s.len(),
    ensures
        tally(s.take(i + 1), f) == tally(s.take(i), f) + f(s[i]),
{
    assert(s.take(i + 1).drop_last() =~= s.take(i));
}

/// Replacing one element changes the sum by the difference of the weights.
pub proof fn lemma_tally_update<A>(s: Seq<A>, i: int, x: A, f: spec_fn(A) -> nat)
    requires
        0 <= i < s.len(),
    ensures
        tally(s.update(i, x), f) + f(s[i]) == tally(s, f) + f(x),
        f(s[i]) <= tally(s, f),
    decreases s.len(),
{
    if i == s.len() - 1 {
        assert(s.update(i, x).drop_last() =~= s.drop_last());
    } else {
        lemma_tally_update(s.drop_last(), i, x, f);
        assert(s.update(i, x).drop_last() =~= s.drop_last().update(i, x));
    }
}

/// A sum whose weights are all at most `b` is at most `len * b`.
pub proof fn lemma_tally_bound<A>(s: Seq<A>, f: spec_fn(A) -> nat, b: nat)
    requires
        forall|i: int| 0 <= i < s.len() ==> #[trigger] f(s[i]) <= b,
    ensures
        tally(s, f) <= s.len() * b,
    decreases s.len(),
{
    if s.len() > 0 {
        assert forall|i: int| 0 <= i < s.drop_last().len() implies #[trigger] f(
            s.drop_last()[i],
        ) <= b by {
            assert(s.drop_last()[i] == s[i]);
        }
        lemma_tally_bound(s.drop_last(), f, b);
        assert(s.len() * b == (s.len() - 1) * b + b) by (nonlinear_arith);
    }
}

/// Weights pointwise below other weights give a smaller sum.
pub proof fn lemma_tally_le<A>(s: Seq<A>, f: spec_fn(A) -> nat, g: spec_fn(A) -> nat)
    requires
        forall|i: int| 0 <= i < s.len() ==> #[trigger] f(s[i]) <= g(s[i]),
    ensures
        tally(s, f) <= tally(s, g),
    decreases s.len(),
{
    if s.len() > 0 {
        assert forall|i: int| 0 <= i < s.drop_last().len() implies #[trigger] f(
            s.drop_last()[i],
        ) <= g(s.drop_last()[i]) by {
            assert(s.drop_last()[i] == s[i]);
        }
        lemma_tally_le(s.drop_last(), f, g);
    }
}

/// A sum of zero weights is zero.
pub proof fn lemma_tally_zero<A>(s: Seq<A>, f: spec_fn(A) -> nat)
    requires
        forall|i: int| 0 <= i < s.len() ==> #[trigger] f(s[i]) == 0,
    ensures
        tally(s, f) == 0,
    decreases s.len(),
{
    if s.len() > 0 {
        assert forall|i: int| 0 <= i < s.drop_last().len() implies #[trigger] f(
            s.drop_last()[i],
        ) == 0 by {
            assert(s.drop_last()[i] == s[i]);
        }
        lemma_tally_zero(s.drop_last(), f);
    }
}

/// Two sequences of equal length whose weights agree position by position
/// have the same sum.
pub proof fn lemma_tally_pointwise<A, B>(s: Seq<A>, f: spec_fn(A) -> nat, u: Seq<B>, g: spec_fn(B) -> nat)
    requires
        s.len() == u.len(),
        forall|i: int| 0 <= i < s.len() ==> #[trigger] f(s[i]) == g(u[i]),
    ensures
        tally(s, f) == tally(u, g),
    decreases s.len(),
{
    if s.len() > 0 {
        assert forall|i: int| 0 <= i < s.drop_last().len() implies #[trigger] f(s.drop_last()[i])
            == g(u.drop_last()[i]) by {
            assert(s.drop_last()[i] == s[i]);
            assert(u.drop_last()[i] == u[i]);
        }
        lemma_tally_pointwise(s.drop_last(), f, u.drop_last(), g);
    }
}

/// A prefix sums to no more than the whole.
pub proof fn lemma_tally_prefix_le<A>(s: Seq<A>, n: int, f: spec_fn(A) -> nat)
    requires
        0 <= n <= s.len(),
    ensures
        tally(s.take(n), f) <= tally(s, f),
    decreases s.len() - n,
{
    if n < s.len() {
        lemma_tally_prefix_le(s, n + 1, f);
        lemma_tally_take(s, n, f);
    } else {
        assert(s.take(n) =~= s);
    }
}

} // verus!
