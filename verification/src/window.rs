//! The ghost model of the sliding window: how one observation transforms
//! the window's contents, and the window reached by a whole sequence of
//! observations.

use crate::math::{
    lemma_sum_bounds, lemma_sum_constant, lemma_trunc_div_exact, sum_seq, trunc_div,
};
use vstd::prelude::*;

verus! {

/// The window seeded by the very first sample: every slot holds that
/// sample, as if it had already filled the whole history.
pub open spec fn seeded_window(n: nat, v: int) -> Seq<int> {
    Seq::new(n, |i: int| v)
}

/// One steady-state observation: the oldest sample leaves, the new one
/// enters at the back.
pub open spec fn next_window(w: Seq<int>, v: int) -> Seq<int> {
    w.drop_first().push(v)
}

/// The window contents after a whole sequence of observations, oldest
/// sample first; empty while nothing has been observed.
pub open spec fn window_after(n: nat, inputs: Seq<int>) -> Seq<int>
    decreases inputs.len(),
{
    if inputs.len() == 0 {
        Seq::empty()
    } else {
        let prev = window_after(n, inputs.drop_last());
        if prev.len() == 0 {
            seeded_window(n, inputs.last())
        } else {
            next_window(prev, inputs.last())
        }
    }
}

/// The value returned by the engine's latest observation after the given
/// sequence of inputs: the window's sum divided by the depth, truncating
/// toward zero.
pub open spec fn average_after(n: nat, inputs: Seq<int>) -> int {
    trunc_div(sum_seq(window_after(n, inputs)), n as int)
}

/// One observation advances the model by one step: feeding `v` after the
/// history `inputs` seeds the window if the history was empty and slides
/// it otherwise — the very step the engine's observation contract takes.
pub proof fn lemma_window_after_step(n: nat, inputs: Seq<int>, v: int)
    requires
        n >= 1,
    ensures
        window_after(n, inputs.push(v)) == (if inputs.len() == 0 {
            seeded_window(n, v)
        } else {
            next_window(window_after(n, inputs), v)
        }),
{
    assert(inputs.push(v).drop_last() =~= inputs);
    assert(inputs.push(v).last() == v);
    if inputs.len() == 0 {
        assert(window_after(n, inputs) == Seq::<int>::empty());
    } else {
        lemma_window_after_len(n, inputs);
    }
}

/// Once anything has been observed, the window's population is exactly
/// the depth.
pub proof fn lemma_window_after_len(n: nat, inputs: Seq<int>)
    requires
        n >= 1,
        inputs.len() >= 1,
    ensures
        window_after(n, inputs).len() == n,
    decreases inputs.len(),
{
    if inputs.len() == 1 {
        assert(window_after(n, inputs.drop_last()) == Seq::<int>::empty());
        assert(window_after(n, inputs) == seeded_window(n, inputs.last()));
    } else {
        lemma_window_after_len(n, inputs.drop_last());
    }
}

/// What the window holds after `k` observations: while the window is
/// still partly seeded (`k <= n`), the first sample repeated `n - k + 1`
/// times followed by the later samples; afterwards, exactly the `n` most
/// recent samples, oldest first.
pub proof fn lemma_window_contents(n: nat, inputs: Seq<int>)
    requires
        n >= 1,
        inputs.len() >= 1,
    ensures
        window_after(n, inputs) == (if inputs.len() <= n {
            Seq::new((n - inputs.len() + 1) as nat, |i: int| inputs[0]) + inputs.subrange(
                1,
                inputs.len() as int,
            )
        } else {
            inputs.subrange(inputs.len() - n, inputs.len() as int)
        }),
    decreases inputs.len(),
{
    let k = inputs.len() as int;
    if k == 1 {
        assert(window_after(n, inputs.drop_last()) == Seq::<int>::empty());
        assert(inputs.last() == inputs[0]);
        assert(window_after(n, inputs) == seeded_window(n, inputs[0]));
        assert(seeded_window(n, inputs[0]) =~= Seq::new((n - 1 + 1) as nat, |i: int| inputs[0])
            + inputs.subrange(1, 1));
    } else {
        let prefix = inputs.drop_last();
        lemma_window_after_len(n, prefix);
        lemma_window_contents(n, prefix);
        let prev = window_after(n, prefix);
        assert(window_after(n, inputs) == next_window(prev, inputs.last()));
        assert(prefix[0] == inputs[0]);
        if k <= n {
            assert(prev.drop_first().push(inputs.last()) =~= Seq::new(
                (n - k + 1) as nat,
                |i: int| inputs[0],
            ) + inputs.subrange(1, k));
        } else {
            assert(prev.drop_first().push(inputs.last()) =~= inputs.subrange(k - n, k));
        }
    }
}

/// The sliding-window law: after more than `n` observations the returned
/// average depends only on the `n` most recent samples. Two input
/// histories of equal length that agree on those samples — however much
/// they differ earlier — yield the same average.
pub proof fn lemma_sliding_window(n: nat, a: Seq<int>, b: Seq<int>)
    requires
        n >= 1,
        a.len() == b.len(),
        a.len() > n,
        a.subrange(a.len() - n, a.len() as int) == b.subrange(b.len() - n, b.len() as int),
    ensures
        average_after(n, a) == average_after(n, b),
{
    lemma_window_contents(n, a);
    lemma_window_contents(n, b);
}

/// The single-sample identity: whatever the depth, the first observation
/// returns exactly the observed value, because the seeded window sums to
/// `n` times it and the truncating division by `n` recovers it.
pub proof fn lemma_first_observation(n: nat, v: int)
    requires
        n >= 1,
    ensures
        average_after(n, seq![v]) == v,
{
    let inputs = seq![v];
    assert(inputs.drop_last() =~= Seq::<int>::empty());
    assert(window_after(n, inputs.drop_last()) == Seq::<int>::empty());
    assert(window_after(n, inputs) == seeded_window(n, v));
    lemma_sum_constant(n, v);
    lemma_trunc_div_exact(v, n as int);
    assert(n * v == (n as int) * v);
}

/// The arithmetic-mean law at depth two: observing `a` then `b` returns
/// the truncated mean of `a` and `b`, and observing `c` next returns the
/// truncated mean of `b` and `c` — the oldest sample no longer
/// contributes.
pub proof fn lemma_depth_two_mean(a: int, b: int, c: int)
    ensures
        average_after(2, seq![a, b]) == trunc_div(a + b, 2),
        average_after(2, seq![a, b, c]) == trunc_div(b + c, 2),
{
    lemma_window_contents(2, seq![a, b]);
    assert(window_after(2, seq![a, b]) =~= seq![a, b]);
    lemma_window_contents(2, seq![a, b, c]);
    assert(window_after(2, seq![a, b, c]) =~= seq![b, c]);
    lemma_sum_two(a, b);
    lemma_sum_two(b, c);
}

/// The sum of a two-sample sequence.
proof fn lemma_sum_two(x: int, y: int)
    ensures
        sum_seq(seq![x, y]) == x + y,
{
    let s = seq![x, y];
    assert(s.drop_last() =~= seq![x]);
    assert(seq![x].drop_last() =~= Seq::<int>::empty());
    assert(sum_seq(Seq::<int>::empty()) == 0);
    assert(sum_seq(seq![x]) == x);
    assert(sum_seq(s) == sum_seq(seq![x]) + y);
}

/// The no-overflow law: whenever every sample lies within `[lo, hi]` and
/// the depth passes the construction-time range check against an
/// accumulator range `[acc_lo, acc_hi]`, the window's running sum stays
/// within that accumulator range across any sequence of observations.
pub proof fn lemma_sum_in_range(
    n: nat,
    inputs: Seq<int>,
    lo: int,
    hi: int,
    acc_lo: int,
    acc_hi: int,
)
    requires
        n >= 1,
        inputs.len() >= 1,
        forall|i: int| 0 <= i < inputs.len() ==> lo <= #[trigger] inputs[i] <= hi,
        n * hi <= acc_hi,
        acc_lo <= n * lo,
    ensures
        acc_lo <= sum_seq(window_after(n, inputs)) <= acc_hi,
{
    let w = window_after(n, inputs);
    lemma_window_after_len(n, inputs);
    lemma_window_contents(n, inputs);
    assert forall|i: int| 0 <= i < w.len() implies lo <= #[trigger] w[i] <= hi by {
        let k = inputs.len() as int;
        if k <= n {
            if i < n - k + 1 {
                assert(w[i] == inputs[0]);
            } else {
                assert(w[i] == inputs[i - (n - k + 1) + 1]);
            }
        } else {
            assert(w[i] == inputs[k - n + i]);
        }
    }
    lemma_sum_bounds(w, lo, hi);
    assert(w.len() * lo == n * lo);
    assert(w.len() * hi == n * hi);
}

} // verus!
