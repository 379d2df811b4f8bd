//! Ghost arithmetic underlying the moving-average contracts: integer
//! division that truncates toward zero, and sums of integer sequences.

use vstd::arithmetic::div_mod::{
    lemma_div_is_ordered, lemma_div_multiples_vanish, lemma_div_pos_is_pos,
};
use vstd::arithmetic::mul::lemma_mul_unary_negation;
use vstd::prelude::*;

verus! {

/// Integer division rounding toward zero, the semantics of Rust's `/` on
/// integers. It differs from the Euclidean `/` of specifications exactly
/// when the dividend is negative.
pub open spec fn trunc_div(a: int, d: int) -> int {
    if a >= 0 {
        a / d
    } else {
        -((-a) / d)
    }
}

/// The sum of a sequence of integers.
pub open spec fn sum_seq(s: Seq<int>) -> int
    decreases s.len(),
{
    if s.len() == 0 {
        0
    } else {
        sum_seq(s.drop_last()) + s.last()
    }
}

/// Appending a value adds it to the sum.
pub proof fn lemma_sum_push(s: Seq<int>, v: int)
    ensures
        sum_seq(s.push(v)) == sum_seq(s) + v,
{
    assert(s.push(v).drop_last() =~= s);
}

/// Removing the first value subtracts it from the sum.
pub proof fn lemma_sum_drop_first(s: Seq<int>)
    requires
        s.len() >= 1,
    ensures
        sum_seq(s.drop_first()) == sum_seq(s) - s[0],
    decreases s.len(),
{
    assert(sum_seq(s) == sum_seq(s.drop_last()) + s.last());
    if s.len() == 1 {
        assert(s.drop_first() =~= Seq::<int>::empty());
        assert(s.last() == s[0]);
    } else {
        lemma_sum_drop_first(s.drop_last());
        assert(s.drop_first().drop_last() =~= s.drop_last().drop_first());
        assert(s.drop_first().last() == s.last());
        assert(s.drop_last()[0] == s[0]);
        assert(sum_seq(s.drop_first()) == sum_seq(s.drop_first().drop_last())
            + s.drop_first().last());
    }
}

/// A sequence of `n` copies of `v` sums to `n * v`.
pub proof fn lemma_sum_constant(n: nat, v: int)
    ensures
        sum_seq(Seq::new(n, |i: int| v)) == n * v,
    decreases n,
{
    let s = Seq::new(n, |i: int| v);
    if n == 0 {
        assert(n * v == 0) by (nonlinear_arith)
            requires
                n == 0,
        ;
    } else {
        lemma_sum_constant((n - 1) as nat, v);
        assert(s.drop_last() =~= Seq::new((n - 1) as nat, |i: int| v));
        assert((n - 1) * v + v == n * v) by (nonlinear_arith);
    }
}

/// A sum of values each within `[lo, hi]` lies within `[len * lo, len * hi]`.
pub proof fn lemma_sum_bounds(s: Seq<int>, lo: int, hi: int)
    requires
        forall|i: int| 0 <= i < s.len() ==> lo <= #[trigger] s[i] <= hi,
    ensures
        s.len() * lo <= sum_seq(s) <= s.len() * hi,
    decreases s.len(),
{
    if s.len() == 0 {
        assert(s.len() * lo == 0) by (nonlinear_arith)
            requires
                s.len() == 0,
        ;
        assert(s.len() * hi == 0) by (nonlinear_arith)
            requires
                s.len() == 0,
        ;
    } else {
        let t = s.drop_last();
        assert(forall|i: int| 0 <= i < t.len() ==> lo <= #[trigger] t[i] <= hi);
        lemma_sum_bounds(t, lo, hi);
        assert((s.len() - 1) * lo + lo == s.len() * lo) by (nonlinear_arith);
        assert((s.len() - 1) * hi + hi == s.len() * hi) by (nonlinear_arith);
    }
}

/// Dividing an exact multiple of the divisor recovers the factor.
pub proof fn lemma_trunc_div_exact(v: int, d: int)
    requires
        d >= 1,
    ensures
        trunc_div(d * v, d) == v,
{
    if v >= 0 {
        assert(d * v >= 0) by (nonlinear_arith)
            requires
                d >= 1 && v >= 0,
        ;
        lemma_div_multiples_vanish(v, d);
    } else {
        lemma_mul_unary_negation(d, v);
        assert(d * (-v) >= 0) by (nonlinear_arith)
            requires
                d >= 1 && v <= 0,
        ;
        lemma_div_multiples_vanish(-v, d);
    }
}

/// Truncating division by `d` of a value within `[d * lo, d * hi]`, where
/// `lo <= 0 <= hi`, yields a quotient within `[lo, hi]`.
pub proof fn lemma_trunc_div_bounds(s: int, d: int, lo: int, hi: int)
    requires
        d >= 1,
        lo <= 0 <= hi,
        d * lo <= s <= d * hi,
    ensures
        lo <= trunc_div(s, d) <= hi,
{
    if s >= 0 {
        lemma_div_pos_is_pos(s, d);
        lemma_div_is_ordered(s, d * hi, d);
        lemma_div_multiples_vanish(hi, d);
    } else {
        lemma_mul_unary_negation(d, lo);
        lemma_div_pos_is_pos(-s, d);
        lemma_div_is_ordered(-s, d * (-lo), d);
        lemma_div_multiples_vanish(-lo, d);
    }
}

/// Truncating division is symmetric about zero: negating the dividend
/// negates the quotient.
pub proof fn lemma_trunc_div_negation(a: int, d: int)
    requires
        d >= 1,
    ensures
        trunc_div(-a, d) == -trunc_div(a, d),
{
    if a == 0 {
        assert(trunc_div(0int, d) == 0) by {
            vstd::arithmetic::div_mod::lemma_div_of0(d);
        };
    }
}

} // verus!
