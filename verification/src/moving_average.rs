//! The moving-average engine: a fixed-capacity circular sample buffer and
//! an incrementally maintained running sum in a wider accumulator type.

use crate::math::{
    lemma_sum_bounds, lemma_sum_constant, lemma_sum_drop_first, lemma_sum_push,
    lemma_trunc_div_bounds, lemma_trunc_div_exact, sum_seq, trunc_div,
};
use crate::numeric::{Accumulator, Sample};
use crate::window::{next_window, seeded_window};
use vstd::prelude::*;

verus! {

/// Why a `MovingAverage` could not be constructed. All three conditions
/// are programmer misconfigurations, reported once at construction time;
/// observation itself never fails.
#[derive(Clone, Copy, Debug, PartialEq, Eq, Structural)]
pub enum MovingAverageError {
    /// The window depth is zero.
    InvalidWindowDepth,
    /// The accumulator type's storage width does not exceed the sample
    /// type's storage width.
    AccumulatorTooNarrow,
    /// A sum of `N` extreme samples would not be representable in the
    /// accumulator type.
    AccumulatorRangeInsufficient,
}

/// A moving-average filter over the most recent `N` samples of type `T`,
/// accumulating in the wider type `TCALC`.
///
/// The window is kept in a circular buffer of capacity `N`, and the sum of
/// the buffered samples is cached: each observation overwrites the oldest
/// slot and updates the cached sum with one subtraction and one addition,
/// so the cost per sample does not depend on `N`. The first observation
/// seeds every slot of the window, so the first returned average equals
/// the first sample exactly.
pub struct MovingAverage<T: Sample, TCALC: Accumulator<T>, const N: usize> {
    num: TCALC,
    sum: Option<TCALC>,
    buffer: Vec<T>,
    head: usize,
}

/// Whether a window of depth `n` over samples of type `T` always sums
/// within the range of the accumulator type `TCALC`.
pub open spec fn depth_in_range<T: Sample, TCALC: Accumulator<T>>(n: int) -> bool {
    &&& n * T::max_value() <= TCALC::max_value()
    &&& TCALC::min_value() <= n * T::min_value()
}

/// Whether construction with these parameters succeeds.
pub open spec fn config_valid<T: Sample, TCALC: Accumulator<T>>(n: int) -> bool {
    &&& n >= 1
    &&& T::width() < TCALC::width()
    &&& depth_in_range::<T, TCALC>(n)
}

impl<T: Sample, TCALC: Accumulator<T>, const N: usize> MovingAverage<T, TCALC, N> {
    /// The buffered samples, oldest first, as mathematical integers: the
    /// circular buffer read from `head` around to `head` again.
    pub closed spec fn window(self) -> Seq<int> {
        let vals = self.buffer@.map(|i: int, t: T| t.as_int());
        vals.subrange(self.head as int, vals.len() as int) + vals.subrange(0, self.head as int)
    }

    /// Whether the engine has received its first sample.
    pub closed spec fn initialized(self) -> bool {
        self.sum is Some
    }

    /// The cached running sum; zero while uninitialized.
    pub closed spec fn running_sum(self) -> int {
        match self.sum {
            Option::Some(s) => s.as_int(),
            Option::None => 0,
        }
    }

    /// The engine's invariant: the construction-time checks passed, the
    /// cached depth equals `N`, and once initialized the buffer holds
    /// exactly `N` samples whose exact sum is the cached running sum.
    pub closed spec fn wf(self) -> bool {
        &&& config_valid::<T, TCALC>(N as int)
        &&& self.num.as_int() == N as int
        &&& match self.sum {
            Option::None => self.buffer@.len() == 0 && self.head == 0,
            Option::Some(s) => {
                &&& self.buffer@.len() == N
                &&& self.head < N
                &&& s.as_int() == sum_seq(self.window())
            },
        }
    }

    /// Constructs an empty engine after checking the three construction
    /// constraints: the depth is non-zero, the accumulator type is
    /// strictly wider than the sample type, and a full window of extreme
    /// samples still fits the accumulator's range. Each violated
    /// constraint maps to exactly one error, checked in this order.
    pub fn new() -> (result: Result<Self, MovingAverageError>)
        ensures
            result is Ok <==> config_valid::<T, TCALC>(N as int),
            (result matches Ok(engine) ==> {
                &&& engine.wf()
                &&& !engine.initialized()
                &&& engine.window() == Seq::<int>::empty()
            }),
            result == Err::<Self, _>(MovingAverageError::InvalidWindowDepth) <==> N == 0,
            result == Err::<Self, _>(MovingAverageError::AccumulatorTooNarrow) <==> (N >= 1
                && T::width() >= TCALC::width()),
            result == Err::<Self, _>(MovingAverageError::AccumulatorRangeInsufficient) <==> (N
                >= 1 && T::width() < TCALC::width() && !depth_in_range::<T, TCALC>(N as int)),
    {
        if N == 0 {
            return Err(MovingAverageError::InvalidWindowDepth);
        }
        if T::width_exec() >= TCALC::width_exec() {
            return Err(MovingAverageError::AccumulatorTooNarrow);
        }
        if !TCALC::depth_fits(N) {
            return Err(MovingAverageError::AccumulatorRangeInsufficient);
        }
        proof {
            T::lemma_range_shape();
            assert((N as int) * 1 <= (N as int) * T::max_value()) by (nonlinear_arith)
                requires
                    T::max_value() >= 1,
                    N >= 1,
            ;
        }
        let engine = MovingAverage {
            num: TCALC::from_depth(N),
            sum: None,
            buffer: Vec::with_capacity(N),
            head: 0,
        };
        proof {
            assert(engine.window() =~= Seq::<int>::empty());
        }
        Ok(engine)
    }

    /// Feeds one sample and returns the moving average of the most recent
    /// `min(calls so far, N)` samples: the window's exact sum divided by
    /// `N`, truncating toward zero, narrowed back to the sample type. The
    /// very first sample seeds the entire window, so it is returned
    /// unchanged.
    pub fn average(&mut self, input: T) -> (result: T)
        requires
            old(self).wf(),
        ensures
            final(self).wf(),
            final(self).initialized(),
            final(self).window() == (if old(self).initialized() {
                next_window(old(self).window(), input.as_int())
            } else {
                seeded_window(N as nat, input.as_int())
            }),
            final(self).running_sum() == sum_seq(final(self).window()),
            result.as_int() == trunc_div(sum_seq(final(self).window()), N as int),
            !old(self).initialized() ==> result.as_int() == input.as_int(),
    {
        let ghost was_initialized = self.initialized();
        let new_value = TCALC::widen(input);
        let prev_sum = self.get_or_init_and_get_sum(input);
        let ghost w = self.window();
        proof {
            assert forall|i: int| 0 <= i < w.len() implies T::min_value() <= #[trigger] w[i]
                <= T::max_value() by {
                if i < N - self.head {
                    self.buffer@[self.head + i].lemma_in_range();
                } else {
                    self.buffer@[i - (N - self.head)].lemma_in_range();
                }
            }
        }
        let remove = self.insert_new_value_pop_oldest_value(input);
        proof {
            T::lemma_range_shape();
            input.lemma_in_range();
            lemma_sum_drop_first(w);
            lemma_sum_push(w.drop_first(), input.as_int());
            assert forall|i: int| 0 <= i < w.drop_first().len() implies T::min_value()
                <= #[trigger] w.drop_first()[i] <= T::max_value() by {
                assert(w.drop_first()[i] == w[i + 1]);
            }
            lemma_sum_bounds(w.drop_first(), T::min_value(), T::max_value());
            assert((N - 1) * T::max_value() <= (N as int) * T::max_value()) by (nonlinear_arith)
                requires
                    N >= 1,
                    T::max_value() >= 0,
            ;
            assert((N as int) * T::min_value() <= (N - 1) * T::min_value()) by (nonlinear_arith)
                requires
                    N >= 1,
                    T::min_value() <= 0,
            ;
            if !was_initialized {
                assert(next_window(seeded_window(N as nat, input.as_int()), input.as_int())
                    =~= seeded_window(N as nat, input.as_int()));
            }
        }
        let result = self.create_average(new_value, prev_sum, remove);
        proof {
            if !was_initialized {
                lemma_sum_constant(N as nat, input.as_int());
                lemma_trunc_div_exact(input.as_int(), N as int);
            }
        }
        result
    }

    /// Returns the running sum the window held before this sample, seeding
    /// the window first if nothing has been observed yet: every slot is
    /// filled with the sample and the seed sum is `N` times its value.
    fn get_or_init_and_get_sum(&mut self, input: T) -> (prev_sum: TCALC)
        requires
            old(self).wf(),
        ensures
            final(self).num == old(self).num,
            final(self).sum == old(self).sum,
            final(self).buffer@.len() == N,
            final(self).head < N,
            final(self).window() == (if old(self).initialized() {
                old(self).window()
            } else {
                seeded_window(N as nat, input.as_int())
            }),
            prev_sum.as_int() == sum_seq(final(self).window()),
    {
        let new_value = TCALC::widen(input);
        match self.sum {
            Option::Some(s) => s,
            Option::None => {
                let mut i: usize = 0;
                while i < N
                    invariant
                        i <= N,
                        self.num == old(self).num,
                        self.sum == old(self).sum,
                        self.head == 0,
                        self.buffer@.len() == i,
                        forall|j: int| 0 <= j < i ==> #[trigger] self.buffer@[j] == input,
                    decreases N - i,
                {
                    self.buffer.push(input);
                    i += 1;
                }
                proof {
                    assert(self.window() =~= seeded_window(N as nat, input.as_int()));
                    lemma_sum_constant(N as nat, input.as_int());
                    T::lemma_range_shape();
                    input.lemma_in_range();
                    assert((N as int) * T::min_value() <= (N as int) * input.as_int()
                        <= (N as int) * T::max_value()) by (nonlinear_arith)
                        requires
                            N >= 1,
                            T::min_value() <= input.as_int() <= T::max_value(),
                    ;
                }
                self.num.times(new_value)
            },
        }
    }

    /// Overwrites the oldest buffered sample — the slot the head points at
    /// — with the new one, advances the head circularly, and returns the
    /// evicted value widened to the accumulator.
    fn insert_new_value_pop_oldest_value(&mut self, input: T) -> (remove: TCALC)
        requires
            old(self).buffer@.len() == N,
            old(self).head < N,
            N >= 1,
        ensures
            final(self).num == old(self).num,
            final(self).sum == old(self).sum,
            final(self).buffer@.len() == N,
            final(self).head < N,
            remove.as_int() == old(self).window()[0],
            final(self).window() == next_window(old(self).window(), input.as_int()),
    {
        let remove = self.get_remove_value();
        self.buffer[self.head] = input;
        self.head = if self.head + 1 == N {
            0
        } else {
            self.head + 1
        };
        proof {
            assert(self.window() =~= next_window(old(self).window(), input.as_int()));
        }
        remove
    }

    /// Computes the new running sum from the previous one — subtracting
    /// the evicted sample before adding the new one, so every intermediate
    /// value is a sum of at most `N` buffered samples — caches it, and
    /// returns the truncated average narrowed to the sample type.
    fn create_average(&mut self, new_value: TCALC, prev_sum: TCALC, remove: TCALC) -> (result: T)
        requires
            depth_in_range::<T, TCALC>(N as int),
            N >= 1,
            old(self).num.as_int() == N as int,
            old(self).buffer@.len() == N,
            old(self).head < N,
            prev_sum.as_int() - remove.as_int() + new_value.as_int() == sum_seq(
                old(self).window(),
            ),
            TCALC::min_value() <= prev_sum.as_int() - remove.as_int() <= TCALC::max_value(),
        ensures
            final(self).num == old(self).num,
            final(self).buffer == old(self).buffer,
            final(self).head == old(self).head,
            final(self).initialized(),
            final(self).running_sum() == sum_seq(final(self).window()),
            result.as_int() == trunc_div(sum_seq(final(self).window()), N as int),
    {
        proof {
            T::lemma_range_shape();
            assert forall|i: int| 0 <= i < old(self).window().len() implies T::min_value()
                <= #[trigger] old(self).window()[i] <= T::max_value() by {
                if i < N - old(self).head {
                    old(self).buffer@[old(self).head + i].lemma_in_range();
                } else {
                    old(self).buffer@[i - (N - old(self).head)].lemma_in_range();
                }
            }
            assert(old(self).window().len() == N);
            lemma_sum_bounds(old(self).window(), T::min_value(), T::max_value());
            lemma_trunc_div_bounds(
                sum_seq(old(self).window()),
                N as int,
                T::min_value(),
                T::max_value(),
            );
        }
        let new_sum = prev_sum.minus(remove).plus(new_value);
        self.sum = Some(new_sum);
        let average_as_tcalc = new_sum.div_trunc(self.num);
        average_as_tcalc.narrow()
    }

    /// Reads the oldest buffered sample — the slot the head points at —
    /// widened to the accumulator type.
    fn get_remove_value(&self) -> (remove: TCALC)
        requires
            self.head < self.buffer@.len(),
        ensures
            remove.as_int() == self.window()[0],
    {
        TCALC::widen(self.buffer[self.head])
    }
}

} // verus!
