//! A constant-memory moving-average engine for integer samples.
//!
//! The engine keeps the most recent `N` samples in a fixed-capacity ring
//! buffer together with an incrementally maintained running sum held in a
//! wider accumulator type, so each new observation costs a constant number
//! of arithmetic operations regardless of the window depth.

mod math;
mod moving_average;
mod numeric;
mod window;

pub use math::{lemma_trunc_div_negation, sum_seq, trunc_div};
pub use moving_average::{config_valid, depth_in_range, MovingAverage, MovingAverageError};
pub use numeric::{Accumulator, Sample};
pub use window::{
    average_after, lemma_depth_two_mean, lemma_first_observation, lemma_sliding_window,
    lemma_sum_in_range, lemma_window_after_len, lemma_window_after_step, lemma_window_contents,
    next_window, seeded_window, window_after,
};
