use moving_average::{MovingAverage, MovingAverageError};

#[test]
fn given_new_moving_average_when_average_value_then_return_same_value() {
    let mut sut = MovingAverage::<u32, u64, 1>::new().unwrap();
    let expected: u32 = 44;
    assert_eq!(expected, sut.average(expected));
}

#[test]
fn given_two_item_moving_average_when_average_twice_value_then_return_average_of_those_values() {
    let mut sut = MovingAverage::<u32, u64, 2>::new().unwrap();
    let first: u32 = 22;
    let second: u32 = 44;
    let expected = (first + second) / 2;
    let _ = sut.average(first);
    assert_eq!(expected, sut.average(second));
}

#[test]
fn given_two_item_moving_average_when_average_called_thrice_then_return_average_of_the_last_two_values()
 {
    let mut sut = MovingAverage::<u32, u64, 2>::new().unwrap();
    let first: u32 = 22;
    let second: u32 = 44;
    let third: u32 = 66;
    let expected = (second + third) / 2;
    let _ = sut.average(first);
    let _ = sut.average(second);
    assert_eq!(expected, sut.average(third));
}

#[test]
fn given_two_signed_item_moving_average_when_average_called_thrice_then_return_average_of_the_last_two_values()
 {
    let mut sut = MovingAverage::<i32, i64, 2>::new().unwrap();
    let first: i32 = -22;
    let second: i32 = 44;
    let third: i32 = -66;
    let expected = (second + third) / 2_i32;
    let _ = sut.average(first);
    let _ = sut.average(second);
    assert_eq!(expected, sut.average(third));
}

#[test]
fn given_large_item_moving_average_when_average_called_thrice_then_return_average_of_the_last_two_values()
 {
    let depth: i32 = 128;
    let mut sut = MovingAverage::<i32, i64, 128>::new().unwrap();
    let first: i32 = -22;
    let second: i32 = 44;
    let third: i32 = -66;
    let expected = (first + second + third + ((depth - 3_i32) * first)) / depth;
    let _ = sut.average(first);
    let _ = sut.average(second);
    assert_eq!(expected, sut.average(third));
}

#[test]
fn confirm_n_times_t_max_fits_in_tcalc() {
    let result = MovingAverage::<u8, u16, 512>::new();
    assert!(matches!(result, Err(MovingAverageError::AccumulatorRangeInsufficient)));
}

#[test]
fn construction_with_zero_depth_is_rejected() {
    let result = MovingAverage::<u32, u64, 0>::new();
    assert!(matches!(result, Err(MovingAverageError::InvalidWindowDepth)));
}

#[test]
fn construction_with_accumulator_no_wider_than_sample_is_rejected() {
    let result = MovingAverage::<u32, u32, 1>::new();
    assert!(matches!(result, Err(MovingAverageError::AccumulatorTooNarrow)));
}

#[test]
fn construction_range_check_is_exact_for_unsigned_types() {
    // 257 * 255 == 65535 fits u16 exactly; one more sample does not.
    assert!(MovingAverage::<u8, u16, 257>::new().is_ok());
    let result = MovingAverage::<u8, u16, 258>::new();
    assert!(matches!(result, Err(MovingAverageError::AccumulatorRangeInsufficient)));
}

#[test]
fn construction_range_check_covers_the_signed_minimum() {
    // 256 * -128 == -32768 fits i16 exactly; 257 * -128 would not, even
    // though 257 * 127 still fits.
    assert!(MovingAverage::<i8, i16, 256>::new().is_ok());
    let result = MovingAverage::<i8, i16, 257>::new();
    assert!(matches!(result, Err(MovingAverageError::AccumulatorRangeInsufficient)));
}

#[test]
fn first_observation_returns_the_sample_for_every_depth_tried() {
    let mut small = MovingAverage::<i8, i16, 4>::new().unwrap();
    assert_eq!(-3, small.average(-3));
    let mut large = MovingAverage::<u32, u64, 128>::new().unwrap();
    assert_eq!(7, large.average(7));
}

#[test]
fn seeded_window_drains_gradually_after_the_first_sample() {
    // The first sample -3 fills all four slots; the second observation
    // averages [-3, -3, -3, 5] with truncating division.
    let mut sut = MovingAverage::<i8, i16, 4>::new().unwrap();
    let _ = sut.average(-3);
    assert_eq!((-3 + -3 + -3 + 5) / 4, sut.average(5));
}

#[test]
fn averages_after_window_turnover_ignore_the_early_history() {
    // Two engines whose histories differ only before the last three
    // samples return the same averages once the window has turned over.
    let mut a = MovingAverage::<u32, u64, 3>::new().unwrap();
    let mut b = MovingAverage::<u32, u64, 3>::new().unwrap();
    let _ = a.average(100);
    let _ = b.average(500);
    let _ = a.average(1);
    let _ = b.average(1);
    let _ = a.average(2);
    let _ = b.average(2);
    let from_a = a.average(3);
    let from_b = b.average(3);
    assert_eq!((1 + 2 + 3) / 3, from_a);
    assert_eq!(from_a, from_b);
}

#[test]
fn division_truncates_toward_zero_for_negative_sums() {
    let mut sut = MovingAverage::<i16, i32, 2>::new().unwrap();
    let _ = sut.average(-3);
    // Window [-3, -4] sums to -7; -7 / 2 truncates to -3, not -4.
    assert_eq!(-3, sut.average(-4));
}

#[test]
fn large_depth_average_matches_exact_integer_mean() {
    let mut sut = MovingAverage::<u32, u64, 128>::new().unwrap();
    let _ = sut.average(10);
    let _ = sut.average(20);
    // Window: 126 seeded copies of 10, then 20 and 30.
    let expected = (126 * 10 + 20 + 30) / 128;
    assert_eq!(expected, sut.average(30));
}

#[test]
fn averages_mixed_values_in_a_depth_three_window() {
    let mut sut = MovingAverage::<u16, u32, 3>::new().unwrap();
    let _ = sut.average(7);
    let _ = sut.average(8);
    assert_eq!((7 + 8 + 12) / 3, sut.average(12));
}

#[test]
fn unsigned_running_sum_reaches_the_accumulator_maximum() {
    // 257 samples of u8::MAX sum to exactly u16::MAX; each further
    // observation must evict before it adds, or the sum would overflow.
    let mut sut = MovingAverage::<u8, u16, 257>::new().unwrap();
    let mut latest: u8 = 0;
    for _ in 0..300 {
        latest = sut.average(u8::MAX);
    }
    assert_eq!(u8::MAX, latest);
}

#[test]
fn running_sum_reaches_the_accumulator_extremes_without_overflow() {
    // 2 * u32::MAX only fits the wider u64 accumulator.
    let mut high = MovingAverage::<u32, u64, 2>::new().unwrap();
    let _ = high.average(u32::MAX);
    assert_eq!(u32::MAX, high.average(u32::MAX));
    // 256 samples of i8::MIN sum to exactly i16::MIN.
    let mut low = MovingAverage::<i8, i16, 256>::new().unwrap();
    let mut latest: i8 = 0;
    for _ in 0..256 {
        latest = low.average(i8::MIN);
    }
    assert_eq!(i8::MIN, latest);
}
