//! Numeric capability traits for the moving-average engine.
//!
//! `Sample` describes an integer type through its mathematical value, its
//! representable range and its storage width. `Accumulator` adds the exact
//! arithmetic the engine performs in the wider type: widening and narrowing
//! conversions, addition, subtraction, multiplication, truncating division,
//! and the construction-time range check for a window depth.

use crate::math::trunc_div;
use vstd::prelude::*;

verus! {

/// An integer type usable as a moving-average sample or accumulator.
pub trait Sample: Sized + Copy {
    /// The mathematical value of this sample.
    spec fn as_int(self) -> int;

    /// The smallest representable value.
    spec fn min_value() -> int;

    /// The largest representable value.
    spec fn max_value() -> int;

    /// The storage width in bytes.
    spec fn width() -> nat;

    /// Every value is within the representable range.
    proof fn lemma_in_range(self)
        ensures
            Self::min_value() <= self.as_int() <= Self::max_value(),
    ;

    /// The representable range of an integer type surrounds zero and
    /// reaches at least one.
    proof fn lemma_range_shape()
        ensures
            Self::min_value() <= 0,
            Self::max_value() >= 1,
            Self::width() >= 1,
    ;

    /// The storage width, as a runtime value.
    fn width_exec() -> (w: usize)
        ensures
            w as nat == Self::width(),
    ;
}

/// A wider integer type in which the engine accumulates sums of samples
/// of type `T`. All operations are exact: each states the mathematical
/// value of its result, and each partial operation requires the result to
/// be representable.
pub trait Accumulator<T: Sample>: Sample {
    /// Widening conversion from the sample type; always exact.
    fn widen(v: T) -> (r: Self)
        ensures
            r.as_int() == v.as_int(),
    ;

    /// Narrowing conversion back to the sample type, for values within
    /// the sample type's range.
    fn narrow(self) -> (r: T)
        requires
            T::min_value() <= self.as_int() <= T::max_value(),
        ensures
            r.as_int() == self.as_int(),
    ;

    /// Exact addition.
    fn plus(self, rhs: Self) -> (r: Self)
        requires
            Self::min_value() <= self.as_int() + rhs.as_int() <= Self::max_value(),
        ensures
            r.as_int() == self.as_int() + rhs.as_int(),
    ;

    /// Exact subtraction.
    fn minus(self, rhs: Self) -> (r: Self)
        requires
            Self::min_value() <= self.as_int() - rhs.as_int() <= Self::max_value(),
        ensures
            r.as_int() == self.as_int() - rhs.as_int(),
    ;

    /// Exact multiplication.
    fn times(self, rhs: Self) -> (r: Self)
        requires
            Self::min_value() <= self.as_int() * rhs.as_int() <= Self::max_value(),
        ensures
            r.as_int() == self.as_int() * rhs.as_int(),
    ;

    /// Division by a positive divisor, truncating toward zero as Rust's
    /// `/` does.
    fn div_trunc(self, rhs: Self) -> (r: Self)
        requires
            1 <= rhs.as_int(),
        ensures
            r.as_int() == trunc_div(self.as_int(), rhs.as_int()),
    ;

    /// The window depth as an accumulator value.
    fn from_depth(n: usize) -> (r: Self)
        requires
            n as int <= Self::max_value(),
        ensures
            r.as_int() == n as int,
    ;

    /// Whether every sum of `n` samples of type `T` is representable in
    /// this accumulator type, i.e. whether `n * max(T)` and `n * min(T)`
    /// both fit its range.
    fn depth_fits(n: usize) -> (b: bool)
        ensures
            b <==> ((n as int) * T::max_value() <= Self::max_value()
                && Self::min_value() <= (n as int) * T::min_value()),
    ;
}

impl Sample for u8 {
    open spec fn as_int(self) -> int {
        self as int
    }

    open spec fn min_value() -> int {
        0
    }

    open spec fn max_value() -> int {
        0xff
    }

    open spec fn width() -> nat {
        1
    }

    proof fn lemma_in_range(self) {
    }

    proof fn lemma_range_shape() {
    }

    fn width_exec() -> (w: usize) {
        1
    }
}

impl Sample for u16 {
    open spec fn as_int(self) -> int {
        self as int
    }

    open spec fn min_value() -> int {
        0
    }

    open spec fn max_value() -> int {
        0xffff
    }

    open spec fn width() -> nat {
        2
    }

    proof fn lemma_in_range(self) {
    }

    proof fn lemma_range_shape() {
    }

    fn width_exec() -> (w: usize) {
        2
    }
}

impl Sample for u32 {
    open spec fn as_int(self) -> int {
        self as int
    }

    open spec fn min_value() -> int {
        0
    }

    open spec fn max_value() -> int {
        0xffff_ffff
    }

    open spec fn width() -> nat {
        4
    }

    proof fn lemma_in_range(self) {
    }

    proof fn lemma_range_shape() {
    }

    fn width_exec() -> (w: usize) {
        4
    }
}

impl Sample for u64 {
    open spec fn as_int(self) -> int {
        self as int
    }

    open spec fn min_value() -> int {
        0
    }

    open spec fn max_value() -> int {
        0xffff_ffff_ffff_ffff
    }

    open spec fn width() -> nat {
        8
    }

    proof fn lemma_in_range(self) {
    }

    proof fn lemma_range_shape() {
    }

    fn width_exec() -> (w: usize) {
        8
    }
}

impl Sample for i8 {
    open spec fn as_int(self) -> int {
        self as int
    }

    open spec fn min_value() -> int {
        -0x80
    }

    open spec fn max_value() -> int {
        0x7f
    }

    open spec fn width() -> nat {
        1
    }

    proof fn lemma_in_range(self) {
    }

    proof fn lemma_range_shape() {
    }

    fn width_exec() -> (w: usize) {
        1
    }
}

impl Sample for i16 {
    open spec fn as_int(self) -> int {
        self as int
    }

    open spec fn min_value() -> int {
        -0x8000
    }

    open spec fn max_value() -> int {
        0x7fff
    }

    open spec fn width() -> nat {
        2
    }

    proof fn lemma_in_range(self) {
    }

    proof fn lemma_range_shape() {
    }

    fn width_exec() -> (w: usize) {
        2
    }
}

impl Sample for i32 {
    open spec fn as_int(self) -> int {
        self as int
    }

    open spec fn min_value() -> int {
        -0x8000_0000
    }

    open spec fn max_value() -> int {
        0x7fff_ffff
    }

    open spec fn width() -> nat {
        4
    }

    proof fn lemma_in_range(self) {
    }

    proof fn lemma_range_shape() {
    }

    fn width_exec() -> (w: usize) {
        4
    }
}

impl Sample for i64 {
    open spec fn as_int(self) -> int {
        self as int
    }

    open spec fn min_value() -> int {
        -0x8000_0000_0000_0000
    }

    open spec fn max_value() -> int {
        0x7fff_ffff_ffff_ffff
    }

    open spec fn width() -> nat {
        8
    }

    proof fn lemma_in_range(self) {
    }

    proof fn lemma_range_shape() {
    }

    fn width_exec() -> (w: usize) {
        8
    }
}

impl Accumulator<u8> for u16 {
    fn widen(v: u8) -> (r: Self) {
        v as u16
    }

    fn narrow(self) -> (r: u8) {
        self as u8
    }

    fn plus(self, rhs: Self) -> (r: Self) {
        self + rhs
    }

    fn minus(self, rhs: Self) -> (r: Self) {
        self - rhs
    }

    fn times(self, rhs: Self) -> (r: Self) {
        self * rhs
    }

    fn div_trunc(self, rhs: Self) -> (r: Self) {
        self / rhs
    }

    fn from_depth(n: usize) -> (r: Self) {
        n as u16
    }

    fn depth_fits(n: usize) -> (b: bool) {
        // 257 * 0xff == 0xffff exactly.
        n <= 257
    }
}

impl Accumulator<u16> for u32 {
    fn widen(v: u16) -> (r: Self) {
        v as u32
    }

    fn narrow(self) -> (r: u16) {
        self as u16
    }

    fn plus(self, rhs: Self) -> (r: Self) {
        self + rhs
    }

    fn minus(self, rhs: Self) -> (r: Self) {
        self - rhs
    }

    fn times(self, rhs: Self) -> (r: Self) {
        self * rhs
    }

    fn div_trunc(self, rhs: Self) -> (r: Self) {
        self / rhs
    }

    fn from_depth(n: usize) -> (r: Self) {
        n as u32
    }

    fn depth_fits(n: usize) -> (b: bool) {
        // 65537 * 0xffff == 0xffff_ffff exactly.
        n <= 65537
    }
}

impl Accumulator<u32> for u64 {
    fn widen(v: u32) -> (r: Self) {
        v as u64
    }

    fn narrow(self) -> (r: u32) {
        self as u32
    }

    fn plus(self, rhs: Self) -> (r: Self) {
        self + rhs
    }

    fn minus(self, rhs: Self) -> (r: Self) {
        self - rhs
    }

    fn times(self, rhs: Self) -> (r: Self) {
        self * rhs
    }

    fn div_trunc(self, rhs: Self) -> (r: Self) {
        self / rhs
    }

    fn from_depth(n: usize) -> (r: Self) {
        n as u64
    }

    fn depth_fits(n: usize) -> (b: bool) {
        // 4294967297 * 0xffff_ffff == 0xffff_ffff_ffff_ffff exactly.
        (n as u64) <= 4294967297
    }
}

/// An accumulator no wider than its sample type: every construction with
/// this pairing is rejected, which makes the rejection observable.
impl Accumulator<u32> for u32 {
    fn widen(v: u32) -> (r: Self) {
        v
    }

    fn narrow(self) -> (r: u32) {
        self
    }

    fn plus(self, rhs: Self) -> (r: Self) {
        self + rhs
    }

    fn minus(self, rhs: Self) -> (r: Self) {
        self - rhs
    }

    fn times(self, rhs: Self) -> (r: Self) {
        self * rhs
    }

    fn div_trunc(self, rhs: Self) -> (r: Self) {
        self / rhs
    }

    fn from_depth(n: usize) -> (r: Self) {
        n as u32
    }

    fn depth_fits(n: usize) -> (b: bool) {
        // With max(T) == max(TCALC), only a single-sample window fits.
        n <= 1
    }
}

impl Accumulator<i8> for i16 {
    fn widen(v: i8) -> (r: Self) {
        v as i16
    }

    fn narrow(self) -> (r: i8) {
        self as i8
    }

    fn plus(self, rhs: Self) -> (r: Self) {
        self + rhs
    }

    fn minus(self, rhs: Self) -> (r: Self) {
        self - rhs
    }

    fn times(self, rhs: Self) -> (r: Self) {
        self * rhs
    }

    fn div_trunc(self, rhs: Self) -> (r: Self) {
        self / rhs
    }

    fn from_depth(n: usize) -> (r: Self) {
        n as i16
    }

    fn depth_fits(n: usize) -> (b: bool) {
        // The minimum binds first: 256 * -0x80 == -0x8000 exactly,
        // while 258 * 0x7f would still fit the maximum.
        n <= 256
    }
}

impl Accumulator<i16> for i32 {
    fn widen(v: i16) -> (r: Self) {
        v as i32
    }

    fn narrow(self) -> (r: i16) {
        self as i16
    }

    fn plus(self, rhs: Self) -> (r: Self) {
        self + rhs
    }

    fn minus(self, rhs: Self) -> (r: Self) {
        self - rhs
    }

    fn times(self, rhs: Self) -> (r: Self) {
        self * rhs
    }

    fn div_trunc(self, rhs: Self) -> (r: Self) {
        self / rhs
    }

    fn from_depth(n: usize) -> (r: Self) {
        n as i32
    }

    fn depth_fits(n: usize) -> (b: bool) {
        // The minimum binds first: 65536 * -0x8000 == -0x8000_0000 exactly.
        n <= 65536
    }
}

impl Accumulator<i32> for i64 {
    fn widen(v: i32) -> (r: Self) {
        v as i64
    }

    fn narrow(self) -> (r: i32) {
        self as i32
    }

    fn plus(self, rhs: Self) -> (r: Self) {
        self + rhs
    }

    fn minus(self, rhs: Self) -> (r: Self) {
        self - rhs
    }

    fn times(self, rhs: Self) -> (r: Self) {
        self * rhs
    }

    fn div_trunc(self, rhs: Self) -> (r: Self) {
        self / rhs
    }

    fn from_depth(n: usize) -> (r: Self) {
        n as i64
    }

    fn depth_fits(n: usize) -> (b: bool) {
        // The minimum binds first: 4294967296 * -0x8000_0000 is exactly
        // the least i64.
        (n as u64) <= 4294967296
    }
}

} // verus!
