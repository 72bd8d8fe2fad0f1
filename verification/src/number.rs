//! The numbers that tasks are made of.

use crate::decimal::{decimal, to_decimal};
use crate::random::draw_inclusive;
use rand::rngs::ThreadRng;
use vstd::prelude::*;

verus! {

/// A number valid in a task producer: a copyable integer type of at most 64 bits.
///
/// Every value stands for a mathematical integer, its `value`, between the type's
/// `lowest` and `highest`. The producers compute in `i128`, where sums and differences
/// of two such values always fit, and come back to the type through `narrow`.
pub trait Number: Copy + Sized {
    /// The integer that `self` stands for.
    spec fn value(self) -> int;

    /// The least integer the type can hold.
    spec fn lowest() -> int;

    /// The greatest integer the type can hold.
    spec fn highest() -> int;

    /// The type holds zero and spans no more than 64 bits on either side of it.
    proof fn limits()
        ensures
            -0x1_0000_0000_0000_0000 <= Self::lowest() <= 0 <= Self::highest()
                <= 0x1_0000_0000_0000_0000,
    ;

    /// Every value lies within the type's limits.
    proof fn within_limits(self)
        ensures
            Self::lowest() <= self.value() <= Self::highest(),
    ;

    /// `self` as an `i128`.
    fn widen(self) -> (wide: i128)
        ensures
            wide == self.value(),
    ;

    /// The value of the type that stands for `wide`, where there is one.
    fn narrow(wide: i128) -> (narrowed: Option<Self>)
        ensures
            narrowed is Some <==> Self::lowest() <= wide <= Self::highest(),
            narrowed matches Some(n) ==> n.value() == wide,
    ;
}

/// Zero in the type `T`.
pub fn zero<T: Number>() -> (z: T)
    ensures
        z.value() == 0,
{
    proof {
        T::limits();
    }
    T::narrow(0).unwrap()
}

/// The decimal notation of `n`.
pub fn to_text<T: Number>(n: T) -> (text: String)
    ensures
        text@ == decimal(n.value()),
{
    to_decimal(n.widen())
}

/// Draws a number between `low` and `high`, both included, from `rng`.
///
/// The bounds go to the generator as they are, widened, and what it draws comes back
/// through `narrow`. Which number of the range comes is up to the generator: either
/// bound may come, and two calls may differ, so the range is all that holds of every
/// draw.
pub fn sample<T: Number>(rng: &mut ThreadRng, low: T, high: T) -> (drawn: T)
    requires
        low.value() <= high.value(),
    ensures
        low.value() <= drawn.value() <= high.value(),
{
    let wide = draw_inclusive(rng, low.widen(), high.widen());
    proof {
        low.within_limits();
        high.within_limits();
    }
    T::narrow(wide).unwrap()
}

impl Number for i8 {
    open spec fn value(self) -> int {
        self as int
    }

    open spec fn lowest() -> int {
        i8::MIN as int
    }

    open spec fn highest() -> int {
        i8::MAX as int
    }

    proof fn limits() {
    }

    proof fn within_limits(self) {
    }

    fn widen(self) -> (wide: i128) {
        self as i128
    }

    fn narrow(wide: i128) -> (narrowed: Option<Self>) {
        if i8::MIN as i128 <= wide && wide <= i8::MAX as i128 {
            Some(wide as i8)
        } else {
            None
        }
    }
}

impl Number for i16 {
    open spec fn value(self) -> int {
        self as int
    }

    open spec fn lowest() -> int {
        i16::MIN as int
    }

    open spec fn highest() -> int {
        i16::MAX as int
    }

    proof fn limits() {
    }

    proof fn within_limits(self) {
    }

    fn widen(self) -> (wide: i128) {
        self as i128
    }

    fn narrow(wide: i128) -> (narrowed: Option<Self>) {
        if i16::MIN as i128 <= wide && wide <= i16::MAX as i128 {
            Some(wide as i16)
        } else {
            None
        }
    }
}

impl Number for i32 {
    open spec fn value(self) -> int {
        self as int
    }

    open spec fn lowest() -> int {
        i32::MIN as int
    }

    open spec fn highest() -> int {
        i32::MAX as int
    }

    proof fn limits() {
    }

    proof fn within_limits(self) {
    }

    fn widen(self) -> (wide: i128) {
        self as i128
    }

    fn narrow(wide: i128) -> (narrowed: Option<Self>) {
        if i32::MIN as i128 <= wide && wide <= i32::MAX as i128 {
            Some(wide as i32)
        } else {
            None
        }
    }
}

impl Number for i64 {
    open spec fn value(self) -> int {
        self as int
    }

    open spec fn lowest() -> int {
        i64::MIN as int
    }

    open spec fn highest() -> int {
        i64::MAX as int
    }

    proof fn limits() {
    }

    proof fn within_limits(self) {
    }

    fn widen(self) -> (wide: i128) {
        self as i128
    }

    fn narrow(wide: i128) -> (narrowed: Option<Self>) {
        if i64::MIN as i128 <= wide && wide <= i64::MAX as i128 {
            Some(wide as i64)
        } else {
            None
        }
    }
}

impl Number for isize {
    open spec fn value(self) -> int {
        self as int
    }

    open spec fn lowest() -> int {
        isize::MIN as int
    }

    open spec fn highest() -> int {
        isize::MAX as int
    }

    proof fn limits() {
    }

    proof fn within_limits(self) {
    }

    fn widen(self) -> (wide: i128) {
        self as i128
    }

    fn narrow(wide: i128) -> (narrowed: Option<Self>) {
        if isize::MIN as i128 <= wide && wide <= isize::MAX as i128 {
            Some(wide as isize)
        } else {
            None
        }
    }
}

impl Number for u8 {
    open spec fn value(self) -> int {
        self as int
    }

    open spec fn lowest() -> int {
        0
    }

    open spec fn highest() -> int {
        u8::MAX as int
    }

    proof fn limits() {
    }

    proof fn within_limits(self) {
    }

    fn widen(self) -> (wide: i128) {
        self as i128
    }

    fn narrow(wide: i128) -> (narrowed: Option<Self>) {
        if 0 <= wide && wide <= u8::MAX as i128 {
            Some(wide as u8)
        } else {
            None
        }
    }
}

impl Number for u16 {
    open spec fn value(self) -> int {
        self as int
    }

    open spec fn lowest() -> int {
        0
    }

    open spec fn highest() -> int {
        u16::MAX as int
    }

    proof fn limits() {
    }

    proof fn within_limits(self) {
    }

    fn widen(self) -> (wide: i128) {
        self as i128
    }

    fn narrow(wide: i128) -> (narrowed: Option<Self>) {
        if 0 <= wide && wide <= u16::MAX as i128 {
            Some(wide as u16)
        } else {
            None
        }
    }
}

impl Number for u32 {
    open spec fn value(self) -> int {
        self as int
    }

    open spec fn lowest() -> int {
        0
    }

    open spec fn highest() -> int {
        u32::MAX as int
    }

    proof fn limits() {
    }

    proof fn within_limits(self) {
    }

    fn widen(self) -> (wide: i128) {
        self as i128
    }

    fn narrow(wide: i128) -> (narrowed: Option<Self>) {
        if 0 <= wide && wide <= u32::MAX as i128 {
            Some(wide as u32)
        } else {
            None
        }
    }
}

impl Number for u64 {
    open spec fn value(self) -> int {
        self as int
    }

    open spec fn lowest() -> int {
        0
    }

    open spec fn highest() -> int {
        u64::MAX as int
    }

    proof fn limits() {
    }

    proof fn within_limits(self) {
    }

    fn widen(self) -> (wide: i128) {
        self as i128
    }

    fn narrow(wide: i128) -> (narrowed: Option<Self>) {
        if 0 <= wide && wide <= u64::MAX as i128 {
            Some(wide as u64)
        } else {
            None
        }
    }
}

impl Number for usize {
    open spec fn value(self) -> int {
        self as int
    }

    open spec fn lowest() -> int {
        0
    }

    open spec fn highest() -> int {
        usize::MAX as int
    }

    proof fn limits() {
    }

    proof fn within_limits(self) {
    }

    fn widen(self) -> (wide: i128) {
        self as i128
    }

    fn narrow(wide: i128) -> (narrowed: Option<Self>) {
        if 0 <= wide && wide <= usize::MAX as i128 {
            Some(wide as usize)
        } else {
            None
        }
    }
}

} // verus!
