//! Resource units: the numeric types a budget is counted in.

use vstd::prelude::*;

verus! {

/// The integers that a value of type `T` can hold.
pub open spec fn representable<T: ResourceUnit>(v: int) -> bool {
    T::lowest() <= v <= T::highest()
}

/// A measurable resource unit.
///
/// Every unit has a mathematical value (`value`), an integer between
/// `lowest()` and `highest()`; two units with the same value are equal.
pub trait ResourceUnit: Copy + Clone + core::fmt::Debug + PartialOrd + PartialEq + Sized {
    /// The mathematical value of this unit.
    spec fn value(&self) -> int;

    /// The smallest value the type can hold.
    spec fn lowest() -> int;

    /// The largest value the type can hold.
    spec fn highest() -> int;

    /// Every unit lies in the type's range, and the value determines the unit.
    proof fn lemma_value(a: Self, b: Self)
        ensures
            Self::lowest() <= a.value() <= Self::highest(),
            Self::lowest() <= 0 < Self::highest(),
            a.value() == b.value() ==> a == b,
    ;

    /// The zero/empty value of this resource.
    fn zero() -> (r: Self)
        ensures
            r.value() == 0,
    ;

    /// Compute remaining after consuming `consumed` units.
    ///
    /// Returns `None` when consumption exceeds the total (overdraft), or
    /// when the difference `self - consumed` is too large for the type to
    /// hold (possible only for signed types, with negative consumption).
    /// Otherwise returns `Some(self - consumed)`.
    fn remaining(&self, consumed: &Self) -> (r: Option<Self>)
        ensures
            match r {
                Some(v) => consumed.value() <= self.value()
                    && self.value() - consumed.value() <= Self::highest()
                    && v.value() == self.value() - consumed.value(),
                None => consumed.value() > self.value()
                    || self.value() - consumed.value() > Self::highest(),
            },
    ;

    /// An estimate of "max" for projection purposes: the unit itself.
    fn partial_max(&self) -> (r: Option<Self>)
        ensures
            r == Some(*self),
    ;

    /// `self + other`, clamped to the type's range.
    fn saturating_plus(&self, other: &Self) -> (r: Self)
        ensures
            r.value() == (if self.value() + other.value() < Self::lowest() {
                Self::lowest()
            } else if self.value() + other.value() > Self::highest() {
                Self::highest()
            } else {
                self.value() + other.value()
            }),
    ;

    /// Whether `self <= other`.
    fn at_most(&self, other: &Self) -> (r: bool)
        ensures
            r == (self.value() <= other.value()),
    ;

    /// The value if it is positive, else zero, as a `u128`.
    fn positive_part(&self) -> (r: u128)
        ensures
            r == (if self.value() > 0 { self.value() } else { 0 }),
    ;
}

/// `v` clamped to the range of `T`.
pub open spec fn clamp_to<T: ResourceUnit>(v: int) -> int {
    if v < T::lowest() {
        T::lowest()
    } else if v > T::highest() {
        T::highest()
    } else {
        v
    }
}

impl ResourceUnit for u8 {
    open spec fn value(&self) -> int {
        *self as int
    }

    open spec fn lowest() -> int {
        0
    }

    open spec fn highest() -> int {
        u8::MAX as int
    }

    proof fn lemma_value(a: Self, b: Self) {
    }

    fn zero() -> (r: Self) {
        0
    }

    fn remaining(&self, consumed: &Self) -> (r: Option<Self>) {
        self.checked_sub(*consumed)
    }

    fn partial_max(&self) -> (r: Option<Self>) {
        Some(*self)
    }

    fn saturating_plus(&self, other: &Self) -> (r: Self) {
        self.saturating_add(*other)
    }

    fn at_most(&self, other: &Self) -> (r: bool) {
        *self <= *other
    }

    fn positive_part(&self) -> (r: u128) {
        *self as u128
    }
}

impl ResourceUnit for u16 {
    open spec fn value(&self) -> int {
        *self as int
    }

    open spec fn lowest() -> int {
        0
    }

    open spec fn highest() -> int {
        u16::MAX as int
    }

    proof fn lemma_value(a: Self, b: Self) {
    }

    fn zero() -> (r: Self) {
        0
    }

    fn remaining(&self, consumed: &Self) -> (r: Option<Self>) {
        self.checked_sub(*consumed)
    }

    fn partial_max(&self) -> (r: Option<Self>) {
        Some(*self)
    }

    fn saturating_plus(&self, other: &Self) -> (r: Self) {
        self.saturating_add(*other)
    }

    fn at_most(&self, other: &Self) -> (r: bool) {
        *self <= *other
    }

    fn positive_part(&self) -> (r: u128) {
        *self as u128
    }
}

impl ResourceUnit for u32 {
    open spec fn value(&self) -> int {
        *self as int
    }

    open spec fn lowest() -> int {
        0
    }

    open spec fn highest() -> int {
        u32::MAX as int
    }

    proof fn lemma_value(a: Self, b: Self) {
    }

    fn zero() -> (r: Self) {
        0
    }

    fn remaining(&self, consumed: &Self) -> (r: Option<Self>) {
        self.checked_sub(*consumed)
    }

    fn partial_max(&self) -> (r: Option<Self>) {
        Some(*self)
    }

    fn saturating_plus(&self, other: &Self) -> (r: Self) {
        self.saturating_add(*other)
    }

    fn at_most(&self, other: &Self) -> (r: bool) {
        *self <= *other
    }

    fn positive_part(&self) -> (r: u128) {
        *self as u128
    }
}

impl ResourceUnit for u64 {
    open spec fn value(&self) -> int {
        *self as int
    }

    open spec fn lowest() -> int {
        0
    }

    open spec fn highest() -> int {
        u64::MAX as int
    }

    proof fn lemma_value(a: Self, b: Self) {
    }

    fn zero() -> (r: Self) {
        0
    }

    fn remaining(&self, consumed: &Self) -> (r: Option<Self>) {
        self.checked_sub(*consumed)
    }

    fn partial_max(&self) -> (r: Option<Self>) {
        Some(*self)
    }

    fn saturating_plus(&self, other: &Self) -> (r: Self) {
        self.saturating_add(*other)
    }

    fn at_most(&self, other: &Self) -> (r: bool) {
        *self <= *other
    }

    fn positive_part(&self) -> (r: u128) {
        *self as u128
    }
}

impl ResourceUnit for u128 {
    open spec fn value(&self) -> int {
        *self as int
    }

    open spec fn lowest() -> int {
        0
    }

    open spec fn highest() -> int {
        u128::MAX as int
    }

    proof fn lemma_value(a: Self, b: Self) {
    }

    fn zero() -> (r: Self) {
        0
    }

    fn remaining(&self, consumed: &Self) -> (r: Option<Self>) {
        self.checked_sub(*consumed)
    }

    fn partial_max(&self) -> (r: Option<Self>) {
        Some(*self)
    }

    fn saturating_plus(&self, other: &Self) -> (r: Self) {
        self.saturating_add(*other)
    }

    fn at_most(&self, other: &Self) -> (r: bool) {
        *self <= *other
    }

    fn positive_part(&self) -> (r: u128) {
        *self as u128
    }
}

impl ResourceUnit for usize {
    open spec fn value(&self) -> int {
        *self as int
    }

    open spec fn lowest() -> int {
        0
    }

    open spec fn highest() -> int {
        usize::MAX as int
    }

    proof fn lemma_value(a: Self, b: Self) {
    }

    fn zero() -> (r: Self) {
        0
    }

    fn remaining(&self, consumed: &Self) -> (r: Option<Self>) {
        self.checked_sub(*consumed)
    }

    fn partial_max(&self) -> (r: Option<Self>) {
        Some(*self)
    }

    fn saturating_plus(&self, other: &Self) -> (r: Self) {
        self.saturating_add(*other)
    }

    fn at_most(&self, other: &Self) -> (r: bool) {
        *self <= *other
    }

    fn positive_part(&self) -> (r: u128) {
        *self as u128
    }
}

impl ResourceUnit for i8 {
    open spec fn value(&self) -> int {
        *self as int
    }

    open spec fn lowest() -> int {
        i8::MIN as int
    }

    open spec fn highest() -> int {
        i8::MAX as int
    }

    proof fn lemma_value(a: Self, b: Self) {
    }

    fn zero() -> (r: Self) {
        0
    }

    fn remaining(&self, consumed: &Self) -> (r: Option<Self>) {
        if *consumed > *self {
            None
        } else {
            self.checked_sub(*consumed)
        }
    }

    fn partial_max(&self) -> (r: Option<Self>) {
        Some(*self)
    }

    fn saturating_plus(&self, other: &Self) -> (r: Self) {
        match self.checked_add(*other) {
            Some(sum) => sum,
            None => if *other > 0 {
                i8::MAX
            } else {
                i8::MIN
            },
        }
    }

    fn at_most(&self, other: &Self) -> (r: bool) {
        *self <= *other
    }

    fn positive_part(&self) -> (r: u128) {
        if *self > 0 {
            *self as u128
        } else {
            0
        }
    }
}

impl ResourceUnit for i16 {
    open spec fn value(&self) -> int {
        *self as int
    }

    open spec fn lowest() -> int {
        i16::MIN as int
    }

    open spec fn highest() -> int {
        i16::MAX as int
    }

    proof fn lemma_value(a: Self, b: Self) {
    }

    fn zero() -> (r: Self) {
        0
    }

    fn remaining(&self, consumed: &Self) -> (r: Option<Self>) {
        if *consumed > *self {
            None
        } else {
            self.checked_sub(*consumed)
        }
    }

    fn partial_max(&self) -> (r: Option<Self>) {
        Some(*self)
    }

    fn saturating_plus(&self, other: &Self) -> (r: Self) {
        match self.checked_add(*other) {
            Some(sum) => sum,
            None => if *other > 0 {
                i16::MAX
            } else {
                i16::MIN
            },
        }
    }

    fn at_most(&self, other: &Self) -> (r: bool) {
        *self <= *other
    }

    fn positive_part(&self) -> (r: u128) {
        if *self > 0 {
            *self as u128
        } else {
            0
        }
    }
}

impl ResourceUnit for i32 {
    open spec fn value(&self) -> int {
        *self as int
    }

    open spec fn lowest() -> int {
        i32::MIN as int
    }

    open spec fn highest() -> int {
        i32::MAX as int
    }

    proof fn lemma_value(a: Self, b: Self) {
    }

    fn zero() -> (r: Self) {
        0
    }

    fn remaining(&self, consumed: &Self) -> (r: Option<Self>) {
        if *consumed > *self {
            None
        } else {
            self.checked_sub(*consumed)
        }
    }

    fn partial_max(&self) -> (r: Option<Self>) {
        Some(*self)
    }

    fn saturating_plus(&self, other: &Self) -> (r: Self) {
        match self.checked_add(*other) {
            Some(sum) => sum,
            None => if *other > 0 {
                i32::MAX
            } else {
                i32::MIN
            },
        }
    }

    fn at_most(&self, other: &Self) -> (r: bool) {
        *self <= *other
    }

    fn positive_part(&self) -> (r: u128) {
        if *self > 0 {
            *self as u128
        } else {
            0
        }
    }
}

impl ResourceUnit for i64 {
    open spec fn value(&self) -> int {
        *self as int
    }

    open spec fn lowest() -> int {
        i64::MIN as int
    }

    open spec fn highest() -> int {
        i64::MAX as int
    }

    proof fn lemma_value(a: Self, b: Self) {
    }

    fn zero() -> (r: Self) {
        0
    }

    fn remaining(&self, consumed: &Self) -> (r: Option<Self>) {
        if *consumed > *self {
            None
        } else {
            self.checked_sub(*consumed)
        }
    }

    fn partial_max(&self) -> (r: Option<Self>) {
        Some(*self)
    }

    fn saturating_plus(&self, other: &Self) -> (r: Self) {
        match self.checked_add(*other) {
            Some(sum) => sum,
            None => if *other > 0 {
                i64::MAX
            } else {
                i64::MIN
            },
        }
    }

    fn at_most(&self, other: &Self) -> (r: bool) {
        *self <= *other
    }

    fn positive_part(&self) -> (r: u128) {
        if *self > 0 {
            *self as u128
        } else {
            0
        }
    }
}

impl ResourceUnit for i128 {
    open spec fn value(&self) -> int {
        *self as int
    }

    open spec fn lowest() -> int {
        i128::MIN as int
    }

    open spec fn highest() -> int {
        i128::MAX as int
    }

    proof fn lemma_value(a: Self, b: Self) {
    }

    fn zero() -> (r: Self) {
        0
    }

    fn remaining(&self, consumed: &Self) -> (r: Option<Self>) {
        if *consumed > *self {
            None
        } else {
            self.checked_sub(*consumed)
        }
    }

    fn partial_max(&self) -> (r: Option<Self>) {
        Some(*self)
    }

    fn saturating_plus(&self, other: &Self) -> (r: Self) {
        match self.checked_add(*other) {
            Some(sum) => sum,
            None => if *other > 0 {
                i128::MAX
            } else {
                i128::MIN
            },
        }
    }

    fn at_most(&self, other: &Self) -> (r: bool) {
        *self <= *other
    }

    fn positive_part(&self) -> (r: u128) {
        if *self > 0 {
            *self as u128
        } else {
            0
        }
    }
}

impl ResourceUnit for isize {
    open spec fn value(&self) -> int {
        *self as int
    }

    open spec fn lowest() -> int {
        isize::MIN as int
    }

    open spec fn highest() -> int {
        isize::MAX as int
    }

    proof fn lemma_value(a: Self, b: Self) {
    }

    fn zero() -> (r: Self) {
        0
    }

    fn remaining(&self, consumed: &Self) -> (r: Option<Self>) {
        if *consumed > *self {
            None
        } else {
            self.checked_sub(*consumed)
        }
    }

    fn partial_max(&self) -> (r: Option<Self>) {
        Some(*self)
    }

    fn saturating_plus(&self, other: &Self) -> (r: Self) {
        match self.checked_add(*other) {
            Some(sum) => sum,
            None => if *other > 0 {
                isize::MAX
            } else {
                isize::MIN
            },
        }
    }

    fn at_most(&self, other: &Self) -> (r: bool) {
        *self <= *other
    }

    fn positive_part(&self) -> (r: u128) {
        if *self > 0 {
            *self as u128
        } else {
            0
        }
    }
}

} // verus!
