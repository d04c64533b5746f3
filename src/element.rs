use vstd::prelude::*;
use crate::text::{decimal, decimal_text};

verus! {

/// What a type must offer to be stored in a `Matrix`.
///
/// Each operation is given by a spec function (`zero`, `add`, `sub`, `mul`,
/// `div`) and an executable counterpart that computes exactly that value.
/// The proof functions are the algebraic facts the matrix algorithms rely on;
/// every implementation proves them for its own arithmetic.
pub trait MatrixElement: Copy + Sized {
    /// The additive identity (the element's default value).
    spec fn zero() -> Self;

    spec fn add(a: Self, b: Self) -> Self;

    spec fn sub(a: Self, b: Self) -> Self;

    spec fn mul(a: Self, b: Self) -> Self;

    /// Quotient; only meaningful for a nonzero divisor.
    spec fn div(a: Self, b: Self) -> Self;

    /// How the element is written out.
    spec fn text(a: Self) -> Seq<char>;

    fn to_text(&self) -> (r: String)
        ensures
            r@ == Self::text(*self),
    ;

    fn zero_value() -> (r: Self)
        ensures
            r == Self::zero(),
    ;

    fn add_value(self, other: Self) -> (r: Self)
        ensures
            r == Self::add(self, other),
    ;

    fn sub_value(self, other: Self) -> (r: Self)
        ensures
            r == Self::sub(self, other),
    ;

    fn mul_value(self, other: Self) -> (r: Self)
        ensures
            r == Self::mul(self, other),
    ;

    fn div_value(self, other: Self) -> (r: Self)
        requires
            other != Self::zero(),
        ensures
            r == Self::div(self, other),
    ;

    fn equals(&self, other: &Self) -> (r: bool)
        ensures
            r == (*self == *other),
    ;

    proof fn lemma_add_zero_left(a: Self)
        ensures
            Self::add(Self::zero(), a) == a,
    ;

    proof fn lemma_add_zero_right(a: Self)
        ensures
            Self::add(a, Self::zero()) == a,
    ;

    proof fn lemma_mul_zero_right(a: Self)
        ensures
            Self::mul(a, Self::zero()) == Self::zero(),
    ;
}

/// Two's-complement arithmetic that wraps on overflow; division truncates
/// toward zero and `i8::MIN / -1` wraps to `i8::MIN`.
impl MatrixElement for i8 {
    open spec fn zero() -> i8 {
        0
    }

    open spec fn add(a: i8, b: i8) -> i8 {
        vstd::wrapping::i8_specs::wrapping_add(a, b)
    }

    open spec fn sub(a: i8, b: i8) -> i8 {
        vstd::wrapping::i8_specs::wrapping_sub(a, b)
    }

    open spec fn mul(a: i8, b: i8) -> i8 {
        vstd::wrapping::i8_specs::wrapping_mul(a, b)
    }

    open spec fn div(a: i8, b: i8) -> i8 {
        match a.checked_div(b) {
            Some(q) => q,
            None => vstd::wrapping::i8_specs::wrapping_sub(0, a),
        }
    }

    open spec fn text(a: i8) -> Seq<char> {
        decimal(a as int)
    }

    fn to_text(&self) -> (r: String) {
        let v = *self as i128;
        if v < 0 {
            decimal_text(true, (-(v + 1)) as u128 + 1)
        } else {
            decimal_text(false, v as u128)
        }
    }

    fn zero_value() -> (r: i8) {
        0
    }

    fn add_value(self, other: i8) -> (r: i8) {
        self.wrapping_add(other)
    }

    fn sub_value(self, other: i8) -> (r: i8) {
        self.wrapping_sub(other)
    }

    fn mul_value(self, other: i8) -> (r: i8) {
        self.wrapping_mul(other)
    }

    fn div_value(self, other: i8) -> (r: i8) {
        match self.checked_div(other) {
            Some(q) => q,
            None => 0i8.wrapping_sub(self),
        }
    }

    fn equals(&self, other: &i8) -> (r: bool) {
        *self == *other
    }

    proof fn lemma_add_zero_left(a: i8) {
    }

    proof fn lemma_add_zero_right(a: i8) {
    }

    proof fn lemma_mul_zero_right(a: i8) {
    }
}

/// Two's-complement arithmetic that wraps on overflow; division truncates
/// toward zero and `i16::MIN / -1` wraps to `i16::MIN`.
impl MatrixElement for i16 {
    open spec fn zero() -> i16 {
        0
    }

    open spec fn add(a: i16, b: i16) -> i16 {
        vstd::wrapping::i16_specs::wrapping_add(a, b)
    }

    open spec fn sub(a: i16, b: i16) -> i16 {
        vstd::wrapping::i16_specs::wrapping_sub(a, b)
    }

    open spec fn mul(a: i16, b: i16) -> i16 {
        vstd::wrapping::i16_specs::wrapping_mul(a, b)
    }

    open spec fn div(a: i16, b: i16) -> i16 {
        match a.checked_div(b) {
            Some(q) => q,
            None => vstd::wrapping::i16_specs::wrapping_sub(0, a),
        }
    }

    open spec fn text(a: i16) -> Seq<char> {
        decimal(a as int)
    }

    fn to_text(&self) -> (r: String) {
        let v = *self as i128;
        if v < 0 {
            decimal_text(true, (-(v + 1)) as u128 + 1)
        } else {
            decimal_text(false, v as u128)
        }
    }

    fn zero_value() -> (r: i16) {
        0
    }

    fn add_value(self, other: i16) -> (r: i16) {
        self.wrapping_add(other)
    }

    fn sub_value(self, other: i16) -> (r: i16) {
        self.wrapping_sub(other)
    }

    fn mul_value(self, other: i16) -> (r: i16) {
        self.wrapping_mul(other)
    }

    fn div_value(self, other: i16) -> (r: i16) {
        match self.checked_div(other) {
            Some(q) => q,
            None => 0i16.wrapping_sub(self),
        }
    }

    fn equals(&self, other: &i16) -> (r: bool) {
        *self == *other
    }

    proof fn lemma_add_zero_left(a: i16) {
    }

    proof fn lemma_add_zero_right(a: i16) {
    }

    proof fn lemma_mul_zero_right(a: i16) {
    }
}

/// Two's-complement arithmetic that wraps on overflow; division truncates
/// toward zero and `i32::MIN / -1` wraps to `i32::MIN`.
impl MatrixElement for i32 {
    open spec fn zero() -> i32 {
        0
    }

    open spec fn add(a: i32, b: i32) -> i32 {
        vstd::wrapping::i32_specs::wrapping_add(a, b)
    }

    open spec fn sub(a: i32, b: i32) -> i32 {
        vstd::wrapping::i32_specs::wrapping_sub(a, b)
    }

    open spec fn mul(a: i32, b: i32) -> i32 {
        vstd::wrapping::i32_specs::wrapping_mul(a, b)
    }

    open spec fn div(a: i32, b: i32) -> i32 {
        match a.checked_div(b) {
            Some(q) => q,
            None => vstd::wrapping::i32_specs::wrapping_sub(0, a),
        }
    }

    open spec fn text(a: i32) -> Seq<char> {
        decimal(a as int)
    }

    fn to_text(&self) -> (r: String) {
        let v = *self as i128;
        if v < 0 {
            decimal_text(true, (-(v + 1)) as u128 + 1)
        } else {
            decimal_text(false, v as u128)
        }
    }

    fn zero_value() -> (r: i32) {
        0
    }

    fn add_value(self, other: i32) -> (r: i32) {
        self.wrapping_add(other)
    }

    fn sub_value(self, other: i32) -> (r: i32) {
        self.wrapping_sub(other)
    }

    fn mul_value(self, other: i32) -> (r: i32) {
        self.wrapping_mul(other)
    }

    fn div_value(self, other: i32) -> (r: i32) {
        match self.checked_div(other) {
            Some(q) => q,
            None => 0i32.wrapping_sub(self),
        }
    }

    fn equals(&self, other: &i32) -> (r: bool) {
        *self == *other
    }

    proof fn lemma_add_zero_left(a: i32) {
    }

    proof fn lemma_add_zero_right(a: i32) {
    }

    proof fn lemma_mul_zero_right(a: i32) {
    }
}

/// Two's-complement arithmetic that wraps on overflow; division truncates
/// toward zero and `i64::MIN / -1` wraps to `i64::MIN`.
impl MatrixElement for i64 {
    open spec fn zero() -> i64 {
        0
    }

    open spec fn add(a: i64, b: i64) -> i64 {
        vstd::wrapping::i64_specs::wrapping_add(a, b)
    }

    open spec fn sub(a: i64, b: i64) -> i64 {
        vstd::wrapping::i64_specs::wrapping_sub(a, b)
    }

    open spec fn mul(a: i64, b: i64) -> i64 {
        vstd::wrapping::i64_specs::wrapping_mul(a, b)
    }

    open spec fn div(a: i64, b: i64) -> i64 {
        match a.checked_div(b) {
            Some(q) => q,
            None => vstd::wrapping::i64_specs::wrapping_sub(0, a),
        }
    }

    open spec fn text(a: i64) -> Seq<char> {
        decimal(a as int)
    }

    fn to_text(&self) -> (r: String) {
        let v = *self as i128;
        if v < 0 {
            decimal_text(true, (-(v + 1)) as u128 + 1)
        } else {
            decimal_text(false, v as u128)
        }
    }

    fn zero_value() -> (r: i64) {
        0
    }

    fn add_value(self, other: i64) -> (r: i64) {
        self.wrapping_add(other)
    }

    fn sub_value(self, other: i64) -> (r: i64) {
        self.wrapping_sub(other)
    }

    fn mul_value(self, other: i64) -> (r: i64) {
        self.wrapping_mul(other)
    }

    fn div_value(self, other: i64) -> (r: i64) {
        match self.checked_div(other) {
            Some(q) => q,
            None => 0i64.wrapping_sub(self),
        }
    }

    fn equals(&self, other: &i64) -> (r: bool) {
        *self == *other
    }

    proof fn lemma_add_zero_left(a: i64) {
    }

    proof fn lemma_add_zero_right(a: i64) {
    }

    proof fn lemma_mul_zero_right(a: i64) {
    }
}

/// Two's-complement arithmetic that wraps on overflow; division truncates
/// toward zero and `i128::MIN / -1` wraps to `i128::MIN`.
impl MatrixElement for i128 {
    open spec fn zero() -> i128 {
        0
    }

    open spec fn add(a: i128, b: i128) -> i128 {
        vstd::wrapping::i128_specs::wrapping_add(a, b)
    }

    open spec fn sub(a: i128, b: i128) -> i128 {
        vstd::wrapping::i128_specs::wrapping_sub(a, b)
    }

    open spec fn mul(a: i128, b: i128) -> i128 {
        vstd::wrapping::i128_specs::wrapping_mul(a, b)
    }

    open spec fn div(a: i128, b: i128) -> i128 {
        match a.checked_div(b) {
            Some(q) => q,
            None => vstd::wrapping::i128_specs::wrapping_sub(0, a),
        }
    }

    open spec fn text(a: i128) -> Seq<char> {
        decimal(a as int)
    }

    fn to_text(&self) -> (r: String) {
        let v = *self as i128;
        if v < 0 {
            decimal_text(true, (-(v + 1)) as u128 + 1)
        } else {
            decimal_text(false, v as u128)
        }
    }

    fn zero_value() -> (r: i128) {
        0
    }

    fn add_value(self, other: i128) -> (r: i128) {
        self.wrapping_add(other)
    }

    fn sub_value(self, other: i128) -> (r: i128) {
        self.wrapping_sub(other)
    }

    fn mul_value(self, other: i128) -> (r: i128) {
        self.wrapping_mul(other)
    }

    fn div_value(self, other: i128) -> (r: i128) {
        match self.checked_div(other) {
            Some(q) => q,
            None => 0i128.wrapping_sub(self),
        }
    }

    fn equals(&self, other: &i128) -> (r: bool) {
        *self == *other
    }

    proof fn lemma_add_zero_left(a: i128) {
    }

    proof fn lemma_add_zero_right(a: i128) {
    }

    proof fn lemma_mul_zero_right(a: i128) {
    }
}

/// Arithmetic modulo 2^N that wraps on overflow; division truncates.
impl MatrixElement for u8 {
    open spec fn zero() -> u8 {
        0
    }

    open spec fn add(a: u8, b: u8) -> u8 {
        vstd::wrapping::u8_specs::wrapping_add(a, b)
    }

    open spec fn sub(a: u8, b: u8) -> u8 {
        vstd::wrapping::u8_specs::wrapping_sub(a, b)
    }

    open spec fn mul(a: u8, b: u8) -> u8 {
        vstd::wrapping::u8_specs::wrapping_mul(a, b)
    }

    open spec fn div(a: u8, b: u8) -> u8 {
        a / b
    }

    open spec fn text(a: u8) -> Seq<char> {
        decimal(a as int)
    }

    fn to_text(&self) -> (r: String) {
        decimal_text(false, *self as u128)
    }

    fn zero_value() -> (r: u8) {
        0
    }

    fn add_value(self, other: u8) -> (r: u8) {
        self.wrapping_add(other)
    }

    fn sub_value(self, other: u8) -> (r: u8) {
        self.wrapping_sub(other)
    }

    fn mul_value(self, other: u8) -> (r: u8) {
        self.wrapping_mul(other)
    }

    fn div_value(self, other: u8) -> (r: u8) {
        self / other
    }

    fn equals(&self, other: &u8) -> (r: bool) {
        *self == *other
    }

    proof fn lemma_add_zero_left(a: u8) {
    }

    proof fn lemma_add_zero_right(a: u8) {
    }

    proof fn lemma_mul_zero_right(a: u8) {
    }
}

/// Arithmetic modulo 2^N that wraps on overflow; division truncates.
impl MatrixElement for u16 {
    open spec fn zero() -> u16 {
        0
    }

    open spec fn add(a: u16, b: u16) -> u16 {
        vstd::wrapping::u16_specs::wrapping_add(a, b)
    }

    open spec fn sub(a: u16, b: u16) -> u16 {
        vstd::wrapping::u16_specs::wrapping_sub(a, b)
    }

    open spec fn mul(a: u16, b: u16) -> u16 {
        vstd::wrapping::u16_specs::wrapping_mul(a, b)
    }

    open spec fn div(a: u16, b: u16) -> u16 {
        a / b
    }

    open spec fn text(a: u16) -> Seq<char> {
        decimal(a as int)
    }

    fn to_text(&self) -> (r: String) {
        decimal_text(false, *self as u128)
    }

    fn zero_value() -> (r: u16) {
        0
    }

    fn add_value(self, other: u16) -> (r: u16) {
        self.wrapping_add(other)
    }

    fn sub_value(self, other: u16) -> (r: u16) {
        self.wrapping_sub(other)
    }

    fn mul_value(self, other: u16) -> (r: u16) {
        self.wrapping_mul(other)
    }

    fn div_value(self, other: u16) -> (r: u16) {
        self / other
    }

    fn equals(&self, other: &u16) -> (r: bool) {
        *self == *other
    }

    proof fn lemma_add_zero_left(a: u16) {
    }

    proof fn lemma_add_zero_right(a: u16) {
    }

    proof fn lemma_mul_zero_right(a: u16) {
    }
}

/// Arithmetic modulo 2^N that wraps on overflow; division truncates.
impl MatrixElement for u32 {
    open spec fn zero() -> u32 {
        0
    }

    open spec fn add(a: u32, b: u32) -> u32 {
        vstd::wrapping::u32_specs::wrapping_add(a, b)
    }

    open spec fn sub(a: u32, b: u32) -> u32 {
        vstd::wrapping::u32_specs::wrapping_sub(a, b)
    }

    open spec fn mul(a: u32, b: u32) -> u32 {
        vstd::wrapping::u32_specs::wrapping_mul(a, b)
    }

    open spec fn div(a: u32, b: u32) -> u32 {
        a / b
    }

    open spec fn text(a: u32) -> Seq<char> {
        decimal(a as int)
    }

    fn to_text(&self) -> (r: String) {
        decimal_text(false, *self as u128)
    }

    fn zero_value() -> (r: u32) {
        0
    }

    fn add_value(self, other: u32) -> (r: u32) {
        self.wrapping_add(other)
    }

    fn sub_value(self, other: u32) -> (r: u32) {
        self.wrapping_sub(other)
    }

    fn mul_value(self, other: u32) -> (r: u32) {
        self.wrapping_mul(other)
    }

    fn div_value(self, other: u32) -> (r: u32) {
        self / other
    }

    fn equals(&self, other: &u32) -> (r: bool) {
        *self == *other
    }

    proof fn lemma_add_zero_left(a: u32) {
    }

    proof fn lemma_add_zero_right(a: u32) {
    }

    proof fn lemma_mul_zero_right(a: u32) {
    }
}

/// Arithmetic modulo 2^N that wraps on overflow; division truncates.
impl MatrixElement for u64 {
    open spec fn zero() -> u64 {
        0
    }

    open spec fn add(a: u64, b: u64) -> u64 {
        vstd::wrapping::u64_specs::wrapping_add(a, b)
    }

    open spec fn sub(a: u64, b: u64) -> u64 {
        vstd::wrapping::u64_specs::wrapping_sub(a, b)
    }

    open spec fn mul(a: u64, b: u64) -> u64 {
        vstd::wrapping::u64_specs::wrapping_mul(a, b)
    }

    open spec fn div(a: u64, b: u64) -> u64 {
        a / b
    }

    open spec fn text(a: u64) -> Seq<char> {
        decimal(a as int)
    }

    fn to_text(&self) -> (r: String) {
        decimal_text(false, *self as u128)
    }

    fn zero_value() -> (r: u64) {
        0
    }

    fn add_value(self, other: u64) -> (r: u64) {
        self.wrapping_add(other)
    }

    fn sub_value(self, other: u64) -> (r: u64) {
        self.wrapping_sub(other)
    }

    fn mul_value(self, other: u64) -> (r: u64) {
        self.wrapping_mul(other)
    }

    fn div_value(self, other: u64) -> (r: u64) {
        self / other
    }

    fn equals(&self, other: &u64) -> (r: bool) {
        *self == *other
    }

    proof fn lemma_add_zero_left(a: u64) {
    }

    proof fn lemma_add_zero_right(a: u64) {
    }

    proof fn lemma_mul_zero_right(a: u64) {
    }
}

/// Arithmetic modulo 2^N that wraps on overflow; division truncates.
impl MatrixElement for u128 {
    open spec fn zero() -> u128 {
        0
    }

    open spec fn add(a: u128, b: u128) -> u128 {
        vstd::wrapping::u128_specs::wrapping_add(a, b)
    }

    open spec fn sub(a: u128, b: u128) -> u128 {
        vstd::wrapping::u128_specs::wrapping_sub(a, b)
    }

    open spec fn mul(a: u128, b: u128) -> u128 {
        vstd::wrapping::u128_specs::wrapping_mul(a, b)
    }

    open spec fn div(a: u128, b: u128) -> u128 {
        a / b
    }

    open spec fn text(a: u128) -> Seq<char> {
        decimal(a as int)
    }

    fn to_text(&self) -> (r: String) {
        decimal_text(false, *self as u128)
    }

    fn zero_value() -> (r: u128) {
        0
    }

    fn add_value(self, other: u128) -> (r: u128) {
        self.wrapping_add(other)
    }

    fn sub_value(self, other: u128) -> (r: u128) {
        self.wrapping_sub(other)
    }

    fn mul_value(self, other: u128) -> (r: u128) {
        self.wrapping_mul(other)
    }

    fn div_value(self, other: u128) -> (r: u128) {
        self / other
    }

    fn equals(&self, other: &u128) -> (r: bool) {
        *self == *other
    }

    proof fn lemma_add_zero_left(a: u128) {
    }

    proof fn lemma_add_zero_right(a: u128) {
    }

    proof fn lemma_mul_zero_right(a: u128) {
    }
}

} // verus!
