use vstd::prelude::*;

use crate::traits::decimal::{decimal_parse, decimal_text, lemma_decimal_round_trip, ParseIntError};

verus! {

/// `x` clamped to `[lo, hi]`.
pub open spec fn clamp_int(x: int, lo: int, hi: int) -> int {
    if x < lo {
        lo
    } else if x > hi {
        hi
    } else {
        x
    }
}

/// Integer division rounding toward zero (the quotient of Rust's `/`).
pub open spec fn trunc_div(a: int, b: int) -> int {
    let q = vstd::math::abs(a) as int / vstd::math::abs(b) as int;
    if (a < 0) != (b < 0) {
        -q
    } else {
        q
    }
}

/// The remainder that goes with `trunc_div`; it has the sign of `a` (Rust's `%`).
pub open spec fn trunc_rem(a: int, b: int) -> int {
    let r = vstd::math::abs(a) as int % vstd::math::abs(b) as int;
    if a < 0 {
        -r
    } else {
        r
    }
}

/// A primitive integer type, seen through its mathematical value.
pub trait Int:
    Copy
    + Ord
    + Eq
    + core::fmt::Debug
    + Send
    + Sync
    + core::ops::Add<Output = Self>
    + core::ops::Sub<Output = Self>
    + core::ops::Mul<Output = Self>
    + core::ops::Div<Output = Self>
    + core::ops::Rem<Output = Self>
    + Default
    + Sized {
    /// The mathematical value of `self`.
    spec fn to_int(self) -> int;

    /// The smallest value of the type.
    spec fn lo() -> int;

    /// The largest value of the type.
    spec fn hi() -> int;

    /// Every value lies in `[lo, hi]`, a range that holds zero and one.
    proof fn lemma_in_range(x: Self)
        ensures
            Self::lo() <= x.to_int() <= Self::hi(),
            Self::lo() <= 0 < Self::hi(),
    ;

    /// Two values with the same mathematical value are the same value.
    proof fn lemma_injective(x: Self, y: Self)
        ensures
            x.to_int() == y.to_int() ==> x == y,
    ;

    fn zero() -> (r: Self)
        ensures
            r.to_int() == 0,
    ;

    fn one() -> (r: Self)
        ensures
            r.to_int() == 1,
    ;

    fn min_value() -> (r: Self)
        ensures
            r.to_int() == Self::lo(),
    ;

    fn max_value() -> (r: Self)
        ensures
            r.to_int() == Self::hi(),
    ;

    /// `self + rhs`, or `None` where the sum does not fit.
    fn checked_add(self, rhs: Self) -> (r: Option<Self>)
        ensures
            r is None <==> !(Self::lo() <= self.to_int() + rhs.to_int() <= Self::hi()),
            r matches Some(v) ==> v.to_int() == self.to_int() + rhs.to_int(),
    ;

    /// `self - rhs`, or `None` where the difference does not fit.
    fn checked_sub(self, rhs: Self) -> (r: Option<Self>)
        ensures
            r is None <==> !(Self::lo() <= self.to_int() - rhs.to_int() <= Self::hi()),
            r matches Some(v) ==> v.to_int() == self.to_int() - rhs.to_int(),
    ;

    /// `self * rhs`, or `None` where the product does not fit.
    fn checked_mul(self, rhs: Self) -> (r: Option<Self>)
        ensures
            r is None <==> !(Self::lo() <= self.to_int() * rhs.to_int() <= Self::hi()),
            r matches Some(v) ==> v.to_int() == self.to_int() * rhs.to_int(),
    ;

    /// `self / rhs` rounded toward zero, or `None` where `rhs` is zero or the quotient
    /// does not fit.
    fn checked_div(self, rhs: Self) -> (r: Option<Self>)
        ensures
            rhs.to_int() == 0 ==> r is None,
            rhs.to_int() != 0 ==> (r is None <==> !(Self::lo() <= trunc_div(
                self.to_int(),
                rhs.to_int(),
            ) <= Self::hi())),
            r matches Some(v) ==> v.to_int() == trunc_div(self.to_int(), rhs.to_int()),
    ;

    /// `self % rhs` with the sign of `self`, or `None` where `rhs` is zero or the
    /// quotient `self / rhs` overflows.
    fn checked_rem(self, rhs: Self) -> (r: Option<Self>)
        ensures
            (rhs.to_int() == 0 || (self.to_int() == Self::lo() && rhs.to_int() == -1)) ==> r
                is None,
            !(rhs.to_int() == 0 || (self.to_int() == Self::lo() && rhs.to_int() == -1)) ==> (r
                matches Some(v) && v.to_int() == trunc_rem(self.to_int(), rhs.to_int())),
    ;

    /// `self + rhs`, clamped to the range of the type.
    fn saturating_add(self, rhs: Self) -> (r: Self)
        ensures
            r.to_int() == clamp_int(self.to_int() + rhs.to_int(), Self::lo(), Self::hi()),
    ;

    /// `self - rhs`, clamped to the range of the type.
    fn saturating_sub(self, rhs: Self) -> (r: Self)
        ensures
            r.to_int() == clamp_int(self.to_int() - rhs.to_int(), Self::lo(), Self::hi()),
    ;

    /// `self * rhs`, clamped to the range of the type.
    fn saturating_mul(self, rhs: Self) -> (r: Self)
        ensures
            r.to_int() == clamp_int(self.to_int() * rhs.to_int(), Self::lo(), Self::hi()),
    ;

    /// Parses a base-ten integer: an optional sign (`-` only for signed types) and at
    /// least one ASCII digit, nothing else, whose value fits.
    fn parse_decimal(src: &str) -> (r: Result<Self, ParseIntError>)
        ensures
            r is Ok <==> (decimal_parse(src@, Self::lo() < 0) matches Some(n) && Self::lo() <= n
                <= Self::hi()),
            r matches Ok(v) ==> decimal_parse(src@, Self::lo() < 0) == Some(v.to_int()),
    ;

    /// The successor of `self`, or `None` at the maximum.
    fn checked_next(self) -> (r: Option<Self>)
        ensures
            r is None <==> !(Self::lo() <= self.to_int() + 1 <= Self::hi()),
            r matches Some(v) ==> v.to_int() == self.to_int() + 1,
    {
        self.checked_add(Self::one())
    }
}

/// An unsigned primitive integer type.
pub trait Unsigned: Int {
    /// The smallest value of an unsigned type is zero.
    proof fn lemma_lo_is_zero()
        ensures
            Self::lo() == 0,
    ;
}

/// The decimal spelling of a value is accepted by `parse_decimal` of its type and denotes
/// that value: with `parse_decimal`'s contract and `lemma_injective`, parsing it gives
/// back the value itself.
pub proof fn lemma_parse_decimal_round_trip<T: Int>(x: T)
    ensures
        decimal_parse(decimal_text(x.to_int()), T::lo() < 0) == Some(x.to_int()),
        T::lo() <= x.to_int() <= T::hi(),
{
    T::lemma_in_range(x);
    lemma_decimal_round_trip(x.to_int(), T::lo() < 0);
}

} // verus!
