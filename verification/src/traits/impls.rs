use vstd::prelude::*;

use crate::traits::decimal::{decimal_parse, ParseIntError};
use crate::traits::sealed::{Int, Unsigned};

verus! {

/// `<u8 as FromStr>::from_str`. Claimed, as its documentation says: the string is
/// accepted exactly when it is an optional `+` and one or more ASCII digits whose value
/// fits in `u8`, and then that value is returned. Which error kind comes back is not said.
#[verifier::external_body]
fn parse_u8(src: &str) -> (r: Result<u8, ParseIntError>)
    ensures
        r is Ok <==> (decimal_parse(src@, false) matches Some(n) && 0 <= n <= u8::MAX),
        r matches Ok(v) ==> decimal_parse(src@, false) == Some(v as int),
{
    <u8 as core::str::FromStr>::from_str(src)
}

impl Int for u8 {
    open spec fn to_int(self) -> int {
        self as int
    }

    open spec fn lo() -> int {
        u8::MIN as int
    }

    open spec fn hi() -> int {
        u8::MAX as int
    }

    proof fn lemma_in_range(x: Self) {
    }

    proof fn lemma_injective(x: Self, y: Self) {
    }

    fn zero() -> (r: Self) {
        0
    }

    fn one() -> (r: Self) {
        1
    }

    fn min_value() -> (r: Self) {
        u8::MIN
    }

    fn max_value() -> (r: Self) {
        u8::MAX
    }

    fn checked_add(self, rhs: Self) -> (r: Option<Self>) {
        <u8>::checked_add(self, rhs)
    }

    fn checked_sub(self, rhs: Self) -> (r: Option<Self>) {
        <u8>::checked_sub(self, rhs)
    }

    fn checked_mul(self, rhs: Self) -> (r: Option<Self>) {
        <u8>::checked_mul(self, rhs)
    }

    fn checked_div(self, rhs: Self) -> (r: Option<Self>) {
        <u8>::checked_div(self, rhs)
    }

    fn checked_rem(self, rhs: Self) -> (r: Option<Self>) {
        <u8>::checked_rem(self, rhs)
    }

    fn saturating_add(self, rhs: Self) -> (r: Self) {
        <u8>::saturating_add(self, rhs)
    }

    fn saturating_sub(self, rhs: Self) -> (r: Self) {
        <u8>::saturating_sub(self, rhs)
    }

    fn saturating_mul(self, rhs: Self) -> (r: Self) {
        match <u8>::checked_mul(self, rhs) {
            Some(v) => v,
            None => u8::MAX,
        }
    }

    fn parse_decimal(src: &str) -> (r: Result<Self, ParseIntError>) {
        parse_u8(src)
    }
}

impl Unsigned for u8 {
    proof fn lemma_lo_is_zero() {
    }
}

/// `<u16 as FromStr>::from_str`. Claimed, as its documentation says: the string is
/// accepted exactly when it is an optional `+` and one or more ASCII digits whose value
/// fits in `u16`, and then that value is returned. Which error kind comes back is not said.
#[verifier::external_body]
fn parse_u16(src: &str) -> (r: Result<u16, ParseIntError>)
    ensures
        r is Ok <==> (decimal_parse(src@, false) matches Some(n) && 0 <= n <= u16::MAX),
        r matches Ok(v) ==> decimal_parse(src@, false) == Some(v as int),
{
    <u16 as core::str::FromStr>::from_str(src)
}

impl Int for u16 {
    open spec fn to_int(self) -> int {
        self as int
    }

    open spec fn lo() -> int {
        u16::MIN as int
    }

    open spec fn hi() -> int {
        u16::MAX as int
    }

    proof fn lemma_in_range(x: Self) {
    }

    proof fn lemma_injective(x: Self, y: Self) {
    }

    fn zero() -> (r: Self) {
        0
    }

    fn one() -> (r: Self) {
        1
    }

    fn min_value() -> (r: Self) {
        u16::MIN
    }

    fn max_value() -> (r: Self) {
        u16::MAX
    }

    fn checked_add(self, rhs: Self) -> (r: Option<Self>) {
        <u16>::checked_add(self, rhs)
    }

    fn checked_sub(self, rhs: Self) -> (r: Option<Self>) {
        <u16>::checked_sub(self, rhs)
    }

    fn checked_mul(self, rhs: Self) -> (r: Option<Self>) {
        <u16>::checked_mul(self, rhs)
    }

    fn checked_div(self, rhs: Self) -> (r: Option<Self>) {
        <u16>::checked_div(self, rhs)
    }

    fn checked_rem(self, rhs: Self) -> (r: Option<Self>) {
        <u16>::checked_rem(self, rhs)
    }

    fn saturating_add(self, rhs: Self) -> (r: Self) {
        <u16>::saturating_add(self, rhs)
    }

    fn saturating_sub(self, rhs: Self) -> (r: Self) {
        <u16>::saturating_sub(self, rhs)
    }

    fn saturating_mul(self, rhs: Self) -> (r: Self) {
        match <u16>::checked_mul(self, rhs) {
            Some(v) => v,
            None => u16::MAX,
        }
    }

    fn parse_decimal(src: &str) -> (r: Result<Self, ParseIntError>) {
        parse_u16(src)
    }
}

impl Unsigned for u16 {
    proof fn lemma_lo_is_zero() {
    }
}

/// `<u32 as FromStr>::from_str`. Claimed, as its documentation says: the string is
/// accepted exactly when it is an optional `+` and one or more ASCII digits whose value
/// fits in `u32`, and then that value is returned. Which error kind comes back is not said.
#[verifier::external_body]
fn parse_u32(src: &str) -> (r: Result<u32, ParseIntError>)
    ensures
        r is Ok <==> (decimal_parse(src@, false) matches Some(n) && 0 <= n <= u32::MAX),
        r matches Ok(v) ==> decimal_parse(src@, false) == Some(v as int),
{
    <u32 as core::str::FromStr>::from_str(src)
}

impl Int for u32 {
    open spec fn to_int(self) -> int {
        self as int
    }

    open spec fn lo() -> int {
        u32::MIN as int
    }

    open spec fn hi() -> int {
        u32::MAX as int
    }

    proof fn lemma_in_range(x: Self) {
    }

    proof fn lemma_injective(x: Self, y: Self) {
    }

    fn zero() -> (r: Self) {
        0
    }

    fn one() -> (r: Self) {
        1
    }

    fn min_value() -> (r: Self) {
        u32::MIN
    }

    fn max_value() -> (r: Self) {
        u32::MAX
    }

    fn checked_add(self, rhs: Self) -> (r: Option<Self>) {
        <u32>::checked_add(self, rhs)
    }

    fn checked_sub(self, rhs: Self) -> (r: Option<Self>) {
        <u32>::checked_sub(self, rhs)
    }

    fn checked_mul(self, rhs: Self) -> (r: Option<Self>) {
        <u32>::checked_mul(self, rhs)
    }

    fn checked_div(self, rhs: Self) -> (r: Option<Self>) {
        <u32>::checked_div(self, rhs)
    }

    fn checked_rem(self, rhs: Self) -> (r: Option<Self>) {
        <u32>::checked_rem(self, rhs)
    }

    fn saturating_add(self, rhs: Self) -> (r: Self) {
        <u32>::saturating_add(self, rhs)
    }

    fn saturating_sub(self, rhs: Self) -> (r: Self) {
        <u32>::saturating_sub(self, rhs)
    }

    fn saturating_mul(self, rhs: Self) -> (r: Self) {
        match <u32>::checked_mul(self, rhs) {
            Some(v) => v,
            None => u32::MAX,
        }
    }

    fn parse_decimal(src: &str) -> (r: Result<Self, ParseIntError>) {
        parse_u32(src)
    }
}

impl Unsigned for u32 {
    proof fn lemma_lo_is_zero() {
    }
}

/// `<u64 as FromStr>::from_str`. Claimed, as its documentation says: the string is
/// accepted exactly when it is an optional `+` and one or more ASCII digits whose value
/// fits in `u64`, and then that value is returned. Which error kind comes back is not said.
#[verifier::external_body]
fn parse_u64(src: &str) -> (r: Result<u64, ParseIntError>)
    ensures
        r is Ok <==> (decimal_parse(src@, false) matches Some(n) && 0 <= n <= u64::MAX),
        r matches Ok(v) ==> decimal_parse(src@, false) == Some(v as int),
{
    <u64 as core::str::FromStr>::from_str(src)
}

impl Int for u64 {
    open spec fn to_int(self) -> int {
        self as int
    }

    open spec fn lo() -> int {
        u64::MIN as int
    }

    open spec fn hi() -> int {
        u64::MAX as int
    }

    proof fn lemma_in_range(x: Self) {
    }

    proof fn lemma_injective(x: Self, y: Self) {
    }

    fn zero() -> (r: Self) {
        0
    }

    fn one() -> (r: Self) {
        1
    }

    fn min_value() -> (r: Self) {
        u64::MIN
    }

    fn max_value() -> (r: Self) {
        u64::MAX
    }

    fn checked_add(self, rhs: Self) -> (r: Option<Self>) {
        <u64>::checked_add(self, rhs)
    }

    fn checked_sub(self, rhs: Self) -> (r: Option<Self>) {
        <u64>::checked_sub(self, rhs)
    }

    fn checked_mul(self, rhs: Self) -> (r: Option<Self>) {
        <u64>::checked_mul(self, rhs)
    }

    fn checked_div(self, rhs: Self) -> (r: Option<Self>) {
        <u64>::checked_div(self, rhs)
    }

    fn checked_rem(self, rhs: Self) -> (r: Option<Self>) {
        <u64>::checked_rem(self, rhs)
    }

    fn saturating_add(self, rhs: Self) -> (r: Self) {
        <u64>::saturating_add(self, rhs)
    }

    fn saturating_sub(self, rhs: Self) -> (r: Self) {
        <u64>::saturating_sub(self, rhs)
    }

    fn saturating_mul(self, rhs: Self) -> (r: Self) {
        match <u64>::checked_mul(self, rhs) {
            Some(v) => v,
            None => u64::MAX,
        }
    }

    fn parse_decimal(src: &str) -> (r: Result<Self, ParseIntError>) {
        parse_u64(src)
    }
}

impl Unsigned for u64 {
    proof fn lemma_lo_is_zero() {
    }
}

/// `<u128 as FromStr>::from_str`. Claimed, as its documentation says: the string is
/// accepted exactly when it is an optional `+` and one or more ASCII digits whose value
/// fits in `u128`, and then that value is returned. Which error kind comes back is not said.
#[verifier::external_body]
fn parse_u128(src: &str) -> (r: Result<u128, ParseIntError>)
    ensures
        r is Ok <==> (decimal_parse(src@, false) matches Some(n) && 0 <= n <= u128::MAX),
        r matches Ok(v) ==> decimal_parse(src@, false) == Some(v as int),
{
    <u128 as core::str::FromStr>::from_str(src)
}

impl Int for u128 {
    open spec fn to_int(self) -> int {
        self as int
    }

    open spec fn lo() -> int {
        u128::MIN as int
    }

    open spec fn hi() -> int {
        u128::MAX as int
    }

    proof fn lemma_in_range(x: Self) {
    }

    proof fn lemma_injective(x: Self, y: Self) {
    }

    fn zero() -> (r: Self) {
        0
    }

    fn one() -> (r: Self) {
        1
    }

    fn min_value() -> (r: Self) {
        u128::MIN
    }

    fn max_value() -> (r: Self) {
        u128::MAX
    }

    fn checked_add(self, rhs: Self) -> (r: Option<Self>) {
        <u128>::checked_add(self, rhs)
    }

    fn checked_sub(self, rhs: Self) -> (r: Option<Self>) {
        <u128>::checked_sub(self, rhs)
    }

    fn checked_mul(self, rhs: Self) -> (r: Option<Self>) {
        <u128>::checked_mul(self, rhs)
    }

    fn checked_div(self, rhs: Self) -> (r: Option<Self>) {
        <u128>::checked_div(self, rhs)
    }

    fn checked_rem(self, rhs: Self) -> (r: Option<Self>) {
        <u128>::checked_rem(self, rhs)
    }

    fn saturating_add(self, rhs: Self) -> (r: Self) {
        <u128>::saturating_add(self, rhs)
    }

    fn saturating_sub(self, rhs: Self) -> (r: Self) {
        <u128>::saturating_sub(self, rhs)
    }

    fn saturating_mul(self, rhs: Self) -> (r: Self) {
        match <u128>::checked_mul(self, rhs) {
            Some(v) => v,
            None => u128::MAX,
        }
    }

    fn parse_decimal(src: &str) -> (r: Result<Self, ParseIntError>) {
        parse_u128(src)
    }
}

impl Unsigned for u128 {
    proof fn lemma_lo_is_zero() {
    }
}

/// `<usize as FromStr>::from_str`. Claimed, as its documentation says: the string is
/// accepted exactly when it is an optional `+` and one or more ASCII digits whose value
/// fits in `usize`, and then that value is returned. Which error kind comes back is not said.
#[verifier::external_body]
fn parse_usize(src: &str) -> (r: Result<usize, ParseIntError>)
    ensures
        r is Ok <==> (decimal_parse(src@, false) matches Some(n) && 0 <= n <= usize::MAX),
        r matches Ok(v) ==> decimal_parse(src@, false) == Some(v as int),
{
    <usize as core::str::FromStr>::from_str(src)
}

impl Int for usize {
    open spec fn to_int(self) -> int {
        self as int
    }

    open spec fn lo() -> int {
        usize::MIN as int
    }

    open spec fn hi() -> int {
        usize::MAX as int
    }

    proof fn lemma_in_range(x: Self) {
    }

    proof fn lemma_injective(x: Self, y: Self) {
    }

    fn zero() -> (r: Self) {
        0
    }

    fn one() -> (r: Self) {
        1
    }

    fn min_value() -> (r: Self) {
        usize::MIN
    }

    fn max_value() -> (r: Self) {
        usize::MAX
    }

    fn checked_add(self, rhs: Self) -> (r: Option<Self>) {
        <usize>::checked_add(self, rhs)
    }

    fn checked_sub(self, rhs: Self) -> (r: Option<Self>) {
        <usize>::checked_sub(self, rhs)
    }

    fn checked_mul(self, rhs: Self) -> (r: Option<Self>) {
        <usize>::checked_mul(self, rhs)
    }

    fn checked_div(self, rhs: Self) -> (r: Option<Self>) {
        <usize>::checked_div(self, rhs)
    }

    fn checked_rem(self, rhs: Self) -> (r: Option<Self>) {
        <usize>::checked_rem(self, rhs)
    }

    fn saturating_add(self, rhs: Self) -> (r: Self) {
        <usize>::saturating_add(self, rhs)
    }

    fn saturating_sub(self, rhs: Self) -> (r: Self) {
        <usize>::saturating_sub(self, rhs)
    }

    fn saturating_mul(self, rhs: Self) -> (r: Self) {
        match <usize>::checked_mul(self, rhs) {
            Some(v) => v,
            None => usize::MAX,
        }
    }

    fn parse_decimal(src: &str) -> (r: Result<Self, ParseIntError>) {
        parse_usize(src)
    }
}

impl Unsigned for usize {
    proof fn lemma_lo_is_zero() {
    }
}

/// `<i8 as FromStr>::from_str`. Claimed, as its documentation says: the string is
/// accepted exactly when it is an optional `+` or `-` and one or more ASCII digits whose
/// value fits in `i8`, and then that value is returned. Which error kind comes back is
/// not said.
#[verifier::external_body]
fn parse_i8(src: &str) -> (r: Result<i8, ParseIntError>)
    ensures
        r is Ok <==> (decimal_parse(src@, true) matches Some(n) && i8::MIN <= n <= i8::MAX),
        r matches Ok(v) ==> decimal_parse(src@, true) == Some(v as int),
{
    <i8 as core::str::FromStr>::from_str(src)
}

impl Int for i8 {
    open spec fn to_int(self) -> int {
        self as int
    }

    open spec fn lo() -> int {
        i8::MIN as int
    }

    open spec fn hi() -> int {
        i8::MAX as int
    }

    proof fn lemma_in_range(x: Self) {
    }

    proof fn lemma_injective(x: Self, y: Self) {
    }

    fn zero() -> (r: Self) {
        0
    }

    fn one() -> (r: Self) {
        1
    }

    fn min_value() -> (r: Self) {
        i8::MIN
    }

    fn max_value() -> (r: Self) {
        i8::MAX
    }

    fn checked_add(self, rhs: Self) -> (r: Option<Self>) {
        <i8>::checked_add(self, rhs)
    }

    fn checked_sub(self, rhs: Self) -> (r: Option<Self>) {
        <i8>::checked_sub(self, rhs)
    }

    fn checked_mul(self, rhs: Self) -> (r: Option<Self>) {
        <i8>::checked_mul(self, rhs)
    }

    fn checked_div(self, rhs: Self) -> (r: Option<Self>) {
        <i8>::checked_div(self, rhs)
    }

    fn checked_rem(self, rhs: Self) -> (r: Option<Self>) {
        proof {
            if rhs != 0 {
                lemma_remainder_bounds(vstd::math::abs(rhs as int) as int);
            }
        }
        <i8>::checked_rem(self, rhs)
    }

    fn saturating_add(self, rhs: Self) -> (r: Self) {
        match <i8>::checked_add(self, rhs) {
            Some(v) => v,
            None => if rhs < 0 {
                i8::MIN
            } else {
                i8::MAX
            },
        }
    }

    fn saturating_sub(self, rhs: Self) -> (r: Self) {
        match <i8>::checked_sub(self, rhs) {
            Some(v) => v,
            None => if rhs > 0 {
                i8::MIN
            } else {
                i8::MAX
            },
        }
    }

    fn saturating_mul(self, rhs: Self) -> (r: Self) {
        match <i8>::checked_mul(self, rhs) {
            Some(v) => v,
            None => {
                proof {
                    lemma_product_sign(self as int, rhs as int);
                }
                if (self < 0) != (rhs < 0) {
                    i8::MIN
                } else {
                    i8::MAX
                }
            },
        }
    }

    fn parse_decimal(src: &str) -> (r: Result<Self, ParseIntError>) {
        parse_i8(src)
    }
}

/// `<i16 as FromStr>::from_str`. Claimed, as its documentation says: the string is
/// accepted exactly when it is an optional `+` or `-` and one or more ASCII digits whose
/// value fits in `i16`, and then that value is returned. Which error kind comes back is
/// not said.
#[verifier::external_body]
fn parse_i16(src: &str) -> (r: Result<i16, ParseIntError>)
    ensures
        r is Ok <==> (decimal_parse(src@, true) matches Some(n) && i16::MIN <= n <= i16::MAX),
        r matches Ok(v) ==> decimal_parse(src@, true) == Some(v as int),
{
    <i16 as core::str::FromStr>::from_str(src)
}

impl Int for i16 {
    open spec fn to_int(self) -> int {
        self as int
    }

    open spec fn lo() -> int {
        i16::MIN as int
    }

    open spec fn hi() -> int {
        i16::MAX as int
    }

    proof fn lemma_in_range(x: Self) {
    }

    proof fn lemma_injective(x: Self, y: Self) {
    }

    fn zero() -> (r: Self) {
        0
    }

    fn one() -> (r: Self) {
        1
    }

    fn min_value() -> (r: Self) {
        i16::MIN
    }

    fn max_value() -> (r: Self) {
        i16::MAX
    }

    fn checked_add(self, rhs: Self) -> (r: Option<Self>) {
        <i16>::checked_add(self, rhs)
    }

    fn checked_sub(self, rhs: Self) -> (r: Option<Self>) {
        <i16>::checked_sub(self, rhs)
    }

    fn checked_mul(self, rhs: Self) -> (r: Option<Self>) {
        <i16>::checked_mul(self, rhs)
    }

    fn checked_div(self, rhs: Self) -> (r: Option<Self>) {
        <i16>::checked_div(self, rhs)
    }

    fn checked_rem(self, rhs: Self) -> (r: Option<Self>) {
        proof {
            if rhs != 0 {
                lemma_remainder_bounds(vstd::math::abs(rhs as int) as int);
            }
        }
        <i16>::checked_rem(self, rhs)
    }

    fn saturating_add(self, rhs: Self) -> (r: Self) {
        match <i16>::checked_add(self, rhs) {
            Some(v) => v,
            None => if rhs < 0 {
                i16::MIN
            } else {
                i16::MAX
            },
        }
    }

    fn saturating_sub(self, rhs: Self) -> (r: Self) {
        match <i16>::checked_sub(self, rhs) {
            Some(v) => v,
            None => if rhs > 0 {
                i16::MIN
            } else {
                i16::MAX
            },
        }
    }

    fn saturating_mul(self, rhs: Self) -> (r: Self) {
        match <i16>::checked_mul(self, rhs) {
            Some(v) => v,
            None => {
                proof {
                    lemma_product_sign(self as int, rhs as int);
                }
                if (self < 0) != (rhs < 0) {
                    i16::MIN
                } else {
                    i16::MAX
                }
            },
        }
    }

    fn parse_decimal(src: &str) -> (r: Result<Self, ParseIntError>) {
        parse_i16(src)
    }
}

/// `<i32 as FromStr>::from_str`. Claimed, as its documentation says: the string is
/// accepted exactly when it is an optional `+` or `-` and one or more ASCII digits whose
/// value fits in `i32`, and then that value is returned. Which error kind comes back is
/// not said.
#[verifier::external_body]
fn parse_i32(src: &str) -> (r: Result<i32, ParseIntError>)
    ensures
        r is Ok <==> (decimal_parse(src@, true) matches Some(n) && i32::MIN <= n <= i32::MAX),
        r matches Ok(v) ==> decimal_parse(src@, true) == Some(v as int),
{
    <i32 as core::str::FromStr>::from_str(src)
}

impl Int for i32 {
    open spec fn to_int(self) -> int {
        self as int
    }

    open spec fn lo() -> int {
        i32::MIN as int
    }

    open spec fn hi() -> int {
        i32::MAX as int
    }

    proof fn lemma_in_range(x: Self) {
    }

    proof fn lemma_injective(x: Self, y: Self) {
    }

    fn zero() -> (r: Self) {
        0
    }

    fn one() -> (r: Self) {
        1
    }

    fn min_value() -> (r: Self) {
        i32::MIN
    }

    fn max_value() -> (r: Self) {
        i32::MAX
    }

    fn checked_add(self, rhs: Self) -> (r: Option<Self>) {
        <i32>::checked_add(self, rhs)
    }

    fn checked_sub(self, rhs: Self) -> (r: Option<Self>) {
        <i32>::checked_sub(self, rhs)
    }

    fn checked_mul(self, rhs: Self) -> (r: Option<Self>) {
        <i32>::checked_mul(self, rhs)
    }

    fn checked_div(self, rhs: Self) -> (r: Option<Self>) {
        <i32>::checked_div(self, rhs)
    }

    fn checked_rem(self, rhs: Self) -> (r: Option<Self>) {
        proof {
            if rhs != 0 {
                lemma_remainder_bounds(vstd::math::abs(rhs as int) as int);
            }
        }
        <i32>::checked_rem(self, rhs)
    }

    fn saturating_add(self, rhs: Self) -> (r: Self) {
        match <i32>::checked_add(self, rhs) {
            Some(v) => v,
            None => if rhs < 0 {
                i32::MIN
            } else {
                i32::MAX
            },
        }
    }

    fn saturating_sub(self, rhs: Self) -> (r: Self) {
        match <i32>::checked_sub(self, rhs) {
            Some(v) => v,
            None => if rhs > 0 {
                i32::MIN
            } else {
                i32::MAX
            },
        }
    }

    fn saturating_mul(self, rhs: Self) -> (r: Self) {
        match <i32>::checked_mul(self, rhs) {
            Some(v) => v,
            None => {
                proof {
                    lemma_product_sign(self as int, rhs as int);
                }
                if (self < 0) != (rhs < 0) {
                    i32::MIN
                } else {
                    i32::MAX
                }
            },
        }
    }

    fn parse_decimal(src: &str) -> (r: Result<Self, ParseIntError>) {
        parse_i32(src)
    }
}

/// `<i64 as FromStr>::from_str`. Claimed, as its documentation says: the string is
/// accepted exactly when it is an optional `+` or `-` and one or more ASCII digits whose
/// value fits in `i64`, and then that value is returned. Which error kind comes back is
/// not said.
#[verifier::external_body]
fn parse_i64(src: &str) -> (r: Result<i64, ParseIntError>)
    ensures
        r is Ok <==> (decimal_parse(src@, true) matches Some(n) && i64::MIN <= n <= i64::MAX),
        r matches Ok(v) ==> decimal_parse(src@, true) == Some(v as int),
{
    <i64 as core::str::FromStr>::from_str(src)
}

impl Int for i64 {
    open spec fn to_int(self) -> int {
        self as int
    }

    open spec fn lo() -> int {
        i64::MIN as int
    }

    open spec fn hi() -> int {
        i64::MAX as int
    }

    proof fn lemma_in_range(x: Self) {
    }

    proof fn lemma_injective(x: Self, y: Self) {
    }

    fn zero() -> (r: Self) {
        0
    }

    fn one() -> (r: Self) {
        1
    }

    fn min_value() -> (r: Self) {
        i64::MIN
    }

    fn max_value() -> (r: Self) {
        i64::MAX
    }

    fn checked_add(self, rhs: Self) -> (r: Option<Self>) {
        <i64>::checked_add(self, rhs)
    }

    fn checked_sub(self, rhs: Self) -> (r: Option<Self>) {
        <i64>::checked_sub(self, rhs)
    }

    fn checked_mul(self, rhs: Self) -> (r: Option<Self>) {
        <i64>::checked_mul(self, rhs)
    }

    fn checked_div(self, rhs: Self) -> (r: Option<Self>) {
        <i64>::checked_div(self, rhs)
    }

    fn checked_rem(self, rhs: Self) -> (r: Option<Self>) {
        proof {
            if rhs != 0 {
                lemma_remainder_bounds(vstd::math::abs(rhs as int) as int);
            }
        }
        <i64>::checked_rem(self, rhs)
    }

    fn saturating_add(self, rhs: Self) -> (r: Self) {
        match <i64>::checked_add(self, rhs) {
            Some(v) => v,
            None => if rhs < 0 {
                i64::MIN
            } else {
                i64::MAX
            },
        }
    }

    fn saturating_sub(self, rhs: Self) -> (r: Self) {
        match <i64>::checked_sub(self, rhs) {
            Some(v) => v,
            None => if rhs > 0 {
                i64::MIN
            } else {
                i64::MAX
            },
        }
    }

    fn saturating_mul(self, rhs: Self) -> (r: Self) {
        match <i64>::checked_mul(self, rhs) {
            Some(v) => v,
            None => {
                proof {
                    lemma_product_sign(self as int, rhs as int);
                }
                if (self < 0) != (rhs < 0) {
                    i64::MIN
                } else {
                    i64::MAX
                }
            },
        }
    }

    fn parse_decimal(src: &str) -> (r: Result<Self, ParseIntError>) {
        parse_i64(src)
    }
}

/// `<i128 as FromStr>::from_str`. Claimed, as its documentation says: the string is
/// accepted exactly when it is an optional `+` or `-` and one or more ASCII digits whose
/// value fits in `i128`, and then that value is returned. Which error kind comes back is
/// not said.
#[verifier::external_body]
fn parse_i128(src: &str) -> (r: Result<i128, ParseIntError>)
    ensures
        r is Ok <==> (decimal_parse(src@, true) matches Some(n) && i128::MIN <= n <= i128::MAX),
        r matches Ok(v) ==> decimal_parse(src@, true) == Some(v as int),
{
    <i128 as core::str::FromStr>::from_str(src)
}

impl Int for i128 {
    open spec fn to_int(self) -> int {
        self as int
    }

    open spec fn lo() -> int {
        i128::MIN as int
    }

    open spec fn hi() -> int {
        i128::MAX as int
    }

    proof fn lemma_in_range(x: Self) {
    }

    proof fn lemma_injective(x: Self, y: Self) {
    }

    fn zero() -> (r: Self) {
        0
    }

    fn one() -> (r: Self) {
        1
    }

    fn min_value() -> (r: Self) {
        i128::MIN
    }

    fn max_value() -> (r: Self) {
        i128::MAX
    }

    fn checked_add(self, rhs: Self) -> (r: Option<Self>) {
        <i128>::checked_add(self, rhs)
    }

    fn checked_sub(self, rhs: Self) -> (r: Option<Self>) {
        <i128>::checked_sub(self, rhs)
    }

    fn checked_mul(self, rhs: Self) -> (r: Option<Self>) {
        <i128>::checked_mul(self, rhs)
    }

    fn checked_div(self, rhs: Self) -> (r: Option<Self>) {
        <i128>::checked_div(self, rhs)
    }

    fn checked_rem(self, rhs: Self) -> (r: Option<Self>) {
        proof {
            if rhs != 0 {
                lemma_remainder_bounds(vstd::math::abs(rhs as int) as int);
            }
        }
        <i128>::checked_rem(self, rhs)
    }

    fn saturating_add(self, rhs: Self) -> (r: Self) {
        match <i128>::checked_add(self, rhs) {
            Some(v) => v,
            None => if rhs < 0 {
                i128::MIN
            } else {
                i128::MAX
            },
        }
    }

    fn saturating_sub(self, rhs: Self) -> (r: Self) {
        match <i128>::checked_sub(self, rhs) {
            Some(v) => v,
            None => if rhs > 0 {
                i128::MIN
            } else {
                i128::MAX
            },
        }
    }

    fn saturating_mul(self, rhs: Self) -> (r: Self) {
        match <i128>::checked_mul(self, rhs) {
            Some(v) => v,
            None => {
                proof {
                    lemma_product_sign(self as int, rhs as int);
                }
                if (self < 0) != (rhs < 0) {
                    i128::MIN
                } else {
                    i128::MAX
                }
            },
        }
    }

    fn parse_decimal(src: &str) -> (r: Result<Self, ParseIntError>) {
        parse_i128(src)
    }
}

/// `<isize as FromStr>::from_str`. Claimed, as its documentation says: the string is
/// accepted exactly when it is an optional `+` or `-` and one or more ASCII digits whose
/// value fits in `isize`, and then that value is returned. Which error kind comes back is
/// not said.
#[verifier::external_body]
fn parse_isize(src: &str) -> (r: Result<isize, ParseIntError>)
    ensures
        r is Ok <==> (decimal_parse(src@, true) matches Some(n) && isize::MIN <= n <= isize::MAX),
        r matches Ok(v) ==> decimal_parse(src@, true) == Some(v as int),
{
    <isize as core::str::FromStr>::from_str(src)
}

impl Int for isize {
    open spec fn to_int(self) -> int {
        self as int
    }

    open spec fn lo() -> int {
        isize::MIN as int
    }

    open spec fn hi() -> int {
        isize::MAX as int
    }

    proof fn lemma_in_range(x: Self) {
    }

    proof fn lemma_injective(x: Self, y: Self) {
    }

    fn zero() -> (r: Self) {
        0
    }

    fn one() -> (r: Self) {
        1
    }

    fn min_value() -> (r: Self) {
        isize::MIN
    }

    fn max_value() -> (r: Self) {
        isize::MAX
    }

    fn checked_add(self, rhs: Self) -> (r: Option<Self>) {
        <isize>::checked_add(self, rhs)
    }

    fn checked_sub(self, rhs: Self) -> (r: Option<Self>) {
        <isize>::checked_sub(self, rhs)
    }

    fn checked_mul(self, rhs: Self) -> (r: Option<Self>) {
        <isize>::checked_mul(self, rhs)
    }

    fn checked_div(self, rhs: Self) -> (r: Option<Self>) {
        <isize>::checked_div(self, rhs)
    }

    fn checked_rem(self, rhs: Self) -> (r: Option<Self>) {
        proof {
            if rhs != 0 {
                lemma_remainder_bounds(vstd::math::abs(rhs as int) as int);
            }
        }
        <isize>::checked_rem(self, rhs)
    }

    fn saturating_add(self, rhs: Self) -> (r: Self) {
        match <isize>::checked_add(self, rhs) {
            Some(v) => v,
            None => if rhs < 0 {
                isize::MIN
            } else {
                isize::MAX
            },
        }
    }

    fn saturating_sub(self, rhs: Self) -> (r: Self) {
        match <isize>::checked_sub(self, rhs) {
            Some(v) => v,
            None => if rhs > 0 {
                isize::MIN
            } else {
                isize::MAX
            },
        }
    }

    fn saturating_mul(self, rhs: Self) -> (r: Self) {
        match <isize>::checked_mul(self, rhs) {
            Some(v) => v,
            None => {
                proof {
                    lemma_product_sign(self as int, rhs as int);
                }
                if (self < 0) != (rhs < 0) {
                    isize::MIN
                } else {
                    isize::MAX
                }
            },
        }
    }

    fn parse_decimal(src: &str) -> (r: Result<Self, ParseIntError>) {
        parse_isize(src)
    }
}

/// A remainder by a positive divisor lies below the divisor, and zero leaves none.
proof fn lemma_remainder_bounds(b: int)
    requires
        b > 0,
    ensures
        forall|a: int| 0 <= a ==> 0 <= #[trigger] (a % b) < b,
        0int % b == 0,
{
    assert(forall|a: int| 0 <= a ==> 0 <= #[trigger] (a % b) < b) by (nonlinear_arith)
        requires
            b > 0,
    ;
    assert(0int % b == 0) by (nonlinear_arith)
        requires
            b > 0,
    ;
}

/// The sign of a product follows the signs of its factors.
proof fn lemma_product_sign(a: int, b: int)
    ensures
        (a < 0) != (b < 0) ==> a * b <= 0,
        (a < 0) == (b < 0) ==> a * b >= 0,
{
    assert((a < 0) != (b < 0) ==> a * b <= 0) by (nonlinear_arith);
    assert((a < 0) == (b < 0) ==> a * b >= 0) by (nonlinear_arith);
}

} // verus!
