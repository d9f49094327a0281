use int_interval::{Int, Unsigned};

fn lowest<T: Unsigned>() -> T {
    T::min_value()
}

#[test]
fn bounds_and_units() {
    assert_eq!(<u8 as Int>::min_value(), 0);
    assert_eq!(<u8 as Int>::max_value(), 255);
    assert_eq!(<i8 as Int>::min_value(), -128);
    assert_eq!(<i64 as Int>::max_value(), i64::MAX);
    assert_eq!(<u128 as Int>::zero(), 0);
    assert_eq!(<isize as Int>::one(), 1);
    assert_eq!(lowest::<u32>(), 0);
    assert_eq!(lowest::<usize>(), 0);
}

#[test]
fn checked_arithmetic() {
    assert_eq!(<u8 as Int>::checked_add(200, 55), Some(255));
    assert_eq!(<u8 as Int>::checked_add(200, 56), None);
    assert_eq!(<u8 as Int>::checked_sub(3, 4), None);
    assert_eq!(<i8 as Int>::checked_sub(-100, 28), Some(-128));
    assert_eq!(<i8 as Int>::checked_mul(-64, 2), Some(-128));
    assert_eq!(<i8 as Int>::checked_mul(64, 2), None);
    assert_eq!(<i8 as Int>::checked_div(-7, 2), Some(-3));
    assert_eq!(<i8 as Int>::checked_div(-128, -1), None);
    assert_eq!(<u16 as Int>::checked_div(7, 0), None);
    assert_eq!(<i8 as Int>::checked_rem(-7, 2), Some(-1));
    assert_eq!(<i8 as Int>::checked_rem(7, -2), Some(1));
    assert_eq!(<i8 as Int>::checked_rem(-128, -1), None);
    assert_eq!(<u32 as Int>::checked_rem(7, 0), None);
    assert_eq!(<u8 as Int>::checked_next(254), Some(255));
    assert_eq!(<u8 as Int>::checked_next(255), None);
    assert_eq!(<i128 as Int>::checked_next(i128::MAX), None);
}

#[test]
fn saturating_arithmetic_on_primitives() {
    assert_eq!(<u8 as Int>::saturating_add(200, 100), 255);
    assert_eq!(<u8 as Int>::saturating_sub(3, 4), 0);
    assert_eq!(<u8 as Int>::saturating_mul(16, 16), 255);
    assert_eq!(<i8 as Int>::saturating_add(-100, -100), -128);
    assert_eq!(<i8 as Int>::saturating_add(100, 100), 127);
    assert_eq!(<i8 as Int>::saturating_sub(-100, 100), -128);
    assert_eq!(<i8 as Int>::saturating_sub(100, -100), 127);
    assert_eq!(<i8 as Int>::saturating_mul(-100, 2), -128);
    assert_eq!(<i8 as Int>::saturating_mul(-100, -2), 127);
    assert_eq!(<i64 as Int>::saturating_mul(i64::MAX, 2), i64::MAX);
    assert_eq!(<i8 as Int>::saturating_mul(-3, 5), -15);
}

#[test]
fn parse_decimal_accepts_signed_digits() {
    assert_eq!(<i8 as Int>::parse_decimal("-128"), Ok(-128));
    assert_eq!(<i8 as Int>::parse_decimal("+5"), Ok(5));
    assert_eq!(<u8 as Int>::parse_decimal("007"), Ok(7));
    assert_eq!(<u64 as Int>::parse_decimal("18446744073709551615"), Ok(u64::MAX));
}

#[test]
fn parse_decimal_refuses_other_text() {
    assert!(<i8 as Int>::parse_decimal("128").is_err());
    assert!(<u8 as Int>::parse_decimal("-0").is_err());
    assert!(<u8 as Int>::parse_decimal("").is_err());
    assert!(<u8 as Int>::parse_decimal("+").is_err());
    assert!(<i8 as Int>::parse_decimal("-").is_err());
    assert!(<u8 as Int>::parse_decimal(" 1").is_err());
    assert!(<u8 as Int>::parse_decimal("1_0").is_err());
}

#[test]
fn parse_decimal_round_trips_to_string() {
    for x in [i8::MIN, -100, -1, 0, 7, i8::MAX] {
        assert_eq!(<i8 as Int>::parse_decimal(&x.to_string()), Ok(x));
    }
    for x in [0u8, 9, 10, 255] {
        assert_eq!(<u8 as Int>::parse_decimal(&x.to_string()), Ok(x));
    }
    for x in [i128::MIN, -1, i128::MAX] {
        assert_eq!(<i128 as Int>::parse_decimal(&x.to_string()), Ok(x));
    }
    assert_eq!(<u64 as Int>::parse_decimal(&u64::MAX.to_string()), Ok(u64::MAX));
    assert_eq!(<usize as Int>::parse_decimal(&usize::MAX.to_string()), Ok(usize::MAX));
}
