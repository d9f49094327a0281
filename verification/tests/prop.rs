use int_interval::{I8CO, U8CO};
use proptest::arbitrary::any;
use proptest::sample::select;
use proptest::strategy::{BoxedStrategy, Strategy, Union};
use proptest::test_runner::{Config, TestCaseError, TestRunner};

fn check(cond: bool, what: &'static str) -> Result<(), TestCaseError> {
    if cond {
        Ok(())
    } else {
        Err(TestCaseError::fail(what))
    }
}

fn mixed_i8() -> BoxedStrategy<i8> {
    Union::new_weighted(vec![
        (3, select(vec![i8::MIN, i8::MAX, 0, -1, 1]).boxed()),
        (7, any::<i8>().boxed()),
    ])
    .boxed()
}

fn edge_scalar() -> BoxedStrategy<u8> {
    select(vec![0, 1, u8::MAX, u8::MAX.saturating_sub(1)]).boxed()
}

fn mixed_scalar() -> BoxedStrategy<u8> {
    Union::new_weighted(vec![(3, edge_scalar()), (7, any::<u8>().boxed())]).boxed()
}

fn span_strategy() -> BoxedStrategy<U8CO> {
    (mixed_scalar(), mixed_scalar())
        .prop_filter_map("non-empty interval", |(a, b)| {
            let lo = a.min(b);
            let hi = a.max(b);
            U8CO::try_new(lo, hi)
        })
        .boxed()
}

fn runner64() -> TestRunner {
    TestRunner::new(Config {
        cases: 64,
        ..Config::default()
    })
}

#[test]
fn prop_len_is_positive_for_valid_intervals() {
    TestRunner::default()
        .run(&(any::<i8>(), any::<i8>()), |(start, end)| {
            if let Some(iv) = I8CO::try_new(start, end) {
                check(iv.len() >= 1, "len >= 1")?;
            }
            Ok(())
        })
        .unwrap();
}

#[test]
fn prop_len_matches_order_space_difference() {
    TestRunner::default()
        .run(&(any::<i8>(), any::<i8>()), |(start, end)| {
            if let Some(iv) = I8CO::try_new(start, end) {
                const SIGN_MASK: u8 = 1u8 << (i8::BITS - 1);
                let expect = ((end as u8) ^ SIGN_MASK) - ((start as u8) ^ SIGN_MASK);
                check(iv.len() == expect, "len in order space")?;
            }
            Ok(())
        })
        .unwrap();
}

#[test]
fn prop_midpoint_in_bounds() {
    TestRunner::default()
        .run(&(any::<i8>(), any::<i8>()), |(start, end)| {
            if let Some(iv) = I8CO::try_new(start, end) {
                let mp = iv.midpoint();
                check(mp >= iv.start(), "midpoint >= start")?;
                check(mp <= iv.end_incl(), "midpoint <= end_incl")?;
            }
            Ok(())
        })
        .unwrap();
}

#[test]
fn prop_checked_from_midpoint_len_inverse() {
    TestRunner::default()
        .run(&(mixed_i8(), 1u8..=255), |(mid, len)| {
            if let Some(iv) = I8CO::checked_from_midpoint_len(mid, len) {
                check(iv.len() == len, "len kept")?;
                check(iv.midpoint() == mid, "midpoint kept")?;
            }
            Ok(())
        })
        .unwrap();
}

#[test]
fn prop_saturating_from_midpoint_len_safety() {
    TestRunner::default()
        .run(&(mixed_i8(), 1u8..=255), |(mid, len)| {
            if let Some(iv) = I8CO::saturating_from_midpoint_len(mid, len) {
                check(iv.start() < iv.end_excl(), "non-empty")?;
                check(
                    iv.midpoint() == iv.start() + (iv.len() / 2) as i8,
                    "midpoint formula",
                )?;
            }
            Ok(())
        })
        .unwrap();
}

#[test]
fn scale_preserves_order() {
    runner64()
        .run(&(span_strategy(), mixed_scalar()), |(x, factor)| {
            if let Some(scaled) = x.scale(factor) {
                check(scaled.start() < scaled.end_excl(), "ordered")?;
            }
            Ok(())
        })
        .unwrap();
}

#[test]
fn shift_preserves_order() {
    runner64()
        .run(&(span_strategy(), mixed_scalar()), |(x, offset)| {
            if let Some(shifted) = x.shift(offset) {
                check(shifted.start() < shifted.end_excl(), "ordered")?;
            }
            Ok(())
        })
        .unwrap();
}
