use int_interval::{COMidpoint, COPrimitive, I8CO, Int, IntCO, U8CO};

/// The total length of what is left of `lhs` once `rhs` is taken out.
fn residual_measure<I>(lhs: I, rhs: I) -> I::MeasureType
where
    I: IntCO,
{
    lhs.difference(rhs)
        .into_vec()
        .into_iter()
        .map(|interval| interval.len())
        .fold(<I::MeasureType as Int>::zero(), |acc, len| {
            <I::MeasureType as Int>::checked_add(acc, len).unwrap()
        })
}

fn midpoint_gap<I>(lhs: I, rhs: I) -> Option<<I as COPrimitive>::CoordType>
where
    I: IntCO + COMidpoint,
{
    lhs.between(rhs).map(|gap| gap.midpoint())
}

#[test]
fn generic_residual_measure() {
    let lhs = U8CO::try_new(2, 10).unwrap();
    let rhs = U8CO::try_new(4, 6).unwrap();
    assert_eq!(residual_measure(lhs, rhs), 6);
    assert_eq!(residual_measure(lhs, lhs), 0);

    let lhs = I8CO::try_new(-128, 127).unwrap();
    let rhs = I8CO::try_new(-1, 1).unwrap();
    assert_eq!(residual_measure(lhs, rhs), 253);
}

#[test]
fn generic_midpoint_gap() {
    let a = I8CO::try_new(-10, -5).unwrap();
    let b = I8CO::try_new(5, 10).unwrap();
    assert_eq!(midpoint_gap(a, b), Some(0));
    assert_eq!(midpoint_gap(a, a), None);
}
