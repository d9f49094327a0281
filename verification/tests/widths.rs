use int_interval::{
    I128CO, I16CO, I32CO, I64CO, IsizeCO, OneTwo, U128CO, U16CO, U32CO, U64CO, UsizeCO,
    ZeroOneTwo,
};

#[test]
fn readme_midpoint_examples() {
    let x = I16CO::checked_from_midpoint_len(-200, 255).unwrap();
    assert_eq!(x.start(), -327);
    assert_eq!(x.end_excl(), -72);

    let y = I64CO::saturating_from_midpoint_len(i64::MAX - 1, 5).unwrap();
    assert_eq!(y.end_excl(), i64::MAX);
    assert_eq!(y.start(), i64::MAX - 3);
}

#[test]
fn widest_signed_lengths() {
    let all = I128CO::try_new(i128::MIN, i128::MAX).unwrap();
    assert_eq!(all.len(), u128::MAX);
    assert_eq!(all.midpoint(), -1);
    let all = IsizeCO::try_new(isize::MIN, isize::MAX).unwrap();
    assert_eq!(all.len(), usize::MAX);
    let all = I32CO::try_new(i32::MIN, i32::MAX).unwrap();
    assert_eq!(all.len(), u32::MAX);
    assert_eq!(I64CO::try_new(-5, 7).unwrap().len(), 12);
}

#[test]
fn wide_unsigned_algebra() {
    let a = U64CO::try_new(10, 100).unwrap();
    let b = U64CO::try_new(50, 150).unwrap();
    assert_eq!(a.intersection(b), U64CO::try_new(50, 100));
    assert_eq!(a.union(b), OneTwo::One(U64CO::try_new(10, 150).unwrap()));
    assert_eq!(
        a.difference(b),
        ZeroOneTwo::One(U64CO::try_new(10, 50).unwrap())
    );
    assert_eq!(a.len(), 90);
    assert_eq!(a.midpoint(), 55);
    let c = U16CO::try_new(1, 4).unwrap();
    assert_eq!(c.scale(3), U16CO::try_new(3, 12));
    assert_eq!(c.shift(10), U16CO::try_new(11, 14));
    let d = U32CO::try_new(u32::MAX - 2, u32::MAX).unwrap();
    assert_eq!(d.shift(1), None);
    let e = UsizeCO::try_new(0, 3).unwrap();
    assert_eq!(e.checked_minkowski_sub_scalar(1), None);
    assert_eq!(e.saturating_minkowski_sub_scalar(1), UsizeCO::try_new(0, 2));
}

#[test]
fn wide_minkowski_hulls_at_the_edges() {
    let big = U128CO::try_new(u128::MAX / 2, u128::MAX / 2 + 2).unwrap();
    let two = U128CO::try_new(2, 3).unwrap();
    assert_eq!(big.checked_minkowski_mul_hull(two), None);
    assert_eq!(
        big.saturating_minkowski_mul_hull(two),
        U128CO::try_new(u128::MAX - 1, u128::MAX)
    );
    let min = I128CO::try_new(i128::MIN, i128::MIN + 1).unwrap();
    let neg_one = I128CO::try_new(-1, 0).unwrap();
    assert_eq!(min.checked_minkowski_div_hull(neg_one), None);
    assert_eq!(min.saturating_minkowski_div_hull(neg_one), None);
    let neg = I64CO::try_new(i64::MIN, i64::MIN + 2).unwrap();
    assert_eq!(neg.checked_minkowski_mul_scalar_hull(2), None);
    assert_eq!(neg.saturating_minkowski_mul_scalar_hull(2), None);
    assert_eq!(neg.saturating_minkowski_mul_scalar_hull(-1), None);
    let near = I64CO::try_new(i64::MIN + 1, i64::MIN + 3).unwrap();
    assert_eq!(near.checked_minkowski_mul_scalar_hull(-1), None);
    assert_eq!(
        near.saturating_minkowski_mul_scalar_hull(-1),
        I64CO::try_new(i64::MAX - 1, i64::MAX)
    );
    let a = I32CO::try_new(-7, 8).unwrap();
    let b = I32CO::try_new(2, 4).unwrap();
    assert_eq!(a.checked_minkowski_div_hull(b), I32CO::try_new(-3, 4));
    assert_eq!(a.checked_minkowski_mul_hull(b), I32CO::try_new(-21, 22));
}
