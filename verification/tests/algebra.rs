use int_interval::{I8CO, OneTwo, U8CO, ZeroOneTwo};

fn u(lo: u8, hi: u8) -> U8CO {
    U8CO::try_new(lo, hi).unwrap()
}

fn i(lo: i8, hi: i8) -> I8CO {
    I8CO::try_new(lo, hi).unwrap()
}

#[test]
fn try_new_refuses_empty_and_reversed() {
    assert!(U8CO::try_new(3, 3).is_none());
    assert!(U8CO::try_new(4, 3).is_none());
    assert!(I8CO::try_new(0, -1).is_none());
    let x = U8CO::new_unchecked(2, 8);
    assert_eq!(x, u(2, 8));
    assert_eq!((x.start(), x.end_excl(), x.end_incl(), x.len()), (2, 8, 7, 6));
}

#[test]
fn readme_difference_example() {
    let lhs = u(2, 10);
    let rhs = u(4, 6);
    let residuals = lhs.difference(rhs);
    assert_eq!(residuals.len(), 2);
    assert_eq!(residuals, ZeroOneTwo::Two(u(2, 4), u(6, 10)));
    assert_eq!(residuals.into_vec(), vec![u(2, 4), u(6, 10)]);
}

#[test]
fn predicates_on_examples() {
    let a = u(2, 10);
    assert!(a.contains(2));
    assert!(a.contains(9));
    assert!(!a.contains(10));
    assert!(!a.contains(1));
    assert!(a.contains_interval(u(4, 6)));
    assert!(a.contains_interval(a));
    assert!(!a.contains_interval(u(4, 11)));
    assert!(a.intersects(u(9, 12)));
    assert!(!a.intersects(u(10, 12)));
    assert!(a.is_adjacent(u(10, 12)));
    assert!(u(10, 12).is_adjacent(a));
    assert!(!a.is_adjacent(u(11, 12)));
    assert!(a.is_contiguous_with(u(10, 12)));
    assert!(!a.is_contiguous_with(u(11, 12)));
    assert_eq!(a.to_range(), 2..10);
    assert_eq!(a.iter().collect::<Vec<u8>>(), (2..10).collect::<Vec<u8>>());
}

#[test]
fn intersection_hull_between() {
    let a = u(2, 10);
    assert_eq!(a.intersection(u(4, 6)), Some(u(4, 6)));
    assert_eq!(a.intersection(u(8, 20)), Some(u(8, 10)));
    assert_eq!(a.intersection(u(10, 20)), None);
    assert_eq!(a.convex_hull(u(20, 30)), u(2, 30));
    assert_eq!(u(20, 30).convex_hull(a), u(2, 30));
    assert_eq!(a.between(u(20, 30)), Some(u(10, 20)));
    assert_eq!(u(20, 30).between(a), Some(u(10, 20)));
    assert_eq!(a.between(u(10, 30)), None);
    assert_eq!(a.between(u(5, 30)), None);
}

#[test]
fn union_cases() {
    let a = u(2, 10);
    assert_eq!(a.union(u(4, 6)), OneTwo::One(a));
    assert_eq!(a.union(u(10, 12)), OneTwo::One(u(2, 12)));
    assert_eq!(a.union(u(20, 30)), OneTwo::Two(a, u(20, 30)));
    assert_eq!(u(20, 30).union(a), OneTwo::Two(a, u(20, 30)));
    assert_eq!(a.union(u(4, 6)).len(), 1);
    assert_eq!(a.union(u(20, 30)).into_vec(), vec![a, u(20, 30)]);
}

#[test]
fn difference_cases() {
    let a = u(2, 10);
    assert_eq!(a.difference(u(0, 20)), ZeroOneTwo::Zero);
    assert_eq!(a.difference(u(0, 5)), ZeroOneTwo::One(u(5, 10)));
    assert_eq!(a.difference(u(5, 20)), ZeroOneTwo::One(u(2, 5)));
    assert_eq!(a.difference(u(20, 30)), ZeroOneTwo::One(a));
    assert!(a.difference(a).is_empty());
}

#[test]
fn symmetric_difference_cases() {
    let a = u(2, 10);
    assert_eq!(a.symmetric_difference(a), ZeroOneTwo::Zero);
    assert_eq!(
        a.symmetric_difference(u(5, 20)),
        ZeroOneTwo::Two(u(2, 5), u(10, 20))
    );
    assert_eq!(a.symmetric_difference(u(2, 5)), ZeroOneTwo::One(u(5, 10)));
    assert_eq!(
        a.symmetric_difference(u(10, 12)),
        ZeroOneTwo::Two(a, u(10, 12))
    );
    assert_eq!(
        u(20, 30).symmetric_difference(a),
        ZeroOneTwo::Two(a, u(20, 30))
    );
}

#[test]
fn signed_algebra() {
    let a = i(-10, 10);
    assert_eq!(a.intersection(i(-20, -5)), Some(i(-10, -5)));
    assert_eq!(a.difference(i(-5, 5)), ZeroOneTwo::Two(i(-10, -5), i(5, 10)));
    assert_eq!(a.union(i(10, 20)), OneTwo::One(i(-10, 20)));
    assert_eq!(a.between(i(-128, -20)), Some(i(-20, -10)));
    assert!(a.contains(-10));
    assert!(!a.contains(10));
    assert_eq!(a.to_range(), -10..10);
}

#[test]
fn readme_minkowski_example() {
    let a = i(-2, 3);
    let b = i(-1, 2);
    assert_eq!(a.checked_minkowski_add(b), Some(i(-3, 4)));
    assert_eq!(a.checked_minkowski_mul_hull(b), Some(i(-2, 3)));
    assert_eq!(a.saturating_minkowski_mul_hull(b), Some(i(-2, 3)));
    assert_eq!(a.checked_minkowski_sub(b), Some(i(-3, 4)));
}

#[test]
fn unsigned_minkowski_linear() {
    let a = u(2, 5);
    let b = u(1, 3);
    assert_eq!(a.checked_minkowski_add(b), Some(u(3, 7)));
    assert_eq!(a.checked_minkowski_sub(b), Some(u(0, 4)));
    assert_eq!(u(0, 2).checked_minkowski_sub(b), None);
    assert_eq!(u(0, 2).saturating_minkowski_sub(b), Some(u(0, 1)));
    assert_eq!(a.checked_minkowski_add_scalar(3), Some(u(5, 8)));
    assert_eq!(a.checked_minkowski_sub_scalar(2), Some(u(0, 3)));
    assert_eq!(a.checked_minkowski_sub_scalar(3), None);
    assert_eq!(a.saturating_minkowski_sub_scalar(3), Some(u(0, 2)));
    assert_eq!(u(250, 255).checked_minkowski_add_scalar(1), None);
    assert_eq!(u(250, 255).saturating_minkowski_add_scalar(1), Some(u(251, 255)));
    assert_eq!(u(250, 255).saturating_minkowski_add_scalar(10), None);
    assert_eq!(u(250, 255).checked_minkowski_add(u(0, 10)), None);
    assert_eq!(u(250, 255).saturating_minkowski_add(u(0, 10)), Some(u(250, 255)));
}

#[test]
fn unsigned_minkowski_hulls() {
    assert_eq!(u(2, 5).checked_minkowski_mul_hull(u(3, 4)), Some(u(6, 13)));
    assert_eq!(u(2, 5).checked_minkowski_mul_scalar_hull(3), Some(u(6, 13)));
    assert_eq!(u(2, 5).checked_minkowski_mul_scalar_hull(0), Some(u(0, 1)));
    assert_eq!(u(10, 21).checked_minkowski_div_hull(u(2, 5)), Some(u(2, 11)));
    assert_eq!(u(10, 21).checked_minkowski_div_hull(u(0, 3)), None);
    assert_eq!(u(10, 21).saturating_minkowski_div_hull(u(0, 3)), None);
    assert_eq!(u(10, 21).checked_minkowski_div_scalar_hull(3), Some(u(3, 7)));
    assert_eq!(u(10, 21).checked_minkowski_div_scalar_hull(0), None);
    assert_eq!(u(100, 200).checked_minkowski_mul_scalar_hull(2), None);
    assert_eq!(
        u(100, 200).saturating_minkowski_mul_scalar_hull(2),
        Some(u(200, 255))
    );
    assert_eq!(u(200, 210).saturating_minkowski_mul_hull(u(2, 3)), None);
}

#[test]
fn signed_minkowski_edges() {
    let min = i(i8::MIN, i8::MIN + 1);
    let neg_one = i(-1, 0);
    assert_eq!(min.checked_minkowski_div_hull(neg_one), None);
    assert_eq!(min.saturating_minkowski_div_hull(neg_one), None);
    assert_eq!(i(-10, 10).checked_minkowski_div_hull(i(-1, 2)), None);
    assert_eq!(i(-10, 11).checked_minkowski_div_hull(i(2, 4)), Some(i(-5, 6)));
    assert_eq!(i(-10, 11).checked_minkowski_div_scalar_hull(-3), Some(i(-3, 4)));
    assert_eq!(i(-128, -120).checked_minkowski_sub_scalar(1), None);
    assert_eq!(i(-128, -120).saturating_minkowski_sub_scalar(1), Some(i(-128, -121)));
    assert_eq!(i(100, 120).saturating_minkowski_add(i(10, 20)), Some(i(110, 127)));
    assert_eq!(i(100, 120).checked_minkowski_add(i(10, 20)), None);
    assert_eq!(i(-3, 4).checked_minkowski_mul_scalar_hull(-2), Some(i(-6, 7)));
    assert_eq!(i(-100, 4).saturating_minkowski_mul_scalar_hull(-2), Some(i(-6, 127)));
}

#[test]
fn midpoint_constructors_unsigned() {
    let x = U8CO::checked_from_midpoint_len(10, 5).unwrap();
    assert_eq!(x, u(8, 13));
    assert_eq!(x.midpoint(), 10);
    assert!(U8CO::checked_from_midpoint_len(1, 5).is_none());
    assert_eq!(U8CO::saturating_from_midpoint_len(1, 5), Some(u(0, 4)));
    assert_eq!(U8CO::saturating_from_midpoint_len(254, 6), Some(u(251, 255)));
    assert!(U8CO::saturating_from_midpoint_len(255, 1).is_none());
    assert!(U8CO::checked_from_midpoint_len(3, 0).is_none());
}
