use int_interval::{I8CO, OneTwo, U8CO, ZeroOneTwo};
use std::collections::BTreeSet;

fn small_intervals() -> Vec<U8CO> {
    let mut v = Vec::new();
    for s in 0u8..12 {
        for e in (s + 1)..=12 {
            v.push(U8CO::try_new(s, e).unwrap());
        }
    }
    v
}

fn signed_intervals() -> Vec<I8CO> {
    let mut v = Vec::new();
    for s in -6i8..6 {
        for e in (s + 1)..=6 {
            v.push(I8CO::try_new(s, e).unwrap());
        }
    }
    v
}

fn pts(x: U8CO) -> BTreeSet<i32> {
    x.iter().map(i32::from).collect()
}

fn pts_i(x: I8CO) -> BTreeSet<i32> {
    x.iter().map(i32::from).collect()
}

fn pts_all(xs: Vec<U8CO>) -> BTreeSet<i32> {
    xs.into_iter().flat_map(pts).collect()
}

fn separated(xs: &[U8CO]) -> bool {
    xs.windows(2).all(|w| w[0].end_excl() < w[1].start())
}

#[test]
fn len_counts_points_and_is_monotone() {
    for a in small_intervals() {
        assert_eq!(a.len() as usize, pts(a).len());
        for b in small_intervals() {
            if a.contains_interval(b) {
                assert!(b.len() <= a.len());
                assert!(b == a || b.len() < a.len());
                assert!(pts(b).is_subset(&pts(a)));
            } else {
                assert!(!pts(b).is_subset(&pts(a)));
            }
        }
    }
}

#[test]
fn midpoint_law_and_midpoint_inverse() {
    for a in signed_intervals() {
        assert!(a.start() <= a.midpoint() && a.midpoint() <= a.end_incl());
    }
    for mid in i8::MIN..=i8::MAX {
        for len in 1u8..=255 {
            if let Some(iv) = I8CO::checked_from_midpoint_len(mid, len) {
                assert_eq!(iv.len(), len);
                assert_eq!(iv.midpoint(), mid);
            }
        }
    }
}

#[test]
fn set_algebra_matches_point_sets() {
    for a in small_intervals() {
        for b in small_intervals() {
            let (pa, pb) = (pts(a), pts(b));
            let inter: BTreeSet<i32> = pa.intersection(&pb).copied().collect();
            match a.intersection(b) {
                Some(c) => assert_eq!(pts(c), inter),
                None => assert!(inter.is_empty()),
            }
            assert_eq!(a.intersects(b), !inter.is_empty());
            assert_eq!(a.intersection(b), b.intersection(a));

            let union: BTreeSet<i32> = pa.union(&pb).copied().collect();
            let u = a.union(b).into_vec();
            assert!(separated(&u));
            assert_eq!(pts_all(u), union);
            assert_eq!(matches!(a.union(b), OneTwo::One(_)), a.is_contiguous_with(b));
            assert_eq!(a.union(b), b.union(a));

            let diff = a.difference(b).into_vec();
            assert!(separated(&diff));
            let want: BTreeSet<i32> = pa.difference(&pb).copied().collect();
            assert_eq!(pts_all(diff), want);

            let sym = a.symmetric_difference(b).into_vec();
            assert!(sym.windows(2).all(|w| w[0].end_excl() <= w[1].start()));
            let want: BTreeSet<i32> = pa.symmetric_difference(&pb).copied().collect();
            assert_eq!(pts_all(sym), want);
            assert_eq!(a.symmetric_difference(b), b.symmetric_difference(a));

            let hull = a.convex_hull(b);
            assert!(hull.contains_interval(a) && hull.contains_interval(b));
            assert_eq!(hull, b.convex_hull(a));

            match a.between(b) {
                Some(g) => {
                    assert!(!a.is_contiguous_with(b));
                    let want: BTreeSet<i32> = pts(hull).difference(&union).copied().collect();
                    assert_eq!(pts(g), want);
                }
                None => assert!(a.is_contiguous_with(b)),
            }
            if a.is_adjacent(b) {
                assert!(!a.intersects(b));
            }
        }
    }
}

#[test]
fn minkowski_sets_and_hulls() {
    for a in signed_intervals() {
        for b in signed_intervals() {
            let mut sums = BTreeSet::new();
            let mut diffs = BTreeSet::new();
            let mut prods = BTreeSet::new();
            let mut quots = BTreeSet::new();
            for x in pts_i(a) {
                for y in pts_i(b) {
                    sums.insert(x + y);
                    diffs.insert(x - y);
                    prods.insert(x * y);
                    if y != 0 {
                        quots.insert(x / y);
                    }
                }
            }
            assert_eq!(pts_i(a.checked_minkowski_add(b).unwrap()), sums);
            assert_eq!(pts_i(a.checked_minkowski_sub(b).unwrap()), diffs);
            let h = a.checked_minkowski_mul_hull(b).unwrap();
            assert_eq!(i32::from(h.start()), *prods.first().unwrap());
            assert_eq!(i32::from(h.end_incl()), *prods.last().unwrap());
            match a.checked_minkowski_div_hull(b) {
                Some(q) => {
                    assert!(!b.contains(0));
                    assert_eq!(i32::from(q.start()), *quots.first().unwrap());
                    assert_eq!(i32::from(q.end_incl()), *quots.last().unwrap());
                }
                None => assert!(b.contains(0)),
            }
        }
    }
}

#[test]
fn saturated_results_are_the_representable_part() {
    for a in small_intervals() {
        for k in [0u8, 1, 100, 250, 255] {
            let exact: BTreeSet<i32> = pts(a).iter().map(|x| x + i32::from(k)).collect();
            let part: BTreeSet<i32> = exact.iter().copied().filter(|x| *x < 255).collect();
            match a.saturating_minkowski_add_scalar(k) {
                Some(c) => assert_eq!(pts(c), part),
                None => assert!(part.is_empty()),
            }
            match a.checked_minkowski_add_scalar(k) {
                Some(c) => assert_eq!(pts(c), exact),
                None => assert!(exact.iter().any(|x| *x >= 255)),
            }
        }
    }
}

#[test]
fn difference_kinds() {
    let a = U8CO::try_new(2, 10).unwrap();
    assert!(matches!(a.difference(a), ZeroOneTwo::Zero));
}
