use vstd::prelude::*;

use crate::res::{OneTwo, ZeroOneTwo};
use crate::traits::sealed::{clamp_int, trunc_div};
use vstd::arithmetic::div_mod::{
    lemma_div_is_ordered, lemma_div_is_ordered_by_denominator, lemma_div_pos_is_pos,
};
use vstd::math::{max, min};
use vstd::set_lib::{lemma_int_range, set_int_range};

verus! {

/// The mathematical model of a closed-open interval `[start, end_excl)` of integers.
/// A well-formed span is non-empty: `start < end_excl`.
pub struct Span {
    pub start: int,
    pub end_excl: int,
}

/// The points covered by a list of spans.
pub open spec fn points_of(s: Seq<Span>) -> Set<int> {
    Set::new(|x: int| exists|i: int| 0 <= i < s.len() && (#[trigger] s[i]).contains(x))
}

/// Spans that are each well-formed and follow one another with a gap in between.
pub open spec fn separated(s: Seq<Span>) -> bool {
    &&& forall|i: int| 0 <= i < s.len() ==> (#[trigger] s[i]).wf()
    &&& forall|i: int, j: int| 0 <= i < j < s.len() ==> (#[trigger] s[i]).end_excl < (
    #[trigger] s[j]).start
}

/// Spans that are each well-formed and follow one another without overlap.
pub open spec fn ordered_disjoint(s: Seq<Span>) -> bool {
    &&& forall|i: int| 0 <= i < s.len() ==> (#[trigger] s[i]).wf()
    &&& forall|i: int, j: int| 0 <= i < j < s.len() ==> (#[trigger] s[i]).end_excl <= (
    #[trigger] s[j]).start
}

impl Span {
    pub open spec fn new(start: int, end_excl: int) -> Span {
        Span { start, end_excl }
    }

    /// Non-empty.
    pub open spec fn wf(self) -> bool {
        self.start < self.end_excl
    }

    /// Lies within `[lo, hi]`: the span is representable by a primitive type with that
    /// range.
    pub open spec fn fits(self, lo: int, hi: int) -> bool {
        lo <= self.start && self.end_excl <= hi
    }

    pub open spec fn contains(self, x: int) -> bool {
        self.start <= x < self.end_excl
    }

    /// The set of points covered.
    pub open spec fn to_set(self) -> Set<int> {
        set_int_range(self.start, self.end_excl)
    }

    pub open spec fn len(self) -> int {
        self.end_excl - self.start
    }

    pub open spec fn end_incl(self) -> int {
        self.end_excl - 1
    }

    /// The point half the length (rounded down) past the start.
    pub open spec fn midpoint(self) -> int {
        self.start + self.len() / 2
    }

    /// The span of length `len` whose midpoint is `mid`.
    pub open spec fn from_midpoint_len(mid: int, len: int) -> Span {
        Span { start: mid - len / 2, end_excl: mid - len / 2 + len }
    }

    /// Every point of `other` lies in `self`.
    pub open spec fn contains_span(self, other: Span) -> bool {
        self.start <= other.start && other.end_excl <= self.end_excl
    }

    /// The two spans share a point.
    pub open spec fn intersects(self, other: Span) -> bool {
        self.start < other.end_excl && other.start < self.end_excl
    }

    /// One span ends exactly where the other starts.
    pub open spec fn is_adjacent(self, other: Span) -> bool {
        self.end_excl == other.start || other.end_excl == self.start
    }

    /// The two spans overlap or touch, so that their union is one span.
    pub open spec fn is_contiguous_with(self, other: Span) -> bool {
        self.intersects(other) || self.is_adjacent(other)
    }

    pub open spec fn intersection(self, other: Span) -> Option<Span> {
        let s = max(self.start, other.start);
        let e = min(self.end_excl, other.end_excl);
        if s < e {
            Some(Span { start: s, end_excl: e })
        } else {
            None
        }
    }

    pub open spec fn convex_hull(self, other: Span) -> Span {
        Span {
            start: min(self.start, other.start),
            end_excl: max(self.end_excl, other.end_excl),
        }
    }

    /// The gap strictly between the two spans, taken in order of their starts.
    pub open spec fn between(self, other: Span) -> Option<Span> {
        let (l, r) = if self.start <= other.start {
            (self, other)
        } else {
            (other, self)
        };
        if l.end_excl < r.start {
            Some(Span { start: l.end_excl, end_excl: r.start })
        } else {
            None
        }
    }

    pub open spec fn union(self, other: Span) -> OneTwo<Span> {
        if self.is_contiguous_with(other) {
            OneTwo::One(self.convex_hull(other))
        } else if self.start <= other.start {
            OneTwo::Two(self, other)
        } else {
            OneTwo::Two(other, self)
        }
    }

    /// The part of `self` before `cut` and the part after it, each where non-empty.
    pub open spec fn outside(self, cut: Span) -> ZeroOneTwo<Span> {
        let left = self.start < cut.start;
        let right = cut.end_excl < self.end_excl;
        if left && right {
            ZeroOneTwo::Two(
                Span { start: self.start, end_excl: cut.start },
                Span { start: cut.end_excl, end_excl: self.end_excl },
            )
        } else if left {
            ZeroOneTwo::One(Span { start: self.start, end_excl: cut.start })
        } else if right {
            ZeroOneTwo::One(Span { start: cut.end_excl, end_excl: self.end_excl })
        } else {
            ZeroOneTwo::Zero
        }
    }

    pub open spec fn difference(self, other: Span) -> ZeroOneTwo<Span> {
        match self.intersection(other) {
            None => ZeroOneTwo::One(self),
            Some(inter) => self.outside(inter),
        }
    }

    pub open spec fn symmetric_difference(self, other: Span) -> ZeroOneTwo<Span> {
        match self.intersection(other) {
            None => if self.start <= other.start {
                ZeroOneTwo::Two(self, other)
            } else {
                ZeroOneTwo::Two(other, self)
            },
            Some(inter) => self.convex_hull(other).outside(inter),
        }
    }

    /// `{x + y | x in self, y in other}`.
    pub open spec fn minkowski_add(self, other: Span) -> Span {
        Span { start: self.start + other.start, end_excl: self.end_excl + other.end_excl - 1 }
    }

    /// `{x - y | x in self, y in other}`.
    pub open spec fn minkowski_sub(self, other: Span) -> Span {
        Span { start: self.start - other.end_incl(), end_excl: self.end_excl - other.start }
    }

    /// `{x + k | x in self}`.
    pub open spec fn add_scalar(self, k: int) -> Span {
        Span { start: self.start + k, end_excl: self.end_excl + k }
    }

    /// Both end points multiplied by `k`.
    pub open spec fn scale(self, k: int) -> Span {
        Span { start: self.start * k, end_excl: self.end_excl * k }
    }

    /// `{x - k | x in self}`.
    pub open spec fn sub_scalar(self, k: int) -> Span {
        Span { start: self.start - k, end_excl: self.end_excl - k }
    }

    /// The smallest span holding every product `x * y` with `x` in `self`, `y` in `other`:
    /// it runs from the least to the greatest product of end points.
    pub open spec fn mul_hull(self, other: Span) -> Span {
        hull_of_corners(
            self.start * other.start,
            self.start * other.end_incl(),
            self.end_incl() * other.start,
            self.end_incl() * other.end_incl(),
        )
    }

    /// The smallest span holding every product `x * k` with `x` in `self`.
    pub open spec fn mul_scalar_hull(self, k: int) -> Span {
        hull_of_corners(self.start * k, self.start * k, self.end_incl() * k, self.end_incl() * k)
    }

    /// The smallest span holding every quotient (rounded toward zero) `x / y` with `x` in
    /// `self`, `y` in `other`; meant for a divisor span without zero.
    pub open spec fn div_hull(self, other: Span) -> Span {
        hull_of_corners(
            trunc_div(self.start, other.start),
            trunc_div(self.start, other.end_incl()),
            trunc_div(self.end_incl(), other.start),
            trunc_div(self.end_incl(), other.end_incl()),
        )
    }

    /// The smallest span holding every quotient (rounded toward zero) `x / k` with `x` in
    /// `self`; meant for `k != 0`.
    pub open spec fn div_scalar_hull(self, k: int) -> Span {
        hull_of_corners(
            trunc_div(self.start, k),
            trunc_div(self.start, k),
            trunc_div(self.end_incl(), k),
            trunc_div(self.end_incl(), k),
        )
    }

    /// Both end points clamped to `[lo, hi]`.
    pub open spec fn clamp(self, lo: int, hi: int) -> Span {
        Span { start: clamp_int(self.start, lo, hi), end_excl: clamp_int(self.end_excl, lo, hi) }
    }
}

/// The span from the least to the greatest of four points, the greatest included.
pub open spec fn hull_of_corners(a: int, b: int, c: int, d: int) -> Span {
    Span { start: min(min(a, b), min(c, d)), end_excl: max(max(a, b), max(c, d)) + 1 }
}

/// The hull of four points starts at one of them, ends just past one of them, and holds
/// all four.
pub proof fn lemma_hull_bounds(a: int, b: int, c: int, d: int)
    ensures
        ({
            let h = hull_of_corners(a, b, c, d);
            &&& h.start <= a <= h.end_incl()
            &&& h.start <= b <= h.end_incl()
            &&& h.start <= c <= h.end_incl()
            &&& h.start <= d <= h.end_incl()
            &&& (h.start == a || h.start == b || h.start == c || h.start == d)
            &&& (h.end_incl() == a || h.end_incl() == b || h.end_incl() == c || h.end_incl() == d)
        }),
{
}

/// The result of a checked operation whose exact result is `exact`, for a type with
/// range `[lo, hi]`: the span where it is non-empty and representable, else nothing.
pub open spec fn checked_span(exact: Span, lo: int, hi: int) -> Option<Span> {
    if exact.wf() && exact.fits(lo, hi) {
        Some(exact)
    } else {
        None
    }
}

/// The result of a saturating operation whose exact result is `exact`, for a type with
/// range `[lo, hi]`: the end points clamped into the range, where that leaves a
/// non-empty span.
pub open spec fn saturated_span(exact: Span, lo: int, hi: int) -> Option<Span> {
    let c = exact.clamp(lo, hi);
    if c.wf() {
        Some(c)
    } else {
        None
    }
}

/// The model of an optional interval value.
pub open spec fn opt_view<T: View<V = Span>>(o: Option<T>) -> Option<Span> {
    match o {
        Some(v) => Some(v@),
        None => None,
    }
}

/// The scalar hulls are the hulls with a one-point span.
pub proof fn lemma_scalar_hulls_are_point_hulls(a: Span, k: int)
    ensures
        a.mul_scalar_hull(k) == a.mul_hull(Span::new(k, k + 1)),
        a.div_scalar_hull(k) == a.div_hull(Span::new(k, k + 1)),
{
}

/// The number of points of a span is its length.
pub proof fn lemma_len_counts_points(a: Span)
    requires
        a.wf(),
    ensures
        a.to_set().finite(),
        a.to_set().len() == a.len(),
        a.len() >= 1,
{
    lemma_int_range(a.start, a.end_excl);
}

/// The midpoint lies in the span, between its start and its last point.
pub proof fn lemma_midpoint_in_bounds(a: Span)
    requires
        a.wf(),
    ensures
        a.start <= a.midpoint() <= a.end_incl(),
        a.contains(a.midpoint()),
{
}

/// Building from a midpoint and a length gives back that length and that midpoint.
pub proof fn lemma_from_midpoint_len_inverse(mid: int, len: int)
    requires
        len >= 1,
    ensures
        Span::from_midpoint_len(mid, len).wf(),
        Span::from_midpoint_len(mid, len).len() == len,
        Span::from_midpoint_len(mid, len).midpoint() == mid,
{
}

/// A span that holds another is at least as long, and longer where it holds more.
pub proof fn lemma_len_monotone(a: Span, b: Span)
    requires
        a.wf(),
        b.wf(),
        a.contains_span(b),
    ensures
        b.len() <= a.len(),
        b != a ==> b.len() < a.len(),
{
}

/// A saturating result is exactly the part of the exact result that the type can hold:
/// its points in `[lo, hi)` (the last value `hi` can only end a half-open span).
pub proof fn lemma_saturated_is_representable_part(exact: Span, lo: int, hi: int)
    requires
        exact.wf(),
        lo <= hi,
    ensures
        match saturated_span(exact, lo, hi) {
            Some(c) => c.fits(lo, hi) && c.to_set() == exact.to_set().intersect(
                set_int_range(lo, hi),
            ),
            None => exact.to_set().intersect(set_int_range(lo, hi)) == Set::<int>::empty(),
        },
{
    match saturated_span(exact, lo, hi) {
        Some(c) => {
            assert(c.to_set() =~= exact.to_set().intersect(set_int_range(lo, hi)));
        },
        None => {
            assert(exact.to_set().intersect(set_int_range(lo, hi)) =~= Set::<int>::empty());
        },
    }
}

/// A checked result, where there is one, is the exact result.
pub proof fn lemma_checked_is_exact(exact: Span, lo: int, hi: int)
    ensures
        checked_span(exact, lo, hi) matches Some(c) ==> c == exact && c.wf() && c.fits(lo, hi),
        checked_span(exact, lo, hi) is None <==> !(exact.wf() && exact.fits(lo, hi)),
{
}

/// `contains_span` is set inclusion.
pub proof fn lemma_contains_span_is_subset(a: Span, b: Span)
    requires
        a.wf(),
        b.wf(),
    ensures
        a.contains_span(b) <==> b.to_set().subset_of(a.to_set()),
{
    if b.to_set().subset_of(a.to_set()) {
        assert(b.to_set().contains(b.start));
        assert(b.to_set().contains(b.end_incl()));
    }
}

/// `intersects` holds exactly when the spans share a point, and exactly when their
/// intersection is non-empty.
pub proof fn lemma_intersects_iff_shared_point(a: Span, b: Span)
    requires
        a.wf(),
        b.wf(),
    ensures
        a.intersects(b) <==> !a.to_set().disjoint(b.to_set()),
        a.intersects(b) <==> a.intersection(b) is Some,
{
    if a.intersects(b) {
        let x = max(a.start, b.start);
        assert(a.to_set().contains(x) && b.to_set().contains(x));
    }
}

/// The intersection is the set intersection; where empty, the result is `None`.
pub proof fn lemma_intersection_is_set_intersection(a: Span, b: Span)
    requires
        a.wf(),
        b.wf(),
    ensures
        match a.intersection(b) {
            Some(c) => c.wf() && c.to_set() == a.to_set().intersect(b.to_set()),
            None => a.to_set().intersect(b.to_set()) == Set::<int>::empty(),
        },
        a.intersection(b) == b.intersection(a),
{
    match a.intersection(b) {
        Some(c) => {
            assert(c.to_set() =~= a.to_set().intersect(b.to_set()));
        },
        None => {
            assert(a.to_set().intersect(b.to_set()) =~= Set::<int>::empty());
        },
    }
}

/// The convex hull holds both spans and lies in every span that holds both.
pub proof fn lemma_convex_hull_is_least(a: Span, b: Span, c: Span)
    requires
        a.wf(),
        b.wf(),
    ensures
        a.convex_hull(b).wf(),
        a.convex_hull(b).contains_span(a),
        a.convex_hull(b).contains_span(b),
        c.contains_span(a) && c.contains_span(b) ==> c.contains_span(a.convex_hull(b)),
        a.convex_hull(b) == b.convex_hull(a),
{
}

/// The gap between two spans is exactly the points of their hull that lie in neither;
/// there is none exactly when the spans are contiguous.
pub proof fn lemma_between_is_gap(a: Span, b: Span)
    requires
        a.wf(),
        b.wf(),
    ensures
        a.between(b) is None <==> a.is_contiguous_with(b),
        a.between(b) matches Some(g) ==> g.wf() && g.to_set() == a.convex_hull(
            b,
        ).to_set().difference(a.to_set().union(b.to_set())),
        a.between(b) == b.between(a),
{
    if let Some(g) = a.between(b) {
        assert(g.to_set() =~= a.convex_hull(b).to_set().difference(a.to_set().union(b.to_set())));
    }
}

/// The union covers exactly the points of both spans: one span when they are
/// contiguous, else the two spans in order with a gap between.
pub proof fn lemma_union_is_set_union(a: Span, b: Span)
    requires
        a.wf(),
        b.wf(),
    ensures
        a.union(b) is One <==> a.is_contiguous_with(b),
        separated(a.union(b).items()),
        points_of(a.union(b).items()) == a.to_set().union(b.to_set()),
        a.union(b) == b.union(a),
{
    let s = a.union(b).items();
    if a.is_contiguous_with(b) {
        let h = a.convex_hull(b);
        assert forall|x: int| points_of(s).contains(x) == a.to_set().union(b.to_set()).contains(
            x,
        ) by {
            if h.contains(x) {
                assert(s[0].contains(x));
            }
        }
    } else {
        assert forall|x: int| points_of(s).contains(x) == a.to_set().union(b.to_set()).contains(
            x,
        ) by {
            if a.contains(x) || b.contains(x) {
                if s[0].contains(x) {
                } else {
                    assert(s[1].contains(x));
                }
            }
        }
    }
    assert(points_of(s) =~= a.to_set().union(b.to_set()));
}

/// The points of `outside` are those of `a` that `cut` leaves out, in separated spans.
proof fn lemma_outside(a: Span, cut: Span)
    requires
        a.wf(),
        cut.wf(),
        a.start <= cut.end_excl,
        cut.start <= a.end_excl,
    ensures
        separated(a.outside(cut).items()),
        points_of(a.outside(cut).items()) == a.to_set().difference(cut.to_set()),
{
    let s = a.outside(cut).items();
    assert forall|x: int| points_of(s).contains(x) == a.to_set().difference(
        cut.to_set(),
    ).contains(x) by {
        if a.to_set().difference(cut.to_set()).contains(x) {
            if s.len() == 2 {
                if !s[0].contains(x) {
                    assert(s[1].contains(x));
                }
            } else {
                assert(s[0].contains(x));
            }
        }
    }
    assert(points_of(s) =~= a.to_set().difference(cut.to_set()));
}

/// The difference covers exactly the points of `a` not in `b`, in separated spans.
pub proof fn lemma_difference_is_set_difference(a: Span, b: Span)
    requires
        a.wf(),
        b.wf(),
    ensures
        separated(a.difference(b).items()),
        points_of(a.difference(b).items()) == a.to_set().difference(b.to_set()),
{
    let s = a.difference(b).items();
    match a.intersection(b) {
        None => {
            assert forall|x: int| points_of(s).contains(x) == a.to_set().difference(
                b.to_set(),
            ).contains(x) by {
                if a.contains(x) {
                    assert(s[0].contains(x));
                }
            }
            assert(points_of(s) =~= a.to_set().difference(b.to_set()));
        },
        Some(i) => {
            lemma_outside(a, i);
            assert(a.to_set().difference(i.to_set()) =~= a.to_set().difference(b.to_set()));
        },
    }
}

/// The symmetric difference covers exactly the points in one span but not the other,
/// in spans that follow one another without overlap (two disjoint inputs come back as
/// they are, touching where they are adjacent).
pub proof fn lemma_symmetric_difference_is_set_symmetric_difference(a: Span, b: Span)
    requires
        a.wf(),
        b.wf(),
    ensures
        ordered_disjoint(a.symmetric_difference(b).items()),
        points_of(a.symmetric_difference(b).items()) == a.to_set().difference(b.to_set()).union(
            b.to_set().difference(a.to_set()),
        ),
        a.symmetric_difference(b) == b.symmetric_difference(a),
{
    let s = a.symmetric_difference(b).items();
    let want = a.to_set().difference(b.to_set()).union(b.to_set().difference(a.to_set()));
    match a.intersection(b) {
        None => {
            assert forall|x: int| points_of(s).contains(x) == want.contains(x) by {
                if a.contains(x) || b.contains(x) {
                    if !s[0].contains(x) {
                        assert(s[1].contains(x));
                    }
                }
            }
            assert(points_of(s) =~= want);
        },
        Some(i) => {
            let h = a.convex_hull(b);
            lemma_outside(h, i);
            assert(h.to_set().difference(i.to_set()) =~= want);
        },
    }
}

/// Adjacent spans touch without sharing a point.
pub proof fn lemma_adjacent_is_disjoint(a: Span, b: Span)
    requires
        a.wf(),
        b.wf(),
        a.is_adjacent(b),
    ensures
        !a.intersects(b),
        a.to_set().disjoint(b.to_set()),
{
}

/// The Minkowski sum is exactly the set of sums.
pub proof fn lemma_minkowski_add_is_sumset(a: Span, b: Span)
    requires
        a.wf(),
        b.wf(),
    ensures
        a.minkowski_add(b).wf(),
        forall|x: int, y: int|
            a.contains(x) && b.contains(y) ==> #[trigger] a.minkowski_add(b).contains(x + y),
        forall|z: int|
            #[trigger] a.minkowski_add(b).contains(z) ==> exists|x: int, y: int|
                a.contains(x) && b.contains(y) && z == x + y,
{
    assert forall|z: int| #[trigger] a.minkowski_add(b).contains(z) implies exists|x: int, y: int|
        a.contains(x) && b.contains(y) && z == x + y by {
        let x = min(z - b.start, a.end_incl());
        let y = z - x;
        assert(a.contains(x) && b.contains(y) && z == x + y);
    }
}

/// The Minkowski difference is exactly the set of differences.
pub proof fn lemma_minkowski_sub_is_difference_set(a: Span, b: Span)
    requires
        a.wf(),
        b.wf(),
    ensures
        a.minkowski_sub(b).wf(),
        forall|x: int, y: int|
            a.contains(x) && b.contains(y) ==> #[trigger] a.minkowski_sub(b).contains(x - y),
        forall|z: int|
            #[trigger] a.minkowski_sub(b).contains(z) ==> exists|x: int, y: int|
                a.contains(x) && b.contains(y) && z == x - y,
{
    assert forall|z: int| #[trigger] a.minkowski_sub(b).contains(z) implies exists|x: int, y: int|
        a.contains(x) && b.contains(y) && z == x - y by {
        let x = min(z + b.end_incl(), a.end_incl());
        let y = x - z;
        assert(a.contains(x) && b.contains(y) && z == x - y);
    }
}

/// A product lies between the least and the greatest product of the end points.
proof fn lemma_product_between_corners(x: int, a1: int, a2: int, y: int, b1: int, b2: int)
    requires
        a1 <= x <= a2,
        b1 <= y <= b2,
    ensures
        hull_of_corners(a1 * b1, a1 * b2, a2 * b1, a2 * b2).contains(x * y),
{
    // x * y lies between a1 * y and a2 * y, and each of those between the corners.
    assert(min(a1 * y, a2 * y) <= x * y <= max(a1 * y, a2 * y)) by (nonlinear_arith)
        requires
            a1 <= x <= a2,
    ;
    assert(min(a1 * b1, a1 * b2) <= a1 * y <= max(a1 * b1, a1 * b2)) by (nonlinear_arith)
        requires
            b1 <= y <= b2,
    ;
    assert(min(a2 * b1, a2 * b2) <= a2 * y <= max(a2 * b1, a2 * b2)) by (nonlinear_arith)
        requires
            b1 <= y <= b2,
    ;
}

/// The multiplication hull holds every product and no span with fewer points does: its
/// first and last points are products.
pub proof fn lemma_mul_hull_is_tight(a: Span, b: Span)
    requires
        a.wf(),
        b.wf(),
    ensures
        a.mul_hull(b).wf(),
        forall|x: int, y: int|
            a.contains(x) && b.contains(y) ==> #[trigger] a.mul_hull(b).contains(x * y),
        exists|x: int, y: int|
            a.contains(x) && b.contains(y) && x * y == a.mul_hull(b).start,
        exists|x: int, y: int|
            a.contains(x) && b.contains(y) && x * y == a.mul_hull(b).end_incl(),
{
    assert forall|x: int, y: int| a.contains(x) && b.contains(y) implies #[trigger] a.mul_hull(
        b,
    ).contains(x * y) by {
        lemma_product_between_corners(x, a.start, a.end_incl(), y, b.start, b.end_incl());
    }
    let (a1, a2, b1, b2) = (a.start, a.end_incl(), b.start, b.end_incl());
    assert(a.contains(a1) && a.contains(a2) && b.contains(b1) && b.contains(b2));
    let h = a.mul_hull(b);
    if h.start == a1 * b1 {
        assert(a.contains(a1) && b.contains(b1) && a1 * b1 == h.start);
    } else if h.start == a1 * b2 {
        assert(a.contains(a1) && b.contains(b2) && a1 * b2 == h.start);
    } else if h.start == a2 * b1 {
        assert(a.contains(a2) && b.contains(b1) && a2 * b1 == h.start);
    } else {
        assert(a.contains(a2) && b.contains(b2) && a2 * b2 == h.start);
    }
    if h.end_incl() == a1 * b1 {
        assert(a.contains(a1) && b.contains(b1) && a1 * b1 == h.end_incl());
    } else if h.end_incl() == a1 * b2 {
        assert(a.contains(a1) && b.contains(b2) && a1 * b2 == h.end_incl());
    } else if h.end_incl() == a2 * b1 {
        assert(a.contains(a2) && b.contains(b1) && a2 * b1 == h.end_incl());
    } else {
        assert(a.contains(a2) && b.contains(b2) && a2 * b2 == h.end_incl());
    }
}

/// With a positive divisor, the quotient rounded toward zero grows with the dividend.
proof fn lemma_trunc_div_monotone_in_dividend(x1: int, x2: int, d: int)
    requires
        x1 <= x2,
        d > 0,
    ensures
        trunc_div(x1, d) <= trunc_div(x2, d),
{
    if 0 <= x1 {
        lemma_div_is_ordered(x1, x2, d);
    } else if x2 < 0 {
        lemma_div_is_ordered(-x2, -x1, d);
    } else {
        lemma_div_pos_is_pos(-x1, d);
        lemma_div_pos_is_pos(x2, d);
    }
}

/// With a dividend of fixed sign, the quotient rounded toward zero moves monotonically
/// as a positive divisor grows: down for a non-negative dividend, up for a negative one.
proof fn lemma_trunc_div_monotone_in_divisor(x: int, d1: int, d2: int)
    requires
        1 <= d1 <= d2,
    ensures
        x >= 0 ==> trunc_div(x, d2) <= trunc_div(x, d1),
        x < 0 ==> trunc_div(x, d1) <= trunc_div(x, d2),
{
    if x >= 0 {
        lemma_div_is_ordered_by_denominator(x, d1, d2);
    } else {
        lemma_div_is_ordered_by_denominator(-x, d1, d2);
    }
}

/// Dividing by a negative divisor negates the quotient by its opposite.
proof fn lemma_trunc_div_neg_divisor(x: int, d: int)
    requires
        d != 0,
    ensures
        trunc_div(x, d) == -trunc_div(x, -d),
{
}

/// With a positive divisor span, a quotient lies between the quotients of the ends.
proof fn lemma_quotient_between_corners_pos(x: int, a1: int, a2: int, y: int, b1: int, b2: int)
    requires
        a1 <= x <= a2,
        1 <= b1 <= y <= b2,
    ensures
        hull_of_corners(
            trunc_div(a1, b1),
            trunc_div(a1, b2),
            trunc_div(a2, b1),
            trunc_div(a2, b2),
        ).contains(trunc_div(x, y)),
{
    lemma_trunc_div_monotone_in_dividend(a1, x, y);
    lemma_trunc_div_monotone_in_dividend(x, a2, y);
    lemma_trunc_div_monotone_in_divisor(a1, b1, y);
    lemma_trunc_div_monotone_in_divisor(a1, y, b2);
    lemma_trunc_div_monotone_in_divisor(a2, b1, y);
    lemma_trunc_div_monotone_in_divisor(a2, y, b2);
}

/// With a divisor span that holds no zero, a quotient lies between the quotients of the
/// end points.
proof fn lemma_quotient_between_corners(x: int, a1: int, a2: int, y: int, b1: int, b2: int)
    requires
        a1 <= x <= a2,
        b1 <= y <= b2,
        b2 < 0 || 0 < b1,
    ensures
        hull_of_corners(
            trunc_div(a1, b1),
            trunc_div(a1, b2),
            trunc_div(a2, b1),
            trunc_div(a2, b2),
        ).contains(trunc_div(x, y)),
{
    if 0 < b1 {
        lemma_quotient_between_corners_pos(x, a1, a2, y, b1, b2);
    } else {
        lemma_quotient_between_corners_pos(x, a1, a2, -y, -b2, -b1);
        lemma_trunc_div_neg_divisor(x, y);
        lemma_trunc_div_neg_divisor(a1, b1);
        lemma_trunc_div_neg_divisor(a1, b2);
        lemma_trunc_div_neg_divisor(a2, b1);
        lemma_trunc_div_neg_divisor(a2, b2);
    }
}

/// Where the divisor span holds no zero, the division hull holds every quotient and no
/// span with fewer points does: its first and last points are quotients.
pub proof fn lemma_div_hull_is_tight(a: Span, b: Span)
    requires
        a.wf(),
        b.wf(),
        !b.contains(0),
    ensures
        a.div_hull(b).wf(),
        forall|x: int, y: int|
            a.contains(x) && b.contains(y) ==> #[trigger] a.div_hull(b).contains(trunc_div(x, y)),
        exists|x: int, y: int|
            a.contains(x) && b.contains(y) && trunc_div(x, y) == a.div_hull(b).start,
        exists|x: int, y: int|
            a.contains(x) && b.contains(y) && trunc_div(x, y) == a.div_hull(b).end_incl(),
{
    let (a1, a2, b1, b2) = (a.start, a.end_incl(), b.start, b.end_incl());
    assert forall|x: int, y: int| a.contains(x) && b.contains(y) implies #[trigger] a.div_hull(
        b,
    ).contains(trunc_div(x, y)) by {
        lemma_quotient_between_corners(x, a1, a2, y, b1, b2);
    }
    assert(a.contains(a1) && a.contains(a2) && b.contains(b1) && b.contains(b2));
    let h = a.div_hull(b);
    if h.start == trunc_div(a1, b1) {
        assert(trunc_div(a1, b1) == h.start);
    } else if h.start == trunc_div(a1, b2) {
        assert(trunc_div(a1, b2) == h.start);
    } else if h.start == trunc_div(a2, b1) {
        assert(trunc_div(a2, b1) == h.start);
    } else {
        assert(trunc_div(a2, b2) == h.start);
    }
    if h.end_incl() == trunc_div(a1, b1) {
        assert(trunc_div(a1, b1) == h.end_incl());
    } else if h.end_incl() == trunc_div(a1, b2) {
        assert(trunc_div(a1, b2) == h.end_incl());
    } else if h.end_incl() == trunc_div(a2, b1) {
        assert(trunc_div(a2, b1) == h.end_incl());
    } else {
        assert(trunc_div(a2, b2) == h.end_incl());
    }
}

/// A product of non-negative values is non-negative.
pub proof fn lemma_nonneg_product()
    ensures
        forall|x: int, y: int| 0 <= x && 0 <= y ==> #[trigger] (x * y) >= 0,
{
    assert(forall|x: int, y: int| 0 <= x && 0 <= y ==> #[trigger] (x * y) >= 0)
        by (nonlinear_arith);
}

/// For a non-negative dividend and a positive divisor the quotient rounded toward zero is
/// the floor quotient, and lies between zero and the dividend.
pub proof fn lemma_unsigned_quotient(a: int, b: int)
    requires
        0 <= a,
        0 < b,
    ensures
        trunc_div(a, b) == a / b,
        0 <= a / b <= a,
{
    assert(0 <= a / b <= a) by (nonlinear_arith)
        requires
            0 <= a,
            0 < b,
    ;
}

/// A quotient rounded toward zero is no larger in magnitude than its dividend; for a
/// dividend in `[lo, hi]` with `hi < -lo`, it lies in `[lo, -lo]`.
pub proof fn lemma_signed_quotient_bound(a: int, b: int, lo: int, hi: int)
    requires
        b != 0,
        lo <= a <= hi,
        hi < -lo,
    ensures
        lo <= trunc_div(a, b) <= -lo,
{
    let x = vstd::math::abs(a) as int;
    let d = vstd::math::abs(b) as int;
    assert(0 <= x / d <= x) by (nonlinear_arith)
        requires
            0 <= x,
            1 <= d,
    ;
}

/// Scaling by a non-negative `k` multiplies both bounds, and so the length, by `k`; the
/// result is non-empty exactly when `k` is positive.
pub proof fn lemma_scale_multiplies_bounds(a: Span, k: int)
    requires
        a.wf(),
        k >= 0,
    ensures
        a.scale(k).start == a.start * k,
        a.scale(k).end_excl == a.end_excl * k,
        a.scale(k).len() == a.len() * k,
        a.scale(k).wf() <==> k > 0,
        k > 0 ==> forall|x: int| #[trigger] a.contains(x) ==> a.scale(k).contains(x * k),
{
    let (s, e) = (a.start, a.end_excl);
    assert(e * k - s * k == (e - s) * k) by (nonlinear_arith);
    assert(s < e && k > 0 ==> s * k < e * k) by (nonlinear_arith);
    assert(k == 0 ==> s * k == 0 && e * k == 0) by (nonlinear_arith);
    assert forall|x: int| k > 0 && #[trigger] a.contains(x) implies a.scale(k).contains(x * k) by {
        assert(s <= x < e && k > 0 ==> s * k <= x * k < e * k) by (nonlinear_arith);
    }
}

} // verus!
