use vstd::prelude::*;

use core::ops::Range;

use crate::capability::{
    COAlgebra, COBounds, COCheckedMinkowskiHull, COCheckedMinkowskiLinear, COConstruct, COMeasure,
    COMidpoint, COMidpointConstruct, COPredicates, COPrimitive, CORange,
    COSaturatingMinkowskiHull, COSaturatingMinkowskiLinear, IntCO,
};
use crate::res::{OneTwo, ZeroOneTwo};
use crate::span::{
    checked_span, hull_of_corners, lemma_hull_bounds, lemma_signed_quotient_bound,
    opt_view, saturated_span, Span,
};
use crate::traits::sealed::{clamp_int, trunc_div, Int};
use vstd::math::{max, min};

verus! {

/// A non-empty closed-open interval `[start, end_excl)` of `i8` values.
#[derive(Copy, Clone, Debug, PartialEq, Eq, Structural, Hash)]
pub struct I8CO {
    start: i8,
    end_excl: i8,
}

impl View for I8CO {
    type V = Span;

    closed spec fn view(&self) -> Span {
        Span { start: self.start as int, end_excl: self.end_excl as int }
    }
}

/// The smallest of four values.
fn min4(a: i8, b: i8, c: i8, d: i8) -> (r: i8)
    ensures
        r == min(min(a as int, b as int), min(c as int, d as int)),
{
    let x = if a <= b {
        a
    } else {
        b
    };
    let y = if c <= d {
        c
    } else {
        d
    };
    if x <= y {
        x
    } else {
        y
    }
}

/// The largest of four values.
fn max4(a: i8, b: i8, c: i8, d: i8) -> (r: i8)
    ensures
        r == max(max(a as int, b as int), max(c as int, d as int)),
{
    let x = if a >= b {
        a
    } else {
        b
    };
    let y = if c >= d {
        c
    } else {
        d
    };
    if x >= y {
        x
    } else {
        y
    }
}

impl I8CO {
    /// The smallest coordinate, `i8::MIN`.
    pub open spec fn min_coord() -> int {
        i8::MIN as int
    }

    /// The largest coordinate, `i8::MAX`.
    pub open spec fn max_coord() -> int {
        i8::MAX as int
    }

    /// Every interval is non-empty.
    #[verifier::type_invariant]
    spec fn non_empty(self) -> bool {
        self.start < self.end_excl
    }

    /// The interval with computed bounds, each `None` where it does not fit in `i8`.
    fn from_checked(
        s: Option<i8>,
        e: Option<i8>,
        Ghost(exact): Ghost<Span>,
    ) -> (r: Option<Self>)
        requires
            s is None <==> !(Self::min_coord() <= exact.start <= Self::max_coord()),
            s matches Some(v) ==> v == exact.start,
            e is None <==> !(Self::min_coord() <= exact.end_excl <= Self::max_coord()),
            e matches Some(v) ==> v == exact.end_excl,
        ensures
            opt_view(r) == checked_span(exact, Self::min_coord(), Self::max_coord()),
    {
        match s {
            Some(s) => match e {
                Some(e) => if s < e {
                    Some(I8CO { start: s, end_excl: e })
                } else {
                    None
                },
                None => None,
            },
            None => None,
        }
    }

    /// The interval with bounds clamped to `i8`, where that is non-empty.
    fn from_saturated(s: i8, e: i8, Ghost(exact): Ghost<Span>) -> (r: Option<Self>)
        requires
            s == clamp_int(exact.start, Self::min_coord(), Self::max_coord()),
            e == clamp_int(exact.end_excl, Self::min_coord(), Self::max_coord()),
        ensures
            opt_view(r) == saturated_span(exact, Self::min_coord(), Self::max_coord()),
    {
        if s < e {
            Some(I8CO { start: s, end_excl: e })
        } else {
            None
        }
    }

    /// The hull of four computed corner points, each `None` where it does not fit.
    fn checked_hull(
        c1: Option<i8>,
        c2: Option<i8>,
        c3: Option<i8>,
        c4: Option<i8>,
        Ghost(p): Ghost<(int, int, int, int)>,
    ) -> (r: Option<Self>)
        requires
            c1 is None <==> !(Self::min_coord() <= p.0 <= Self::max_coord()),
            c1 matches Some(v) ==> v == p.0,
            c2 is None <==> !(Self::min_coord() <= p.1 <= Self::max_coord()),
            c2 matches Some(v) ==> v == p.1,
            c3 is None <==> !(Self::min_coord() <= p.2 <= Self::max_coord()),
            c3 matches Some(v) ==> v == p.2,
            c4 is None <==> !(Self::min_coord() <= p.3 <= Self::max_coord()),
            c4 matches Some(v) ==> v == p.3,
        ensures
            opt_view(r) == checked_span(
                hull_of_corners(p.0, p.1, p.2, p.3),
                Self::min_coord(),
                Self::max_coord(),
            ),
    {
        proof {
            lemma_hull_bounds(p.0, p.1, p.2, p.3);
        }
        if let (Some(a), Some(b), Some(c), Some(d)) = (c1, c2, c3, c4) {
            let lo = min4(a, b, c, d);
            let hi = max4(a, b, c, d);
            if hi < i8::MAX {
                Some(I8CO { start: lo, end_excl: hi + 1 })
            } else {
                None
            }
        } else {
            None
        }
    }

    /// The hull of four corner points clamped to `i8`, where that is non-empty; `below`
    /// tells whether every corner lies under the range of `i8`.
    fn saturated_hull(
        s1: i8,
        s2: i8,
        s3: i8,
        s4: i8,
        below: bool,
        Ghost(p): Ghost<(int, int, int, int)>,
    ) -> (r: Option<Self>)
        requires
            s1 == clamp_int(p.0, Self::min_coord(), Self::max_coord()),
            s2 == clamp_int(p.1, Self::min_coord(), Self::max_coord()),
            s3 == clamp_int(p.2, Self::min_coord(), Self::max_coord()),
            s4 == clamp_int(p.3, Self::min_coord(), Self::max_coord()),
            below == (p.0 < Self::min_coord() && p.1 < Self::min_coord() && p.2 < Self::min_coord()
                && p.3 < Self::min_coord()),
        ensures
            opt_view(r) == saturated_span(
                hull_of_corners(p.0, p.1, p.2, p.3),
                Self::min_coord(),
                Self::max_coord(),
            ),
    {
        proof {
            lemma_hull_bounds(p.0, p.1, p.2, p.3);
        }
        if below {
            None
        } else {
            let lo = min4(s1, s2, s3, s4);
            let hi = max4(s1, s2, s3, s4);
            let e = if hi < i8::MAX {
                hi + 1
            } else {
                hi
            };
            if lo < e {
                Some(I8CO { start: lo, end_excl: e })
            } else {
                None
            }
        }
    }

    /// `[start, end_excl)`, or `None` where it would be empty (`start >= end_excl`).
    pub fn try_new(start: i8, end_excl: i8) -> (r: Option<Self>)
        ensures
            opt_view(r) == checked_span(
                Span::new(start as int, end_excl as int),
                Self::min_coord(),
                Self::max_coord(),
            ),
            r is Some <==> start < end_excl,
    {
        if start < end_excl {
            Some(I8CO { start, end_excl })
        } else {
            None
        }
    }

    /// `[start, end_excl)`, for a caller that knows it to be non-empty.
    pub fn new_unchecked(start: i8, end_excl: i8) -> (r: Self)
        requires
            start < end_excl,
        ensures
            r@ == Span::new(start as int, end_excl as int),
    {
        I8CO { start, end_excl }
    }

    /// The interval of length `len` whose midpoint is `mid` (it starts `len / 2` before
    /// `mid`), or `None` where `len` is zero or a bound falls outside `i8`.
    pub fn checked_from_midpoint_len(mid: i8, len: u8) -> (r: Option<Self>)
        ensures
            opt_view(r) == checked_span(
                Span::from_midpoint_len(mid as int, len as int),
                Self::min_coord(),
                Self::max_coord(),
            ),
    {
        let half = len / 2;
        Self::from_checked(
            mid.checked_sub_unsigned(half),
            mid.checked_add_unsigned(len - half),
            Ghost(Span::from_midpoint_len(mid as int, len as int)),
        )
    }

    /// The interval of length `len` around `mid` as `checked_from_midpoint_len` would
    /// build it, with both bounds clamped to `i8`; `None` where that leaves it empty.
    pub fn saturating_from_midpoint_len(mid: i8, len: u8) -> (r: Option<Self>)
        ensures
            opt_view(r) == saturated_span(
                Span::from_midpoint_len(mid as int, len as int),
                Self::min_coord(),
                Self::max_coord(),
            ),
    {
        let half = len / 2;
        let s = match mid.checked_sub_unsigned(half) {
            Some(v) => v,
            None => i8::MIN,
        };
        let e = match mid.checked_add_unsigned(len - half) {
            Some(v) => v,
            None => i8::MAX,
        };
        Self::from_saturated(s, e, Ghost(Span::from_midpoint_len(mid as int, len as int)))
    }

    pub fn start(&self) -> (r: i8)
        ensures
            r == self@.start,
            self@.wf(),
    {
        proof {
            use_type_invariant(self);
        }
        self.start
    }

    pub fn end_excl(&self) -> (r: i8)
        ensures
            r == self@.end_excl,
            self@.wf(),
    {
        proof {
            use_type_invariant(self);
        }
        self.end_excl
    }

    /// The last point of the interval.
    pub fn end_incl(&self) -> (r: i8)
        ensures
            r == self@.end_incl(),
    {
        proof {
            use_type_invariant(self);
        }
        self.end_excl - 1
    }

    /// The number of points, at least one; it always fits in `u8`.
    pub fn len(&self) -> (r: u8)
        ensures
            r == self@.len(),
            r >= 1,
    {
        proof {
            use_type_invariant(self);
        }
        if self.start >= 0 || self.end_excl < 0 {
            (self.end_excl - self.start) as u8
        } else {
            self.end_excl as u8 + (-(self.start + 1)) as u8 + 1
        }
    }

    /// `start + len / 2`.
    pub fn midpoint(&self) -> (r: i8)
        ensures
            r == self@.midpoint(),
    {
        proof {
            use_type_invariant(self);
        }
        let half = self.len() / 2;
        self.start + half as i8
    }

    pub fn contains(&self, x: i8) -> (r: bool)
        ensures
            r == self@.contains(x as int),
    {
        self.start <= x && x < self.end_excl
    }

    /// Every point of `other` lies in `self`.
    pub fn contains_interval(&self, other: Self) -> (r: bool)
        ensures
            r == self@.contains_span(other@),
    {
        self.start <= other.start && other.end_excl <= self.end_excl
    }

    /// The two intervals share a point.
    pub fn intersects(&self, other: Self) -> (r: bool)
        ensures
            r == self@.intersects(other@),
    {
        self.start < other.end_excl && other.start < self.end_excl
    }

    /// One interval ends exactly where the other starts.
    pub fn is_adjacent(&self, other: Self) -> (r: bool)
        ensures
            r == self@.is_adjacent(other@),
    {
        self.end_excl == other.start || other.end_excl == self.start
    }

    /// The two intervals overlap or touch.
    pub fn is_contiguous_with(&self, other: Self) -> (r: bool)
        ensures
            r == self@.is_contiguous_with(other@),
    {
        self.intersects(other) || self.is_adjacent(other)
    }

    /// The interval as a standard range `start..end_excl`.
    pub fn to_range(&self) -> (r: Range<i8>)
        ensures
            r.start == self@.start,
            r.end == self@.end_excl,
    {
        self.start..self.end_excl
    }

    /// A range over the points of the interval, in increasing order.
    pub fn iter(&self) -> (r: Range<i8>)
        ensures
            r.start == self@.start,
            r.end == self@.end_excl,
    {
        self.start..self.end_excl
    }

    /// The points in both intervals, or `None` where they share none.
    pub fn intersection(&self, other: Self) -> (r: Option<Self>)
        ensures
            opt_view(r) == self@.intersection(other@),
    {
        let s = if self.start >= other.start {
            self.start
        } else {
            other.start
        };
        let e = if self.end_excl <= other.end_excl {
            self.end_excl
        } else {
            other.end_excl
        };
        if s < e {
            Some(I8CO { start: s, end_excl: e })
        } else {
            None
        }
    }

    /// The smallest interval that holds both.
    pub fn convex_hull(&self, other: Self) -> (r: Self)
        ensures
            r@ == self@.convex_hull(other@),
    {
        proof {
            use_type_invariant(self);
            use_type_invariant(other);
        }
        let s = if self.start <= other.start {
            self.start
        } else {
            other.start
        };
        let e = if self.end_excl >= other.end_excl {
            self.end_excl
        } else {
            other.end_excl
        };
        I8CO { start: s, end_excl: e }
    }

    /// The gap strictly between the two intervals, or `None` where they overlap or touch.
    pub fn between(&self, other: Self) -> (r: Option<Self>)
        ensures
            opt_view(r) == self@.between(other@),
    {
        let (l, rr) = if self.start <= other.start {
            (*self, other)
        } else {
            (other, *self)
        };
        if l.end_excl < rr.start {
            Some(I8CO { start: l.end_excl, end_excl: rr.start })
        } else {
            None
        }
    }

    /// The points of either interval: one interval where they overlap or touch, else
    /// both, the one that starts first first.
    pub fn union(&self, other: Self) -> (r: OneTwo<Self>)
        ensures
            r@ == self@.union(other@),
    {
        if self.is_contiguous_with(other) {
            OneTwo::One(self.convex_hull(other))
        } else if self.start <= other.start {
            OneTwo::Two(*self, other)
        } else {
            OneTwo::Two(other, *self)
        }
    }

    /// The parts of `self` before and after `cut`, each where non-empty.
    fn outside(&self, cut: Self) -> (r: ZeroOneTwo<Self>)
        ensures
            r@ == self@.outside(cut@),
    {
        proof {
            use_type_invariant(self);
            use_type_invariant(cut);
        }
        let left = self.start < cut.start;
        let right = cut.end_excl < self.end_excl;
        if left && right {
            ZeroOneTwo::Two(
                I8CO { start: self.start, end_excl: cut.start },
                I8CO { start: cut.end_excl, end_excl: self.end_excl },
            )
        } else if left {
            ZeroOneTwo::One(I8CO { start: self.start, end_excl: cut.start })
        } else if right {
            ZeroOneTwo::One(I8CO { start: cut.end_excl, end_excl: self.end_excl })
        } else {
            ZeroOneTwo::Zero
        }
    }

    /// The points of `self` not in `other`, as up to two intervals in order.
    pub fn difference(&self, other: Self) -> (r: ZeroOneTwo<Self>)
        ensures
            r@ == self@.difference(other@),
    {
        match self.intersection(other) {
            None => ZeroOneTwo::One(*self),
            Some(inter) => self.outside(inter),
        }
    }

    /// The points in exactly one of the two intervals, as up to two intervals in order.
    pub fn symmetric_difference(&self, other: Self) -> (r: ZeroOneTwo<Self>)
        ensures
            r@ == self@.symmetric_difference(other@),
    {
        match self.intersection(other) {
            None => if self.start <= other.start {
                ZeroOneTwo::Two(*self, other)
            } else {
                ZeroOneTwo::Two(other, *self)
            },
            Some(inter) => self.convex_hull(other).outside(inter),
        }
    }

    /// `{x + y | x in self, y in other}`, or `None` where it does not fit in `i8`.
    pub fn checked_minkowski_add(&self, other: Self) -> (r: Option<Self>)
        ensures
            opt_view(r) == checked_span(
                self@.minkowski_add(other@),
                Self::min_coord(),
                Self::max_coord(),
            ),
    {
        proof {
            use_type_invariant(other);
        }
        Self::from_checked(
            <i8 as Int>::checked_add(self.start, other.start),
            <i8 as Int>::checked_add(self.end_excl, other.end_excl - 1),
            Ghost(self@.minkowski_add(other@)),
        )
    }

    /// `{x - y | x in self, y in other}`, or `None` where it does not fit in `i8`.
    pub fn checked_minkowski_sub(&self, other: Self) -> (r: Option<Self>)
        ensures
            opt_view(r) == checked_span(
                self@.minkowski_sub(other@),
                Self::min_coord(),
                Self::max_coord(),
            ),
    {
        proof {
            use_type_invariant(other);
        }
        Self::from_checked(
            <i8 as Int>::checked_sub(self.start, other.end_excl - 1),
            <i8 as Int>::checked_sub(self.end_excl, other.start),
            Ghost(self@.minkowski_sub(other@)),
        )
    }

    /// `{x + k | x in self}`, or `None` where it does not fit in `i8`.
    pub fn checked_minkowski_add_scalar(&self, k: i8) -> (r: Option<Self>)
        ensures
            opt_view(r) == checked_span(
                self@.add_scalar(k as int),
                Self::min_coord(),
                Self::max_coord(),
            ),
    {
        Self::from_checked(
            <i8 as Int>::checked_add(self.start, k),
            <i8 as Int>::checked_add(self.end_excl, k),
            Ghost(self@.add_scalar(k as int)),
        )
    }

    /// `{x - k | x in self}`, or `None` where it does not fit in `i8`.
    pub fn checked_minkowski_sub_scalar(&self, k: i8) -> (r: Option<Self>)
        ensures
            opt_view(r) == checked_span(
                self@.sub_scalar(k as int),
                Self::min_coord(),
                Self::max_coord(),
            ),
    {
        Self::from_checked(
            <i8 as Int>::checked_sub(self.start, k),
            <i8 as Int>::checked_sub(self.end_excl, k),
            Ghost(self@.sub_scalar(k as int)),
        )
    }

    /// `{x + y | x in self, y in other}` with both ends clamped to `i8`, or `None` where
    /// that leaves it empty.
    pub fn saturating_minkowski_add(&self, other: Self) -> (r: Option<Self>)
        ensures
            opt_view(r) == saturated_span(
                self@.minkowski_add(other@),
                Self::min_coord(),
                Self::max_coord(),
            ),
    {
        proof {
            use_type_invariant(other);
        }
        Self::from_saturated(
            <i8 as Int>::saturating_add(self.start, other.start),
            <i8 as Int>::saturating_add(self.end_excl, other.end_excl - 1),
            Ghost(self@.minkowski_add(other@)),
        )
    }

    /// `{x - y | x in self, y in other}` with both ends clamped to `i8`, or `None` where
    /// that leaves it empty.
    pub fn saturating_minkowski_sub(&self, other: Self) -> (r: Option<Self>)
        ensures
            opt_view(r) == saturated_span(
                self@.minkowski_sub(other@),
                Self::min_coord(),
                Self::max_coord(),
            ),
    {
        proof {
            use_type_invariant(other);
        }
        Self::from_saturated(
            <i8 as Int>::saturating_sub(self.start, other.end_excl - 1),
            <i8 as Int>::saturating_sub(self.end_excl, other.start),
            Ghost(self@.minkowski_sub(other@)),
        )
    }

    /// `{x + k | x in self}` with both ends clamped to `i8`, or `None` where that leaves
    /// it empty.
    pub fn saturating_minkowski_add_scalar(&self, k: i8) -> (r: Option<Self>)
        ensures
            opt_view(r) == saturated_span(
                self@.add_scalar(k as int),
                Self::min_coord(),
                Self::max_coord(),
            ),
    {
        Self::from_saturated(
            <i8 as Int>::saturating_add(self.start, k),
            <i8 as Int>::saturating_add(self.end_excl, k),
            Ghost(self@.add_scalar(k as int)),
        )
    }

    /// `{x - k | x in self}` with both ends clamped to `i8`, or `None` where that leaves
    /// it empty.
    pub fn saturating_minkowski_sub_scalar(&self, k: i8) -> (r: Option<Self>)
        ensures
            opt_view(r) == saturated_span(
                self@.sub_scalar(k as int),
                Self::min_coord(),
                Self::max_coord(),
            ),
    {
        Self::from_saturated(
            <i8 as Int>::saturating_sub(self.start, k),
            <i8 as Int>::saturating_sub(self.end_excl, k),
            Ghost(self@.sub_scalar(k as int)),
        )
    }

    /// The corners of the products with `[b1, b2]`: each exact product, or `None` where
    /// it does not fit.
    fn checked_products(&self, b1: i8, b2: i8) -> (r: Option<Self>)
        requires
            b1 <= b2,
        ensures
            opt_view(r) == checked_span(
                self@.mul_hull(Span::new(b1 as int, b2 as int + 1)),
                Self::min_coord(),
                Self::max_coord(),
            ),
    {
        proof {
            use_type_invariant(self);
        }
        let a1 = self.start;
        let a2 = self.end_excl - 1;
        Self::checked_hull(
            <i8 as Int>::checked_mul(a1, b1),
            <i8 as Int>::checked_mul(a1, b2),
            <i8 as Int>::checked_mul(a2, b1),
            <i8 as Int>::checked_mul(a2, b2),
            Ghost((a1 * b1, a1 * b2, a2 * b1, a2 * b2)),
        )
    }

    /// The corners of the products with `[b1, b2]`, each clamped to `i8`.
    fn saturated_products(&self, b1: i8, b2: i8) -> (r: Option<Self>)
        requires
            b1 <= b2,
        ensures
            opt_view(r) == saturated_span(
                self@.mul_hull(Span::new(b1 as int, b2 as int + 1)),
                Self::min_coord(),
                Self::max_coord(),
            ),
    {
        proof {
            use_type_invariant(self);
        }
        let a1 = self.start;
        let a2 = self.end_excl - 1;
        let c1 = <i8 as Int>::checked_mul(a1, b1);
        let c2 = <i8 as Int>::checked_mul(a1, b2);
        let c3 = <i8 as Int>::checked_mul(a2, b1);
        let c4 = <i8 as Int>::checked_mul(a2, b2);
        let s1 = <i8 as Int>::saturating_mul(a1, b1);
        let s2 = <i8 as Int>::saturating_mul(a1, b2);
        let s3 = <i8 as Int>::saturating_mul(a2, b1);
        let s4 = <i8 as Int>::saturating_mul(a2, b2);
        let below = c1.is_none() && s1 == i8::MIN && c2.is_none() && s2 == i8::MIN
            && c3.is_none() && s3 == i8::MIN && c4.is_none() && s4 == i8::MIN;
        Self::saturated_hull(s1, s2, s3, s4, below, Ghost((a1 * b1, a1 * b2, a2 * b1, a2 * b2)))
    }

    /// One quotient `a / b` (rounded toward zero) for `b != 0`: the exact value where it
    /// fits, and the value clamped to `i8` (only `MIN / -1` exceeds the range).
    fn quotient(a: i8, b: i8) -> (r: (Option<i8>, i8))
        requires
            b != 0,
        ensures
            r.0 is None <==> !(Self::min_coord() <= trunc_div(a as int, b as int)
                <= Self::max_coord()),
            r.0 matches Some(v) ==> v == trunc_div(a as int, b as int),
            r.1 == clamp_int(trunc_div(a as int, b as int), Self::min_coord(), Self::max_coord()),
            Self::min_coord() <= trunc_div(a as int, b as int),
    {
        proof {
            lemma_signed_quotient_bound(a as int, b as int, Self::min_coord(), Self::max_coord());
        }
        let c = <i8 as Int>::checked_div(a, b);
        let s = match c {
            Some(v) => v,
            None => i8::MAX,
        };
        (c, s)
    }

    /// The corners of the quotients by `[b1, b2]`, a divisor span without zero.
    fn quotients(&self, b1: i8, b2: i8, saturate: bool) -> (r: Option<Self>)
        requires
            b1 <= b2,
            b2 < 0 || 0 < b1,
        ensures
            !saturate ==> opt_view(r) == checked_span(
                self@.div_hull(Span::new(b1 as int, b2 as int + 1)),
                Self::min_coord(),
                Self::max_coord(),
            ),
            saturate ==> opt_view(r) == saturated_span(
                self@.div_hull(Span::new(b1 as int, b2 as int + 1)),
                Self::min_coord(),
                Self::max_coord(),
            ),
    {
        proof {
            use_type_invariant(self);
        }
        let a1 = self.start;
        let a2 = self.end_excl - 1;
        let (c1, s1) = Self::quotient(a1, b1);
        let (c2, s2) = Self::quotient(a1, b2);
        let (c3, s3) = Self::quotient(a2, b1);
        let (c4, s4) = Self::quotient(a2, b2);
        let p = Ghost(
            (
                trunc_div(a1 as int, b1 as int),
                trunc_div(a1 as int, b2 as int),
                trunc_div(a2 as int, b1 as int),
                trunc_div(a2 as int, b2 as int),
            ),
        );
        if saturate {
            Self::saturated_hull(s1, s2, s3, s4, false, p)
        } else {
            Self::checked_hull(c1, c2, c3, c4, p)
        }
    }

    /// The hull of `{x * y | x in self, y in other}`, or `None` where it does not fit in
    /// `i8`.
    pub fn checked_minkowski_mul_hull(&self, other: Self) -> (r: Option<Self>)
        ensures
            opt_view(r) == checked_span(
                self@.mul_hull(other@),
                Self::min_coord(),
                Self::max_coord(),
            ),
    {
        proof {
            use_type_invariant(other);
        }
        self.checked_products(other.start, other.end_excl - 1)
    }

    /// The hull of `{x / y | x in self, y in other}`, or `None` where `other` holds zero
    /// or the hull does not fit in `i8`.
    pub fn checked_minkowski_div_hull(&self, other: Self) -> (r: Option<Self>)
        ensures
            opt_view(r) == (if other@.contains(0) {
                None
            } else {
                checked_span(self@.div_hull(other@), Self::min_coord(), Self::max_coord())
            }),
    {
        proof {
            use_type_invariant(other);
        }
        if other.start <= 0 && 0 < other.end_excl {
            None
        } else {
            self.quotients(other.start, other.end_excl - 1, false)
        }
    }

    /// The hull of `{x * k | x in self}`, or `None` where it does not fit in `i8`.
    pub fn checked_minkowski_mul_scalar_hull(&self, k: i8) -> (r: Option<Self>)
        ensures
            opt_view(r) == checked_span(
                self@.mul_scalar_hull(k as int),
                Self::min_coord(),
                Self::max_coord(),
            ),
    {
        self.checked_products(k, k)
    }

    /// The hull of `{x / k | x in self}`, or `None` where `k` is zero or the hull does not
    /// fit in `i8`.
    pub fn checked_minkowski_div_scalar_hull(&self, k: i8) -> (r: Option<Self>)
        ensures
            opt_view(r) == (if k == 0 {
                None
            } else {
                checked_span(self@.div_scalar_hull(k as int), Self::min_coord(), Self::max_coord())
            }),
    {
        if k == 0 {
            None
        } else {
            self.quotients(k, k, false)
        }
    }

    /// The hull of `{x * y | x in self, y in other}` with both ends clamped to `i8`, or
    /// `None` where that leaves it empty.
    pub fn saturating_minkowski_mul_hull(&self, other: Self) -> (r: Option<Self>)
        ensures
            opt_view(r) == saturated_span(
                self@.mul_hull(other@),
                Self::min_coord(),
                Self::max_coord(),
            ),
    {
        proof {
            use_type_invariant(other);
        }
        self.saturated_products(other.start, other.end_excl - 1)
    }

    /// The hull of `{x / y | x in self, y in other}` with both ends clamped to `i8`, or
    /// `None` where `other` holds zero or the clamped hull is empty.
    pub fn saturating_minkowski_div_hull(&self, other: Self) -> (r: Option<Self>)
        ensures
            opt_view(r) == (if other@.contains(0) {
                None
            } else {
                saturated_span(self@.div_hull(other@), Self::min_coord(), Self::max_coord())
            }),
    {
        proof {
            use_type_invariant(other);
        }
        if other.start <= 0 && 0 < other.end_excl {
            None
        } else {
            self.quotients(other.start, other.end_excl - 1, true)
        }
    }

    /// The hull of `{x * k | x in self}` with both ends clamped to `i8`, or `None` where
    /// that leaves it empty.
    pub fn saturating_minkowski_mul_scalar_hull(&self, k: i8) -> (r: Option<Self>)
        ensures
            opt_view(r) == saturated_span(
                self@.mul_scalar_hull(k as int),
                Self::min_coord(),
                Self::max_coord(),
            ),
    {
        self.saturated_products(k, k)
    }

    /// The hull of `{x / k | x in self}` with both ends clamped to `i8`, or `None` where
    /// `k` is zero or the clamped hull is empty.
    pub fn saturating_minkowski_div_scalar_hull(&self, k: i8) -> (r: Option<Self>)
        ensures
            opt_view(r) == (if k == 0 {
                None
            } else {
                saturated_span(
                    self@.div_scalar_hull(k as int),
                    Self::min_coord(),
                    Self::max_coord(),
                )
            }),
    {
        if k == 0 {
            None
        } else {
            self.quotients(k, k, true)
        }
    }
}

impl COPrimitive for I8CO {
    type CoordType = i8;

    type MeasureType = u8;
}

impl COConstruct for I8CO {
    fn try_new(start: i8, end_excl: i8) -> (r: Option<Self>) {
        I8CO::try_new(start, end_excl)
    }

    fn new_unchecked(start: i8, end_excl: i8) -> (r: Self) {
        I8CO::new_unchecked(start, end_excl)
    }
}

impl COMidpointConstruct for I8CO {
    fn checked_from_midpoint_len(mid: i8, len: u8) -> (r: Option<Self>) {
        I8CO::checked_from_midpoint_len(mid, len)
    }

    fn saturating_from_midpoint_len(mid: i8, len: u8) -> (r: Option<Self>) {
        I8CO::saturating_from_midpoint_len(mid, len)
    }
}

impl COBounds for I8CO {
    fn start(&self) -> (r: i8) {
        I8CO::start(self)
    }

    fn end_excl(&self) -> (r: i8) {
        I8CO::end_excl(self)
    }

    fn end_incl(&self) -> (r: i8) {
        I8CO::end_incl(self)
    }
}

impl COPredicates for I8CO {
    fn contains(&self, x: i8) -> (r: bool) {
        I8CO::contains(self, x)
    }

    fn contains_interval(&self, other: Self) -> (r: bool) {
        I8CO::contains_interval(self, other)
    }

    fn intersects(&self, other: Self) -> (r: bool) {
        I8CO::intersects(self, other)
    }

    fn is_adjacent(&self, other: Self) -> (r: bool) {
        I8CO::is_adjacent(self, other)
    }

    fn is_contiguous_with(&self, other: Self) -> (r: bool) {
        I8CO::is_contiguous_with(self, other)
    }
}

impl CORange for I8CO {
    fn to_range(&self) -> (r: Range<i8>) {
        I8CO::to_range(self)
    }

    fn iter(&self) -> (r: Range<i8>) {
        I8CO::iter(self)
    }
}

impl COMeasure for I8CO {
    fn len(&self) -> (r: u8) {
        I8CO::len(self)
    }
}

impl COMidpoint for I8CO {
    fn midpoint(&self) -> (r: i8) {
        I8CO::midpoint(self)
    }
}

impl COAlgebra for I8CO {
    fn intersection(&self, other: Self) -> (r: Option<Self>) {
        I8CO::intersection(self, other)
    }

    fn convex_hull(&self, other: Self) -> (r: Self) {
        I8CO::convex_hull(self, other)
    }

    fn between(&self, other: Self) -> (r: Option<Self>) {
        I8CO::between(self, other)
    }

    fn union(&self, other: Self) -> (r: OneTwo<Self>) {
        I8CO::union(self, other)
    }

    fn difference(&self, other: Self) -> (r: ZeroOneTwo<Self>) {
        I8CO::difference(self, other)
    }

    fn symmetric_difference(&self, other: Self) -> (r: ZeroOneTwo<Self>) {
        I8CO::symmetric_difference(self, other)
    }
}

impl COCheckedMinkowskiLinear for I8CO {
    fn checked_minkowski_add(&self, other: Self) -> (r: Option<Self>) {
        I8CO::checked_minkowski_add(self, other)
    }

    fn checked_minkowski_sub(&self, other: Self) -> (r: Option<Self>) {
        I8CO::checked_minkowski_sub(self, other)
    }

    fn checked_minkowski_add_scalar(&self, k: i8) -> (r: Option<Self>) {
        I8CO::checked_minkowski_add_scalar(self, k)
    }

    fn checked_minkowski_sub_scalar(&self, k: i8) -> (r: Option<Self>) {
        I8CO::checked_minkowski_sub_scalar(self, k)
    }
}

impl COCheckedMinkowskiHull for I8CO {
    fn checked_minkowski_mul_hull(&self, other: Self) -> (r: Option<Self>) {
        I8CO::checked_minkowski_mul_hull(self, other)
    }

    fn checked_minkowski_div_hull(&self, other: Self) -> (r: Option<Self>) {
        I8CO::checked_minkowski_div_hull(self, other)
    }

    fn checked_minkowski_mul_scalar_hull(&self, k: i8) -> (r: Option<Self>) {
        I8CO::checked_minkowski_mul_scalar_hull(self, k)
    }

    fn checked_minkowski_div_scalar_hull(&self, k: i8) -> (r: Option<Self>) {
        I8CO::checked_minkowski_div_scalar_hull(self, k)
    }
}

impl COSaturatingMinkowskiLinear for I8CO {
    fn saturating_minkowski_add(&self, other: Self) -> (r: Option<Self>) {
        I8CO::saturating_minkowski_add(self, other)
    }

    fn saturating_minkowski_sub(&self, other: Self) -> (r: Option<Self>) {
        I8CO::saturating_minkowski_sub(self, other)
    }

    fn saturating_minkowski_add_scalar(&self, k: i8) -> (r: Option<Self>) {
        I8CO::saturating_minkowski_add_scalar(self, k)
    }

    fn saturating_minkowski_sub_scalar(&self, k: i8) -> (r: Option<Self>) {
        I8CO::saturating_minkowski_sub_scalar(self, k)
    }
}

impl COSaturatingMinkowskiHull for I8CO {
    fn saturating_minkowski_mul_hull(&self, other: Self) -> (r: Option<Self>) {
        I8CO::saturating_minkowski_mul_hull(self, other)
    }

    fn saturating_minkowski_div_hull(&self, other: Self) -> (r: Option<Self>) {
        I8CO::saturating_minkowski_div_hull(self, other)
    }

    fn saturating_minkowski_mul_scalar_hull(&self, k: i8) -> (r: Option<Self>) {
        I8CO::saturating_minkowski_mul_scalar_hull(self, k)
    }

    fn saturating_minkowski_div_scalar_hull(&self, k: i8) -> (r: Option<Self>) {
        I8CO::saturating_minkowski_div_scalar_hull(self, k)
    }
}

impl IntCO for I8CO {}

} // verus!
