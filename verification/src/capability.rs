use vstd::prelude::*;

use core::ops::Range;

use crate::res::{OneTwo, ZeroOneTwo};
use crate::span::{checked_span, opt_view, saturated_span, Span};
use crate::traits::sealed::{Int, Unsigned};

verus! {

/// The primitive types behind a closed-open interval type: its coordinates and its exact
/// measure.
pub trait COPrimitive: View<V = Span> + Copy + Sized {
    type CoordType: Int;

    type MeasureType: Unsigned;
}

/// Checked and unchecked construction from `[start, end_excl)`.
pub trait COConstruct: COPrimitive {
    fn try_new(start: Self::CoordType, end_excl: Self::CoordType) -> (r: Option<Self>)
        ensures
            opt_view(r) == checked_span(
                Span::new(start.to_int(), end_excl.to_int()),
                Self::CoordType::lo(),
                Self::CoordType::hi(),
            ),
    ;

    fn new_unchecked(start: Self::CoordType, end_excl: Self::CoordType) -> (r: Self)
        requires
            start.to_int() < end_excl.to_int(),
        ensures
            r@ == Span::new(start.to_int(), end_excl.to_int()),
    ;
}

/// Checked and saturating construction from a midpoint and an exact length.
pub trait COMidpointConstruct: COPrimitive {
    fn checked_from_midpoint_len(
        mid: Self::CoordType,
        len: Self::MeasureType,
    ) -> (r: Option<Self>)
        ensures
            opt_view(r) == checked_span(
                Span::from_midpoint_len(mid.to_int(), len.to_int()),
                Self::CoordType::lo(),
                Self::CoordType::hi(),
            ),
    ;

    fn saturating_from_midpoint_len(
        mid: Self::CoordType,
        len: Self::MeasureType,
    ) -> (r: Option<Self>)
        ensures
            opt_view(r) == saturated_span(
                Span::from_midpoint_len(mid.to_int(), len.to_int()),
                Self::CoordType::lo(),
                Self::CoordType::hi(),
            ),
    ;
}

/// The bounds `start`, `end_excl` and `end_incl`.
pub trait COBounds: COPrimitive {
    fn start(&self) -> (r: Self::CoordType)
        ensures
            r.to_int() == self@.start,
            self@.wf(),
    ;

    fn end_excl(&self) -> (r: Self::CoordType)
        ensures
            r.to_int() == self@.end_excl,
            self@.wf(),
    ;

    fn end_incl(&self) -> (r: Self::CoordType)
        ensures
            r.to_int() == self@.end_incl(),
    ;
}

/// Containment, intersection, adjacency and contiguity.
pub trait COPredicates: COPrimitive {
    fn contains(&self, x: Self::CoordType) -> (r: bool)
        ensures
            r == self@.contains(x.to_int()),
    ;

    fn contains_interval(&self, other: Self) -> (r: bool)
        ensures
            r == self@.contains_span(other@),
    ;

    fn intersects(&self, other: Self) -> (r: bool)
        ensures
            r == self@.intersects(other@),
    ;

    fn is_adjacent(&self, other: Self) -> (r: bool)
        ensures
            r == self@.is_adjacent(other@),
    ;

    fn is_contiguous_with(&self, other: Self) -> (r: bool)
        ensures
            r == self@.is_contiguous_with(other@),
    ;
}

/// Projection to a standard range, which also iterates over the points.
pub trait CORange: COPrimitive {
    fn to_range(&self) -> (r: Range<Self::CoordType>)
        ensures
            r.start.to_int() == self@.start,
            r.end.to_int() == self@.end_excl,
    ;

    fn iter(&self) -> (r: Range<Self::CoordType>)
        ensures
            r.start.to_int() == self@.start,
            r.end.to_int() == self@.end_excl,
    ;
}

/// The exact length.
pub trait COMeasure: COPrimitive {
    fn len(&self) -> (r: Self::MeasureType)
        ensures
            r.to_int() == self@.len(),
    ;
}

/// The midpoint coordinate.
pub trait COMidpoint: COPrimitive {
    fn midpoint(&self) -> (r: Self::CoordType)
        ensures
            r.to_int() == self@.midpoint(),
    ;
}

/// Intersection, hull, gap, union, difference and symmetric difference.
pub trait COAlgebra: COPrimitive {
    fn intersection(&self, other: Self) -> (r: Option<Self>)
        ensures
            opt_view(r) == self@.intersection(other@),
    ;

    fn convex_hull(&self, other: Self) -> (r: Self)
        ensures
            r@ == self@.convex_hull(other@),
    ;

    fn between(&self, other: Self) -> (r: Option<Self>)
        ensures
            opt_view(r) == self@.between(other@),
    ;

    fn union(&self, other: Self) -> (r: OneTwo<Self>)
        ensures
            r@ == self@.union(other@),
    ;

    fn difference(&self, other: Self) -> (r: ZeroOneTwo<Self>)
        ensures
            r@ == self@.difference(other@),
    ;

    fn symmetric_difference(&self, other: Self) -> (r: ZeroOneTwo<Self>)
        ensures
            r@ == self@.symmetric_difference(other@),
    ;
}

/// Checked Minkowski sums and differences, with intervals and with scalars.
pub trait COCheckedMinkowskiLinear: COPrimitive {
    fn checked_minkowski_add(&self, other: Self) -> (r: Option<Self>)
        ensures
            opt_view(r) == checked_span(
                self@.minkowski_add(other@),
                Self::CoordType::lo(),
                Self::CoordType::hi(),
            ),
    ;

    fn checked_minkowski_sub(&self, other: Self) -> (r: Option<Self>)
        ensures
            opt_view(r) == checked_span(
                self@.minkowski_sub(other@),
                Self::CoordType::lo(),
                Self::CoordType::hi(),
            ),
    ;

    fn checked_minkowski_add_scalar(&self, k: Self::CoordType) -> (r: Option<Self>)
        ensures
            opt_view(r) == checked_span(
                self@.add_scalar(k.to_int()),
                Self::CoordType::lo(),
                Self::CoordType::hi(),
            ),
    ;

    fn checked_minkowski_sub_scalar(&self, k: Self::CoordType) -> (r: Option<Self>)
        ensures
            opt_view(r) == checked_span(
                self@.sub_scalar(k.to_int()),
                Self::CoordType::lo(),
                Self::CoordType::hi(),
            ),
    ;
}

/// Checked hulls of Minkowski products and quotients, with intervals and with scalars.
pub trait COCheckedMinkowskiHull: COPrimitive {
    fn checked_minkowski_mul_hull(&self, other: Self) -> (r: Option<Self>)
        ensures
            opt_view(r) == checked_span(
                self@.mul_hull(other@),
                Self::CoordType::lo(),
                Self::CoordType::hi(),
            ),
    ;

    fn checked_minkowski_div_hull(&self, other: Self) -> (r: Option<Self>)
        ensures
            opt_view(r) == (if other@.contains(0) {
                None
            } else {
                checked_span(
                    self@.div_hull(other@),
                    Self::CoordType::lo(),
                    Self::CoordType::hi(),
                )
            }),
    ;

    fn checked_minkowski_mul_scalar_hull(&self, k: Self::CoordType) -> (r: Option<Self>)
        ensures
            opt_view(r) == checked_span(
                self@.mul_scalar_hull(k.to_int()),
                Self::CoordType::lo(),
                Self::CoordType::hi(),
            ),
    ;

    fn checked_minkowski_div_scalar_hull(&self, k: Self::CoordType) -> (r: Option<Self>)
        ensures
            opt_view(r) == (if k.to_int() == 0 {
                None
            } else {
                checked_span(
                    self@.div_scalar_hull(k.to_int()),
                    Self::CoordType::lo(),
                    Self::CoordType::hi(),
                )
            }),
    ;
}

/// Saturating Minkowski sums and differences, with intervals and with scalars.
pub trait COSaturatingMinkowskiLinear: COPrimitive {
    fn saturating_minkowski_add(&self, other: Self) -> (r: Option<Self>)
        ensures
            opt_view(r) == saturated_span(
                self@.minkowski_add(other@),
                Self::CoordType::lo(),
                Self::CoordType::hi(),
            ),
    ;

    fn saturating_minkowski_sub(&self, other: Self) -> (r: Option<Self>)
        ensures
            opt_view(r) == saturated_span(
                self@.minkowski_sub(other@),
                Self::CoordType::lo(),
                Self::CoordType::hi(),
            ),
    ;

    fn saturating_minkowski_add_scalar(&self, k: Self::CoordType) -> (r: Option<Self>)
        ensures
            opt_view(r) == saturated_span(
                self@.add_scalar(k.to_int()),
                Self::CoordType::lo(),
                Self::CoordType::hi(),
            ),
    ;

    fn saturating_minkowski_sub_scalar(&self, k: Self::CoordType) -> (r: Option<Self>)
        ensures
            opt_view(r) == saturated_span(
                self@.sub_scalar(k.to_int()),
                Self::CoordType::lo(),
                Self::CoordType::hi(),
            ),
    ;
}

/// Saturating hulls of Minkowski products and quotients, with intervals and with scalars.
pub trait COSaturatingMinkowskiHull: COPrimitive {
    fn saturating_minkowski_mul_hull(&self, other: Self) -> (r: Option<Self>)
        ensures
            opt_view(r) == saturated_span(
                self@.mul_hull(other@),
                Self::CoordType::lo(),
                Self::CoordType::hi(),
            ),
    ;

    fn saturating_minkowski_div_hull(&self, other: Self) -> (r: Option<Self>)
        ensures
            opt_view(r) == (if other@.contains(0) {
                None
            } else {
                saturated_span(
                    self@.div_hull(other@),
                    Self::CoordType::lo(),
                    Self::CoordType::hi(),
                )
            }),
    ;

    fn saturating_minkowski_mul_scalar_hull(&self, k: Self::CoordType) -> (r: Option<Self>)
        ensures
            opt_view(r) == saturated_span(
                self@.mul_scalar_hull(k.to_int()),
                Self::CoordType::lo(),
                Self::CoordType::hi(),
            ),
    ;

    fn saturating_minkowski_div_scalar_hull(&self, k: Self::CoordType) -> (r: Option<Self>)
        ensures
            opt_view(r) == (if k.to_int() == 0 {
                None
            } else {
                saturated_span(
                    self@.div_scalar_hull(k.to_int()),
                    Self::CoordType::lo(),
                    Self::CoordType::hi(),
                )
            }),
    ;
}

/// The capabilities of ordinary closed-open interval algebra: construction, bounds,
/// predicates, algebra and exact measure.
pub trait IntCO: COConstruct + COBounds + COPredicates + COAlgebra + COMeasure {}

} // verus!
