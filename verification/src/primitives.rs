//! Geometric primitives: points and extents, with coordinates carried as
//! decimal text (see `numerics`).

use crate::numerics::eq_text;
use vstd::prelude::*;

verus! {

/// A two-dimensional point in space.
///
/// Each coordinate holds the decimal text of a double-precision value.
#[derive(Debug, Clone, PartialEq)]
pub struct Point {
    /// Coordinate along the horizontal axis.
    pub x: String,
    /// Coordinate along the vertical axis.
    pub y: String,
}

/// Extents in x and y direction, carried as decimal text like `Point`.
#[derive(Debug, Clone, PartialEq)]
pub struct Dimensions {
    /// Extent along the horizontal axis.
    pub x: String,
    /// Extent along the vertical axis.
    pub y: String,
}

/// Whether two points are equal, coordinate by coordinate, under exact
/// double-precision equality of the written values (no tolerance).
pub open spec fn point_eq(a: Point, b: Point) -> bool {
    eq_text(a.x@, b.x@) && eq_text(a.y@, b.y@)
}

impl Point {
    /// Exact equality of two points as double-precision values.
    pub fn same_location(&self, other: &Point) -> (r: bool)
        ensures
            r == point_eq(*self, *other),
    {
        let ex = crate::numerics::num_eq(self.x.as_str(), other.x.as_str());
        let ey = crate::numerics::num_eq(self.y.as_str(), other.y.as_str());
        ex && ey
    }
}

} // verus!
