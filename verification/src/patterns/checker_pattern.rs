//! A three-dimensional checkerboard.

use vstd::prelude::*;
use crate::color::Color;
use crate::fixed::fx_floor_units;
use crate::matrix::matrix4d::{spec_identity_at, Matrix4D};
use crate::point::Point;

verus! {

#[derive(Clone, Copy, Debug)]
pub struct CheckerPattern {
    pub a: Color,
    pub b: Color,
    pub transform: Matrix4D,
}

impl CheckerPattern {
    /// The first color when the floors of the three coordinates sum to an
    /// even number, the second otherwise.
    pub open spec fn spec_pattern_at(self, point: Point) -> Color {
        let s = fx_floor_units(point.tuple.x.v()) + fx_floor_units(point.tuple.y.v())
            + fx_floor_units(point.tuple.z.v());
        if s % 2 == 0 {
            self.a
        } else {
            self.b
        }
    }

    pub fn new(a: Color, b: Color) -> (r: CheckerPattern)
        ensures
            r.a == a,
            r.b == b,
            forall|i: int, j: int|
                0 <= i < 4 && 0 <= j < 4 ==> r.transform.at(i, j) == spec_identity_at(i, j),
    {
        CheckerPattern { a, b, transform: Matrix4D::identity() }
    }

    pub fn pattern_at(&self, point: &Point) -> (r: Color)
        ensures
            r == self.spec_pattern_at(*point),
    {
        let ux = point.tuple.x.floor_units();
        let uy = point.tuple.y.floor_units();
        let uz = point.tuple.z.floor_units();
        if crate::fixed::even_units(ux + uy + uz) {
            self.a
        } else {
            self.b
        }
    }
}

} // verus!
