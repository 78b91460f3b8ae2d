//! Stripes alternating along the x axis.

use vstd::prelude::*;
use crate::color::Color;
use crate::fixed::fx_floor_units;
use crate::matrix::matrix4d::{spec_identity_at, Matrix4D};
use crate::point::Point;

verus! {

#[derive(Clone, Copy, Debug)]
pub struct StripePattern {
    pub a: Color,
    pub b: Color,
    pub transform: Matrix4D,
}

impl StripePattern {
    /// The first color on even floors of x, the second on odd floors.
    pub open spec fn spec_pattern_at(self, point: Point) -> Color {
        if fx_floor_units(point.tuple.x.v()) % 2 == 0 {
            self.a
        } else {
            self.b
        }
    }

    pub fn new(a: Color, b: Color) -> (r: StripePattern)
        ensures
            r.a == a,
            r.b == b,
            forall|i: int, j: int|
                0 <= i < 4 && 0 <= j < 4 ==> r.transform.at(i, j) == spec_identity_at(i, j),
    {
        StripePattern { a, b, transform: Matrix4D::identity() }
    }

    pub fn pattern_at(&self, point: &Point) -> (r: Color)
        ensures
            r == self.spec_pattern_at(*point),
    {
        let u = point.tuple.x.floor_units();
        if crate::fixed::even_units(u) {
            self.a
        } else {
            self.b
        }
    }
}

} // verus!
