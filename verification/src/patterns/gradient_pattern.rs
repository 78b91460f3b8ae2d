//! A linear blend from one color to another along the x axis.

use vstd::prelude::*;
use crate::color::Color;
use crate::fixed::{fx_floor_units, Fixed, SCALE};
use crate::matrix::matrix4d::{spec_identity_at, Matrix4D};
use crate::point::Point;

verus! {

#[derive(Clone, Copy, Debug)]
pub struct GradientPattern {
    pub a: Color,
    pub b: Color,
    pub transform: Matrix4D,
}

impl GradientPattern {
    /// The first color plus the color distance scaled by the fractional part
    /// of x.
    pub open spec fn spec_pattern_at(self, point: Point) -> Color {
        let distance = self.b.spec_sub(self.a);
        let floor = Fixed { raw: (fx_floor_units(point.tuple.x.v()) * SCALE) as i64 };
        let fraction = point.tuple.x.spec_sub(floor);
        self.a.spec_add(distance.spec_scale(fraction))
    }

    pub fn new(a: Color, b: Color) -> (r: GradientPattern)
        ensures
            r.a == a,
            r.b == b,
            forall|i: int, j: int|
                0 <= i < 4 && 0 <= j < 4 ==> r.transform.at(i, j) == spec_identity_at(i, j),
    {
        GradientPattern { a, b, transform: Matrix4D::identity() }
    }

    pub fn pattern_at(&self, point: &Point) -> (r: Color)
        ensures
            r == self.spec_pattern_at(*point),
    {
        let distance = self.b.sub(self.a);
        let fraction = point.tuple.x.sub(point.tuple.x.floor());
        self.a.add(distance.scale(fraction))
    }
}

} // verus!
