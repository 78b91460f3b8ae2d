//! A diagnostic pattern that reports the sampled point as a color, used to
//! check transform composition.

use vstd::prelude::*;
use crate::color::Color;
use crate::matrix::matrix4d::{spec_identity_at, Matrix4D};
use crate::point::Point;

verus! {

#[derive(Clone, Copy, Debug)]
pub struct TestPattern {
    pub transform: Matrix4D,
}

impl TestPattern {
    /// The sampled point's coordinates, read back as a color.
    pub open spec fn spec_pattern_at(self, point: Point) -> Color {
        Color { red: point.tuple.x, green: point.tuple.y, blue: point.tuple.z }
    }

    pub fn new() -> (r: TestPattern)
        ensures
            forall|i: int, j: int|
                0 <= i < 4 && 0 <= j < 4 ==> r.transform.at(i, j) == spec_identity_at(i, j),
    {
        TestPattern { transform: Matrix4D::identity() }
    }

    pub fn pattern_at(&self, point: &Point) -> (r: Color)
        ensures
            r == self.spec_pattern_at(*point),
    {
        Color::new(point.tuple.x, point.tuple.y, point.tuple.z)
    }
}

} // verus!
