//! Concentric rings in the xz plane.

use vstd::prelude::*;
use crate::color::Color;
use crate::fixed::fx_floor_units;
use crate::matrix::matrix4d::{spec_identity_at, Matrix4D};
use crate::point::Point;

verus! {

#[derive(Clone, Copy, Debug)]
pub struct RingPattern {
    pub a: Color,
    pub b: Color,
    pub transform: Matrix4D,
}

impl RingPattern {
    /// The first color when the floored radial distance in the xz plane is
    /// even, the second when it is odd.
    pub open spec fn spec_pattern_at(self, point: Point) -> Color {
        let x = point.tuple.x;
        let z = point.tuple.z;
        let radial = x.spec_mul(x).spec_add(z.spec_mul(z)).spec_sqrt();
        if fx_floor_units(radial.v()) % 2 == 0 {
            self.a
        } else {
            self.b
        }
    }

    pub fn new(a: Color, b: Color) -> (r: RingPattern)
        ensures
            r.a == a,
            r.b == b,
            forall|i: int, j: int|
                0 <= i < 4 && 0 <= j < 4 ==> r.transform.at(i, j) == spec_identity_at(i, j),
    {
        RingPattern { a, b, transform: Matrix4D::identity() }
    }

    pub fn pattern_at(&self, point: &Point) -> (r: Color)
        ensures
            r == self.spec_pattern_at(*point),
    {
        let x = point.tuple.x;
        let z = point.tuple.z;
        let radial = x.mul(x).add(z.mul(z)).sqrt();
        if crate::fixed::even_units(radial.floor_units()) {
            self.a
        } else {
            self.b
        }
    }
}

} // verus!
