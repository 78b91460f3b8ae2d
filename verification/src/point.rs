//! Positions in space: tuples with w = 1.

use vstd::prelude::*;
use crate::fixed::Fixed;
use crate::tuple::Tuple;
use crate::vector::Vector;

verus! {

#[derive(Clone, Copy, PartialEq, Eq, Structural, Debug)]
pub struct Point {
    pub tuple: Tuple,
}

impl Point {
    /// A point is well formed when its w component is exactly one.
    pub open spec fn wf(self) -> bool {
        self.tuple.w == (Fixed { raw: crate::fixed::SCALE })
    }

    pub open spec fn spec_new(x: Fixed, y: Fixed, z: Fixed) -> Point {
        Point { tuple: Tuple { x, y, z, w: Fixed { raw: crate::fixed::SCALE } } }
    }

    pub fn new(x: Fixed, y: Fixed, z: Fixed) -> (r: Point)
        ensures
            r == Point::spec_new(x, y, z),
            r.wf(),
    {
        Point { tuple: Tuple::new(x, y, z, Fixed::one()) }
    }

    pub fn from_tuple(tuple: Tuple) -> (r: Point)
        ensures
            r.tuple == tuple,
    {
        Point { tuple }
    }

    /// Translate the point by a vector.
    pub fn add(self, rhs: Vector) -> (r: Point)
        ensures
            r.tuple == self.tuple.spec_add(rhs.tuple),
    {
        Point { tuple: self.tuple.add(rhs.tuple) }
    }

    /// The displacement from another point to this one.
    pub fn sub(self, rhs: Point) -> (r: Vector)
        ensures
            r.tuple == self.tuple.spec_sub(rhs.tuple),
    {
        Vector { tuple: self.tuple.sub(rhs.tuple) }
    }

    /// Translate the point backwards along a vector.
    pub fn sub_vector(self, rhs: Vector) -> (r: Point)
        ensures
            r.tuple == self.tuple.spec_sub(rhs.tuple),
    {
        Point { tuple: self.tuple.sub(rhs.tuple) }
    }
}

} // verus!
