//! Directions in space: tuples with w = 0.

use vstd::prelude::*;
use crate::fixed::Fixed;
use crate::tuple::Tuple;

verus! {

#[derive(Clone, Copy, PartialEq, Eq, Structural, Debug)]
pub struct Vector {
    pub tuple: Tuple,
}

impl Vector {
    /// A vector is well formed when its w component is exactly zero.
    pub open spec fn wf(self) -> bool {
        self.tuple.w == (Fixed { raw: 0 })
    }

    pub open spec fn spec_new(x: Fixed, y: Fixed, z: Fixed) -> Vector {
        Vector { tuple: Tuple { x, y, z, w: Fixed { raw: 0 } } }
    }

    /// The magnitude of the vector.
    pub open spec fn spec_magnitude(self) -> Fixed {
        self.tuple.spec_abs()
    }

    /// The vector scaled by the reciprocal of its own magnitude.
    pub open spec fn spec_normalise(self) -> Vector {
        Vector { tuple: self.tuple.spec_scale_div(self.spec_magnitude()) }
    }

    pub open spec fn spec_dot(self, rhs: Vector) -> Fixed {
        self.tuple.spec_dot(rhs.tuple)
    }

    /// The reflection of this vector about a surface normal.
    pub open spec fn spec_reflect(self, normal: Vector) -> Vector {
        Vector {
            tuple: self.tuple.spec_sub(
                normal.tuple.spec_scale(Fixed { raw: (2 * crate::fixed::SCALE as int) as i64 }).spec_scale(
                    self.spec_dot(normal),
                ),
            ),
        }
    }

    pub fn new(x: Fixed, y: Fixed, z: Fixed) -> (r: Vector)
        ensures
            r == Vector::spec_new(x, y, z),
            r.wf(),
    {
        Vector { tuple: Tuple::new(x, y, z, Fixed::zero()) }
    }

    pub fn from_tuple(tuple: Tuple) -> (r: Vector)
        ensures
            r.tuple == tuple,
    {
        Vector { tuple }
    }

    pub fn magnitude(&self) -> (r: Fixed)
        ensures
            r == self.spec_magnitude(),
    {
        self.tuple.abs()
    }

    pub fn normalise(&self) -> (r: Vector)
        ensures
            r == self.spec_normalise(),
    {
        let m = self.magnitude();
        Vector { tuple: self.tuple.scale_div(m) }
    }

    pub fn dot(&self, rhs: &Vector) -> (r: Fixed)
        ensures
            r == self.spec_dot(*rhs),
    {
        self.tuple.dot(rhs.tuple)
    }

    pub fn cross(&self, rhs: &Vector) -> (r: Vector)
        ensures
            r.tuple == self.tuple.spec_cross_3d(rhs.tuple),
    {
        Vector { tuple: self.tuple.cross_3d(rhs.tuple) }
    }

    /// Reflect this vector about a normal: `self - normal * 2 * dot(self, normal)`.
    pub fn reflect(&self, normal: Vector) -> (r: Vector)
        ensures
            r == self.spec_reflect(normal),
    {
        let d = self.dot(&normal);
        let two = Fixed::from_int(2);
        Vector { tuple: self.tuple.sub(normal.tuple.scale(two).scale(d)) }
    }

    pub fn add(self, rhs: Vector) -> (r: Vector)
        ensures
            r.tuple == self.tuple.spec_add(rhs.tuple),
    {
        Vector { tuple: self.tuple.add(rhs.tuple) }
    }

    pub fn sub(self, rhs: Vector) -> (r: Vector)
        ensures
            r.tuple == self.tuple.spec_sub(rhs.tuple),
    {
        Vector { tuple: self.tuple.sub(rhs.tuple) }
    }

    pub fn neg(self) -> (r: Vector)
        ensures
            r.tuple == self.tuple.spec_neg(),
    {
        Vector { tuple: self.tuple.neg() }
    }

    /// Componentwise product with a scalar.
    pub fn scale(self, rhs: Fixed) -> (r: Vector)
        ensures
            r.tuple == self.tuple.spec_scale(rhs),
    {
        Vector { tuple: self.tuple.scale(rhs) }
    }

    /// Componentwise quotient by a scalar.
    pub fn scale_div(self, rhs: Fixed) -> (r: Vector)
        ensures
            r.tuple == self.tuple.spec_scale_div(rhs),
    {
        Vector { tuple: self.tuple.scale_div(rhs) }
    }
}

} // verus!
