//! Homogeneous four-component values: the carrier for points (w = 1) and
//! vectors (w = 0).

use vstd::prelude::*;
use crate::fixed::Fixed;

verus! {

#[derive(Clone, Copy, PartialEq, Eq, Structural, Debug)]
pub struct Tuple {
    pub x: Fixed,
    pub y: Fixed,
    pub z: Fixed,
    pub w: Fixed,
}

impl Tuple {
    pub open spec fn spec_new(x: Fixed, y: Fixed, z: Fixed, w: Fixed) -> Tuple {
        Tuple { x, y, z, w }
    }

    pub open spec fn spec_add(self, rhs: Tuple) -> Tuple {
        Tuple {
            x: self.x.spec_add(rhs.x),
            y: self.y.spec_add(rhs.y),
            z: self.z.spec_add(rhs.z),
            w: self.w.spec_add(rhs.w),
        }
    }

    pub open spec fn spec_sub(self, rhs: Tuple) -> Tuple {
        Tuple {
            x: self.x.spec_sub(rhs.x),
            y: self.y.spec_sub(rhs.y),
            z: self.z.spec_sub(rhs.z),
            w: self.w.spec_sub(rhs.w),
        }
    }

    pub open spec fn spec_neg(self) -> Tuple {
        Tuple { x: self.x.spec_neg(), y: self.y.spec_neg(), z: self.z.spec_neg(), w: self.w.spec_neg() }
    }

    pub open spec fn spec_scale(self, rhs: Fixed) -> Tuple {
        Tuple {
            x: self.x.spec_mul(rhs),
            y: self.y.spec_mul(rhs),
            z: self.z.spec_mul(rhs),
            w: self.w.spec_mul(rhs),
        }
    }

    pub open spec fn spec_scale_div(self, rhs: Fixed) -> Tuple {
        Tuple {
            x: self.x.spec_div(rhs),
            y: self.y.spec_div(rhs),
            z: self.z.spec_div(rhs),
            w: self.w.spec_div(rhs),
        }
    }

    /// The inner product, accumulated left to right.
    pub open spec fn spec_dot(self, rhs: Tuple) -> Fixed {
        self.x.spec_mul(rhs.x)
            .spec_add(self.y.spec_mul(rhs.y))
            .spec_add(self.z.spec_mul(rhs.z))
            .spec_add(self.w.spec_mul(rhs.w))
    }

    /// The three-dimensional cross product; `w` is carried over unchanged.
    pub open spec fn spec_cross_3d(self, rhs: Tuple) -> Tuple {
        Tuple {
            x: self.y.spec_mul(rhs.z).spec_sub(self.z.spec_mul(rhs.y)),
            y: self.z.spec_mul(rhs.x).spec_sub(self.x.spec_mul(rhs.z)),
            z: self.x.spec_mul(rhs.y).spec_sub(self.y.spec_mul(rhs.x)),
            w: self.w,
        }
    }

    /// The Euclidean magnitude over all four components.
    pub open spec fn spec_abs(self) -> Fixed {
        self.spec_dot(self).spec_sqrt()
    }

    pub fn new(x: Fixed, y: Fixed, z: Fixed, w: Fixed) -> (r: Tuple)
        ensures
            r == Tuple::spec_new(x, y, z, w),
    {
        Tuple { x, y, z, w }
    }

    pub fn from_array(arr: [Fixed; 4]) -> (r: Tuple)
        ensures
            r == (Tuple { x: arr[0], y: arr[1], z: arr[2], w: arr[3] }),
    {
        Tuple { x: arr[0], y: arr[1], z: arr[2], w: arr[3] }
    }

    pub fn add(self, rhs: Tuple) -> (r: Tuple)
        ensures
            r == self.spec_add(rhs),
    {
        Tuple {
            x: self.x.add(rhs.x),
            y: self.y.add(rhs.y),
            z: self.z.add(rhs.z),
            w: self.w.add(rhs.w),
        }
    }

    pub fn sub(self, rhs: Tuple) -> (r: Tuple)
        ensures
            r == self.spec_sub(rhs),
    {
        Tuple {
            x: self.x.sub(rhs.x),
            y: self.y.sub(rhs.y),
            z: self.z.sub(rhs.z),
            w: self.w.sub(rhs.w),
        }
    }

    pub fn neg(self) -> (r: Tuple)
        ensures
            r == self.spec_neg(),
    {
        Tuple { x: self.x.neg(), y: self.y.neg(), z: self.z.neg(), w: self.w.neg() }
    }

    /// Componentwise product with a scalar.
    pub fn scale(self, rhs: Fixed) -> (r: Tuple)
        ensures
            r == self.spec_scale(rhs),
    {
        Tuple {
            x: self.x.mul(rhs),
            y: self.y.mul(rhs),
            z: self.z.mul(rhs),
            w: self.w.mul(rhs),
        }
    }

    /// Componentwise quotient by a scalar.
    pub fn scale_div(self, rhs: Fixed) -> (r: Tuple)
        ensures
            r == self.spec_scale_div(rhs),
    {
        Tuple {
            x: self.x.div(rhs),
            y: self.y.div(rhs),
            z: self.z.div(rhs),
            w: self.w.div(rhs),
        }
    }

    pub fn dot(self, rhs: Tuple) -> (r: Fixed)
        ensures
            r == self.spec_dot(rhs),
    {
        self.x.mul(rhs.x)
            .add(self.y.mul(rhs.y))
            .add(self.z.mul(rhs.z))
            .add(self.w.mul(rhs.w))
    }

    pub fn cross_3d(self, rhs: Tuple) -> (r: Tuple)
        ensures
            r == self.spec_cross_3d(rhs),
    {
        Tuple {
            x: self.y.mul(rhs.z).sub(self.z.mul(rhs.y)),
            y: self.z.mul(rhs.x).sub(self.x.mul(rhs.z)),
            z: self.x.mul(rhs.y).sub(self.y.mul(rhs.x)),
            w: self.w,
        }
    }

    pub fn abs(self) -> (r: Fixed)
        ensures
            r == self.spec_abs(),
    {
        self.dot(self).sqrt()
    }
}

} // verus!
