//! The xz plane at y = 0, extending without bound.

use vstd::prelude::*;
use crate::fixed::{fx_one, fx_zero, Fixed};
use crate::materials::spec_default_material;
use crate::matrix::matrix4d::spec_identity_at;
use crate::point::Point;
use crate::ray::Ray;
use crate::shapes::shape::Shape;
use crate::vector::Vector;

verus! {

#[derive(Clone, Copy, Debug)]
pub struct Plane {
    pub shape: Shape,
}

impl Plane {
    /// A ray parallel to the plane (including one lying in it) misses;
    /// otherwise there is one intersection at `-origin_y / direction_y`.
    pub open spec fn spec_local_xs(self, ray: Ray) -> Seq<Fixed> {
        if ray.direction.tuple.y.raw == 0 {
            Seq::empty()
        } else {
            seq![ray.origin.tuple.y.spec_neg().spec_div(ray.direction.tuple.y)]
        }
    }

    /// The constant upward normal in object space.
    pub open spec fn spec_local_normal_at(self, point: Point) -> Vector {
        Vector { tuple: crate::tuple::Tuple { x: fx_zero(), y: fx_one(), z: fx_zero(), w: fx_zero() } }
    }

    pub fn new(origin: Point) -> (r: Plane)
        ensures
            r.shape.origin == origin,
            r.shape.material == spec_default_material(),
            forall|i: int, j: int|
                0 <= i < 4 && 0 <= j < 4 ==> r.shape.transform.at(i, j) == spec_identity_at(i, j),
    {
        Plane { shape: Shape::new(origin) }
    }

    pub fn local_intersect(&self, ray: &Ray) -> (r: Result<Vec<Fixed>, String>)
        ensures
            r.is_ok(),
            r matches Ok(v) ==> v@ == self.spec_local_xs(*ray),
    {
        let mut is: Vec<Fixed> = Vec::new();
        if ray.direction.tuple.y.raw == 0 {
            proof {
                assert(is@ =~= self.spec_local_xs(*ray));
            }
            Ok(is)
        } else {
            let t = ray.origin.tuple.y.neg().div(ray.direction.tuple.y);
            is.push(t);
            proof {
                assert(is@ =~= self.spec_local_xs(*ray));
            }
            Ok(is)
        }
    }

    pub fn local_normal_at(&self, point: Point) -> (r: Vector)
        ensures
            r == self.spec_local_normal_at(point),
    {
        Vector::new(Fixed::zero(), Fixed::one(), Fixed::zero())
    }
}

/// Law: the plane's object-space normal is exactly a unit vector, at every
/// point.
pub proof fn lemma_plane_normal_is_unit(p: Plane, point: Point)
    ensures
        p.spec_local_normal_at(point).spec_magnitude() == (Fixed {
            raw: crate::fixed::SCALE,
        }),
{
    let s = crate::fixed::SCALE as int;
    let n = p.spec_local_normal_at(point);
    assert(vstd::math::abs(s) as int == s);
    assert(vstd::math::abs(0int) as int == 0);
    assert((s * s) / s == s) by (nonlinear_arith)
        requires s == 4294967296;
    assert(0int * 0int == 0) by (nonlinear_arith);
    assert(0int / s == 0) by (nonlinear_arith)
        requires s == 4294967296;
    assert(crate::fixed::fx_mul(0int, 0int) == 0);
    assert(crate::fixed::fx_mul(s, s) == s);
    assert(n.spec_dot(n) == (Fixed { raw: crate::fixed::SCALE }));
    assert((s * s) < (s + 1) * (s + 1)) by (nonlinear_arith)
        requires s >= 0;
    crate::fixed::lemma_isqrt_unique((s * s) as nat, s as nat);
    assert(crate::fixed::fx_sqrt(s) == s);
}

} // verus!
