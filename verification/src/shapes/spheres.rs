//! The unit sphere centered at its origin.

use vstd::prelude::*;
use crate::fixed::{fx_four, fx_one, fx_two, Fixed, SCALE};
use crate::materials::{spec_default_material, Material};
use crate::matrix::matrix4d::spec_identity_at;
use crate::point::Point;
use crate::ray::Ray;
use crate::shapes::shape::Shape;
use crate::vector::Vector;

verus! {

#[derive(Clone, Copy, Debug)]
pub struct Sphere {
    pub shape: Shape,
}

impl Sphere {
    /// The leading quadratic coefficient: the ray direction dotted with
    /// itself. A zero value marks a degenerate ray.
    pub open spec fn spec_quadratic_a(ray: Ray) -> Fixed {
        ray.direction.spec_dot(ray.direction)
    }

    /// The parametric distances at which a ray meets the sphere: the two
    /// roots of the quadratic, nearest first, or nothing when the
    /// discriminant is negative.
    pub open spec fn spec_local_xs(self, ray: Ray) -> Seq<Fixed> {
        let obj_to_ray = Vector { tuple: ray.origin.tuple.spec_sub(self.shape.origin.tuple) };
        let a = Sphere::spec_quadratic_a(ray);
        let b = fx_two().spec_mul(ray.direction.spec_dot(obj_to_ray));
        let c = obj_to_ray.spec_dot(obj_to_ray).spec_sub(fx_one());
        let discriminant = b.spec_mul(b).spec_sub(fx_four().spec_mul(a).spec_mul(c));
        if discriminant.raw >= 0 {
            let root = discriminant.spec_sqrt();
            let t1 = b.spec_neg().spec_sub(root).spec_div(fx_two().spec_mul(a));
            let t2 = b.spec_neg().spec_add(root).spec_div(fx_two().spec_mul(a));
            seq![t1, t2]
        } else {
            Seq::empty()
        }
    }

    /// The outward normal in object space: the point itself, normalised.
    pub open spec fn spec_local_normal_at(self, point: Point) -> Vector {
        (Vector { tuple: point.tuple.spec_sub(self.shape.origin.tuple) }).spec_normalise()
    }

    pub fn new(origin: Point) -> (r: Sphere)
        ensures
            r.shape.origin == origin,
            r.shape.material == spec_default_material(),
            forall|i: int, j: int|
                0 <= i < 4 && 0 <= j < 4 ==> r.shape.transform.at(i, j) == spec_identity_at(i, j),
    {
        Sphere { shape: Shape::new(origin) }
    }

    /// A glass sphere: fully transparent with the refractive index of glass.
    pub fn new_glass_sphere() -> (r: Sphere)
        ensures
            r.shape.origin == Point::spec_new(
                Fixed { raw: 0 },
                Fixed { raw: 0 },
                Fixed { raw: 0 },
            ),
            r.shape.material == (Material {
                transparency: Fixed { raw: SCALE },
                refractive_index: Fixed { raw: 6442450944 },
                ..spec_default_material()
            }),
            forall|i: int, j: int|
                0 <= i < 4 && 0 <= j < 4 ==> r.shape.transform.at(i, j) == spec_identity_at(i, j),
    {
        let z = Fixed::zero();
        let mut shape = Shape::new(Point::new(z, z, z));
        let mut material = Material::default();
        material.transparency = Fixed::one();
        material.refractive_index = Fixed::from_raw(6442450944);  // three halves of a unit
        shape.material = material;
        Sphere { shape }
    }

    /// The quadratic roots of the ray against the unit sphere, or an error
    /// for a degenerate ray direction.
    pub fn local_intersect(&self, ray: &Ray) -> (r: Result<Vec<Fixed>, String>)
        ensures
            r.is_ok() == (Sphere::spec_quadratic_a(*ray).raw != 0),
            r matches Ok(v) ==> v@ == self.spec_local_xs(*ray),
    {
        let obj_to_ray = ray.origin.sub(self.shape.origin);

        let a = ray.direction.dot(&ray.direction);
        if a.raw == 0 {
            return Err("Direction is zero or close to zero".to_string());
        }

        let two = Fixed::from_int(2);
        let four = Fixed::from_int(4);
        let b = two.mul(ray.direction.dot(&obj_to_ray));
        let c = obj_to_ray.dot(&obj_to_ray).sub(Fixed::one());

        let mut is: Vec<Fixed> = Vec::new();

        let discriminant = b.mul(b).sub(four.mul(a).mul(c));
        if discriminant.raw >= 0 {
            let root = discriminant.sqrt();
            let denom = two.mul(a);
            let t1 = b.neg().sub(root).div(denom);
            let t2 = b.neg().add(root).div(denom);
            is.push(t1);
            is.push(t2);
        }
        proof {
            assert(is@ =~= self.spec_local_xs(*ray));
        }
        Ok(is)
    }

    pub fn local_normal_at(&self, point: Point) -> (r: Vector)
        ensures
            r == self.spec_local_normal_at(point),
    {
        point.sub(self.shape.origin).normalise()
    }
}

} // verus!
