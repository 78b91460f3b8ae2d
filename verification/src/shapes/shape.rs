//! The data shared by every shape: an origin, an object-to-world transform
//! and a material.

use vstd::prelude::*;
use crate::fixed::{fx_zero, Fixed};
use crate::intersection::Intersection;
use crate::materials::{spec_default_material, Material};
use crate::matrix::matrix4d::{spec_identity_at, Matrix4D};
use crate::point::Point;
use crate::ray::Ray;
use crate::shapes::cone::Cone;
use crate::shapes::cube::Cube;
use crate::shapes::cylinder::Cylinder;
use crate::shapes::plane::Plane;
use crate::shapes::spheres::Sphere;
use crate::tuple::Tuple;
use crate::vector::Vector;

verus! {

#[derive(Clone, Copy, Debug)]
pub struct Shape {
    pub origin: Point,
    pub transform: Matrix4D,
    pub material: Material,
}

impl Shape {
    pub fn new(origin: Point) -> (r: Shape)
        ensures
            r.origin == origin,
            r.material == spec_default_material(),
            forall|i: int, j: int|
                0 <= i < 4 && 0 <= j < 4 ==> r.transform.at(i, j) == spec_identity_at(i, j),
    {
        Shape { origin, transform: Matrix4D::identity(), material: Material::default() }
    }
}

impl Default for Shape {
    /// A shape core at the origin with the identity transform and the
    /// default material.
    fn default() -> (r: Shape)
        ensures
            r.origin == Point::spec_new(
                crate::fixed::Fixed { raw: 0 },
                crate::fixed::Fixed { raw: 0 },
                crate::fixed::Fixed { raw: 0 },
            ),
            r.material == spec_default_material(),
            forall|i: int, j: int|
                0 <= i < 4 && 0 <= j < 4 ==> r.transform.at(i, j) == spec_identity_at(i, j),
    {
        let z = crate::fixed::Fixed::zero();
        Shape::new(Point::new(z, z, z))
    }
}

/// The closed union of the shape variants; a scene holds a collection of
/// these, and intersections refer to them by index.
#[derive(Clone, Copy, Debug)]
pub enum SceneObject {
    Sphere(Sphere),
    Plane(Plane),
    Cube(Cube),
    Cylinder(Cylinder),
    Cone(Cone),
}

impl SceneObject {
    /// The shared data core of the variant.
    pub open spec fn spec_shape(self) -> Shape {
        match self {
            SceneObject::Sphere(s) => s.shape,
            SceneObject::Plane(s) => s.shape,
            SceneObject::Cube(s) => s.shape,
            SceneObject::Cylinder(s) => s.shape,
            SceneObject::Cone(s) => s.shape,
        }
    }

    /// The variant's intersection distances against an object-space ray.
    pub open spec fn spec_local_xs(self, ray: Ray) -> Seq<Fixed> {
        match self {
            SceneObject::Sphere(s) => s.spec_local_xs(ray),
            SceneObject::Plane(s) => s.spec_local_xs(ray),
            SceneObject::Cube(s) => s.spec_local_xs(ray),
            SceneObject::Cylinder(s) => s.spec_local_xs(ray),
            SceneObject::Cone(s) => s.spec_local_xs(ray),
        }
    }

    /// Whether the object-space ray is degenerate for this variant: only the
    /// sphere rejects a ray whose direction self-product vanishes.
    pub open spec fn spec_degenerate(self, ray: Ray) -> bool {
        match self {
            SceneObject::Sphere(_) => Sphere::spec_quadratic_a(ray).raw == 0,
            _ => false,
        }
    }

    /// The variant's normal at an object-space point.
    pub open spec fn spec_local_normal_at(self, point: Point) -> Vector {
        match self {
            SceneObject::Sphere(s) => s.spec_local_normal_at(point),
            SceneObject::Plane(s) => s.spec_local_normal_at(point),
            SceneObject::Cube(s) => s.spec_local_normal_at(point),
            SceneObject::Cylinder(s) => s.spec_local_normal_at(point),
            SceneObject::Cone(s) => s.spec_local_normal_at(point),
        }
    }

    /// The incoming world ray carried into object space by the inverse of
    /// the shape's transform.
    pub open spec fn spec_world_ray(self, ray: Ray) -> Ray {
        ray.spec_transform_inverse(self.spec_shape().transform)
    }

    /// The world-space intersections of a ray with this shape, tagged with
    /// the shape's index.
    pub open spec fn spec_intersections(self, ray: Ray, index: usize) -> Seq<Intersection> {
        self.spec_local_xs(self.spec_world_ray(ray)).map(
            |k: int, t: Fixed| Intersection { t, object: index },
        )
    }

    /// The world normal: the object-space normal carried back by the
    /// transposed inverse transform, its w component zeroed, normalised.
    pub open spec fn spec_normal_at(self, world_point: Point) -> Vector {
        let transform = self.spec_shape().transform;
        let local_point = Point { tuple: transform.spec_inverse_mul_tuple(world_point.tuple) };
        let local_normal = self.spec_local_normal_at(local_point);
        let wn = transform.spec_inv_transpose_mul_tuple(local_normal.tuple);
        (Vector { tuple: Tuple { x: wn.x, y: wn.y, z: wn.z, w: fx_zero() } }).spec_normalise()
    }

    /// The same variant with its transform replaced.
    pub open spec fn spec_set_transform(self, transform: Matrix4D) -> SceneObject {
        match self {
            SceneObject::Sphere(s) => SceneObject::Sphere(
                Sphere { shape: Shape { transform, ..s.shape } },
            ),
            SceneObject::Plane(s) => SceneObject::Plane(
                Plane { shape: Shape { transform, ..s.shape } },
            ),
            SceneObject::Cube(s) => SceneObject::Cube(
                Cube { shape: Shape { transform, ..s.shape } },
            ),
            SceneObject::Cylinder(s) => SceneObject::Cylinder(
                Cylinder { shape: Shape { transform, ..s.shape }, ..s },
            ),
            SceneObject::Cone(s) => SceneObject::Cone(
                Cone { shape: Shape { transform, ..s.shape }, ..s },
            ),
        }
    }

    /// The same variant with its material replaced.
    pub open spec fn spec_set_material(self, material: Material) -> SceneObject {
        match self {
            SceneObject::Sphere(s) => SceneObject::Sphere(
                Sphere { shape: Shape { material, ..s.shape } },
            ),
            SceneObject::Plane(s) => SceneObject::Plane(
                Plane { shape: Shape { material, ..s.shape } },
            ),
            SceneObject::Cube(s) => SceneObject::Cube(
                Cube { shape: Shape { material, ..s.shape } },
            ),
            SceneObject::Cylinder(s) => SceneObject::Cylinder(
                Cylinder { shape: Shape { material, ..s.shape }, ..s },
            ),
            SceneObject::Cone(s) => SceneObject::Cone(
                Cone { shape: Shape { material, ..s.shape }, ..s },
            ),
        }
    }

    pub fn shape(&self) -> (r: &Shape)
        ensures
            *r == self.spec_shape(),
    {
        match self {
            SceneObject::Sphere(s) => &s.shape,
            SceneObject::Plane(s) => &s.shape,
            SceneObject::Cube(s) => &s.shape,
            SceneObject::Cylinder(s) => &s.shape,
            SceneObject::Cone(s) => &s.shape,
        }
    }

    pub fn material(&self) -> (r: &Material)
        ensures
            *r == self.spec_shape().material,
    {
        &self.shape().material
    }

    pub fn transform(&self) -> (r: &Matrix4D)
        ensures
            *r == self.spec_shape().transform,
    {
        &self.shape().transform
    }

    pub fn origin(&self) -> (r: &Point)
        ensures
            *r == self.spec_shape().origin,
    {
        &self.shape().origin
    }

    pub fn set_transform(&mut self, transform: Matrix4D)
        ensures
            *final(self) == old(self).spec_set_transform(transform),
    {
        *self = match *self {
            SceneObject::Sphere(mut s) => {
                s.shape.transform = transform;
                SceneObject::Sphere(s)
            },
            SceneObject::Plane(mut s) => {
                s.shape.transform = transform;
                SceneObject::Plane(s)
            },
            SceneObject::Cube(mut s) => {
                s.shape.transform = transform;
                SceneObject::Cube(s)
            },
            SceneObject::Cylinder(mut s) => {
                s.shape.transform = transform;
                SceneObject::Cylinder(s)
            },
            SceneObject::Cone(mut s) => {
                s.shape.transform = transform;
                SceneObject::Cone(s)
            },
        };
    }

    pub fn set_material(&mut self, material: Material)
        ensures
            *final(self) == old(self).spec_set_material(material),
    {
        *self = match *self {
            SceneObject::Sphere(mut s) => {
                s.shape.material = material;
                SceneObject::Sphere(s)
            },
            SceneObject::Plane(mut s) => {
                s.shape.material = material;
                SceneObject::Plane(s)
            },
            SceneObject::Cube(mut s) => {
                s.shape.material = material;
                SceneObject::Cube(s)
            },
            SceneObject::Cylinder(mut s) => {
                s.shape.material = material;
                SceneObject::Cylinder(s)
            },
            SceneObject::Cone(mut s) => {
                s.shape.material = material;
                SceneObject::Cone(s)
            },
        };
    }

    /// The variant's object-space intersection routine.
    pub fn local_intersect(&self, ray: &Ray) -> (r: Result<Vec<Fixed>, String>)
        ensures
            r.is_ok() == !self.spec_degenerate(*ray),
            r matches Ok(v) ==> v@ == self.spec_local_xs(*ray),
    {
        match self {
            SceneObject::Sphere(s) => s.local_intersect(ray),
            SceneObject::Plane(s) => s.local_intersect(ray),
            SceneObject::Cube(s) => s.local_intersect(ray),
            SceneObject::Cylinder(s) => s.local_intersect(ray),
            SceneObject::Cone(s) => s.local_intersect(ray),
        }
    }

    /// The variant's object-space normal routine.
    pub fn local_normal_at(&self, point: Point) -> (r: Vector)
        ensures
            r == self.spec_local_normal_at(point),
    {
        match self {
            SceneObject::Sphere(s) => s.local_normal_at(point),
            SceneObject::Plane(s) => s.local_normal_at(point),
            SceneObject::Cube(s) => s.local_normal_at(point),
            SceneObject::Cylinder(s) => s.local_normal_at(point),
            SceneObject::Cone(s) => s.local_normal_at(point),
        }
    }

    /// Intersect a world ray with this shape, which must carry an
    /// invertible transform: the ray moves into object space, the variant
    /// finds its distances, and each becomes a record tagged with `index`.
    pub fn intersects(&self, r: &Ray, index: usize) -> (res: Result<Vec<Intersection>, String>)
        requires
            self.spec_shape().transform.spec_det().raw != 0,
        ensures
            res.is_ok() == !self.spec_degenerate(self.spec_world_ray(*r)),
            res matches Ok(v) ==> v@ == self.spec_intersections(*r, index),
    {
        let inv = self.transform().inverse().unwrap();
        let local_ray = r.transform(&inv);
        proof {
            assert(local_ray == self.spec_world_ray(*r));
        }
        let ts = match self.local_intersect(&local_ray) {
            Ok(ts) => ts,
            Err(e) => {
                return Err(e);
            },
        };
        let mut out: Vec<Intersection> = Vec::new();
        let n = ts.len();
        let mut k: usize = 0;
        while k < n
            invariant
                n == ts@.len(),
                k <= n,
                out@.len() == k,
                forall|j: int| 0 <= j < k ==> out@[j] == (Intersection {
                    t: ts@[j],
                    object: index,
                }),
        decreases n - k,
        {
            out.push(Intersection::new(ts[k], index));
            k += 1;
        }
        proof {
            assert(out@ =~= self.spec_intersections(*r, index));
        }
        Ok(out)
    }

    /// The world normal at a world point on the surface; the shape must
    /// carry an invertible transform.
    pub fn normal_at(&self, world_point: Point) -> (r: Vector)
        requires
            self.spec_shape().transform.spec_det().raw != 0,
        ensures
            r == self.spec_normal_at(world_point),
    {
        let inv = self.transform().inverse().unwrap();
        let local_point = inv.mul_point(world_point);
        let local_normal = self.local_normal_at(local_point);
        let inv_t = inv.transpose();
        let wn = inv_t.mul_tuple(local_normal.tuple);
        Vector::new(wn.x, wn.y, wn.z).normalise()
    }
}

} // verus!
