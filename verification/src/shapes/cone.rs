//! The double-napped cone with apex at the origin, optionally truncated and
//! capped; a cap's radius equals its height.

use vstd::prelude::*;
use crate::fixed::{fx_epsilon, fx_four, fx_one, fx_two, fx_zero, Fixed};
use crate::materials::spec_default_material;
use crate::matrix::matrix4d::spec_identity_at;
use crate::point::Point;
use crate::ray::Ray;
use crate::shapes::shape::Shape;
use crate::tuple::Tuple;
use crate::vector::Vector;

verus! {


#[derive(Clone, Copy, Debug)]
pub struct Cone {
    pub shape: Shape,
    pub maximum: Fixed,
    pub minimum: Fixed,
    pub closed: bool,
}

impl Cone {
    pub open spec fn spec_quadratic_a(self, ray: Ray) -> Fixed {
        let dx = ray.direction.tuple.x;
        let dy = ray.direction.tuple.y;
        let dz = ray.direction.tuple.z;
        dx.spec_mul(dx).spec_sub(dy.spec_mul(dy)).spec_add(dz.spec_mul(dz))
    }

    pub open spec fn spec_quadratic_b(self, ray: Ray) -> Fixed {
        fx_two().spec_mul(ray.origin.tuple.x).spec_mul(ray.direction.tuple.x).spec_sub(
            fx_two().spec_mul(ray.origin.tuple.y).spec_mul(ray.direction.tuple.y),
        ).spec_add(fx_two().spec_mul(ray.origin.tuple.z).spec_mul(ray.direction.tuple.z))
    }

    pub open spec fn spec_quadratic_c(self, ray: Ray) -> Fixed {
        let ox = ray.origin.tuple.x;
        let oy = ray.origin.tuple.y;
        let oz = ray.origin.tuple.z;
        ox.spec_mul(ox).spec_sub(oy.spec_mul(oy)).spec_add(oz.spec_mul(oz))
    }

    pub open spec fn spec_discriminant(self, ray: Ray) -> Fixed {
        let b = self.spec_quadratic_b(ray);
        b.spec_mul(b).spec_sub(
            fx_four().spec_mul(self.spec_quadratic_a(ray)).spec_mul(self.spec_quadratic_c(ray)),
        )
    }

    /// Whether the ray at distance `t` lands within a cap of radius `|y|`:
    /// the squared radial distance must not exceed the squared cap height.
    pub open spec fn spec_check_cap(self, ray: Ray, t: Fixed, y: Fixed) -> bool {
        let x = ray.origin.tuple.x.spec_add(t.spec_mul(ray.direction.tuple.x));
        let z = ray.origin.tuple.z.spec_add(t.spec_mul(ray.direction.tuple.z));
        x.spec_mul(x).spec_add(z.spec_mul(z)).raw <= y.spec_mul(y).raw
    }

    /// The hits against the cone's surface: the two quadratic roots filtered
    /// by height, or the single linear root when the ray parallels one nappe.
    pub open spec fn spec_side_xs(self, ray: Ray) -> Seq<Fixed> {
        let a = self.spec_quadratic_a(ray);
        let b = self.spec_quadratic_b(ray);
        let c = self.spec_quadratic_c(ray);
        if a.raw != 0 {
            let root = self.spec_discriminant(ray).spec_sqrt();
            let denom = fx_two().spec_mul(a);
            let ta = b.spec_neg().spec_sub(root).spec_div(denom);
            let tb = b.spec_neg().spec_add(root).spec_div(denom);
            let t0 = ta.spec_min(tb);
            let t1 = ta.spec_max(tb);
            let y0 = ray.origin.tuple.y.spec_add(t0.spec_mul(ray.direction.tuple.y));
            let y1 = ray.origin.tuple.y.spec_add(t1.spec_mul(ray.direction.tuple.y));
            let first: Seq<Fixed> = if self.minimum.raw < y0.raw && y0.raw < self.maximum.raw {
                seq![t0]
            } else {
                Seq::empty()
            };
            let second: Seq<Fixed> = if self.minimum.raw < y1.raw && y1.raw < self.maximum.raw {
                seq![t1]
            } else {
                Seq::empty()
            };
            first + second
        } else if b.raw != 0 {
            seq![c.spec_neg().spec_div(fx_two().spec_mul(b))]
        } else {
            Seq::empty()
        }
    }

    /// The cap hits, each kept only when the ray lands within the cap disk.
    /// A bound standing at a saturation sentinel is an unbounded extent, not
    /// a cap plane, and is never hit.
    pub open spec fn spec_cap_xs(self, ray: Ray) -> Seq<Fixed> {
        if self.closed && ray.direction.tuple.y.raw != 0 {
            let t_lo = self.minimum.spec_sub(ray.origin.tuple.y).spec_div(ray.direction.tuple.y);
            let t_hi = self.maximum.spec_sub(ray.origin.tuple.y).spec_div(ray.direction.tuple.y);
            let first: Seq<Fixed> = if self.minimum.raw != i64::MIN && self.spec_check_cap(
                ray,
                t_lo,
                self.minimum,
            ) {
                seq![t_lo]
            } else {
                Seq::empty()
            };
            let second: Seq<Fixed> = if self.maximum.raw != i64::MAX && self.spec_check_cap(
                ray,
                t_hi,
                self.maximum,
            ) {
                seq![t_hi]
            } else {
                Seq::empty()
            };
            first + second
        } else {
            Seq::empty()
        }
    }

    /// Surface hits, then cap hits; nothing at all when the quadratic
    /// applies and its discriminant is negative.
    pub open spec fn spec_local_xs(self, ray: Ray) -> Seq<Fixed> {
        if self.spec_quadratic_a(ray).raw != 0 && self.spec_discriminant(ray).raw < 0 {
            Seq::empty()
        } else {
            self.spec_side_xs(ray) + self.spec_cap_xs(ray)
        }
    }

    /// The normal: an axis vector within a cap band; on the surface, the
    /// radial direction with a vertical part of magnitude equal to the
    /// radial distance, signed opposite the height.
    pub open spec fn spec_local_normal_at(self, point: Point) -> Vector {
        let x = point.tuple.x;
        let y = point.tuple.y;
        let z = point.tuple.z;
        let d = x.spec_mul(x).spec_add(z.spec_mul(z));
        if d.raw < crate::fixed::SCALE && y.raw >= self.maximum.spec_sub(fx_epsilon()).raw {
            Vector { tuple: Tuple { x: fx_zero(), y: fx_one(), z: fx_zero(), w: fx_zero() } }
        } else if d.raw < crate::fixed::SCALE && y.raw <= self.minimum.spec_add(fx_epsilon()).raw {
            Vector {
                tuple: Tuple { x: fx_zero(), y: fx_one().spec_neg(), z: fx_zero(), w: fx_zero() },
            }
        } else {
            let ny = if y.raw > 0 {
                d.spec_sqrt().spec_neg()
            } else {
                d.spec_sqrt()
            };
            (Vector { tuple: Tuple { x, y: ny, z, w: fx_zero() } }).spec_normalise()
        }
    }

    pub fn new(origin: Point, maximum: Fixed, minimum: Fixed, closed: bool) -> (r: Cone)
        ensures
            r.shape.origin == origin,
            r.shape.material == spec_default_material(),
            forall|i: int, j: int|
                0 <= i < 4 && 0 <= j < 4 ==> r.shape.transform.at(i, j) == spec_identity_at(i, j),
            r.maximum == maximum,
            r.minimum == minimum,
            r.closed == closed,
    {
        Cone { shape: Shape::new(origin), maximum, minimum, closed }
    }

    fn check_cap(&self, ray: &Ray, t: Fixed, y: Fixed) -> (r: bool)
        ensures
            r == self.spec_check_cap(*ray, t, y),
    {
        let x = ray.origin.tuple.x.add(t.mul(ray.direction.tuple.x));
        let z = ray.origin.tuple.z.add(t.mul(ray.direction.tuple.z));
        x.mul(x).add(z.mul(z)).raw <= y.mul(y).raw
    }

    pub fn local_intersect(&self, ray: &Ray) -> (r: Result<Vec<Fixed>, String>)
        ensures
            r.is_ok(),
            r matches Ok(v) ==> v@ == self.spec_local_xs(*ray),
    {
        let mut xs: Vec<Fixed> = Vec::new();

        let two = Fixed::from_int(2);
        let four = Fixed::from_int(4);
        let dx = ray.direction.tuple.x;
        let dy = ray.direction.tuple.y;
        let dz = ray.direction.tuple.z;
        let a = dx.mul(dx).sub(dy.mul(dy)).add(dz.mul(dz));
        let b = two.mul(ray.origin.tuple.x).mul(ray.direction.tuple.x).sub(
            two.mul(ray.origin.tuple.y).mul(ray.direction.tuple.y),
        ).add(two.mul(ray.origin.tuple.z).mul(ray.direction.tuple.z));
        let ox = ray.origin.tuple.x;
        let oy = ray.origin.tuple.y;
        let oz = ray.origin.tuple.z;
        let c = ox.mul(ox).sub(oy.mul(oy)).add(oz.mul(oz));

        if a.raw != 0 {
            let discriminant = b.mul(b).sub(four.mul(a).mul(c));
            if discriminant.raw < 0 {
                proof {
                    assert(xs@ =~= self.spec_local_xs(*ray));
                }
                return Ok(xs);
            }
            let root = discriminant.sqrt();
            let denom = two.mul(a);
            let mut t0 = b.neg().sub(root).div(denom);
            let mut t1 = b.neg().add(root).div(denom);
            if t0.raw > t1.raw {
                let tmp = t0;
                t0 = t1;
                t1 = tmp;
            }

            let y0 = ray.origin.tuple.y.add(t0.mul(ray.direction.tuple.y));
            if self.minimum.raw < y0.raw && y0.raw < self.maximum.raw {
                xs.push(t0);
            }

            let y1 = ray.origin.tuple.y.add(t1.mul(ray.direction.tuple.y));
            if self.minimum.raw < y1.raw && y1.raw < self.maximum.raw {
                xs.push(t1);
            }
        } else if b.raw != 0 {
            xs.push(c.neg().div(two.mul(b)));
        }
        proof {
            assert(xs@ =~= self.spec_side_xs(*ray));
        }

        if self.closed && ray.direction.tuple.y.raw != 0 {
            let t = self.minimum.sub(ray.origin.tuple.y).div(ray.direction.tuple.y);
            if self.minimum.raw != i64::MIN && self.check_cap(ray, t, self.minimum) {
                xs.push(t);
            }
            let t = self.maximum.sub(ray.origin.tuple.y).div(ray.direction.tuple.y);
            if self.maximum.raw != i64::MAX && self.check_cap(ray, t, self.maximum) {
                xs.push(t);
            }
        }
        proof {
            assert(xs@ =~= self.spec_local_xs(*ray));
        }
        Ok(xs)
    }

    pub fn local_normal_at(&self, point: Point) -> (r: Vector)
        ensures
            r == self.spec_local_normal_at(point),
    {
        let x = point.tuple.x;
        let y = point.tuple.y;
        let z = point.tuple.z;
        let d = x.mul(x).add(z.mul(z));
        let eps = Fixed::from_raw(crate::fixed::EPSILON_RAW);
        let z0 = Fixed::zero();

        if d.raw < crate::fixed::SCALE && y.raw >= self.maximum.sub(eps).raw {
            Vector::new(z0, Fixed::one(), z0)
        } else if d.raw < crate::fixed::SCALE && y.raw <= self.minimum.add(eps).raw {
            Vector::new(z0, Fixed::one().neg(), z0)
        } else {
            let mut ny = d.sqrt();
            if y.raw > 0 {
                ny = ny.neg();
            }
            Vector::new(x, ny, z).normalise()
        }
    }
}

impl Default for Cone {
    /// An unbounded cone at the origin with caps enabled.
    fn default() -> (r: Cone)
        ensures
            r.shape.origin == Point::spec_new(fx_zero(), fx_zero(), fx_zero()),
            r.shape.material == spec_default_material(),
            forall|i: int, j: int|
                0 <= i < 4 && 0 <= j < 4 ==> r.shape.transform.at(i, j) == spec_identity_at(i, j),
            r.maximum == (Fixed { raw: i64::MAX }),
            r.minimum == (Fixed { raw: i64::MIN }),
            r.closed,
    {
        let z = Fixed::zero();
        Cone {
            shape: Shape::new(Point::new(z, z, z)),
            maximum: Fixed::from_raw(i64::MAX),
            minimum: Fixed::from_raw(i64::MIN),
            closed: true,
        }
    }
}

} // verus!
