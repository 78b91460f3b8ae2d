//! The axis-aligned cube with extents [-1, 1] on every axis.

use vstd::prelude::*;
use crate::fixed::{fx_one, fx_zero, Fixed};
use crate::materials::spec_default_material;
use crate::matrix::matrix4d::spec_identity_at;
use crate::point::Point;
use crate::ray::Ray;
use crate::shapes::shape::Shape;
use crate::tuple::Tuple;
use crate::vector::Vector;

verus! {

/// The slab interval for one axis: the distances to the two bounding planes,
/// ordered. A ray parallel to the slab gets signed extreme values.
pub open spec fn spec_check_axis(origin: Fixed, direction: Fixed) -> (Fixed, Fixed) {
    let t_min_num = fx_one().spec_neg().spec_sub(origin);
    let t_max_num = fx_one().spec_sub(origin);
    let pair = if direction.raw != 0 {
        (t_min_num.spec_div(direction), t_max_num.spec_div(direction))
    } else {
        (
            if t_min_num.raw >= 0 {
                Fixed { raw: i64::MAX }
            } else {
                Fixed { raw: i64::MIN }
            },
            if t_max_num.raw >= 0 {
                Fixed { raw: i64::MAX }
            } else {
                Fixed { raw: i64::MIN }
            },
        )
    };
    if pair.0.raw > pair.1.raw {
        (pair.1, pair.0)
    } else {
        pair
    }
}

#[derive(Clone, Copy, Debug)]
pub struct Cube {
    pub shape: Shape,
}

impl Cube {
    /// The entry and exit distances: the largest per-axis minimum and the
    /// smallest per-axis maximum; a miss when they cross.
    pub open spec fn spec_local_xs(self, ray: Ray) -> Seq<Fixed> {
        let xt = spec_check_axis(ray.origin.tuple.x, ray.direction.tuple.x);
        let yt = spec_check_axis(ray.origin.tuple.y, ray.direction.tuple.y);
        let zt = spec_check_axis(ray.origin.tuple.z, ray.direction.tuple.z);
        let tmin = xt.0.spec_max(yt.0).spec_max(zt.0);
        let tmax = xt.1.spec_min(yt.1).spec_min(zt.1);
        if tmin.raw > tmax.raw {
            Seq::empty()
        } else {
            seq![tmin, tmax]
        }
    }

    /// The unit axis vector of whichever coordinate is largest in magnitude.
    pub open spec fn spec_local_normal_at(self, point: Point) -> Vector {
        let xa = point.tuple.x.spec_abs();
        let ya = point.tuple.y.spec_abs();
        let za = point.tuple.z.spec_abs();
        let m = xa.spec_max(ya).spec_max(za);
        if m.raw == xa.raw {
            (Vector {
                tuple: Tuple { x: point.tuple.x, y: fx_zero(), z: fx_zero(), w: fx_zero() },
            }).spec_normalise()
        } else if m.raw == ya.raw {
            (Vector {
                tuple: Tuple { x: fx_zero(), y: point.tuple.y, z: fx_zero(), w: fx_zero() },
            }).spec_normalise()
        } else {
            (Vector {
                tuple: Tuple { x: fx_zero(), y: fx_zero(), z: point.tuple.z, w: fx_zero() },
            }).spec_normalise()
        }
    }

    pub fn new(origin: Point) -> (r: Cube)
        ensures
            r.shape.origin == origin,
            r.shape.material == spec_default_material(),
            forall|i: int, j: int|
                0 <= i < 4 && 0 <= j < 4 ==> r.shape.transform.at(i, j) == spec_identity_at(i, j),
    {
        Cube { shape: Shape::new(origin) }
    }

    /// The ordered slab interval for one axis.
    fn check_axis(&self, origin: Fixed, direction: Fixed) -> (r: (Fixed, Fixed))
        ensures
            r == spec_check_axis(origin, direction),
    {
        let t_min_num = Fixed::one().neg().sub(origin);
        let t_max_num = Fixed::one().sub(origin);
        let (mut t_min, mut t_max) = if direction.raw != 0 {
            (t_min_num.div(direction), t_max_num.div(direction))
        } else {
            (
                if t_min_num.raw >= 0 {
                    Fixed::from_raw(i64::MAX)
                } else {
                    Fixed::from_raw(i64::MIN)
                },
                if t_max_num.raw >= 0 {
                    Fixed::from_raw(i64::MAX)
                } else {
                    Fixed::from_raw(i64::MIN)
                },
            )
        };
        if t_min.raw > t_max.raw {
            let tmp = t_min;
            t_min = t_max;
            t_max = tmp;
        }
        (t_min, t_max)
    }

    pub fn local_intersect(&self, ray: &Ray) -> (r: Result<Vec<Fixed>, String>)
        ensures
            r.is_ok(),
            r matches Ok(v) ==> v@ == self.spec_local_xs(*ray),
    {
        let (xtmin, xtmax) = self.check_axis(ray.origin.tuple.x, ray.direction.tuple.x);
        let (ytmin, ytmax) = self.check_axis(ray.origin.tuple.y, ray.direction.tuple.y);
        let (ztmin, ztmax) = self.check_axis(ray.origin.tuple.z, ray.direction.tuple.z);

        let tmin = xtmin.max(ytmin).max(ztmin);
        let tmax = xtmax.min(ytmax).min(ztmax);

        let mut is: Vec<Fixed> = Vec::new();
        if tmin.raw > tmax.raw {
            proof {
                assert(is@ =~= self.spec_local_xs(*ray));
            }
            Ok(is)
        } else {
            is.push(tmin);
            is.push(tmax);
            proof {
                assert(is@ =~= self.spec_local_xs(*ray));
            }
            Ok(is)
        }
    }

    pub fn local_normal_at(&self, point: Point) -> (r: Vector)
        ensures
            r == self.spec_local_normal_at(point),
    {
        let xa = point.tuple.x.abs();
        let ya = point.tuple.y.abs();
        let za = point.tuple.z.abs();
        let m = xa.max(ya).max(za);
        let z0 = Fixed::zero();
        if m.raw == xa.raw {
            Vector::new(point.tuple.x, z0, z0).normalise()
        } else if m.raw == ya.raw {
            Vector::new(z0, point.tuple.y, z0).normalise()
        } else {
            Vector::new(z0, z0, point.tuple.z).normalise()
        }
    }
}

} // verus!
