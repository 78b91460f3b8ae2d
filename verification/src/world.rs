//! The scene: a collection of shapes and one point light, with shadow
//! testing and the recursive shading pipeline.

use vstd::prelude::*;
use crate::color::Color;
use crate::fixed::{fx_one, Fixed};
use crate::lights::PointLight;
use crate::materials::spec_default_material;
use crate::matrix::matrix4d::spec_identity_at;
use crate::intersection::IntersectionComputations;
use crate::point::Point;
use crate::ray::Ray;
use crate::shapes::shape::SceneObject;
use crate::shapes::spheres::Sphere;
use crate::vector::Vector;
use crate::transformations::{scaling, spec_scaling_at};

verus! {

/// How many times a color may be traced through reflection or refraction
/// when the caller does not choose a budget.
pub const REFLECTION_RECURSION_THRESHOLD: i32 = 3;

pub struct World {
    pub objects: Vec<SceneObject>,
    pub light: PointLight,
}

impl World {
    /// A well-formed scene: every shape carries an invertible transform, and
    /// so does every pattern in use. A singular transform is a
    /// scene-construction error and admits no geometry.
    pub open spec fn wf(self) -> bool {
        forall|i: int|
            0 <= i < self.objects@.len() ==> (#[trigger] self.objects@[i]).spec_shape()
                .transform.spec_det().raw != 0 && (self.objects@[i].spec_shape().material.pattern
                matches Some(p) ==> p.spec_transform().spec_det().raw != 0)
    }

    /// The refractive index of the shape at `idx`.
    pub open spec fn spec_refractive_of(self, idx: usize) -> Fixed {
        self.objects@[idx as int].spec_shape().material.refractive_index
    }

    pub fn new(objects: Vec<SceneObject>, light: PointLight) -> (r: World)
        ensures
            r.objects == objects,
            r.light == light,
    {
        World { objects, light }
    }

    /// The ray cast from a point toward the light.
    pub open spec fn spec_shadow_ray(self, point: Point) -> Ray {
        let v = Vector { tuple: self.light.position.tuple.spec_sub(point.tuple) };
        Ray { origin: point, direction: v.spec_normalise() }
    }

    /// The distance from a point to the light.
    pub open spec fn spec_light_distance(self, point: Point) -> Fixed {
        (Vector { tuple: self.light.position.tuple.spec_sub(point.tuple) }).spec_magnitude()
    }

    /// A point is shadowed when some shape intersects the ray toward the
    /// light at a non-negative distance short of the light itself.
    pub open spec fn spec_shadowed(self, point: Point) -> bool {
        let ray = self.spec_shadow_ray(point);
        let all = ray.spec_world_xs(self, self.objects@.len() as int);
        exists|k: int|
            0 <= k < all.len() && 0 <= (#[trigger] all[k]).t.raw < self.spec_light_distance(
                point,
            ).raw
    }

    /// Whether every intersection of the ray with the scene lies behind its
    /// origin.
    pub open spec fn spec_all_behind(self, ray: Ray) -> bool {
        let all = ray.spec_world_xs(self, self.objects@.len() as int);
        forall|k: int| 0 <= k < all.len() ==> (#[trigger] all[k]).t.raw < 0
    }

    /// The surface term of a shaded hit together with the reflected and
    /// refracted contributions: blended by the Schlick reflectance when the
    /// material is both reflective and transparent, summed plainly otherwise.
    pub open spec fn spec_shade_blend(
        self,
        comps: IntersectionComputations,
        reflected: Color,
        refracted: Color,
    ) -> Color {
        let object = self.objects@[comps.object as int].spec_shape();
        let material = object.material;
        let surface = material.spec_lighting(
            object,
            self.light,
            comps.over_point,
            comps.eye,
            comps.normal,
            self.spec_shadowed(comps.over_point),
        );
        if material.reflective.raw > 0 && material.transparency.raw > 0 {
            let reflectance = comps.spec_schlick();
            surface.spec_add(reflected.spec_scale(reflectance)).spec_add(
                refracted.spec_scale(fx_one().spec_sub(reflectance)),
            )
        } else {
            surface.spec_add(reflected).spec_add(refracted)
        }
    }

    /// The color seen along a ray, as a mathematical function of the scene:
    /// the nearest hit of the deterministically sorted intersections, shaded
    /// recursively under the given budget. `None` marks the error raised
    /// when some shape sees a traced ray as degenerate in its object space.
    pub open spec fn spec_color_at(self, ray: Ray, budget: nat) -> Option<Color>
        decreases budget, 3int,
    {
        if ray.spec_any_degenerate(self) {
            None
        } else {
            let xs = crate::intersection::spec_sort_by_t(
                ray.spec_world_xs(self, self.objects@.len() as int),
            );
            match crate::intersection::spec_hit(xs) {
                Some(h) => self.spec_shade_hit(
                    crate::ray::spec_prepare_computations(self, ray, h, Some(xs)),
                    budget,
                ),
                None => Some(crate::materials::spec_black()),
            }
        }
    }

    /// Shading a prepared hit, as a mathematical function: the shadow test,
    /// then the reflected and refracted traces, blended by `spec_shade_blend`.
    pub open spec fn spec_shade_hit(self, comps: IntersectionComputations, budget: nat) -> Option<
        Color,
    >
        decreases budget, 2int,
    {
        if self.spec_shadow_ray(comps.over_point).spec_any_degenerate(self) {
            None
        } else {
            match self.spec_reflected_color(comps, budget) {
                Some(reflected) => match self.spec_refracted_color(comps, budget) {
                    Some(refracted) => Some(self.spec_shade_blend(comps, reflected, refracted)),
                    None => None,
                },
                None => None,
            }
        }
    }

    /// The reflected contribution, as a mathematical function: black when
    /// the budget is spent or the material does not reflect, else the color
    /// along the reflection ray at the smaller budget, scaled by the
    /// reflectivity.
    pub open spec fn spec_reflected_color(self, comps: IntersectionComputations, budget: nat)
        -> Option<Color>
        decreases budget, 1int,
    {
        let material = self.objects@[comps.object as int].spec_shape().material;
        if budget == 0 {
            Some(crate::materials::spec_black())
        } else if material.reflective.raw == 0 {
            Some(crate::materials::spec_black())
        } else {
            match self.spec_color_at(
                Ray { origin: comps.over_point, direction: comps.reflection_vector },
                (budget - 1) as nat,
            ) {
                Some(c) => Some(c.spec_scale(material.reflective)),
                None => None,
            }
        }
    }

    /// The refracted contribution, as a mathematical function: black when
    /// the budget is spent, the material is opaque, or the hit undergoes
    /// total internal reflection; else the color along the ray bent by
    /// Snell's law at the smaller budget, scaled by the transparency.
    pub open spec fn spec_refracted_color(self, comps: IntersectionComputations, budget: nat)
        -> Option<Color>
        decreases budget, 1int,
    {
        let material = self.objects@[comps.object as int].spec_shape().material;
        if budget == 0 {
            Some(crate::materials::spec_black())
        } else if material.transparency.raw == 0 {
            Some(crate::materials::spec_black())
        } else {
            let ratio = comps.n1.spec_div(comps.n2);
            let cos_i = comps.eye.spec_dot(comps.normal);
            let sin2_t = crate::fixed::spec_powi(ratio, 2).spec_mul(
                fx_one().spec_sub(crate::fixed::spec_powi(cos_i, 2)),
            );
            if sin2_t.raw > crate::fixed::SCALE {
                Some(crate::materials::spec_black())
            } else {
                let cos_t = fx_one().spec_sub(sin2_t).spec_sqrt();
                let direction = Vector {
                    tuple: comps.normal.tuple.spec_scale(
                        ratio.spec_mul(cos_i).spec_sub(cos_t),
                    ).spec_sub(comps.eye.tuple.spec_scale(ratio)),
                };
                match self.spec_color_at(
                    Ray { origin: comps.under_point, direction },
                    (budget - 1) as nat,
                ) {
                    Some(c) => Some(c.spec_scale(material.transparency)),
                    None => None,
                }
            }
        }
    }

    /// Cast a ray from the point toward the light: the point is shadowed
    /// exactly when a shape stands in between. An error is returned exactly
    /// when some shape sees the shadow ray as degenerate.
    #[verifier::rlimit(100)]
    pub fn is_shadowed(&self, point: Point) -> (r: Result<bool, String>)
        requires
            self.wf(),
        ensures
            r.is_ok() == !self.spec_shadow_ray(point).spec_any_degenerate(*self),
            r matches Ok(b) ==> b == self.spec_shadowed(point),
    {
        proof {
            broadcast use vstd::seq_lib::group_to_multiset_ensures;

        }
        let v = self.light.position.sub(point);
        let distance = v.magnitude();
        let direction = v.normalise();

        let shadow_ray = Ray::new(point, direction);
        let intersections = match shadow_ray.intersect_world(self) {
            Ok(xs) => xs,
            Err(e) => {
                return Err(e);
            },
        };
        let ghost all = shadow_ray.spec_world_xs(*self, self.objects@.len() as int);
        proof {
            assert(shadow_ray == self.spec_shadow_ray(point));
            assert(distance == self.spec_light_distance(point));
            crate::intersection::lemma_hit_is_nearest(intersections@);
        }
        match crate::intersection::hit(&intersections) {
            Some(h) => {
                proof {
                    if h.t.raw < distance.raw {
                        assert(intersections@.contains(h));
                        assert(all.to_multiset().contains(h));
                        assert(all.contains(h));
                        let w = choose|w: int| 0 <= w < all.len() && all[w] == h;
                        assert(0 <= (all[w]).t.raw < self.spec_light_distance(point).raw);
                        assert(self.spec_shadowed(point));
                    } else {
                        assert forall|k: int|
                            0 <= k < all.len() implies !(0 <= (#[trigger] all[k]).t.raw
                            < self.spec_light_distance(point).raw) by {
                            assert(all.to_multiset().contains(all[k]));
                            assert(intersections@.to_multiset().contains(all[k]));
                            assert(intersections@.contains(all[k]));
                            let w = choose|w: int|
                                0 <= w < intersections@.len() && intersections@[w] == all[k];
                            if all[k].t.raw >= 0 {
                                assert(h.t.raw <= all[k].t.raw);
                            }
                        }
                        assert(!self.spec_shadowed(point));
                    }
                }
                if h.t.raw < distance.raw {
                    Ok(true)
                } else {
                    Ok(false)
                }
            },
            None => {
                proof {
                    assert forall|k: int|
                        0 <= k < all.len() implies !(0 <= (#[trigger] all[k]).t.raw
                        < self.spec_light_distance(point).raw) by {
                        assert(all.to_multiset().contains(all[k]));
                        assert(intersections@.to_multiset().contains(all[k]));
                        assert(intersections@.contains(all[k]));
                        let w = choose|w: int|
                            0 <= w < intersections@.len() && intersections@[w] == all[k];
                        assert(intersections@[w].t.raw < 0);
                    }
                    assert(!self.spec_shadowed(point));
                }
                Ok(false)
            },
        }
    }

    /// Shade a prepared hit: the Phong surface term plus the reflected and
    /// refracted traces, Fresnel-blended where the material is both
    /// reflective and transparent.
    pub fn shade_hit(&self, comps: &IntersectionComputations, remaining: Option<i32>) -> (r:
        Result<Color, String>)
        requires
            self.wf(),
            comps.object < self.objects@.len(),
            remaining matches Some(n) ==> n >= 0,
        ensures
            r matches Ok(c) ==> self.spec_shade_hit(*comps, rem_of(remaining) as nat) == Some(c),
            r is Err ==> self.spec_shade_hit(*comps, rem_of(remaining) as nat) is None,
        decreases rem_of(remaining), 2int,
    {
        let in_shadow = match self.is_shadowed(comps.over_point) {
            Ok(b) => b,
            Err(e) => {
                return Err(e);
            },
        };
        let object = self.objects[comps.object].shape();
        let surface = object.material.lighting(
            object,
            &self.light,
            &comps.over_point,
            &comps.eye,
            &comps.normal,
            in_shadow,
        );
        let reflected = match self.reflected_color(comps, remaining) {
            Ok(c) => c,
            Err(e) => {
                return Err(e);
            },
        };
        let refracted = match self.refracted_color(comps, remaining) {
            Ok(c) => c,
            Err(e) => {
                return Err(e);
            },
        };

        let material = &self.objects[comps.object].shape().material;
        let result = if material.reflective.raw > 0 && material.transparency.raw > 0 {
            let reflectance = comps.schlick();
            surface.add(reflected.scale(reflectance)).add(
                refracted.scale(Fixed::one().sub(reflectance)),
            )
        } else {
            surface.add(reflected).add(refracted)
        };
        proof {
            assert(result == self.spec_shade_blend(*comps, reflected, refracted));
            assert(self.spec_shade_hit(*comps, rem_of(remaining) as nat) == Some(result));
        }
        Ok(result)
    }

    /// The color seen along a ray: the nearest hit shaded with the full
    /// intersection list, or black when every intersection lies behind the
    /// ray. The recursion budget defaults when the caller passes none.
    pub fn color_at(&self, ray: &Ray, remaining: Option<i32>) -> (r: Result<Color, String>)
        requires
            self.wf(),
            remaining matches Some(n) ==> n >= 0,
        ensures
            r matches Ok(c) ==> self.spec_color_at(*ray, rem_of(remaining) as nat) == Some(c),
            r is Err ==> self.spec_color_at(*ray, rem_of(remaining) as nat) is None,
            !ray.spec_any_degenerate(*self) && self.spec_all_behind(*ray) ==> r == Result::<
                Color,
                String,
            >::Ok(crate::materials::spec_black()),
        decreases rem_of(remaining), 3int,
    {
        proof {
            broadcast use vstd::seq_lib::group_to_multiset_ensures;

        }
        let xs = match ray.intersect_world(self) {
            Ok(xs) => xs,
            Err(e) => {
                return Err(e);
            },
        };
        let ghost all = ray.spec_world_xs(*self, self.objects@.len() as int);
        let hits = crate::intersection::hit(&xs);
        match hits {
            Some(intersection) => {
                proof {
                    assert(xs@.contains(intersection));
                    if self.spec_all_behind(*ray) {
                        let w = choose|w: int| 0 <= w < xs@.len() && xs@[w] == intersection;
                        assert(all.to_multiset().contains(intersection));
                        assert(all.contains(intersection));
                        let u = choose|u: int| 0 <= u < all.len() && all[u] == intersection;
                        assert(false);
                    }
                }
                let comps = ray.prepare_computations(self, &intersection, Some(&xs));
                let r = self.shade_hit(&comps, remaining);
                proof {
                    let sorted = crate::intersection::spec_sort_by_t(all);
                    assert(xs@ == sorted);
                    assert(crate::intersection::spec_hit(sorted) == Some(intersection));
                    assert(comps == crate::ray::spec_prepare_computations(
                        *self,
                        *ray,
                        intersection,
                        Some(sorted),
                    ));
                }
                r
            },
            _ => {
                Ok(Color::black())
            },
        }
    }

    /// The reflected contribution at a hit: black when the budget is spent
    /// or the material does not reflect, else the color seen along the
    /// reflection ray scaled by the reflectivity.
    pub fn reflected_color(&self, comps: &IntersectionComputations, remaining: Option<i32>) -> (r:
        Result<Color, String>)
        requires
            self.wf(),
            comps.object < self.objects@.len(),
            remaining matches Some(n) ==> n >= 0,
        ensures
            r matches Ok(c) ==> self.spec_reflected_color(*comps, rem_of(remaining) as nat)
                == Some(c),
            r is Err ==> self.spec_reflected_color(*comps, rem_of(remaining) as nat) is None,
            rem_of(remaining) == 0 ==> r == Result::<Color, String>::Ok(
                crate::materials::spec_black(),
            ),
            self.objects@[comps.object as int].spec_shape().material.reflective.raw == 0 ==> r
                == Result::<Color, String>::Ok(crate::materials::spec_black()),
        decreases rem_of(remaining), 1int,
    {
        let budget = match remaining {
            Some(n) => n,
            None => REFLECTION_RECURSION_THRESHOLD,
        };
        if budget == 0 {
            return Ok(Color::black());
        }

        if self.objects[comps.object].shape().material.reflective.raw == 0 {
            return Ok(Color::black());
        }

        let reflect_ray = Ray::new(comps.over_point, comps.reflection_vector);
        let color = match self.color_at(&reflect_ray, Some(budget - 1)) {
            Ok(c) => c,
            Err(e) => {
                return Err(e);
            },
        };
        Ok(color.scale(self.objects[comps.object].shape().material.reflective))
    }

    /// The refracted contribution at a hit: black when the budget is spent,
    /// the material is opaque, or the hit undergoes total internal
    /// reflection; else the color seen along the ray bent by Snell's law,
    /// scaled by the transparency.
    pub fn refracted_color(&self, comps: &IntersectionComputations, remaining: Option<i32>) -> (r:
        Result<Color, String>)
        requires
            self.wf(),
            comps.object < self.objects@.len(),
            remaining matches Some(n) ==> n >= 0,
        ensures
            r matches Ok(c) ==> self.spec_refracted_color(*comps, rem_of(remaining) as nat)
                == Some(c),
            r is Err ==> self.spec_refracted_color(*comps, rem_of(remaining) as nat) is None,
            rem_of(remaining) == 0 ==> r == Result::<Color, String>::Ok(
                crate::materials::spec_black(),
            ),
            self.objects@[comps.object as int].spec_shape().material.transparency.raw == 0 ==> r
                == Result::<Color, String>::Ok(crate::materials::spec_black()),
            ({
                let ratio = comps.n1.spec_div(comps.n2);
                let cos_i = comps.eye.spec_dot(comps.normal);
                crate::fixed::spec_powi(ratio, 2).spec_mul(
                    fx_one().spec_sub(crate::fixed::spec_powi(cos_i, 2)),
                ).raw > crate::fixed::SCALE
            }) ==> r == Result::<Color, String>::Ok(crate::materials::spec_black()),
        decreases rem_of(remaining), 1int,
    {
        let budget = match remaining {
            Some(n) => n,
            None => REFLECTION_RECURSION_THRESHOLD,
        };
        if budget == 0 {
            return Ok(Color::black());
        }
        if self.objects[comps.object].shape().material.transparency.raw == 0 {
            return Ok(Color::black());
        }

        let one = Fixed::one();
        let ratio = comps.n1.div(comps.n2);
        let cos_i = comps.eye.dot(&comps.normal);
        let sin2_t = ratio.powi(2).mul(one.sub(cos_i.powi(2)));
        if sin2_t.raw > crate::fixed::SCALE {
            return Ok(Color::black());
        }

        let cos_t = one.sub(sin2_t).sqrt();
        let direction = comps.normal.scale(ratio.mul(cos_i).sub(cos_t)).sub(
            comps.eye.scale(ratio),
        );
        let refract_ray = Ray::new(comps.under_point, direction);
        let color = match self.color_at(&refract_ray, Some(budget - 1)) {
            Ok(c) => c,
            Err(e) => {
                return Err(e);
            },
        };
        Ok(color.scale(self.objects[comps.object].shape().material.transparency))
    }
}

/// The recursion budget: the caller's choice, or the default threshold.
pub open spec fn rem_of(remaining: Option<i32>) -> int {
    match remaining {
        Some(n) => n as int,
        None => REFLECTION_RECURSION_THRESHOLD as int,
    }
}

impl Default for World {
    /// The default scene: a white light above and behind the eye, a larger
    /// green-tinted diffuse sphere, and a half-size default sphere inside it.
    fn default() -> (r: World)
        ensures
            r.light.position == Point::spec_new(
                Fixed { raw: -42949672960i64 },
                Fixed { raw: 42949672960 },
                Fixed { raw: -42949672960i64 },
            ),
            r.light.intensity == Color::spec_new(
                Fixed { raw: crate::fixed::SCALE },
                Fixed { raw: crate::fixed::SCALE },
                Fixed { raw: crate::fixed::SCALE },
            ),
            r.objects@.len() == 2,
            r.objects@[0] matches SceneObject::Sphere(s) && s.shape.material == (
            crate::materials::Material {
                color: Color::spec_new(
                    Fixed { raw: 3435973836 },
                    Fixed { raw: crate::fixed::SCALE },
                    Fixed { raw: 2576980377 },
                ),
                diffuse: Fixed { raw: 3006477107 },
                specular: Fixed { raw: 858993459 },
                ..spec_default_material()
            }) && forall|i: int, j: int|
                0 <= i < 4 && 0 <= j < 4 ==> s.shape.transform.at(i, j) == spec_identity_at(i, j),
            r.objects@[1] matches SceneObject::Sphere(s) && s.shape.material
                == spec_default_material() && forall|i: int, j: int|
                0 <= i < 4 && 0 <= j < 4 ==> s.shape.transform.at(i, j) == spec_scaling_at(
                    Fixed { raw: 2147483648 },
                    Fixed { raw: 2147483648 },
                    Fixed { raw: 2147483648 },
                    i,
                    j,
                ),
    {
        let ten = Fixed::from_int(10);
        let light = PointLight::new(
            Point::new(ten.neg(), ten, ten.neg()),
            Color::new(Fixed::one(), Fixed::one(), Fixed::one()),
        );

        let mut s1 = Sphere::new(Point::new(Fixed::zero(), Fixed::zero(), Fixed::zero()));
        let mut m1 = crate::materials::Material::default();
        m1.color = Color::new(
            Fixed::from_raw(3435973836),  // four fifths of a unit
            Fixed::one(),
            Fixed::from_raw(2576980377),  // three fifths of a unit
        );
        m1.diffuse = Fixed::from_raw(3006477107);  // seven tenths of a unit
        m1.specular = Fixed::from_raw(858993459);  // one fifth of a unit
        s1.shape.material = m1;

        let mut s2 = Sphere::new(Point::new(Fixed::zero(), Fixed::zero(), Fixed::zero()));
        let half = Fixed::from_raw(2147483648);  // one half of a unit
        s2.shape.transform = scaling(half, half, half);

        let mut objects: Vec<SceneObject> = Vec::new();
        objects.push(SceneObject::Sphere(s1));
        objects.push(SceneObject::Sphere(s2));
        World { objects, light }
    }
}

} // verus!
