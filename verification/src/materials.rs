//! Surface materials and the Phong lighting model.

use vstd::prelude::*;
use crate::color::Color;
use crate::fixed::{fx_floor_units, spec_powi, Fixed, SCALE};
use crate::lights::PointLight;
use crate::patterns::color_pattern::ColorPattern;
use crate::point::Point;
use crate::shapes::shape::Shape;
use crate::vector::Vector;

verus! {

#[derive(Clone, Copy, Debug)]
pub struct Material {
    pub pattern: Option<ColorPattern>,
    pub color: Color,
    pub reflective: Fixed,
    pub transparency: Fixed,
    pub refractive_index: Fixed,
    pub ambient: Fixed,
    pub diffuse: Fixed,
    pub specular: Fixed,
    pub shininess: Fixed,
}

pub open spec fn spec_black() -> Color {
    Color { red: Fixed { raw: 0 }, green: Fixed { raw: 0 }, blue: Fixed { raw: 0 } }
}

/// The default surface: white, mostly diffuse, no reflection or
/// transparency, with the refractive index of vacuum.
pub open spec fn spec_default_material() -> Material {
    Material {
        pattern: None,
        color: Color {
            red: Fixed { raw: SCALE },
            green: Fixed { raw: SCALE },
            blue: Fixed { raw: SCALE },
        },
        reflective: Fixed { raw: 0 },
        transparency: Fixed { raw: 0 },
        refractive_index: Fixed { raw: SCALE },
        ambient: Fixed { raw: 429496729 },  // one tenth of a unit, rounded toward zero
        diffuse: Fixed { raw: 3865470566 },  // nine tenths of a unit, rounded toward zero
        specular: Fixed { raw: 3865470566 },  // nine tenths of a unit, rounded toward zero
        shininess: Fixed { raw: 858993459200 },  // two hundred units
    }
}

impl Material {
    /// The specular exponent: the shininess coefficient taken through its
    /// floor, never negative.
    pub open spec fn spec_shininess_exp(self) -> nat {
        let f = fx_floor_units(self.shininess.v());
        if f < 0 {
            0
        } else {
            f as nat
        }
    }

    /// The surface's own color at a point: the pattern sampled at the owning
    /// object when one is set, the flat color otherwise.
    pub open spec fn spec_base_color(self, object: Shape, point: Point) -> Color {
        match self.pattern {
            Some(p) => p.spec_pattern_at_object(object.transform, point),
            None => self.color,
        }
    }

    /// The Phong model: ambient plus diffuse plus specular, where diffuse
    /// and specular vanish in shadow or when the light is behind the surface,
    /// and specular further vanishes when the reflected light points away
    /// from the eye.
    pub open spec fn spec_lighting(
        self,
        object: Shape,
        light: PointLight,
        point: Point,
        eye: Vector,
        normal: Vector,
        in_shadow: bool,
    ) -> Color {
        let color = self.spec_base_color(object, point);
        let effective_color = color.spec_mul(light.intensity);
        let light_dir = (Vector {
            tuple: light.position.tuple.spec_sub(point.tuple),
        }).spec_normalise();
        let ambient = effective_color.spec_scale(self.ambient);
        let light_dot_normal = light_dir.spec_dot(normal);
        let lit = light_dot_normal.raw >= 0 && !in_shadow;
        let diffuse = if lit {
            effective_color.spec_scale(self.diffuse).spec_scale(light_dot_normal)
        } else {
            spec_black()
        };
        let reflect_dir = Vector { tuple: light_dir.spec_reflect(normal).tuple.spec_neg() };
        let reflect_dot_eye = reflect_dir.spec_dot(eye);
        let specular = if lit && reflect_dot_eye.raw > 0 {
            light.intensity.spec_scale(self.specular).spec_scale(
                spec_powi(reflect_dot_eye, self.spec_shininess_exp()),
            )
        } else {
            spec_black()
        };
        ambient.spec_add(diffuse).spec_add(specular)
    }

    pub fn new(
        pattern: Option<ColorPattern>,
        color: Color,
        reflective: Fixed,
        ambient: Fixed,
        diffuse: Fixed,
        specular: Fixed,
        shininess: Fixed,
    ) -> (r: Material)
        ensures
            r == (Material {
                pattern,
                color,
                reflective,
                transparency: Fixed { raw: 0 },
                refractive_index: Fixed { raw: SCALE },
                ambient,
                diffuse,
                specular,
                shininess,
            }),
    {
        Material {
            pattern,
            color,
            reflective,
            transparency: Fixed::zero(),
            refractive_index: Fixed::one(),
            ambient,
            diffuse,
            specular,
            shininess,
        }
    }

    pub fn lighting(
        &self,
        object: &Shape,
        light: &PointLight,
        point: &Point,
        eye: &Vector,
        normal: &Vector,
        in_shadow: bool,
    ) -> (r: Color)
        requires
            self.pattern matches Some(p) ==> object.transform.spec_det().raw != 0
                && p.spec_transform().spec_det().raw != 0,
        ensures
            r == self.spec_lighting(*object, *light, *point, *eye, *normal, in_shadow),
    {
        let mut color = self.color;
        if let Some(pattern) = self.pattern {
            color = pattern.pattern_at_object(object, point);
        }

        let effective_color = color.mul(light.intensity);
        let light_dir = light.position.sub(*point).normalise();

        let ambient = effective_color.scale(self.ambient);
        let mut diffuse = Color::black();
        let mut specular = Color::black();

        let light_dot_normal = light_dir.dot(normal);
        if light_dot_normal.raw >= 0 && !in_shadow {
            diffuse = effective_color.scale(self.diffuse).scale(light_dot_normal);
            let reflect_dir = light_dir.reflect(*normal).neg();
            let reflect_dot_eye = reflect_dir.dot(eye);
            if reflect_dot_eye.raw > 0 {
                let f = self.shininess.floor_units();
                let n: u64 = if f < 0 {
                    0
                } else {
                    f as u64
                };
                let factor = reflect_dot_eye.powi(n);
                specular = light.intensity.scale(self.specular).scale(factor);
            }
        }
        ambient.add(diffuse).add(specular)
    }
}

impl Default for Material {
    /// The default surface.
    fn default() -> (r: Material)
        ensures
            r == spec_default_material(),
    {
        Material {
            pattern: None,
            color: Color::new(Fixed::one(), Fixed::one(), Fixed::one()),
            reflective: Fixed::zero(),
            transparency: Fixed::zero(),
            refractive_index: Fixed::one(),
            ambient: Fixed::from_raw(429496729),
            diffuse: Fixed::from_raw(3865470566),
            specular: Fixed::from_raw(3865470566),
            shininess: Fixed::from_raw(858993459200),
        }
    }
}

} // verus!
