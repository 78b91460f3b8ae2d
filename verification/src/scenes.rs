//! A ready-made scene: a single sphere silhouetted against a wall.

use vstd::prelude::*;
use crate::canvas::Canvas;
use crate::color::Color;
use crate::fixed::Fixed;
use crate::intersection::hit;
use crate::lights::PointLight;
use crate::materials::Material;
use crate::matrix::matrix4d::lemma_identity_det;
use crate::point::Point;
use crate::ray::Ray;
use crate::shapes::shape::SceneObject;
use crate::shapes::spheres::Sphere;
use crate::vector::Vector;

verus! {

/// The identity transform as a value.
pub open spec fn spec_identity_matrix() -> crate::matrix::matrix4d::Matrix4D {
    crate::matrix::matrix4d::Matrix4D {
        data: [
            [
                Fixed { raw: crate::fixed::SCALE },
                Fixed { raw: 0 },
                Fixed { raw: 0 },
                Fixed { raw: 0 },
            ],
            [
                Fixed { raw: 0 },
                Fixed { raw: crate::fixed::SCALE },
                Fixed { raw: 0 },
                Fixed { raw: 0 },
            ],
            [
                Fixed { raw: 0 },
                Fixed { raw: 0 },
                Fixed { raw: crate::fixed::SCALE },
                Fixed { raw: 0 },
            ],
            [
                Fixed { raw: 0 },
                Fixed { raw: 0 },
                Fixed { raw: 0 },
                Fixed { raw: crate::fixed::SCALE },
            ],
        ],
    }
}

/// A matrix whose entries all match the identity is the identity value.
pub proof fn lemma_entrywise_identity(m: crate::matrix::matrix4d::Matrix4D)
    requires
        forall|i: int, j: int|
            0 <= i < 4 && 0 <= j < 4 ==> #[trigger] m.at(i, j)
                == crate::matrix::matrix4d::spec_identity_at(i, j),
    ensures
        m == spec_identity_matrix(),
{
    broadcast use vstd::array::group_array_axioms;

    let n = spec_identity_matrix();
    assert forall|i: int, j: int|
        0 <= i < 4 && 0 <= j < 4 implies #[trigger] m.data[i][j] == n.data[i][j] by {
        assert(m.at(i, j) == n.at(i, j));
    }
    assert(m.data[0] =~= n.data[0]);
    assert(m.data[1] =~= n.data[1]);
    assert(m.data[2] =~= n.data[2]);
    assert(m.data[3] =~= n.data[3]);
    assert(m.data =~= n.data);
}

/// The scene's one shape: a unit sphere at the origin, untransformed,
/// carrying the default material tinted magenta.
pub open spec fn spec_shadow_scene_object() -> SceneObject {
    SceneObject::Sphere(
        Sphere {
            shape: crate::shapes::shape::Shape {
                origin: Point::spec_new(Fixed { raw: 0 }, Fixed { raw: 0 }, Fixed { raw: 0 }),
                transform: spec_identity_matrix(),
                material: Material {
                    color: Color::spec_new(
                        Fixed { raw: crate::fixed::SCALE },
                        Fixed { raw: 858993459 },
                        Fixed { raw: crate::fixed::SCALE },
                    ),
                    ..crate::materials::spec_default_material()
                },
            },
        },
    )
}

/// The scene's white light, above and to the left of the eye.
pub open spec fn spec_shadow_scene_light() -> PointLight {
    PointLight {
        position: Point::spec_new(
            Fixed { raw: -42949672960i64 },
            Fixed { raw: 42949672960 },
            Fixed { raw: -42949672960i64 },
        ),
        intensity: Color::spec_new(
            Fixed { raw: crate::fixed::SCALE },
            Fixed { raw: crate::fixed::SCALE },
            Fixed { raw: crate::fixed::SCALE },
        ),
    }
}

/// The ray for pixel `(x, y)`: from the eye at five units in front of the
/// sphere toward the pixel's point on a seventy-unit wall at z of one
/// hundred, columns sweeping left to right and rows top to bottom.
pub open spec fn spec_shadow_pixel_ray(x: int, y: int) -> Ray {
    let wall_size = Fixed { raw: 300647710720 };  // seventy units
    let pixel_size = wall_size.spec_div(Fixed { raw: 4294967296000 });  // a thousandth of the wall
    let half = wall_size.spec_div(Fixed { raw: 8589934592 });  // half the wall
    let wall_z = Fixed { raw: 429496729600 };  // one hundred units
    let ray_origin = Point::spec_new(
        Fixed { raw: 0 },
        Fixed { raw: 0 },
        Fixed { raw: -21474836480i64 },
    );
    let world_y = half.spec_sub(pixel_size.spec_mul(Fixed { raw: (y * crate::fixed::SCALE) as i64 }));
    let world_x = half.spec_neg().spec_add(
        pixel_size.spec_mul(Fixed { raw: (x * crate::fixed::SCALE) as i64 }),
    );
    let position = Point::spec_new(world_x, world_y, wall_z);
    Ray {
        origin: ray_origin,
        direction: (Vector {
            tuple: position.tuple.spec_sub(ray_origin.tuple),
        }).spec_normalise(),
    }
}

/// The color of pixel `(x, y)`: the sphere lit without shadowing where its
/// nearest forward hit lies, black where the ray misses; `None` marks a
/// degenerate pixel ray.
#[verifier::opaque]
pub open spec fn spec_shadow_pixel(x: int, y: int) -> Option<Color> {
    let obj = spec_shadow_scene_object();
    let r = spec_shadow_pixel_ray(x, y);
    if obj.spec_degenerate(obj.spec_world_ray(r)) {
        None
    } else {
        match crate::intersection::spec_hit(obj.spec_intersections(r, 0)) {
            Some(h) => {
                let p = r.spec_position(h.t);
                let eye = Vector { tuple: r.direction.tuple.spec_neg() };
                Some(
                    obj.spec_shape().material.spec_lighting(
                        obj.spec_shape(),
                        spec_shadow_scene_light(),
                        p,
                        eye,
                        obj.spec_normal_at(p),
                        false,
                    ),
                )
            },
            None => Some(Color::spec_new(Fixed { raw: 0 }, Fixed { raw: 0 }, Fixed { raw: 0 })),
        }
    }
}

/// Trace one pixel of the shadow scene: the lit color where the sphere is
/// hit, nothing where the ray misses, and the degenerate-ray error otherwise.
#[verifier::rlimit(100)]
fn shadow_pixel(obj: &SceneObject, light: &PointLight, x: usize, y: usize) -> (res: Result<
    Option<Color>,
    String,
>)
    requires
        *obj == spec_shadow_scene_object(),
        *light == spec_shadow_scene_light(),
        x < 1000,
        y < 1000,
    ensures
        res matches Ok(p) ==> spec_shadow_pixel(x as int, y as int) == Some(
            match p {
                Some(col) => col,
                None => Color::spec_new(Fixed { raw: 0 }, Fixed { raw: 0 }, Fixed { raw: 0 }),
            },
        ),
        res is Err ==> spec_shadow_pixel(x as int, y as int) is None,
{
    proof {
        reveal(spec_shadow_pixel);
    }
    let z0 = Fixed::zero();
    let ray_origin = Point::new(z0, z0, Fixed::from_int(-5));
    let wall_z = Fixed::from_int(100);
    let wall_size = Fixed::from_int(70);
    let pixel_size = wall_size.div(Fixed::from_int(1000));
    let half = wall_size.div(Fixed::from_int(2));

    let world_y = half.sub(pixel_size.mul(Fixed::from_int(y as i64)));
    let world_x = half.neg().add(pixel_size.mul(Fixed::from_int(x as i64)));
    let position = Point::new(world_x, world_y, wall_z);
    let r = Ray::new(ray_origin, position.sub(ray_origin).normalise());
    proof {
        assert(r == spec_shadow_pixel_ray(x as int, y as int));
        lemma_identity_det(obj.spec_shape().transform);
    }
    let xs = match obj.intersects(&r, 0) {
        Ok(v) => v,
        Err(e) => {
            return Err(e);
        },
    };

    match hit(&xs) {
        Some(hit_value) => {
            let point = r.position(hit_value.t);
            let normal = obj.normal_at(point);
            let eye = r.direction.neg();
            let color = obj.shape().material.lighting(
                obj.shape(),
                light,
                &point,
                &eye,
                &normal,
                false,
            );
            Ok(Some(color))
        },
        _ => {
            Ok(None)
        },
    }
}

/// Cast a ray at every pixel of a wall behind a unit sphere and light the
/// visible hemisphere; pixels whose ray misses stay black. A degenerate
/// per-pixel ray aborts the render with its error, so the render succeeds
/// exactly when no pixel ray is degenerate.
pub fn sphere_shadow_example() -> (r: Result<Canvas, String>)
    ensures
        r matches Ok(c) ==> c.wf() && c.width == 1000 && c.height == 1000 && forall|
            x: int,
            y: int,
        |
            0 <= x < 1000 && 0 <= y < 1000 ==> #[trigger] spec_shadow_pixel(x, y) == Some(
                c.spec_pixel_at(x, y),
            ),
        r is Err ==> exists|x: int, y: int|
            0 <= x < 1000 && 0 <= y < 1000 && #[trigger] spec_shadow_pixel(x, y) is None,
{
    let canvas_pixels: usize = 1000;
    proof {
        assert(canvas_pixels * canvas_pixels == 1000000) by (nonlinear_arith)
            requires canvas_pixels == 1000;
    }
    let mut c = Canvas::new(canvas_pixels, canvas_pixels);
    let z0 = Fixed::zero();
    let sphere_origin = Point::new(z0, z0, z0);

    let mut shape = Sphere::new(sphere_origin);
    let mut material = Material::default();
    material.color = Color::new(
        Fixed::one(),
        Fixed::from_raw(858993459),  // one fifth of a unit
        Fixed::one(),
    );
    shape.shape.material = material;

    let ten = Fixed::from_int(10);
    let light = PointLight::new(
        Point::new(ten.neg(), ten, ten.neg()),
        Color::new(Fixed::one(), Fixed::one(), Fixed::one()),
    );

    let obj = SceneObject::Sphere(shape);
    proof {
        lemma_entrywise_identity(obj.spec_shape().transform);
        assert(obj == spec_shadow_scene_object());
        assert(light == spec_shadow_scene_light());
    }

    let mut y: usize = 0;
    while y < canvas_pixels
        invariant
            canvas_pixels == 1000,
            y <= canvas_pixels,
            c.wf(),
            c.width == canvas_pixels,
            c.height == canvas_pixels,
            obj == spec_shadow_scene_object(),
            light == spec_shadow_scene_light(),
            forall|a: int, b: int|
                0 <= a < 1000 && 0 <= b < y ==> #[trigger] spec_shadow_pixel(a, b) == Some(
                    c.spec_pixel_at(a, b),
                ),
            forall|a: int, b: int|
                0 <= a < 1000 && y <= b < 1000 ==> c.spec_pixel_at(a, b) == Color::spec_new(
                    Fixed { raw: 0 },
                    Fixed { raw: 0 },
                    Fixed { raw: 0 },
                ),
        decreases canvas_pixels - y,
    {
        let mut x: usize = 0;
        while x < canvas_pixels
            invariant
                canvas_pixels == 1000,
                y < canvas_pixels,
                x <= canvas_pixels,
                c.wf(),
                c.width == canvas_pixels,
                c.height == canvas_pixels,
                obj == spec_shadow_scene_object(),
                light == spec_shadow_scene_light(),
                forall|a: int, b: int|
                    0 <= a < 1000 && 0 <= b < y ==> #[trigger] spec_shadow_pixel(a, b) == Some(
                        c.spec_pixel_at(a, b),
                    ),
                forall|a: int|
                    0 <= a < x ==> #[trigger] spec_shadow_pixel(a, y as int) == Some(
                        c.spec_pixel_at(a, y as int),
                    ),
                forall|a: int, b: int|
                    0 <= a < 1000 && y < b < 1000 ==> c.spec_pixel_at(a, b) == Color::spec_new(
                    Fixed { raw: 0 },
                    Fixed { raw: 0 },
                    Fixed { raw: 0 },
                ),
                forall|a: int|
                    x <= a < 1000 ==> c.spec_pixel_at(a, y as int) == Color::spec_new(
                    Fixed { raw: 0 },
                    Fixed { raw: 0 },
                    Fixed { raw: 0 },
                ),
            decreases canvas_pixels - x,
        {
            match shadow_pixel(&obj, &light, x, y) {
                Ok(Some(color)) => {
                    c.write_pixel(x, y, color);
                },
                Ok(None) => {},
                Err(e) => {
                    return Err(e);
                },
            }
            x += 1;
        }
        proof {
            assert forall|a: int, b: int|
                0 <= a < 1000 && 0 <= b < y + 1 implies #[trigger] spec_shadow_pixel(a, b)
                == Some(c.spec_pixel_at(a, b)) by {
                if b < y {
                    assert(spec_shadow_pixel(a, b) == Some(c.spec_pixel_at(a, b)));
                } else {
                    assert(b == y);
                    assert(spec_shadow_pixel(a, y as int) == Some(c.spec_pixel_at(a, y as int)));
                }
            }
        }
        y += 1;
    }
    Ok(c)
}

} // verus!
