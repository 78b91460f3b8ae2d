//! The camera: maps pixel coordinates to primary rays and drives the
//! per-pixel render loop.

use vstd::prelude::*;
use crate::canvas::Canvas;
use crate::color::Color;
use crate::fixed::{fx_one, fx_two, Fixed};
use crate::matrix::matrix4d::{spec_identity_at, Matrix4D};
use crate::point::Point;
use crate::ray::Ray;
use crate::world::World;

verus! {

pub struct Camera {
    pub hsize: u32,
    pub vsize: u32,
    pub field_of_view: Fixed,
    pub transform: Matrix4D,
    pub pixel_size: Fixed,
    pub half_width: Fixed,
    pub half_height: Fixed,
}

/// Half of a unit, as a scalar.
pub open spec fn fx_half() -> Fixed {
    Fixed { raw: 2147483648 }
}

impl Camera {
    /// The half extents of the image plane one unit in front of the eye:
    /// the half view spans the longer pixel axis, the other side shrinks by
    /// the aspect ratio.
    pub open spec fn spec_half_extents(hsize: u32, vsize: u32, half_view: Fixed) -> (Fixed, Fixed) {
        let aspect = (Fixed { raw: (hsize * crate::fixed::SCALE) as i64 }).spec_div(
            Fixed { raw: (vsize * crate::fixed::SCALE) as i64 },
        );
        if aspect.raw >= crate::fixed::SCALE {
            (half_view, half_view.spec_div(aspect))
        } else {
            (half_view.spec_mul(aspect), half_view)
        }
    }

    /// The world-space side length of one square pixel.
    pub open spec fn spec_pixel_size(hsize: u32, vsize: u32, half_view: Fixed) -> Fixed {
        let (half_width, _) = Camera::spec_half_extents(hsize, vsize, half_view);
        half_width.spec_mul(fx_two()).spec_div(Fixed { raw: (hsize * crate::fixed::SCALE) as i64 })
    }

    /// A camera over a pixel grid. `half_view` is the tangent of half the
    /// field of view, which the caller evaluates; the transform starts as
    /// the identity. The pixel counts must fit the scalar range, a
    /// representation limit.
    pub fn new(hsize: u32, vsize: u32, field_of_view: Fixed, half_view: Fixed) -> (r: Camera)
        requires
            0 < hsize <= 2147483646,
            0 < vsize <= 2147483646,
        ensures
            r.hsize == hsize,
            r.vsize == vsize,
            r.field_of_view == field_of_view,
            forall|i: int, j: int|
                0 <= i < 4 && 0 <= j < 4 ==> r.transform.at(i, j) == spec_identity_at(i, j),
            (r.half_width, r.half_height) == Camera::spec_half_extents(hsize, vsize, half_view),
            r.pixel_size == Camera::spec_pixel_size(hsize, vsize, half_view),
    {
        let fh = Fixed::from_int(hsize as i64);
        let fv = Fixed::from_int(vsize as i64);
        let aspect = fh.div(fv);

        let (half_width, half_height) = if aspect.raw >= crate::fixed::SCALE {
            (half_view, half_view.div(aspect))
        } else {
            (half_view.mul(aspect), half_view)
        };

        let pixel_size = half_width.mul(Fixed::from_int(2)).div(fh);

        Camera {
            hsize,
            vsize,
            field_of_view,
            transform: Matrix4D::identity(),
            pixel_size,
            half_width,
            half_height,
        }
    }

    /// The primary ray through the center of a pixel: from the transformed
    /// eye toward the matching point on the image plane one unit ahead.
    pub open spec fn spec_ray_for_pixel(self, px: u32, py: u32) -> Ray {
        let x_offset = (Fixed { raw: (px * crate::fixed::SCALE) as i64 }).spec_add(
            fx_half(),
        ).spec_mul(self.pixel_size);
        let y_offset = (Fixed { raw: (py * crate::fixed::SCALE) as i64 }).spec_add(
            fx_half(),
        ).spec_mul(self.pixel_size);
        let world_x = self.half_width.spec_sub(x_offset);
        let world_y = self.half_height.spec_sub(y_offset);
        let pixel = self.transform.spec_inverse_mul_tuple(
            Point::spec_new(world_x, world_y, fx_one().spec_neg()).tuple,
        );
        let origin = self.transform.spec_inverse_mul_tuple(
            Point::spec_new(Fixed { raw: 0 }, Fixed { raw: 0 }, Fixed { raw: 0 }).tuple,
        );
        let direction = (crate::vector::Vector { tuple: pixel.spec_sub(origin) }).spec_normalise();
        Ray { origin: Point { tuple: origin }, direction }
    }

    /// The primary ray through the center of pixel `(px, py)`. The pixel
    /// coordinates must fit the scalar range, a representation limit.
    pub fn ray_for_pixel(&self, px: u32, py: u32) -> (r: Ray)
        requires
            self.transform.spec_det().raw != 0,
            px <= 2147483646,
            py <= 2147483646,
        ensures
            r == self.spec_ray_for_pixel(px, py),
    {
        let half = Fixed::from_raw(2147483648);
        let x_offset = Fixed::from_int(px as i64).add(half).mul(self.pixel_size);
        let y_offset = Fixed::from_int(py as i64).add(half).mul(self.pixel_size);

        let world_x = self.half_width.sub(x_offset);
        let world_y = self.half_height.sub(y_offset);

        let inv = self.transform.inverse().unwrap();

        let z0 = Fixed::zero();
        let pixel = inv.mul_point(Point::new(world_x, world_y, Fixed::one().neg()));
        let origin = inv.mul_point(Point::new(z0, z0, z0));
        let direction = pixel.sub(origin).normalise();
        Ray::new(origin, direction)
    }

    /// The color traced for one pixel at the default recursion budget;
    /// `None` marks the degenerate-ray error.
    pub open spec fn spec_pixel_color(self, world: World, px: u32, py: u32) -> Option<Color> {
        world.spec_color_at(self.spec_ray_for_pixel(px, py), 3)
    }

    /// Render the world: cast the primary ray through every pixel's center
    /// and store the color it sees at the default recursion budget. An error
    /// from any pixel abandons the whole render; the render succeeds exactly
    /// when no pixel's trace meets a degenerate ray. The pixel counts must
    /// fit the scalar range and their product the address space, both
    /// representation limits.
    #[verifier::rlimit(100)]
    pub fn render(&self, world: &World) -> (r: Result<Canvas, String>)
        requires
            world.wf(),
            self.transform.spec_det().raw != 0,
            0 < self.hsize <= 2147483646,
            0 < self.vsize <= 2147483646,
            self.hsize * self.vsize <= usize::MAX,
        ensures
            r matches Ok(image) ==> image.wf() && image.width == self.hsize && image.height
                == self.vsize && forall|a: u32, b: u32|
                a < self.hsize && b < self.vsize ==> #[trigger] self.spec_pixel_color(
                    *world,
                    a,
                    b,
                ) == Some(image.spec_pixel_at(a as int, b as int)),
            r is Err ==> exists|a: u32, b: u32|
                a < self.hsize && b < self.vsize && #[trigger] self.spec_pixel_color(
                    *world,
                    a,
                    b,
                ) is None,
    {
        let mut image = Canvas::new(self.hsize as usize, self.vsize as usize);

        let mut y: u32 = 0;
        while y < self.vsize
            invariant
                world.wf(),
                self.transform.spec_det().raw != 0,
                0 < self.hsize <= 2147483646,
                0 < self.vsize <= 2147483646,
                y <= self.vsize,
                image.wf(),
                image.width == self.hsize,
                image.height == self.vsize,
                forall|a: u32, b: u32|
                    a < self.hsize && b < y ==> #[trigger] self.spec_pixel_color(*world, a, b)
                        == Some(image.spec_pixel_at(a as int, b as int)),
            decreases self.vsize - y,
        {
            let mut x: u32 = 0;
            while x < self.hsize
                invariant
                    world.wf(),
                    self.transform.spec_det().raw != 0,
                    0 < self.hsize <= 2147483646,
                    0 < self.vsize <= 2147483646,
                    y < self.vsize,
                    x <= self.hsize,
                    image.wf(),
                    image.width == self.hsize,
                    image.height == self.vsize,
                    forall|a: u32, b: u32|
                        a < self.hsize && b < y ==> #[trigger] self.spec_pixel_color(*world, a, b)
                            == Some(image.spec_pixel_at(a as int, b as int)),
                    forall|a: u32|
                        a < x ==> #[trigger] self.spec_pixel_color(*world, a, y) == Some(
                            image.spec_pixel_at(a as int, y as int),
                        ),
                decreases self.hsize - x,
            {
                let r = self.ray_for_pixel(x, y);
                let color = match world.color_at(&r, None) {
                    Ok(color_value) => color_value,
                    Err(err) => {
                        proof {
                            assert(self.spec_pixel_color(*world, x, y) is None);
                        }
                        return Err(err);
                    },
                };
                proof {
                    assert(self.spec_pixel_color(*world, x, y) == Some(color));
                }
                image.write_pixel(x as usize, y as usize, color);
                x += 1;
            }
            proof {
                assert forall|a: u32, b: u32| a < self.hsize && b < y + 1 implies #[trigger] self
                    .spec_pixel_color(*world, a, b) == Some(
                    image.spec_pixel_at(a as int, b as int),
                ) by {
                    if b < y {
                        assert(self.spec_pixel_color(*world, a, b) == Some(
                            image.spec_pixel_at(a as int, b as int),
                        ));
                    } else {
                        assert(b == y);
                        assert(self.spec_pixel_color(*world, a, y) == Some(
                            image.spec_pixel_at(a as int, y as int),
                        ));
                    }
                }
            }
            y += 1;
        }
        Ok(image)
    }
}

} // verus!
