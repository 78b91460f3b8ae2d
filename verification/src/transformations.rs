//! Builders for the affine transforms of the renderer. The rotation builders
//! take the cosine and sine of the angle as scalars, since evaluating the
//! trigonometric functions is outside this library.

use vstd::prelude::*;
use crate::fixed::{fx_one, fx_zero, Fixed};
use crate::matrix::matrix4d::Matrix4D;
use crate::point::Point;
use crate::vector::Vector;

verus! {

/// The entry of a translation matrix by `(x, y, z)`.
pub open spec fn spec_translation_at(x: Fixed, y: Fixed, z: Fixed, i: int, j: int) -> Fixed {
    if i == 0 && j == 3 {
        x
    } else if i == 1 && j == 3 {
        y
    } else if i == 2 && j == 3 {
        z
    } else if i == j {
        fx_one()
    } else {
        fx_zero()
    }
}

/// The entry of a scaling matrix by `(x, y, z)`.
pub open spec fn spec_scaling_at(x: Fixed, y: Fixed, z: Fixed, i: int, j: int) -> Fixed {
    if i != j {
        fx_zero()
    } else if i == 0 {
        x
    } else if i == 1 {
        y
    } else if i == 2 {
        z
    } else {
        fx_one()
    }
}

pub fn translation(x: Fixed, y: Fixed, z: Fixed) -> (r: Matrix4D)
    ensures
        forall|i: int, j: int|
            0 <= i < 4 && 0 <= j < 4 ==> r.at(i, j) == spec_translation_at(x, y, z, i, j),
{
    let o = Fixed::one();
    let z0 = Fixed::zero();
    Matrix4D {
        data: [
            [o, z0, z0, x],
            [z0, o, z0, y],
            [z0, z0, o, z],
            [z0, z0, z0, o],
        ],
    }
}

pub fn scaling(x: Fixed, y: Fixed, z: Fixed) -> (r: Matrix4D)
    ensures
        forall|i: int, j: int|
            0 <= i < 4 && 0 <= j < 4 ==> r.at(i, j) == spec_scaling_at(x, y, z, i, j),
{
    let o = Fixed::one();
    let z0 = Fixed::zero();
    Matrix4D {
        data: [
            [x, z0, z0, z0],
            [z0, y, z0, z0],
            [z0, z0, z, z0],
            [z0, z0, z0, o],
        ],
    }
}

/// Rotation about the x axis, from the cosine and sine of the angle.
pub fn rotation_x(cos_a: Fixed, sin_a: Fixed) -> (r: Matrix4D)
    ensures
        r.at(0, 0) == fx_one() && r.at(0, 1) == fx_zero() && r.at(0, 2) == fx_zero()
            && r.at(0, 3) == fx_zero(),
        r.at(1, 0) == fx_zero() && r.at(1, 1) == cos_a && r.at(1, 2) == sin_a.spec_neg()
            && r.at(1, 3) == fx_zero(),
        r.at(2, 0) == fx_zero() && r.at(2, 1) == sin_a && r.at(2, 2) == cos_a
            && r.at(2, 3) == fx_zero(),
        r.at(3, 0) == fx_zero() && r.at(3, 1) == fx_zero() && r.at(3, 2) == fx_zero()
            && r.at(3, 3) == fx_one(),
{
    let o = Fixed::one();
    let z0 = Fixed::zero();
    Matrix4D {
        data: [
            [o, z0, z0, z0],
            [z0, cos_a, sin_a.neg(), z0],
            [z0, sin_a, cos_a, z0],
            [z0, z0, z0, o],
        ],
    }
}

/// Rotation about the y axis, from the cosine and sine of the angle.
pub fn rotation_y(cos_a: Fixed, sin_a: Fixed) -> (r: Matrix4D)
    ensures
        r.at(0, 0) == cos_a && r.at(0, 1) == fx_zero() && r.at(0, 2) == sin_a
            && r.at(0, 3) == fx_zero(),
        r.at(1, 0) == fx_zero() && r.at(1, 1) == fx_one() && r.at(1, 2) == fx_zero()
            && r.at(1, 3) == fx_zero(),
        r.at(2, 0) == sin_a.spec_neg() && r.at(2, 1) == fx_zero() && r.at(2, 2) == cos_a
            && r.at(2, 3) == fx_zero(),
        r.at(3, 0) == fx_zero() && r.at(3, 1) == fx_zero() && r.at(3, 2) == fx_zero()
            && r.at(3, 3) == fx_one(),
{
    let o = Fixed::one();
    let z0 = Fixed::zero();
    Matrix4D {
        data: [
            [cos_a, z0, sin_a, z0],
            [z0, o, z0, z0],
            [sin_a.neg(), z0, cos_a, z0],
            [z0, z0, z0, o],
        ],
    }
}

/// Rotation about the z axis, from the cosine and sine of the angle.
pub fn rotation_z(cos_a: Fixed, sin_a: Fixed) -> (r: Matrix4D)
    ensures
        r.at(0, 0) == cos_a && r.at(0, 1) == sin_a.spec_neg() && r.at(0, 2) == fx_zero()
            && r.at(0, 3) == fx_zero(),
        r.at(1, 0) == sin_a && r.at(1, 1) == cos_a && r.at(1, 2) == fx_zero()
            && r.at(1, 3) == fx_zero(),
        r.at(2, 0) == fx_zero() && r.at(2, 1) == fx_zero() && r.at(2, 2) == fx_one()
            && r.at(2, 3) == fx_zero(),
        r.at(3, 0) == fx_zero() && r.at(3, 1) == fx_zero() && r.at(3, 2) == fx_zero()
            && r.at(3, 3) == fx_one(),
{
    let o = Fixed::one();
    let z0 = Fixed::zero();
    Matrix4D {
        data: [
            [cos_a, sin_a.neg(), z0, z0],
            [sin_a, cos_a, z0, z0],
            [z0, z0, o, z0],
            [z0, z0, z0, o],
        ],
    }
}

pub fn shearing(x_y: Fixed, x_z: Fixed, y_x: Fixed, y_z: Fixed, z_x: Fixed, z_y: Fixed) -> (r:
    Matrix4D)
    ensures
        r.at(0, 0) == fx_one() && r.at(0, 1) == x_y && r.at(0, 2) == x_z && r.at(0, 3)
            == fx_zero(),
        r.at(1, 0) == y_x && r.at(1, 1) == fx_one() && r.at(1, 2) == y_z && r.at(1, 3)
            == fx_zero(),
        r.at(2, 0) == z_x && r.at(2, 1) == z_y && r.at(2, 2) == fx_one() && r.at(2, 3)
            == fx_zero(),
        r.at(3, 0) == fx_zero() && r.at(3, 1) == fx_zero() && r.at(3, 2) == fx_zero()
            && r.at(3, 3) == fx_one(),
{
    let o = Fixed::one();
    let z0 = Fixed::zero();
    Matrix4D {
        data: [
            [o, x_y, x_z, z0],
            [y_x, o, y_z, z0],
            [z_x, z_y, o, z0],
            [z0, z0, z0, o],
        ],
    }
}

/// The orientation rows of a view transform: `left`, `true_up` and the
/// negated forward direction, derived from the eye position and the up hint.
pub open spec fn spec_view_rows(from: Point, to: Point, up: Vector) -> (Vector, Vector, Vector) {
    let forward = (Vector { tuple: to.tuple.spec_sub(from.tuple) }).spec_normalise();
    let upn = up.spec_normalise();
    let left = Vector { tuple: forward.tuple.spec_cross_3d(upn.tuple) };
    let true_up = Vector { tuple: left.tuple.spec_cross_3d(forward.tuple) };
    (left, true_up, forward)
}

/// The entry of the orientation matrix of a view transform.
pub open spec fn spec_view_orientation_at(from: Point, to: Point, up: Vector, i: int, j: int)
    -> Fixed {
    let (left, true_up, forward) = spec_view_rows(from, to, up);
    if i == 0 {
        if j == 0 {
            left.tuple.x
        } else if j == 1 {
            left.tuple.y
        } else if j == 2 {
            left.tuple.z
        } else {
            fx_zero()
        }
    } else if i == 1 {
        if j == 0 {
            true_up.tuple.x
        } else if j == 1 {
            true_up.tuple.y
        } else if j == 2 {
            true_up.tuple.z
        } else {
            fx_zero()
        }
    } else if i == 2 {
        if j == 0 {
            forward.tuple.x.spec_neg()
        } else if j == 1 {
            forward.tuple.y.spec_neg()
        } else if j == 2 {
            forward.tuple.z.spec_neg()
        } else {
            fx_zero()
        }
    } else {
        if j == 3 {
            fx_one()
        } else {
            fx_zero()
        }
    }
}

/// The entry of a view transform: the orientation matrix composed with the
/// translation moving the eye to the origin.
pub open spec fn spec_view_transform_at(from: Point, to: Point, up: Vector, i: int, j: int)
    -> Fixed {
    let tx = from.tuple.x.spec_neg();
    let ty = from.tuple.y.spec_neg();
    let tz = from.tuple.z.spec_neg();
    spec_view_orientation_at(from, to, up, i, 0).spec_mul(spec_translation_at(tx, ty, tz, 0, j))
        .spec_add(
        spec_view_orientation_at(from, to, up, i, 1).spec_mul(spec_translation_at(tx, ty, tz, 1, j)),
    ).spec_add(
        spec_view_orientation_at(from, to, up, i, 2).spec_mul(spec_translation_at(tx, ty, tz, 2, j)),
    ).spec_add(
        spec_view_orientation_at(from, to, up, i, 3).spec_mul(spec_translation_at(tx, ty, tz, 3, j)),
    )
}

/// The transform that moves the world so that the eye stands at the origin
/// looking down the negative z axis.
pub fn view_transform(from: Point, to: Point, up: Vector) -> (r: Matrix4D)
    ensures
        forall|i: int, j: int|
            0 <= i < 4 && 0 <= j < 4 ==> r.at(i, j) == spec_view_transform_at(from, to, up, i, j),
{
    let forward = to.sub(from).normalise();
    let upn = up.normalise();
    let left = forward.cross(&upn);
    let true_up = left.cross(&forward);

    let o = Fixed::one();
    let z0 = Fixed::zero();
    let orientation = Matrix4D {
        data: [
            [left.tuple.x, left.tuple.y, left.tuple.z, z0],
            [true_up.tuple.x, true_up.tuple.y, true_up.tuple.z, z0],
            [forward.tuple.x.neg(), forward.tuple.y.neg(), forward.tuple.z.neg(), z0],
            [z0, z0, z0, o],
        ],
    };
    let shift = translation(from.tuple.x.neg(), from.tuple.y.neg(), from.tuple.z.neg());
    orientation.mul(&shift)
}

} // verus!
