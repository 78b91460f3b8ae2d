//! The closed union of the pattern variants, with sampling in object space.

use vstd::prelude::*;
use crate::color::Color;
use crate::matrix::matrix4d::Matrix4D;
use crate::patterns::checker_pattern::CheckerPattern;
use crate::patterns::gradient_pattern::GradientPattern;
use crate::patterns::ring_pattern::RingPattern;
use crate::patterns::stripe_pattern::StripePattern;
use crate::patterns::test_pattern::TestPattern;
use crate::point::Point;
use crate::shapes::shape::Shape;
use crate::tuple::Tuple;

verus! {

#[derive(Clone, Copy, Debug)]
pub enum ColorPattern {
    TestPattern(TestPattern),
    StripePattern(StripePattern),
    GradientPattern(GradientPattern),
    RingPattern(RingPattern),
    CheckerPattern(CheckerPattern),
}

impl ColorPattern {
    /// The pattern's own transform.
    pub open spec fn spec_transform(self) -> Matrix4D {
        match self {
            ColorPattern::TestPattern(p) => p.transform,
            ColorPattern::StripePattern(p) => p.transform,
            ColorPattern::GradientPattern(p) => p.transform,
            ColorPattern::RingPattern(p) => p.transform,
            ColorPattern::CheckerPattern(p) => p.transform,
        }
    }

    /// The color of the variant's pure pattern function at a pattern-space
    /// point.
    pub open spec fn spec_pattern_at(self, point: Point) -> Color {
        match self {
            ColorPattern::TestPattern(p) => p.spec_pattern_at(point),
            ColorPattern::StripePattern(p) => p.spec_pattern_at(point),
            ColorPattern::GradientPattern(p) => p.spec_pattern_at(point),
            ColorPattern::RingPattern(p) => p.spec_pattern_at(point),
            ColorPattern::CheckerPattern(p) => p.spec_pattern_at(point),
        }
    }

    /// Sampling at an object: the world point is carried into object space by
    /// the inverse of the object's transform, then into pattern space by the
    /// inverse of the pattern's own transform, and the pattern is evaluated
    /// there.
    pub open spec fn spec_pattern_at_object(self, object_transform: Matrix4D, point: Point)
        -> Color {
        let obj_point = object_transform.spec_inverse_mul_tuple(point.tuple);
        let pattern_point = self.spec_transform().spec_inverse_mul_tuple(obj_point);
        self.spec_pattern_at(Point { tuple: pattern_point })
    }

    /// The same pattern with its transform replaced.
    pub open spec fn spec_set_transform(self, transform: Matrix4D) -> ColorPattern {
        match self {
            ColorPattern::TestPattern(_) => ColorPattern::TestPattern(TestPattern { transform }),
            ColorPattern::StripePattern(p) => ColorPattern::StripePattern(
                StripePattern { a: p.a, b: p.b, transform },
            ),
            ColorPattern::GradientPattern(p) => ColorPattern::GradientPattern(
                GradientPattern { a: p.a, b: p.b, transform },
            ),
            ColorPattern::RingPattern(p) => ColorPattern::RingPattern(
                RingPattern { a: p.a, b: p.b, transform },
            ),
            ColorPattern::CheckerPattern(p) => ColorPattern::CheckerPattern(
                CheckerPattern { a: p.a, b: p.b, transform },
            ),
        }
    }

    pub fn new_test() -> (r: ColorPattern)
        ensures
            r matches ColorPattern::TestPattern(_),
            forall|i: int, j: int|
                0 <= i < 4 && 0 <= j < 4 ==> r.spec_transform().at(i, j)
                    == crate::matrix::matrix4d::spec_identity_at(i, j),
    {
        ColorPattern::TestPattern(TestPattern::new())
    }

    pub fn new_stripe(a: Color, b: Color) -> (r: ColorPattern)
        ensures
            r matches ColorPattern::StripePattern(p) && p.a == a && p.b == b,
            forall|i: int, j: int|
                0 <= i < 4 && 0 <= j < 4 ==> r.spec_transform().at(i, j)
                    == crate::matrix::matrix4d::spec_identity_at(i, j),
    {
        ColorPattern::StripePattern(StripePattern::new(a, b))
    }

    pub fn new_gradient(a: Color, b: Color) -> (r: ColorPattern)
        ensures
            r matches ColorPattern::GradientPattern(p) && p.a == a && p.b == b,
            forall|i: int, j: int|
                0 <= i < 4 && 0 <= j < 4 ==> r.spec_transform().at(i, j)
                    == crate::matrix::matrix4d::spec_identity_at(i, j),
    {
        ColorPattern::GradientPattern(GradientPattern::new(a, b))
    }

    pub fn new_ring(a: Color, b: Color) -> (r: ColorPattern)
        ensures
            r matches ColorPattern::RingPattern(p) && p.a == a && p.b == b,
            forall|i: int, j: int|
                0 <= i < 4 && 0 <= j < 4 ==> r.spec_transform().at(i, j)
                    == crate::matrix::matrix4d::spec_identity_at(i, j),
    {
        ColorPattern::RingPattern(RingPattern::new(a, b))
    }

    pub fn new_checker(a: Color, b: Color) -> (r: ColorPattern)
        ensures
            r matches ColorPattern::CheckerPattern(p) && p.a == a && p.b == b,
            forall|i: int, j: int|
                0 <= i < 4 && 0 <= j < 4 ==> r.spec_transform().at(i, j)
                    == crate::matrix::matrix4d::spec_identity_at(i, j),
    {
        ColorPattern::CheckerPattern(CheckerPattern::new(a, b))
    }

    pub fn transform(&self) -> (r: &Matrix4D)
        ensures
            *r == self.spec_transform(),
    {
        match self {
            ColorPattern::TestPattern(p) => &p.transform,
            ColorPattern::StripePattern(p) => &p.transform,
            ColorPattern::GradientPattern(p) => &p.transform,
            ColorPattern::RingPattern(p) => &p.transform,
            ColorPattern::CheckerPattern(p) => &p.transform,
        }
    }

    pub fn set_transform(&mut self, transform: Matrix4D)
        ensures
            *final(self) == old(self).spec_set_transform(transform),
    {
        *self = match *self {
            ColorPattern::TestPattern(_) => ColorPattern::TestPattern(TestPattern { transform }),
            ColorPattern::StripePattern(p) => ColorPattern::StripePattern(
                StripePattern { a: p.a, b: p.b, transform },
            ),
            ColorPattern::GradientPattern(p) => ColorPattern::GradientPattern(
                GradientPattern { a: p.a, b: p.b, transform },
            ),
            ColorPattern::RingPattern(p) => ColorPattern::RingPattern(
                RingPattern { a: p.a, b: p.b, transform },
            ),
            ColorPattern::CheckerPattern(p) => ColorPattern::CheckerPattern(
                CheckerPattern { a: p.a, b: p.b, transform },
            ),
        };
    }

    pub fn pattern_at(&self, point: &Point) -> (r: Color)
        ensures
            r == self.spec_pattern_at(*point),
    {
        match self {
            ColorPattern::TestPattern(p) => p.pattern_at(point),
            ColorPattern::StripePattern(p) => p.pattern_at(point),
            ColorPattern::GradientPattern(p) => p.pattern_at(point),
            ColorPattern::RingPattern(p) => p.pattern_at(point),
            ColorPattern::CheckerPattern(p) => p.pattern_at(point),
        }
    }

    /// Sample the pattern at a world point on an object, composing the
    /// object's and the pattern's inverse transforms.
    pub fn pattern_at_object(&self, object: &Shape, point: &Point) -> (r: Color)
        requires
            object.transform.spec_det().raw != 0,
            self.spec_transform().spec_det().raw != 0,
        ensures
            r == self.spec_pattern_at_object(object.transform, *point),
    {
        let inv = object.transform.inverse().unwrap();
        let obj_point = inv.mul_point(*point);
        let pinv = self.transform().inverse().unwrap();
        let pattern_point = pinv.mul_point(obj_point);
        let r = self.pattern_at(&pattern_point);
        proof {
            let sp = self.spec_transform().spec_inverse_mul_tuple(
                object.transform.spec_inverse_mul_tuple(point.tuple),
            );
            assert(pattern_point.tuple == sp);
        }
        r
    }
}

} // verus!
