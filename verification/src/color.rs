//! Additive colors with red, green and blue channels.

use vstd::prelude::*;
use crate::fixed::{fx_floor_units, Fixed};

verus! {

#[derive(Clone, Copy, PartialEq, Eq, Structural, Debug)]
pub struct Color {
    pub red: Fixed,
    pub green: Fixed,
    pub blue: Fixed,
}

/// One output channel of `Color::normalise`: the channel value scaled by
/// `max`, clamped into `[min, max]`, then floored to whole units.
pub open spec fn spec_channel(c: Fixed, min: Fixed, max: Fixed) -> int {
    let scaled = c.spec_mul(max);
    let clamped = if scaled.raw < min.raw {
        min
    } else if scaled.raw > max.raw {
        max
    } else {
        scaled
    };
    fx_floor_units(clamped.v())
}

/// Clamps a value into a closed range.
///
/// Relies on num::clamp: returns `min` when `input < min`, `max` when
/// `input > max`, and `input` otherwise; it must not be called with
/// `min > max` (num debug-asserts that ordering).
#[verifier::external_body]
fn clamp_fixed(input: Fixed, min: Fixed, max: Fixed) -> (r: Fixed)
    requires
        min.raw <= max.raw,
    ensures
        r.raw == if input.raw < min.raw {
            min.raw
        } else if input.raw > max.raw {
            max.raw
        } else {
            input.raw
        },
{
    Fixed { raw: num::clamp(input.raw, min.raw, max.raw) }
}

impl Color {
    pub open spec fn spec_new(red: Fixed, green: Fixed, blue: Fixed) -> Color {
        Color { red, green, blue }
    }

    pub open spec fn spec_add(self, rhs: Color) -> Color {
        Color {
            red: self.red.spec_add(rhs.red),
            green: self.green.spec_add(rhs.green),
            blue: self.blue.spec_add(rhs.blue),
        }
    }

    pub open spec fn spec_sub(self, rhs: Color) -> Color {
        Color {
            red: self.red.spec_sub(rhs.red),
            green: self.green.spec_sub(rhs.green),
            blue: self.blue.spec_sub(rhs.blue),
        }
    }

    pub open spec fn spec_scale(self, rhs: Fixed) -> Color {
        Color {
            red: self.red.spec_mul(rhs),
            green: self.green.spec_mul(rhs),
            blue: self.blue.spec_mul(rhs),
        }
    }

    /// The componentwise (Hadamard) product.
    pub open spec fn spec_mul(self, rhs: Color) -> Color {
        Color {
            red: self.red.spec_mul(rhs.red),
            green: self.green.spec_mul(rhs.green),
            blue: self.blue.spec_mul(rhs.blue),
        }
    }

    pub fn new(red: Fixed, green: Fixed, blue: Fixed) -> (r: Color)
        ensures
            r == Color::spec_new(red, green, blue),
    {
        Color { red, green, blue }
    }

    pub fn black() -> (r: Color)
        ensures
            r == Color::spec_new(Fixed { raw: 0 }, Fixed { raw: 0 }, Fixed { raw: 0 }),
    {
        Color { red: Fixed::zero(), green: Fixed::zero(), blue: Fixed::zero() }
    }

    pub fn add(self, rhs: Color) -> (r: Color)
        ensures
            r == self.spec_add(rhs),
    {
        Color {
            red: self.red.add(rhs.red),
            green: self.green.add(rhs.green),
            blue: self.blue.add(rhs.blue),
        }
    }

    pub fn sub(self, rhs: Color) -> (r: Color)
        ensures
            r == self.spec_sub(rhs),
    {
        Color {
            red: self.red.sub(rhs.red),
            green: self.green.sub(rhs.green),
            blue: self.blue.sub(rhs.blue),
        }
    }

    /// Scale every channel by a scalar.
    pub fn scale(self, rhs: Fixed) -> (r: Color)
        ensures
            r == self.spec_scale(rhs),
    {
        Color {
            red: self.red.mul(rhs),
            green: self.green.mul(rhs),
            blue: self.blue.mul(rhs),
        }
    }

    /// The componentwise (Hadamard) product.
    pub fn mul(self, rhs: Color) -> (r: Color)
        ensures
            r == self.spec_mul(rhs),
    {
        Color {
            red: self.red.mul(rhs.red),
            green: self.green.mul(rhs.green),
            blue: self.blue.mul(rhs.blue),
        }
    }

    /// Map each channel into the display range `[min, max]`: scale by `max`,
    /// clamp, and take the whole-unit part.
    pub fn normalise(&self, min: Fixed, max: Fixed) -> (r: (u32, u32, u32))
        requires
            0 <= min.raw <= max.raw,
            max.raw <= 0xFFFFFFFF * crate::fixed::SCALE,
        ensures
            r.0 == spec_channel(self.red, min, max),
            r.1 == spec_channel(self.green, min, max),
            r.2 == spec_channel(self.blue, min, max),
    {
        let red = clamp_fixed(self.red.mul(max), min, max);
        let green = clamp_fixed(self.green.mul(max), min, max);
        let blue = clamp_fixed(self.blue.mul(max), min, max);
        proof {
            lemma_channel_fits(self.red, min, max);
            lemma_channel_fits(self.green, min, max);
            lemma_channel_fits(self.blue, min, max);
        }
        (red.floor_units() as u32, green.floor_units() as u32, blue.floor_units() as u32)
    }
}

/// A clamped channel floors to a value within the u32 range.
proof fn lemma_channel_fits(c: Fixed, min: Fixed, max: Fixed)
    requires
        0 <= min.raw <= max.raw,
        max.raw <= 0xFFFFFFFF * crate::fixed::SCALE,
    ensures
        0 <= spec_channel(c, min, max) <= 0xFFFFFFFF,
{
    let s = crate::fixed::SCALE as int;
    let scaled = c.spec_mul(max);
    let clamped: int = if scaled.raw < min.raw {
        min.raw as int
    } else if scaled.raw > max.raw {
        max.raw as int
    } else {
        scaled.raw as int
    };
    assert(0 <= clamped <= 0xFFFFFFFF * s);
    vstd::arithmetic::div_mod::lemma_div_is_ordered(0, clamped, s);
    vstd::arithmetic::div_mod::lemma_div_is_ordered(clamped, 0xFFFFFFFF * s, s);
    vstd::arithmetic::div_mod::lemma_div_multiples_vanish(0xFFFFFFFF, s);
}

} // verus!
