//! Procedural color patterns, each a pure function from an object-space
//! point to a color, carrying its own transform.

pub mod checker_pattern;
pub mod color_pattern;
pub mod gradient_pattern;
pub mod ring_pattern;
pub mod stripe_pattern;
pub mod test_pattern;
