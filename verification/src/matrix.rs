//! Square fixed-point matrices of sizes two to four, with determinants by
//! cofactor expansion and inversion via the adjugate.

pub mod matrix2d;
pub mod matrix3d;
pub mod matrix4d;
