//! The geometric objects of a scene: a shared data core and five canonical
//! shape variants, each intersected and queried in object space.

pub mod cone;
pub mod cube;
pub mod cylinder;
pub mod plane;
pub mod shape;
pub mod spheres;
