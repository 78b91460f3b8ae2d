//! An offline ray-tracing renderer.
//!
//! Scene geometry, lighting and the recursive shading pipeline are written
//! over an exact fixed-point scalar type, so every stage of the renderer --
//! shape intersection, hit selection, Phong lighting, shadows, reflection
//! and refraction -- carries a contract that pins its result down.

pub mod fixed;
pub mod tuple;
pub mod point;
pub mod vector;
pub mod color;
pub mod matrix;
pub mod transformations;
pub mod lights;
pub mod materials;
pub mod patterns;
pub mod intersection;
pub mod ray;
pub mod shapes;
pub mod canvas;
pub mod camera;
pub mod projectile;
pub mod scenes;
pub mod world;
