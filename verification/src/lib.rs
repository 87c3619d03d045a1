//! A small Whitted-style ray tracer over fixed-point arithmetic.
//!
//! Scalars are `i64` fixed-point numbers (see [`fx`]); every geometric and
//! shading computation is specified exactly over that model.

pub mod camera;
pub mod color;
pub mod cone;
pub mod cube;
pub mod fx;
pub mod light;
pub mod material;
pub mod object;
pub mod pawn;
pub mod plane;
pub mod ray_intersect;
pub mod render;
pub mod shader;
pub mod sphere;
pub mod texture;
pub mod vec3;
