//! A deterministic Monte Carlo path tracer over spheres, written in
//! saturating 16.16 fixed-point arithmetic so that every step of the
//! renderer has an exact, machine-checked contract.
//!
//! The crate is organised bottom-up: scalar arithmetic (`fixed`), vector
//! algebra (`vec3`), the seeded pseudo-random stream (`rng`), rays and
//! hit records (`ray`), spheres and the scene's nearest-hit query
//! (`sphere`), materials (`material`), the camera (`camera`), and the
//! radiance integrator with the row-based renderer (`render`).  The
//! `laws` module states and proves the properties the renderer promises.
use vstd::prelude::*;

pub mod camera;
pub mod fixed;
pub mod laws;
pub mod material;
pub mod ray;
pub mod render;
pub mod rng;
pub mod sphere;
pub mod vec3;

pub use crate::camera::{d2r, random_unit_disk, Camera};
pub use crate::fixed::Fx;
pub use crate::material::{random_unit_point, Dialectric, Lambertian, Material, Metal, Scatter};
pub use crate::ray::{Glint, Ray};
pub use crate::render::{color, render_image, render_image_chunked, render_rows, RenderParams, MAX_BOUNCES};
pub use crate::rng::Prng;
pub use crate::sphere::{shine, Sphere};
pub use crate::vec3::Vec3;

verus! {

/// Points in space share the vector representation.
pub type Point3 = crate::vec3::Vec3;

/// Colours share it too: x, y, z read as red, green, blue.
pub type Color64 = crate::vec3::Vec3;

} // verus!
