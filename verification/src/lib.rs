//! A recursive Monte Carlo path tracer over spheres.
//!
//! Geometry, materials and the integrator run on a saturating
//! fixed-point scalar type, so every step of the renderer has an exact
//! arithmetic meaning that the contracts state and the verifier checks.

pub mod camera;
pub mod fixed;
pub mod hit_record;
pub mod hittable_list;
pub mod interval;
pub mod material;
pub mod ppm;
pub mod ray;
mod rng;
pub mod sphere;
pub mod vec3;
