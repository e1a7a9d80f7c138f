//! The deciding core of a path tracer: what a renderer compares, selects,
//! orders and writes, proved; what it adds and multiplies is left to the
//! caller's floating-point unit.
pub mod scalar;
pub mod interval;
pub mod ray;
pub mod vec3;
pub mod color;
pub mod hittable;
pub mod material;
pub mod sphere;
pub mod hittable_list;
pub mod camera;
pub mod utils;
pub mod scene;

pub use color::Color;
pub use ray::{Point3, Ray};
pub use vec3::Vec3;
