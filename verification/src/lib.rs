//! A small recursive ray tracer with a verified render pipeline.
//!
//! [`render`] casts one ray for each pixel of an image and shades what the
//! ray hits: spheres and single-sided planes, lit by point lights with hard
//! shadows, with a checker texture on planes and mirror reflection of
//! bounded depth.
//!
//! * [`scalar`]: single-precision numbers as bit patterns, their order, and
//!   the arithmetic that software implementations of IEEE 754 do for them;
//! * [`vector`]: three-component vectors;
//! * [`scene`]: camera, primitives, lights and checker colours;
//! * [`intersect`]: ray/primitive intersection and the nearest hit;
//! * [`shading`]: shadows, diffuse light, reflection, and `trace`;
//! * [`render`](mod@render): the viewport and the pixel loop.
//!
//! Every function states its result as a function of its arguments; the
//! proof functions next to them state what follows for all scenes.

pub mod intersect;
pub mod render;
pub mod scalar;
pub mod scene;
pub mod shading;
pub mod vector;

pub use crate::render::render;
pub use crate::scalar::Scalar;
pub use crate::scene::{Camera, Object, Plane, Scene, Sphere};
pub use crate::vector::Vector;
