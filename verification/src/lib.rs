//! An offline raytracing renderer core built on exact fixed-point arithmetic.
//!
//! Given a camera ray and an immutable scene (geometric primitives, composite
//! objects, lights), the library finds the nearest surface the ray strikes and
//! evaluates a Phong-style lighting model with shadowing, reflection and
//! refraction, recursing up to a fixed bounce budget.  Every quantity is a
//! [`fixed::Fx`] scalar, so each function's result is pinned down exactly by
//! its contract.
//!
//! - [`fixed`]: the saturating fixed-point scalar and its arithmetic;
//! - [`vec3`]: vectors, dot and cross products, the fixed-order Euler rotation;
//! - [`material`]: colors and surface materials;
//! - [`ray`]: the intersection query input and result;
//! - [`object`]: primitives, composites and the nearest-hit query;
//! - [`hmap`]: the ray-marched height field;
//! - [`light`]: point and directional lights;
//! - [`scene`]: the scene and the recursive raytracer;
//! - [`frac`]: a Mandelbrot sampler for generating terrain.
//!
//! Scene-description parsing, pixel sampling and image encoding live with the
//! caller: the core is pure computation from plain values to plain values.

pub mod fixed;
pub mod frac;
pub mod hmap;
pub mod light;
pub mod material;
pub mod object;
pub mod ray;
pub mod scene;
pub mod vec3;
