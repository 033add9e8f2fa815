//! The decision core of a ray tracer for scenes of textured, axis-aligned
//! boxes.
//!
//! A renderer of such scenes does two kinds of work. It computes with real
//! numbers: where a ray meets a plane, how a surface faces a light. And it
//! decides: whether a ray hits a box and where it enters, which face a point
//! lies on, which of many hits is the nearest, which object shades a point,
//! what color ends up in which pixel. This library holds the decisions. The
//! caller does the arithmetic and hands the results over as bit patterns (see
//! [`scalar`]); everything the library does with them is integer work.
//!
//! - [`scalar`], [`vector`]: numbers and triples of numbers as bit patterns,
//!   and their order.
//! - [`slab`]: the slab test of a ray against a box.
//! - [`face`]: the face of a box that a point lies on, its normal and its
//!   texture.
//! - [`color`], [`material`], [`ray_intersect`]: colors, materials and the
//!   outcome of testing a ray against a box.
//! - [`compositor`]: the surface that a ray sees, and the sky behind it.
//! - [`light`]: the object that shades a point from a light.
//! - [`framebuffer`]: the grid of pixels.
pub mod color;
pub mod compositor;
pub mod face;
pub mod framebuffer;
pub mod light;
pub mod material;
pub mod ray_intersect;
pub mod scalar;
pub mod slab;
pub mod vector;
