//! Geometric math kernel and raster image sink: the foundation layer of a
//! ray-tracing renderer.
//!
//! Values are exact rationals: an integer numerator over a positive integer
//! denominator, so every algebraic contract below is exact rather than
//! floating-point approximate. Square-root and trigonometric evaluation,
//! which have no exact rational form, are left to callers.

pub mod util;
pub mod scalar;
pub mod tuples;
pub mod canvas;
pub mod color;
pub mod determinant;
pub mod matrices;
pub mod transformations;

pub use canvas::Canvas;
pub use scalar::Scalar;
pub use color::Color;
