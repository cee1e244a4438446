//! A small geometry and color kernel for a ray-tracing renderer: affine
//! points, free vectors, RGB colors, 4x4 transformation matrices and a pixel
//! canvas that serializes to the plain-text PPM bitmap format.
//!
//! Every numeric entity is generic over a scalar type implementing [`Num`],
//! the contract of a real-number-like scalar with an equality tolerance.

pub mod canvas;
pub mod color;
pub mod decimal;
pub mod matrix;
pub mod num;
pub mod point;
pub mod util;
pub mod vector;

pub use canvas::Canvas;
pub use color::Color;
pub use matrix::Matrix;
pub use num::Num;
pub use point::Point;
pub use util::float_eq;
pub use vector::Vector;
