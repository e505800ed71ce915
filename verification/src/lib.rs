//! A small affine-transform toolkit: a 4x4 transformation matrix and a
//! 3-component vector over IEEE-754 binary32 scalars, each scalar carried
//! as its bit pattern in a `u32`.

pub mod matrix;
pub mod scalar;
pub mod vector;

pub use matrix::Matrix4;
pub use vector::Vector3;
