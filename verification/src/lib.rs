//! Fixed-size vectors of two, three and four single-precision components.
//!
//! A component is held as the 32 bits of its IEEE-754 binary32 encoding, so
//! every value here is a plain integer and every operation is exact: building
//! a vector, converting it to and from an array, changing its sign, and
//! comparing two vectors up to machine epsilon. Arithmetic that rounds its
//! result is not part of this crate.

pub mod binary32;
pub mod epsilon;
pub mod vector2;
pub mod vector3;
pub mod vector4;

pub use vector2::Vector2;
pub use vector3::Vector3;
pub use vector4::Vector4;
