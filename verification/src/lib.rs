//! Vector and matrix math for graphics transforms, generic over the scalar
//! type. The scalar operations are abstracted by the [`scalar::Scalar`]
//! trait, so every structural and arithmetic contract is stated relative to
//! the scalar's own specification functions; `i64` with wrapping arithmetic
//! is the verified model instance provided here.

pub mod laws;
pub mod matrix;
pub mod scalar;
pub mod vector;

pub use matrix::Matrix;
pub use scalar::Scalar;
pub use vector::Vector;
pub use vector::Vector2;
pub use vector::Vector3;
pub use vector::Vector4;
