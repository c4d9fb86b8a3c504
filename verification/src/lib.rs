//! Angles on the sky, tagged with the unit they are expressed in.
//!
//! An angle is a number together with one of five units: radian, degree,
//! arcminute, arcsecond or milliarcsecond. Every conversion and every
//! arithmetic operation is routed through the radian. The numeric width is a
//! parameter: it supplies the primitives of [`Scalar`], and the unit ladder,
//! the element-wise conversions of sequences and the tagged [`SkyAngle`] are
//! built, and verified, on top of those primitives alone.
pub mod scalar;
pub mod conversion;
pub mod bulk;
pub mod angle;
pub mod arith;
pub mod laws;

pub use angle::SkyAngle;
pub use conversion::Conversion;
pub use scalar::Scalar;
