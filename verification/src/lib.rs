//! An exact 3-D linear-algebra kernel: vectors, 3x3 matrices and 4x4 affine
//! transforms over exact rational scalars, with the defining geometric laws
//! (inverse round trips, involutions, composition) proved.

pub mod scalar;
pub mod vec3;
pub mod mat3;
pub mod transform4d;
pub mod laws;
