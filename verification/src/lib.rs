//! Fixed-dimension affine point types for 2- and 3-space, together with the
//! capabilities they are built on: a scalar numeric capability, an indexed
//! container-access capability, and companion displacement vector types.
//!
//! A point is a fixed location with no length or direction; a vector is a
//! displacement.  A point becomes a vector only through the explicit
//! conversions `to_vec` / `from_vec`, never implicitly.  Every operation is
//! specified componentwise over the value's view, a sequence of scalars.

pub mod array;
pub mod comp;
pub mod laws;
pub mod point;
pub mod scalar;
pub mod vector;
