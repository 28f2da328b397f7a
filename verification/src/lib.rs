//! Compile-time transformation of a C-style enumeration into an FFI-safe
//! newtype (the wire type) and a safe enumeration with a catch-all variant
//! (the domain type), together with total conversions in both directions.
//!
//! The transformation is modelled and verified on plain data: the annotated
//! enumeration and the option list arrive as [`model`] values, and the result
//! is an emission plan that directs what declarations are generated.

pub mod conversions;
pub mod discriminant;
pub mod model;
pub mod options;
pub mod transform;
