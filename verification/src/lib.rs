//! A name-addressable registry of approximate-nearest-neighbor index
//! builders. Each entry accumulates vectors, compiles them into a searchable
//! structure on demand, and can be serialized to and restored from a pair of
//! byte streams. The nearest-neighbor algorithm itself is supplied by the
//! `granne` crate and is reached only through a narrow trusted boundary.

pub mod ann;
pub mod bits;
pub mod laws;
pub mod registry;
