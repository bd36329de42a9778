//! Emits a C++ wrapper layer for a type exposed over a C interface.
//!
//! Given an interface representation of a wrapped type (its name and its
//! methods), the crate produces two synchronized text artifacts: a
//! declaration file with the wrapper class, and a definition file whose
//! methods forward to conventionally named C free functions. The two
//! artifacts are kept consistent by a single traversal that appends to
//! both buffers in lockstep.

pub mod buffers;
pub mod casing;
pub mod cpp;
pub mod files;
pub mod hpp;
pub mod ir;
pub mod laws;
pub mod mapper;
pub mod params;
