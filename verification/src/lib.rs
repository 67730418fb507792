//! Schema-driven synthesis of a key type and a keyed container for a closed
//! tagged union, together with a verified model of that container.

pub mod assembly;
pub mod container;
pub mod emit;
pub mod laws;
pub mod schema;
pub mod text;

pub use crate::assembly::derive_enum2map;
