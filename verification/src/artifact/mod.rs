//! `.thx` deployment artifacts: format-version gate, CRC32 integrity,
//! SHA-256 content hash, and the resource summary derived from layer shapes.

pub mod error;
pub mod integrity;
pub mod laws;
pub mod layers;
pub mod resource;
