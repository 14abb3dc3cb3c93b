//! The BrainChip AKD1500 (Akida 1.0) backend: its constants, the artifact
//! pre-flight validation, the input checks made before any hardware call,
//! and the decisions of the device-side runtime.

pub mod backend;
pub mod capability;
pub mod error;
pub mod laws;
pub mod runtime;
pub mod validate;
