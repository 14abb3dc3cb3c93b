//! Conformance of a backend against the reference simulator: the backend
//! exclusion registry, the versioned pass envelopes, the integer spike-raster
//! metric kernels and the harness decisions.

pub mod envelope;
pub mod error;
pub mod exclusions;
pub mod harness;
pub mod laws;
pub mod metric;
pub mod ratify;
pub mod report;
