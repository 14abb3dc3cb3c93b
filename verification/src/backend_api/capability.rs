//! What a backend declares about itself.

use vstd::prelude::*;

verus! {

/// Compiler policy when a delay exceeds the backend's declared cap.
#[derive(Debug, Clone, Copy, PartialEq, Eq, Structural)]
pub enum DelayFallback {
    /// Emulate the over-cap delay with a spike-history ring buffer.
    Emulate,
    /// Reject the artifact.
    Reject,
}

/// Weight precision the backend executes at.
#[derive(Debug, Clone, PartialEq, Eq)]
pub enum Precision {
    /// IEEE 754 float32, the reference simulator's precision.
    Float32,
    /// Per-tensor symmetric int8.
    Int8PerTensor,
    /// Per-channel (per-row) symmetric int8.
    Int8PerChannel,
    /// Per-tensor symmetric int4.
    Int4PerTensor,
    /// Vendor-specific; the description is informational.
    Custom(String),
}

} // verus!
