//! Versioned conformance envelopes: the pass thresholds a backend is held to.
//!
//! Thresholds are exact decimal fractions, held as parts per million.

use vstd::prelude::*;

verus! {

/// Whether an envelope is final law or a provisional draft.
#[derive(Debug, Clone, Copy, PartialEq, Eq, Structural)]
pub enum EnvelopeStatus {
    /// Certification-valid. Backends may be certified against this envelope.
    Final,
    /// Provisional: no backend may be certified or rejected on it.
    Draft,
}

/// A versioned conformance envelope.
#[derive(Debug, Clone, PartialEq, Eq)]
pub struct ConformanceEnvelope {
    /// Version string, e.g. `"v0_draft"` or `"v0"`.
    pub version: &'static str,
    /// Whether this envelope is final or provisional.
    pub status: EnvelopeStatus,
    /// Mean per-neuron rate error threshold, in parts per million.
    pub t_mean_threshold_ppm: u32,
    /// Max per-neuron rate error threshold, in parts per million.
    pub t_max_threshold_ppm: u32,
    /// Minimum prediction-agreement fraction, in parts per million.
    pub pred_agreement_min_ppm: u32,
    /// Minimum frozen test set size; runs with fewer samples are rejected.
    pub min_test_samples: usize,
}

/// The ratified v0 envelope: T_mean 0.020, T_max 0.130, P_min 0.900, at
/// least 100 samples.
pub open spec fn envelope_v0_spec() -> ConformanceEnvelope {
    ConformanceEnvelope {
        version: "v0",
        status: EnvelopeStatus::Final,
        t_mean_threshold_ppm: 20_000,
        t_max_threshold_ppm: 130_000,
        pred_agreement_min_ppm: 900_000,
        min_test_samples: 100,
    }
}

/// The superseded v0 draft envelope: T_mean 0.02, T_max 0.10, P_min 0.99, at
/// least 100 samples.
pub open spec fn envelope_v0_draft_spec() -> ConformanceEnvelope {
    ConformanceEnvelope {
        version: "v0_draft",
        status: EnvelopeStatus::Draft,
        t_mean_threshold_ppm: 20_000,
        t_max_threshold_ppm: 100_000,
        pred_agreement_min_ppm: 990_000,
        min_test_samples: 100,
    }
}

/// The ratified v0 envelope (final law).
pub fn conformance_envelope_v0() -> (e: ConformanceEnvelope)
    ensures
        e == envelope_v0_spec(),
{
    ConformanceEnvelope {
        version: "v0",
        status: EnvelopeStatus::Final,
        t_mean_threshold_ppm: 20_000,
        t_max_threshold_ppm: 130_000,
        pred_agreement_min_ppm: 900_000,
        min_test_samples: 100,
    }
}

/// The superseded v0 draft envelope, kept for historical comparison.
pub fn conformance_envelope_v0_draft() -> (e: ConformanceEnvelope)
    ensures
        e == envelope_v0_draft_spec(),
{
    ConformanceEnvelope {
        version: "v0_draft",
        status: EnvelopeStatus::Draft,
        t_mean_threshold_ppm: 20_000,
        t_max_threshold_ppm: 100_000,
        pred_agreement_min_ppm: 990_000,
        min_test_samples: 100,
    }
}

} // verus!
