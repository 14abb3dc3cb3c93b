//! Errors produced by the conformance harness.

use vstd::prelude::*;
use crate::text::{decimal_digits, push_decimal};

verus! {

/// Error from the conformance harness.
#[derive(Debug, Clone, PartialEq, Eq)]
pub enum ConformanceError {
    /// E0205: the test set is smaller than the envelope's `min_test_samples`.
    TestSetTooSmall { got: usize, required: usize },
    /// E0206: the backend produced output with a different shape than the
    /// reference.
    OutputShapeMismatch {
        sample_idx: usize,
        ref_t: usize,
        ref_n: usize,
        got_t: usize,
        got_n: usize,
    },
    /// E0207: the backend reported an execution error on a sample.
    BackendExecution { sample_idx: usize, detail: String },
    /// E0208: the reference simulator reported an error (a harness bug).
    ReferenceError { sample_idx: usize, detail: String },
}

/// The rendered message of a [`ConformanceError`].
pub open spec fn conformance_error_message(e: ConformanceError) -> Seq<char> {
    match e {
        ConformanceError::TestSetTooSmall { got, required } => "E0205: test set too small — "@
            + decimal_digits(got as nat) + " samples provided, minimum is "@ + decimal_digits(
            required as nat,
        )
            + "\nWhy: fewer samples than the envelope's `min_test_samples` cannot statistically characterise the metric distribution\nFix: provide ≥"@
            + decimal_digits(required as nat)
            + " samples; see ADR-0010 Part II for the ratification measurement specification\nDocs: https://docs.thrindex.com/errors/E0205"@,
        ConformanceError::OutputShapeMismatch { sample_idx, ref_t, ref_n, got_t, got_n } =>
            "E0206: backend output shape mismatch on sample "@ + decimal_digits(sample_idx as nat)
            + " — reference ["@ + decimal_digits(ref_t as nat) + "×"@ + decimal_digits(ref_n as nat)
            + "], backend ["@ + decimal_digits(got_t as nat) + "×"@ + decimal_digits(got_n as nat)
            + "]\nWhy: the backend returned a different number of timesteps or output neurons\nFix: verify the backend runs exactly T="@
            + decimal_digits(ref_t as nat) + " timesteps and produces N_out="@ + decimal_digits(
            ref_n as nat,
        ) + " neurons per the artifact\nDocs: https://docs.thrindex.com/errors/E0206"@,
        ConformanceError::BackendExecution { sample_idx, detail } =>
            "E0207: backend execution error on sample "@ + decimal_digits(sample_idx as nat) + ": "@
            + detail@
            + "\nWhy: the backend-under-test returned an error during the conformance run\nFix: check the backend driver and the artifact compatibility\nDocs: https://docs.thrindex.com/errors/E0207"@,
        ConformanceError::ReferenceError { sample_idx, detail } =>
            "E0208: reference simulator error on sample "@ + decimal_digits(sample_idx as nat) + ": "@
            + detail@
            + "\nWhy: the reference SimBackend returned an error — this indicates a harness or artifact bug, not a backend issue\nFix: verify the artifact is valid; file a bug if the artifact was produced by `thrindex compile`\nDocs: https://docs.thrindex.com/errors/E0208"@,
    }
}

impl ConformanceError {
    /// The rendered message: what happened, why, how to fix it, and where
    /// the error code is documented.
    pub fn message(&self) -> (m: String)
        ensures
            m@ == conformance_error_message(*self),
    {
        let mut s = String::new();
        match self {
            ConformanceError::TestSetTooSmall { got, required } => {
                s.append("E0205: test set too small — ");
                push_decimal(&mut s, *got as u64);
                s.append(" samples provided, minimum is ");
                push_decimal(&mut s, *required as u64);
                s.append(
                    "\nWhy: fewer samples than the envelope's `min_test_samples` cannot statistically characterise the metric distribution\nFix: provide ≥",
                );
                push_decimal(&mut s, *required as u64);
                s.append(
                    " samples; see ADR-0010 Part II for the ratification measurement specification\nDocs: https://docs.thrindex.com/errors/E0205",
                );
            },
            ConformanceError::OutputShapeMismatch { sample_idx, ref_t, ref_n, got_t, got_n } => {
                s.append("E0206: backend output shape mismatch on sample ");
                push_decimal(&mut s, *sample_idx as u64);
                s.append(" — reference [");
                push_decimal(&mut s, *ref_t as u64);
                s.append("×");
                push_decimal(&mut s, *ref_n as u64);
                s.append("], backend [");
                push_decimal(&mut s, *got_t as u64);
                s.append("×");
                push_decimal(&mut s, *got_n as u64);
                s.append(
                    "]\nWhy: the backend returned a different number of timesteps or output neurons\nFix: verify the backend runs exactly T=",
                );
                push_decimal(&mut s, *ref_t as u64);
                s.append(" timesteps and produces N_out=");
                push_decimal(&mut s, *ref_n as u64);
                s.append(" neurons per the artifact\nDocs: https://docs.thrindex.com/errors/E0206");
            },
            ConformanceError::BackendExecution { sample_idx, detail } => {
                s.append("E0207: backend execution error on sample ");
                push_decimal(&mut s, *sample_idx as u64);
                s.append(": ");
                s.append(detail.as_str());
                s.append(
                    "\nWhy: the backend-under-test returned an error during the conformance run\nFix: check the backend driver and the artifact compatibility\nDocs: https://docs.thrindex.com/errors/E0207",
                );
            },
            ConformanceError::ReferenceError { sample_idx, detail } => {
                s.append("E0208: reference simulator error on sample ");
                push_decimal(&mut s, *sample_idx as u64);
                s.append(": ");
                s.append(detail.as_str());
                s.append(
                    "\nWhy: the reference SimBackend returned an error — this indicates a harness or artifact bug, not a backend issue\nFix: verify the artifact is valid; file a bug if the artifact was produced by `thrindex compile`\nDocs: https://docs.thrindex.com/errors/E0208",
                );
            },
        }
        s
    }
}

} // verus!
