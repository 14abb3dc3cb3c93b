//! Error produced by a backend run.

use vstd::prelude::*;
use crate::text::{decimal_digits, push_decimal};

verus! {

/// Error produced by a backend run.
#[derive(Debug, Clone, PartialEq, Eq)]
pub enum BackendError {
    /// E0201: the artifact JSON could not be parsed or resolved.
    ArtifactParse { detail: String },
    /// E0202: the input shape does not match the model's first layer.
    InputShapeMismatch { expected: usize, got: usize },
    /// E0203: the backend produced an output raster of another shape than
    /// the reference.
    OutputShapeMismatch { t: usize, n: usize, got_t: usize, got_n: usize },
    /// E0204: backend-specific execution error.
    Execution { detail: String },
}

/// The rendered message of a [`BackendError`].
pub open spec fn backend_error_message(e: BackendError) -> Seq<char> {
    match e {
        BackendError::ArtifactParse { detail } => "E0201: backend could not parse artifact\nWhy: "@
            + detail@
            + "\nFix: verify the artifact was produced by `thrindex compile` and is not corrupted\nDocs: https://docs.thrindex.com/errors/E0201"@,
        BackendError::InputShapeMismatch { expected, got } => "E0202: input shape mismatch — expected "@
            + decimal_digits(expected as nat)
            + " features, got "@
            + decimal_digits(got as nat)
            + "\nWhy: the input tensor was prepared for a different model\nFix: re-encode inputs using `thrindex.encoders` with the model's declared input size\nDocs: https://docs.thrindex.com/errors/E0202"@,
        BackendError::OutputShapeMismatch { t, n, got_t, got_n } => "E0203: backend output shape mismatch — expected ["@
            + decimal_digits(t as nat)
            + ", "@
            + decimal_digits(n as nat)
            + "], got ["@
            + decimal_digits(got_t as nat)
            + ", "@
            + decimal_digits(got_n as nat)
            + "]\nWhy: the backend returned fewer/more timesteps or neurons than the reference simulation\nFix: verify the backend correctly unrolls T timesteps and outputs all N_out neurons\nDocs: https://docs.thrindex.com/errors/E0203"@,
        BackendError::Execution { detail } => "E0204: backend execution failed\nWhy: "@
            + detail@
            + "\nFix: check backend driver and hardware connection\nDocs: https://docs.thrindex.com/errors/E0204"@,
    }
}

impl BackendError {
    /// The rendered message: what happened, why, how to fix it, and where
    /// the error code is documented.
    pub fn message(&self) -> (m: String)
        ensures
            m@ == backend_error_message(*self),
    {
        let mut s = String::new();
        match self {
            BackendError::ArtifactParse { detail } => {
                s.append("E0201: backend could not parse artifact\nWhy: ");
                s.append(detail.as_str());
                s.append("\nFix: verify the artifact was produced by `thrindex compile` and is not corrupted\nDocs: https://docs.thrindex.com/errors/E0201");
            },
            BackendError::InputShapeMismatch { expected, got } => {
                s.append("E0202: input shape mismatch — expected ");
                push_decimal(&mut s, *expected as u64);
                s.append(" features, got ");
                push_decimal(&mut s, *got as u64);
                s.append("\nWhy: the input tensor was prepared for a different model\nFix: re-encode inputs using `thrindex.encoders` with the model's declared input size\nDocs: https://docs.thrindex.com/errors/E0202");
            },
            BackendError::OutputShapeMismatch { t, n, got_t, got_n } => {
                s.append("E0203: backend output shape mismatch — expected [");
                push_decimal(&mut s, *t as u64);
                s.append(", ");
                push_decimal(&mut s, *n as u64);
                s.append("], got [");
                push_decimal(&mut s, *got_t as u64);
                s.append(", ");
                push_decimal(&mut s, *got_n as u64);
                s.append("]\nWhy: the backend returned fewer/more timesteps or neurons than the reference simulation\nFix: verify the backend correctly unrolls T timesteps and outputs all N_out neurons\nDocs: https://docs.thrindex.com/errors/E0203");
            },
            BackendError::Execution { detail } => {
                s.append("E0204: backend execution failed\nWhy: ");
                s.append(detail.as_str());
                s.append("\nFix: check backend driver and hardware connection\nDocs: https://docs.thrindex.com/errors/E0204");
            },
        }
        s
    }
}

} // verus!
