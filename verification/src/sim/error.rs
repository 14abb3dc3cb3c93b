//! Simulation errors; each variant maps to a stable `E####` code.

use vstd::prelude::*;
use crate::text::{decimal_digits, push_decimal};

verus! {

/// All simulation errors.
#[derive(Debug, Clone, PartialEq, Eq)]
pub enum SimError {
    /// E0001: the `.thx` file could not be read.
    ArtifactNotFound { path: String },
    /// E0002: unknown `.thx` format version.
    UnsupportedFormatVersion { version: String, supported: String, min_thrindex: String },
    /// E0003: unknown layer type in the model definition.
    UnknownLayerType { layer_type: String },
    /// E0004: dimension mismatch between consecutive layers.
    DimensionMismatch { layer_idx: usize, prev_idx: usize, expected: usize, got: usize },
    /// E0005: LIF parameter out of its valid range.
    InvalidLifParam { layer_idx: usize, message: String, reason: String, fix: String },
    /// E0006: base64 weight decoding failed.
    Base64DecodeError { layer_idx: usize, field: String, detail: String },
    /// E0007: weight array length does not match the declared dimensions.
    WeightShapeMismatch { layer_idx: usize, declared: usize, decoded: usize, got_f32: usize },
    /// E0008: JSON deserialization error.
    JsonParseError { detail: String },
    /// E0009: CRC32 integrity check failed.
    IntegrityCheckFailed,
    /// E0010: input spike train dimensions do not match the model's input
    /// layer.
    InputDimensionMismatch { expected: usize, got: usize },
}

/// The rendered message of a [`SimError`].
pub open spec fn sim_error_message(e: SimError) -> Seq<char> {
    match e {
        SimError::ArtifactNotFound { path } => "E0001: artifact file not found: "@
            + path@
            + "\nWhy: the path does not exist or is not readable.\nFix: check the path with `ls "@
            + path@
            + "` and verify file permissions.\nDocs: https://docs.thrindex.com/errors/E0001"@,
        SimError::UnsupportedFormatVersion { version, supported, min_thrindex } => "E0002: unsupported artifact format version: \""@
            + version@
            + "\"\nWhy: this build of thrindex-sim understands only \""@
            + supported@
            + "\".\nFix: rebuild the artifact with `thx.compile()` from thrindex >= "@
            + min_thrindex@
            + ".\nDocs: https://docs.thrindex.com/errors/E0002"@,
        SimError::UnknownLayerType { layer_type } => "E0003: unknown layer type: \""@
            + layer_type@
            + "\"\nWhy: the artifact was compiled with a newer thrindex that supports layer types this simulator does not know.\nFix: upgrade thrindex-sim, or recompile the model with a compatible version.\nDocs: https://docs.thrindex.com/errors/E0003"@,
        SimError::DimensionMismatch { layer_idx, prev_idx, expected, got } => "E0004: layer dimension mismatch at layer "@
            + decimal_digits(layer_idx as nat)
            + "\nWhy: layer "@
            + decimal_digits(layer_idx as nat)
            + " expects "@
            + decimal_digits(expected as nat)
            + " input features but receives "@
            + decimal_digits(got as nat)
            + " from layer "@
            + decimal_digits(prev_idx as nat)
            + ".\nFix: recompile the model — the artifact may be corrupt.\nDocs: https://docs.thrindex.com/errors/E0004"@,
        SimError::InvalidLifParam { layer_idx, message, reason, fix } => "E0005: invalid LIF parameter in layer "@
            + decimal_digits(layer_idx as nat)
            + ": "@
            + message@
            + "\nWhy: "@
            + reason@
            + "\nFix: "@
            + fix@
            + "\nDocs: https://docs.thrindex.com/errors/E0005"@,
        SimError::Base64DecodeError { layer_idx, field, detail } => "E0006: base64 decode error in layer "@
            + decimal_digits(layer_idx as nat)
            + " ("@
            + field@
            + "): "@
            + detail@
            + "\nWhy: the artifact's weight data is corrupt or was truncated.\nFix: recompile the model from scratch with `thx.compile()`.\nDocs: https://docs.thrindex.com/errors/E0006"@,
        SimError::WeightShapeMismatch { layer_idx, declared, decoded, got_f32 } => "E0007: weight shape mismatch in layer "@
            + decimal_digits(layer_idx as nat)
            + ": declared "@
            + decimal_digits(declared as nat)
            + " f32 values but decoded "@
            + decimal_digits(decoded as nat)
            + " bytes ("@
            + decimal_digits(got_f32 as nat)
            + " f32 values).\nWhy: the artifact's weight data is corrupt.\nFix: recompile the model from scratch.\nDocs: https://docs.thrindex.com/errors/E0007"@,
        SimError::JsonParseError { detail } => "E0008: artifact JSON parse error: "@
            + detail@
            + "\nWhy: the file is not valid thrindex artifact JSON.\nFix: verify the file was produced by `thx.compile()` and was not corrupted in transfer.\nDocs: https://docs.thrindex.com/errors/E0008"@,
        SimError::IntegrityCheckFailed => "E0009: artifact integrity check failed (CRC32 mismatch)\nWhy: the artifact file was corrupted after it was compiled.\nFix: recompile or re-download the artifact.\nDocs: https://docs.thrindex.com/errors/E0009"@,
        SimError::InputDimensionMismatch { expected, got } => "E0010: input dimension mismatch: model expects "@
            + decimal_digits(expected as nat)
            + " input neurons, got "@
            + decimal_digits(got as nat)
            + ".\nWhy: the input spike train does not match the model's first layer.\nFix: verify your encoder output shape matches the model architecture.\nDocs: https://docs.thrindex.com/errors/E0010"@,
    }
}

impl SimError {
    /// The rendered message: what happened, why, how to fix it, and where
    /// the error code is documented.
    pub fn message(&self) -> (m: String)
        ensures
            m@ == sim_error_message(*self),
    {
        let mut s = String::new();
        match self {
            SimError::ArtifactNotFound { path } => {
                s.append("E0001: artifact file not found: ");
                s.append(path.as_str());
                s.append("\nWhy: the path does not exist or is not readable.\nFix: check the path with `ls ");
                s.append(path.as_str());
                s.append("` and verify file permissions.\nDocs: https://docs.thrindex.com/errors/E0001");
            },
            SimError::UnsupportedFormatVersion { version, supported, min_thrindex } => {
                s.append("E0002: unsupported artifact format version: \"");
                s.append(version.as_str());
                s.append("\"\nWhy: this build of thrindex-sim understands only \"");
                s.append(supported.as_str());
                s.append("\".\nFix: rebuild the artifact with `thx.compile()` from thrindex >= ");
                s.append(min_thrindex.as_str());
                s.append(".\nDocs: https://docs.thrindex.com/errors/E0002");
            },
            SimError::UnknownLayerType { layer_type } => {
                s.append("E0003: unknown layer type: \"");
                s.append(layer_type.as_str());
                s.append("\"\nWhy: the artifact was compiled with a newer thrindex that supports layer types this simulator does not know.\nFix: upgrade thrindex-sim, or recompile the model with a compatible version.\nDocs: https://docs.thrindex.com/errors/E0003");
            },
            SimError::DimensionMismatch { layer_idx, prev_idx, expected, got } => {
                s.append("E0004: layer dimension mismatch at layer ");
                push_decimal(&mut s, *layer_idx as u64);
                s.append("\nWhy: layer ");
                push_decimal(&mut s, *layer_idx as u64);
                s.append(" expects ");
                push_decimal(&mut s, *expected as u64);
                s.append(" input features but receives ");
                push_decimal(&mut s, *got as u64);
                s.append(" from layer ");
                push_decimal(&mut s, *prev_idx as u64);
                s.append(".\nFix: recompile the model — the artifact may be corrupt.\nDocs: https://docs.thrindex.com/errors/E0004");
            },
            SimError::InvalidLifParam { layer_idx, message, reason, fix } => {
                s.append("E0005: invalid LIF parameter in layer ");
                push_decimal(&mut s, *layer_idx as u64);
                s.append(": ");
                s.append(message.as_str());
                s.append("\nWhy: ");
                s.append(reason.as_str());
                s.append("\nFix: ");
                s.append(fix.as_str());
                s.append("\nDocs: https://docs.thrindex.com/errors/E0005");
            },
            SimError::Base64DecodeError { layer_idx, field, detail } => {
                s.append("E0006: base64 decode error in layer ");
                push_decimal(&mut s, *layer_idx as u64);
                s.append(" (");
                s.append(field.as_str());
                s.append("): ");
                s.append(detail.as_str());
                s.append("\nWhy: the artifact's weight data is corrupt or was truncated.\nFix: recompile the model from scratch with `thx.compile()`.\nDocs: https://docs.thrindex.com/errors/E0006");
            },
            SimError::WeightShapeMismatch { layer_idx, declared, decoded, got_f32 } => {
                s.append("E0007: weight shape mismatch in layer ");
                push_decimal(&mut s, *layer_idx as u64);
                s.append(": declared ");
                push_decimal(&mut s, *declared as u64);
                s.append(" f32 values but decoded ");
                push_decimal(&mut s, *decoded as u64);
                s.append(" bytes (");
                push_decimal(&mut s, *got_f32 as u64);
                s.append(" f32 values).\nWhy: the artifact's weight data is corrupt.\nFix: recompile the model from scratch.\nDocs: https://docs.thrindex.com/errors/E0007");
            },
            SimError::JsonParseError { detail } => {
                s.append("E0008: artifact JSON parse error: ");
                s.append(detail.as_str());
                s.append("\nWhy: the file is not valid thrindex artifact JSON.\nFix: verify the file was produced by `thx.compile()` and was not corrupted in transfer.\nDocs: https://docs.thrindex.com/errors/E0008");
            },
            SimError::IntegrityCheckFailed => {
                s.append("E0009: artifact integrity check failed (CRC32 mismatch)\nWhy: the artifact file was corrupted after it was compiled.\nFix: recompile or re-download the artifact.\nDocs: https://docs.thrindex.com/errors/E0009");
            },
            SimError::InputDimensionMismatch { expected, got } => {
                s.append("E0010: input dimension mismatch: model expects ");
                push_decimal(&mut s, *expected as u64);
                s.append(" input neurons, got ");
                push_decimal(&mut s, *got as u64);
                s.append(".\nWhy: the input spike train does not match the model's first layer.\nFix: verify your encoder output shape matches the model architecture.\nDocs: https://docs.thrindex.com/errors/E0010");
            },
        }
        s
    }
}

} // verus!
