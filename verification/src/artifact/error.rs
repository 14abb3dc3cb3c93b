//! Errors that can occur when parsing or validating a `.thx` artifact.

use vstd::prelude::*;
use crate::text::{debug_quoted, push_debug_quoted};

verus! {

/// All errors that can occur when parsing or validating a `.thx` artifact.
#[derive(Debug, Clone, PartialEq, Eq)]
pub enum ArtifactError {
    /// The file is not valid JSON or the top-level structure is wrong.
    JsonParse { detail: String },
    /// The `format_version` string is not a supported version.
    UnsupportedFormatVersion { version: String, supported: &'static str },
    /// The stored CRC32 does not match the recomputed hash of
    /// `metadata.model_canonical`: the artifact is corrupt.
    IntegrityCheckFailed { expected: String, computed: String },
    /// A structural constraint was violated.
    InvalidContent { detail: String },
}

/// The rendered message of an [`ArtifactError`].
pub open spec fn artifact_error_message(e: ArtifactError) -> Seq<char> {
    match e {
        ArtifactError::JsonParse { detail } => "JSON parse error: "@ + detail@,
        ArtifactError::UnsupportedFormatVersion { version, supported } => "unsupported format version "@
            + debug_quoted(version@) + "; this crate supports: "@ + debug_quoted(supported@),
        ArtifactError::IntegrityCheckFailed { expected, computed } =>
            "CRC32 integrity check failed: artifact claims "@ + expected@ + ", computed "@ + computed@,
        ArtifactError::InvalidContent { detail } => "invalid artifact content: "@ + detail@,
    }
}

impl ArtifactError {
    /// The rendered message.
    pub fn message(&self) -> (m: String)
        ensures
            m@ == artifact_error_message(*self),
    {
        match self {
            ArtifactError::JsonParse { detail } => {
                let mut s = "JSON parse error: ".to_owned();
                s.append(detail.as_str());
                s
            },
            ArtifactError::UnsupportedFormatVersion { version, supported } => {
                let mut s = "unsupported format version ".to_owned();
                push_debug_quoted(&mut s, version.as_str());
                s.append("; this crate supports: ");
                push_debug_quoted(&mut s, supported);
                s
            },
            ArtifactError::IntegrityCheckFailed { expected, computed } => {
                let mut s = "CRC32 integrity check failed: artifact claims ".to_owned();
                s.append(expected.as_str());
                s.append(", computed ");
                s.append(computed.as_str());
                s
            },
            ArtifactError::InvalidContent { detail } => {
                let mut s = "invalid artifact content: ".to_owned();
                s.append(detail.as_str());
                s
            },
        }
    }
}

} // verus!
