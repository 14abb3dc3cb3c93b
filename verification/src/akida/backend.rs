//! Checks the AKD1500 backend makes before any hardware call.

use vstd::prelude::*;
use crate::akida::error::{AkidaError, akida_error_message};
use crate::akida::capability::AKD1500_TARGET_NAME;
use crate::akida::validate::{AkidaArtifactView, reports, target_text, validate_artifact, violates};
use crate::backend_api::error::BackendError;

verus! {

/// E0407: the AKD1500 runs one frame per call, so the first sample of a batch
/// must have exactly one timestep. `sample_shapes[b]` is the timestep count of
/// sample `b` and the feature count of its first frame (`0` without frames).
pub fn check_temporal_input(sample_shapes: &Vec<(usize, usize)>) -> (r: Result<(), AkidaError>)
    ensures
        r is Ok <==> (sample_shapes@.len() == 0 || sample_shapes@[0].0 == 1),
        r is Err ==> r == Err::<(), AkidaError>(
            AkidaError::TemporalInputNotSupported {
                batch: sample_shapes@.len() as usize,
                timesteps: sample_shapes@[0].0,
                features: sample_shapes@[0].1,
            },
        ),
{
    if sample_shapes.len() > 0 && sample_shapes[0].0 != 1 {
        return Err(
            AkidaError::TemporalInputNotSupported {
                batch: sample_shapes.len(),
                timesteps: sample_shapes[0].0,
                features: sample_shapes[0].1,
            },
        );
    }
    Ok(())
}

/// The pre-flight of a batch run, in order: artifact validation (E0401 to
/// E0404), then the single-frame input check (E0407). A failure reaches the
/// caller as an execution error carrying the full message.
pub fn preflight(artifact: &AkidaArtifactView, sample_shapes: &Vec<(usize, usize)>) -> (r: Result<
    (),
    BackendError,
>)
    ensures
        r is Ok <==> validate_artifact_ok(*artifact) && (sample_shapes@.len() == 0
            || sample_shapes@[0].0 == 1),
        target_text(*artifact) != AKD1500_TARGET_NAME@ ==> (r matches Err(BackendError::Execution { detail })
            && detail@ == wrong_target_message(target_text(*artifact))),
        target_text(*artifact) == AKD1500_TARGET_NAME@ && !validate_artifact_ok(*artifact) ==> (r matches Err(
            BackendError::Execution { detail },
        ) && exists|i: int, e: AkidaError|
            0 <= i < artifact.layers@.len() && violates(#[trigger] artifact.layers@[i]) && (forall|
                j: int,
            |
                0 <= j < i ==> !violates(#[trigger] artifact.layers@[j])) && reports(
                e,
                artifact.layers@[i],
                i,
            ) && detail@ == #[trigger] akida_error_message(e)),
        validate_artifact_ok(*artifact) && !(sample_shapes@.len() == 0 || sample_shapes@[0].0 == 1)
            ==> (r matches Err(BackendError::Execution { detail }) && detail@ == akida_error_message(
            AkidaError::TemporalInputNotSupported {
                batch: sample_shapes@.len() as usize,
                timesteps: sample_shapes@[0].0,
                features: sample_shapes@[0].1,
            },
        )),
{
    match validate_artifact(artifact) {
        Err(e) => {
            let be = e.into_backend_error();
            proof {
                if target_text(*artifact) != AKD1500_TARGET_NAME@ {
                    assert(akida_error_message(e) == wrong_target_message(target_text(*artifact)));
                }
            }
            return Err(be);
        },
        Ok(()) => {},
    }
    match check_temporal_input(sample_shapes) {
        Err(e) => Err(e.into_backend_error()),
        Ok(()) => Ok(()),
    }
}

/// The E0404 message for an artifact compiled for `target`.
pub open spec fn wrong_target_message(target: Seq<char>) -> Seq<char> {
    "E0404: .thx artifact was compiled for target=\""@ + target + "\", not \"akida-akd1500\".\nObserved: metadata.target = \""@
        + target + "\".\nWhy: A .thx artifact carries the target it was compiled for. Running it on a different backend without recompilation may produce incorrect results because resolved constants (alpha, dt_ms) are target-specific.\nWhat to do: Recompile with --target akida-akd1500:\n    thrindex build --target akida-akd1500 model.py\nDocs: https://docs.thrindex.com/errors/E0404"@
}

/// The artifact passes the AKD1500 validation.
pub open spec fn validate_artifact_ok(v: AkidaArtifactView) -> bool {
    target_text(v) == AKD1500_TARGET_NAME@ && forall|i: int|
        0 <= i < v.layers@.len() ==> !violates(#[trigger] v.layers@[i])
}

/// The E0204 error returned after a passed pre-flight when hardware inference
/// is not built in; `fbz_path` is the program path as displayed.
pub fn hardware_unavailable_error(fbz_path: &str) -> (e: BackendError)
    ensures
        e matches BackendError::Execution { detail } && detail@
            == "E0204: AkidaBackend hardware inference is not compiled in (fbz_path="@ + fbz_path@
            + "). Build with --features hardware and set THRINDEX_AKIDA_ENGINE_PATH to enable Engine Library FFI (RFC-004 / ADR-0011 items 8–9)."@,
{
    let mut s = "E0204: AkidaBackend hardware inference is not compiled in (fbz_path=".to_owned();
    s.append(fbz_path);
    s.append(
        "). Build with --features hardware and set THRINDEX_AKIDA_ENGINE_PATH to enable Engine Library FFI (RFC-004 / ADR-0011 items 8–9).",
    );
    BackendError::Execution { detail: s }
}

} // verus!
