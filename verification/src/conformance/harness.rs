//! Decisions of the conformance harness: which runs are refused before any
//! metric is computed, and the order in which samples run.

use vstd::prelude::*;
use crate::conformance::envelope::ConformanceEnvelope;
use crate::conformance::error::ConformanceError;

verus! {

/// E0205: refuse a test set smaller than the envelope's minimum.
pub fn check_test_set_size(n_samples: usize, envelope: &ConformanceEnvelope) -> (r: Result<
    (),
    ConformanceError,
>)
    ensures
        r is Ok <==> n_samples >= envelope.min_test_samples,
        r is Err ==> r == Err::<(), ConformanceError>(
            ConformanceError::TestSetTooSmall { got: n_samples, required: envelope.min_test_samples },
        ),
{
    if n_samples < envelope.min_test_samples {
        return Err(
            ConformanceError::TestSetTooSmall { got: n_samples, required: envelope.min_test_samples },
        );
    }
    Ok(())
}

/// E0206: refuse a sample whose backend output shape `[got_t × got_n]`
/// differs from the reference shape `[ref_t × ref_n]`.
pub fn check_output_shape(
    sample_idx: usize,
    ref_t: usize,
    ref_n: usize,
    got_t: usize,
    got_n: usize,
) -> (r: Result<(), ConformanceError>)
    ensures
        r is Ok <==> (ref_t == got_t && ref_n == got_n),
        r is Err ==> r == Err::<(), ConformanceError>(
            ConformanceError::OutputShapeMismatch { sample_idx, ref_t, ref_n, got_t, got_n },
        ),
{
    if ref_t != got_t || ref_n != got_n {
        return Err(ConformanceError::OutputShapeMismatch { sample_idx, ref_t, ref_n, got_t, got_n });
    }
    Ok(())
}


/// Where the per-sample protocol stands on the current sample.
#[derive(Debug, Clone, Copy, PartialEq, Eq, Structural)]
pub enum ProtocolPhase {
    /// The reference has not run on the current sample yet.
    Reference,
    /// The reference produced `ref_t` frames of `ref_n` neurons; the backend
    /// runs next.
    Backend { ref_t: usize, ref_n: usize },
}

/// The conformance protocol's state: every sample runs on the reference,
/// then on the backend, then has its output shape compared, in sample order;
/// the first failure ends the run.
#[derive(Debug, Clone, Copy, PartialEq, Eq, Structural)]
pub struct SampleProtocol {
    pub n_samples: usize,
    pub sample_idx: usize,
    pub phase: ProtocolPhase,
}

/// What the harness does next.
#[derive(Debug, Clone, Copy, PartialEq, Eq, Structural)]
pub enum ProtocolAction {
    /// Run sample `sample_idx` on the reference simulator.
    RunReference { sample_idx: usize },
    /// Run sample `sample_idx` on the backend under test.
    RunBackend { sample_idx: usize },
    /// Every sample ran and matched in shape: compute the report.
    Finished,
}

/// The protocol's invariant: the current sample is within the set.
pub open spec fn protocol_ok(p: SampleProtocol) -> bool {
    p.sample_idx <= p.n_samples && (p.sample_idx == p.n_samples ==> p.phase == ProtocolPhase::Reference)
}

/// Start the protocol on `n_samples` samples: refused with E0205 when the set
/// is smaller than the envelope's minimum, otherwise at the first sample's
/// reference run.
pub fn start_protocol(n_samples: usize, envelope: &ConformanceEnvelope) -> (r: Result<
    SampleProtocol,
    ConformanceError,
>)
    ensures
        r is Ok <==> n_samples >= envelope.min_test_samples,
        r matches Ok(p) ==> p == (SampleProtocol {
            n_samples,
            sample_idx: 0,
            phase: ProtocolPhase::Reference,
        }) && protocol_ok(p),
        r is Err ==> r == Err::<SampleProtocol, ConformanceError>(
            ConformanceError::TestSetTooSmall { got: n_samples, required: envelope.min_test_samples },
        ),
{
    match check_test_set_size(n_samples, envelope) {
        Err(e) => Err(e),
        Ok(()) => Ok(SampleProtocol { n_samples, sample_idx: 0, phase: ProtocolPhase::Reference }),
    }
}

/// The next action: the current sample's reference run, then its backend
/// run, and `Finished` once every sample is done.
pub fn next_action(p: &SampleProtocol) -> (a: ProtocolAction)
    ensures
        a == (if p.sample_idx >= p.n_samples {
            ProtocolAction::Finished
        } else {
            match p.phase {
                ProtocolPhase::Reference => ProtocolAction::RunReference { sample_idx: p.sample_idx },
                ProtocolPhase::Backend { .. } => ProtocolAction::RunBackend { sample_idx: p.sample_idx },
            }
        }),
{
    if p.sample_idx >= p.n_samples {
        ProtocolAction::Finished
    } else {
        match p.phase {
            ProtocolPhase::Reference => ProtocolAction::RunReference { sample_idx: p.sample_idx },
            ProtocolPhase::Backend { .. } => ProtocolAction::RunBackend { sample_idx: p.sample_idx },
        }
    }
}

/// Advance the protocol with the outcome of the run `next_action` asked for:
/// the output's `(frames, neurons)` shape, or the run's error message. A
/// reference failure is E0208 and a backend failure E0207 for the current
/// sample; a backend output whose shape differs from the reference's is
/// E0206; otherwise the protocol moves to the backend run, or to the next
/// sample.
pub fn advance_protocol(p: SampleProtocol, outcome: Result<(usize, usize), String>) -> (r: Result<
    SampleProtocol,
    ConformanceError,
>)
    requires
        protocol_ok(p),
        p.sample_idx < p.n_samples,
    ensures
        r matches Ok(q) ==> protocol_ok(q),
        match (p.phase, outcome) {
            (ProtocolPhase::Reference, Err(detail)) => r == Err::<SampleProtocol, ConformanceError>(
                ConformanceError::ReferenceError { sample_idx: p.sample_idx, detail },
            ),
            (ProtocolPhase::Reference, Ok((t, n))) => r == Ok::<SampleProtocol, ConformanceError>(
                SampleProtocol { phase: ProtocolPhase::Backend { ref_t: t, ref_n: n }, ..p },
            ),
            (ProtocolPhase::Backend { .. }, Err(detail)) => r == Err::<SampleProtocol, ConformanceError>(
                ConformanceError::BackendExecution { sample_idx: p.sample_idx, detail },
            ),
            (ProtocolPhase::Backend { ref_t, ref_n }, Ok((t, n))) => if ref_t == t && ref_n == n {
                r == Ok::<SampleProtocol, ConformanceError>(
                    SampleProtocol {
                        n_samples: p.n_samples,
                        sample_idx: (p.sample_idx + 1) as usize,
                        phase: ProtocolPhase::Reference,
                    },
                )
            } else {
                r == Err::<SampleProtocol, ConformanceError>(
                    ConformanceError::OutputShapeMismatch {
                        sample_idx: p.sample_idx,
                        ref_t,
                        ref_n,
                        got_t: t,
                        got_n: n,
                    },
                )
            },
        },
{
    match p.phase {
        ProtocolPhase::Reference => match outcome {
            Err(detail) => Err(ConformanceError::ReferenceError { sample_idx: p.sample_idx, detail }),
            Ok((t, n)) => Ok(
                SampleProtocol {
                    n_samples: p.n_samples,
                    sample_idx: p.sample_idx,
                    phase: ProtocolPhase::Backend { ref_t: t, ref_n: n },
                },
            ),
        },
        ProtocolPhase::Backend { ref_t, ref_n } => match outcome {
            Err(detail) => Err(ConformanceError::BackendExecution { sample_idx: p.sample_idx, detail }),
            Ok((t, n)) => match check_output_shape(p.sample_idx, ref_t, ref_n, t, n) {
                Err(e) => Err(e),
                Ok(()) => Ok(
                    SampleProtocol {
                        n_samples: p.n_samples,
                        sample_idx: p.sample_idx + 1,
                        phase: ProtocolPhase::Reference,
                    },
                ),
            },
        },
    }
}

} // verus!
