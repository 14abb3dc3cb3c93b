//! Laws of the conformance metrics.

use vstd::prelude::*;
use crate::conformance::envelope::EnvelopeStatus;
use crate::conformance::report::{certifies, certifies_against_spec, draft_disclaimer, verdict_text};
use crate::conformance::metric::{
    agreement_count, count_error, first_spike, first_spike_from, frame_cells, frame_mismatches,
    hamming_diff, hamming_total, prediction_spec, spike_count,
};

verus! {

/// A raster compared with itself has zero spike-count error on every neuron.
pub proof fn law_self_rate_error_is_zero(r: Seq<Vec<bool>>, n: int)
    ensures
        count_error(r, r, n) == 0,
{
}

/// The per-neuron spike-count error does not depend on which raster is the
/// reference.
pub proof fn law_rate_error_symmetric(r: Seq<Vec<bool>>, b: Seq<Vec<bool>>, n: int)
    ensures
        count_error(r, b, n) == count_error(b, r, n),
{
}

proof fn lemma_spike_count_le_len(r: Seq<Vec<bool>>, n: int)
    ensures
        spike_count(r, n) <= r.len(),
    decreases r.len(),
{
    if r.len() > 0 {
        lemma_spike_count_le_len(r.drop_last(), n);
    }
}

/// Between two rasters of `T` timesteps each neuron's spike-count error is at
/// most `T`, so every rate error lies in `[0, 1]`.
pub proof fn law_rate_error_at_most_trial_length(r: Seq<Vec<bool>>, b: Seq<Vec<bool>>, n: int)
    requires
        r.len() == b.len(),
    ensures
        count_error(r, b, n) <= r.len(),
{
    lemma_spike_count_le_len(r, n);
    lemma_spike_count_le_len(b, n);
}

proof fn lemma_frame_self_mismatch(a: Seq<bool>, k: int)
    ensures
        frame_mismatches(a, a, k) == 0,
    decreases k,
{
    if k > 0 {
        lemma_frame_self_mismatch(a, k - 1);
    }
}

/// A raster compared with itself differs in no cell.
pub proof fn law_self_hamming_is_zero(r: Seq<Vec<bool>>, k: int)
    ensures
        hamming_diff(r, r, k) == 0,
    decreases k,
{
    if k > 0 {
        law_self_hamming_is_zero(r, k - 1);
        lemma_frame_self_mismatch(r[k - 1]@, frame_cells(r[k - 1]@, r[k - 1]@) as int);
    }
}

proof fn lemma_frame_mismatch_symmetric(a: Seq<bool>, b: Seq<bool>, k: int)
    ensures
        frame_mismatches(a, b, k) == frame_mismatches(b, a, k),
    decreases k,
{
    if k > 0 {
        lemma_frame_mismatch_symmetric(a, b, k - 1);
    }
}

/// The Hamming counts do not depend on which raster is the reference.
pub proof fn law_hamming_symmetric(r: Seq<Vec<bool>>, b: Seq<Vec<bool>>, k: int)
    ensures
        hamming_diff(r, b, k) == hamming_diff(b, r, k),
        hamming_total(r, b, k) == hamming_total(b, r, k),
    decreases k,
{
    if k > 0 {
        law_hamming_symmetric(r, b, k - 1);
        lemma_frame_mismatch_symmetric(
            r[k - 1]@,
            b[k - 1]@,
            frame_cells(r[k - 1]@, b[k - 1]@) as int,
        );
    }
}

/// A batch compared with itself agrees on every sample.
pub proof fn law_self_agreement_is_total(rs: Seq<Vec<Vec<bool>>>)
    ensures
        agreement_count(rs, rs) == rs.len(),
    decreases rs.len(),
{
    if rs.len() > 0 {
        let last = rs.len() - 1;
        assert(rs.subrange(0, last) =~= rs.drop_last());
        law_self_agreement_is_total(rs.drop_last());
    }
}

/// Prediction agreement does not depend on which batch is the reference.
pub proof fn law_agreement_symmetric(rs: Seq<Vec<Vec<bool>>>, ts: Seq<Vec<Vec<bool>>>)
    requires
        rs.len() == ts.len(),
    ensures
        agreement_count(rs, ts) == agreement_count(ts, rs),
    decreases rs.len(),
{
    if rs.len() > 0 {
        let last = rs.len() - 1;
        assert(rs.subrange(0, last) =~= rs.drop_last());
        assert(ts.subrange(0, last) =~= ts.drop_last());
        law_agreement_symmetric(rs.drop_last(), ts.drop_last());
    }
}

/// A draft envelope never certifies a backend, whatever its metrics: neither
/// the envelope a report was run under nor the one it is judged against may
/// be a draft.
pub proof fn law_draft_never_certifies(
    report_status: EnvelopeStatus,
    envelope_status: EnvelopeStatus,
    metrics_pass: bool,
)
    requires
        report_status == EnvelopeStatus::Draft || envelope_status == EnvelopeStatus::Draft,
    ensures
        !certifies_against_spec(report_status, envelope_status, metrics_pass),
        !certifies(EnvelopeStatus::Draft, metrics_pass),
{
}

/// Every verdict of a report on a draft envelope ends by saying it is not
/// certification-valid.
pub proof fn law_draft_verdicts_disclaim(metrics_pass: bool, version: Seq<char>)
    ensures
        ({
            let v = verdict_text(EnvelopeStatus::Draft, metrics_pass, version);
            let d = draft_disclaimer();
            v.len() >= d.len() && v.subrange(v.len() - d.len(), v.len() as int) == d
        }),
{
    let v = verdict_text(EnvelopeStatus::Draft, metrics_pass, version);
    let d = draft_disclaimer();
    let p = if metrics_pass {
        " WOULD PASS (draft thresholds)"@
    } else {
        " WOULD FAIL (draft thresholds)"@
    };
    assert(v == p + d);
    assert(v.subrange(v.len() - d.len(), v.len() as int) =~= d);
}

/// Scanning from frame `t0` finds the earliest frame at or after `t0` in
/// which neuron `n` spikes, or none when it stays silent from `t0` on.
proof fn lemma_first_spike_from_is_earliest(r: Seq<Vec<bool>>, n: int, t0: int)
    requires
        0 <= t0,
    ensures
        match first_spike_from(r, n, t0) {
            Some(t) => t0 <= t < r.len() && r[t]@[n] && forall|j: int| t0 <= j < t ==> !#[trigger] r[j]@[n],
            None => forall|j: int| t0 <= j < r.len() ==> !#[trigger] r[j]@[n],
        },
    decreases r.len() - t0,
{
    if t0 < r.len() && !r[t0]@[n] {
        lemma_first_spike_from_is_earliest(r, n, t0 + 1);
    }
}

/// A neuron's first spike is the earliest frame in which it fires: it fires
/// there and in no frame before; and a neuron with no first spike fires in
/// no frame. This holds whatever the number of spikes per neuron.
pub proof fn law_first_spike_is_earliest_firing_frame(r: Seq<Vec<bool>>, n: int)
    ensures
        match first_spike(r, n) {
            Some(t) => 0 <= t < r.len() && r[t]@[n] && forall|j: int| 0 <= j < t ==> !#[trigger] r[j]@[n],
            None => forall|j: int| 0 <= j < r.len() ==> !#[trigger] r[j]@[n],
        },
{
    lemma_first_spike_from_is_earliest(r, n, 0);
}

/// Adding a frame adds one to a neuron's spike count exactly when the neuron
/// fires in it; an empty raster counts no spikes.
pub proof fn law_spike_count_append(r: Seq<Vec<bool>>, f: Vec<bool>, n: int)
    ensures
        spike_count(Seq::<Vec<bool>>::empty(), n) == 0,
        spike_count(r.push(f), n) == spike_count(r, n) + if f@[n] {
            1int
        } else {
            0int
        },
{
    assert(r.push(f).drop_last() =~= r);
}

/// Adding a sample pair adds one to the agreement count exactly when the two
/// rasters predict the same class.
pub proof fn law_agreement_count_append(
    rs: Seq<Vec<Vec<bool>>>,
    ts: Seq<Vec<Vec<bool>>>,
    a: Vec<Vec<bool>>,
    b: Vec<Vec<bool>>,
)
    requires
        rs.len() == ts.len(),
    ensures
        agreement_count(rs.push(a), ts.push(b)) == agreement_count(rs, ts) + if prediction_spec(a@)
            == prediction_spec(b@) {
            1int
        } else {
            0int
        },
{
    assert(rs.push(a).drop_last() =~= rs);
    assert(ts.push(b).subrange(0, rs.len() as int) =~= ts);
}

} // verus!
