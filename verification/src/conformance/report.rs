//! The certification decision and the fixed lines of a conformance report.

use vstd::prelude::*;
use crate::conformance::envelope::EnvelopeStatus;

verus! {

/// A report certifies a backend only against a final envelope, and only when
/// its metrics are within the envelope's thresholds.
pub open spec fn certifies(status: EnvelopeStatus, metrics_pass: bool) -> bool {
    status == EnvelopeStatus::Final && metrics_pass
}

/// Whether a run certifies the backend: never on a draft envelope, otherwise
/// exactly when the metrics are within the thresholds.
pub fn passed(status: EnvelopeStatus, metrics_pass: bool) -> (r: bool)
    ensures
        r == certifies(status, metrics_pass),
{
    match status {
        EnvelopeStatus::Draft => false,
        EnvelopeStatus::Final => metrics_pass,
    }
}

/// A report judged against an envelope certifies the backend only when both
/// the envelope the report was run under and the envelope it is judged
/// against are final, and its metrics are within the latter's thresholds.
pub open spec fn certifies_against_spec(
    report_status: EnvelopeStatus,
    envelope_status: EnvelopeStatus,
    metrics_pass: bool,
) -> bool {
    certifies(report_status, metrics_pass) && envelope_status == EnvelopeStatus::Final
}

/// Whether a report run under `report_status` certifies the backend when
/// judged against an envelope of `envelope_status`: a draft on either side
/// never certifies; otherwise exactly when the metrics are within the
/// thresholds.
pub fn certifies_against(
    report_status: EnvelopeStatus,
    envelope_status: EnvelopeStatus,
    metrics_pass: bool,
) -> (r: bool)
    ensures
        r == certifies_against_spec(report_status, envelope_status, metrics_pass),
{
    match envelope_status {
        EnvelopeStatus::Draft => false,
        EnvelopeStatus::Final => passed(report_status, metrics_pass),
    }
}

/// The notice that follows the report title: a draft envelope is marked as
/// not certification-valid.
pub open spec fn draft_notice_text(status: EnvelopeStatus) -> Seq<char> {
    match status {
        EnvelopeStatus::Draft => "  ⚠ DRAFT — not certification-valid ⚠"@,
        EnvelopeStatus::Final => ""@,
    }
}

/// The notice that follows the report title.
pub fn draft_notice(status: EnvelopeStatus) -> (s: &'static str)
    ensures
        s@ == draft_notice_text(status),
{
    match status {
        EnvelopeStatus::Draft => "  ⚠ DRAFT — not certification-valid ⚠",
        EnvelopeStatus::Final => "",
    }
}

/// How every draft verdict ends.
pub open spec fn draft_disclaimer() -> Seq<char> {
    " — not certification-valid\n"@
}

/// The verdict line of a report (with its line feed).
pub open spec fn verdict_text(status: EnvelopeStatus, metrics_pass: bool, version: Seq<char>) -> Seq<
    char,
> {
    match status {
        EnvelopeStatus::Draft => if metrics_pass {
            " WOULD PASS (draft thresholds)"@ + draft_disclaimer()
        } else {
            " WOULD FAIL (draft thresholds)"@ + draft_disclaimer()
        },
        EnvelopeStatus::Final => if metrics_pass {
            " PASS — THRINDEX Certified ["@ + version + "]\n"@
        } else {
            " FAIL — does not meet conformance thresholds\n"@
        },
    }
}

/// The verdict line of a report: on a draft envelope it only says whether
/// the run would pass; on a final one it certifies or fails the backend.
pub fn verdict_line(status: EnvelopeStatus, metrics_pass: bool, version: &str) -> (s: String)
    ensures
        s@ == verdict_text(status, metrics_pass, version@),
{
    match status {
        EnvelopeStatus::Draft => {
            let mut s = if metrics_pass {
                " WOULD PASS (draft thresholds)".to_owned()
            } else {
                " WOULD FAIL (draft thresholds)".to_owned()
            };
            s.append(" — not certification-valid\n");
            s
        },
        EnvelopeStatus::Final => {
            if metrics_pass {
                let mut s = " PASS — THRINDEX Certified [".to_owned();
                s.append(version);
                s.append("]\n");
                s
            } else {
                " FAIL — does not meet conformance thresholds\n".to_owned()
            }
        },
    }
}

} // verus!
