//! `thrindex bench`: argument checks, default paths, and the choice of
//! envelope for a run.

use vstd::prelude::*;
use crate::conformance::envelope::{
    ConformanceEnvelope, conformance_envelope_v0, conformance_envelope_v0_draft, envelope_v0_draft_spec,
    envelope_v0_spec,
};
use crate::text::{decimal_digits, push_decimal, str_eq};

verus! {

/// Arguments of `thrindex bench`.
#[derive(Debug, Clone, PartialEq, Eq)]
pub struct BenchArgs {
    /// Run the spike-equivalence conformance suite.
    pub conformance: bool,
    /// Execution target to test against the reference simulator.
    pub target: String,
    /// Path to the `.thx` artifact (default:
    /// `templates/keyword-spotting/model.thx`).
    pub artifact: Option<String>,
    /// Directory of `sample_NNN.json` fixtures (default:
    /// `templates/keyword-spotting/samples`).
    pub fixtures: Option<String>,
}

/// Where a bench run reads its inputs.
#[derive(Debug, Clone, PartialEq, Eq)]
pub struct BenchPaths {
    pub artifact_path: String,
    pub fixtures_dir: String,
}

/// The message when no action is requested.
pub open spec fn no_action_message() -> Seq<char> {
    "thrindex bench: no action specified.\nUse `thrindex bench --conformance --target sim` to run the conformance suite.\nUse `thrindex bench --help` for more options."@
}

/// The message for a target other than `sim`.
pub open spec fn unavailable_target_message(target: Seq<char>) -> Seq<char> {
    "thrindex bench: target '"@ + target
        + "' is not yet available.\nCurrently only '--target sim' is supported (M4).\nHardware targets are planned for M5+."@
}

/// Check the bench arguments and resolve the input paths: the conformance
/// suite must be requested, the target must be `sim`, and missing paths take
/// their defaults.
pub fn plan(args: &BenchArgs) -> (r: Result<BenchPaths, String>)
    ensures
        !args.conformance ==> (r matches Err(m) && m@ == no_action_message()),
        args.conformance && args.target@ != "sim"@ ==> (r matches Err(m) && m@
            == unavailable_target_message(args.target@)),
        args.conformance && args.target@ == "sim"@ ==> (r matches Ok(p) && p.artifact_path@
            == (match args.artifact {
            Some(a) => a@,
            None => "templates/keyword-spotting/model.thx"@,
        }) && p.fixtures_dir@ == (match args.fixtures {
            Some(f) => f@,
            None => "templates/keyword-spotting/samples"@,
        })),
{
    if !args.conformance {
        return Err(
            "thrindex bench: no action specified.\nUse `thrindex bench --conformance --target sim` to run the conformance suite.\nUse `thrindex bench --help` for more options.".to_owned(),
        );
    }
    if !str_eq(args.target.as_str(), "sim") {
        let mut m = "thrindex bench: target '".to_owned();
        m.append(args.target.as_str());
        m.append(
            "' is not yet available.\nCurrently only '--target sim' is supported (M4).\nHardware targets are planned for M5+.",
        );
        return Err(m);
    }
    let artifact_path = match &args.artifact {
        Some(a) => a.clone(),
        None => "templates/keyword-spotting/model.thx".to_owned(),
    };
    let fixtures_dir = match &args.fixtures {
        Some(f) => f.clone(),
        None => "templates/keyword-spotting/samples".to_owned(),
    };
    Ok(BenchPaths { artifact_path, fixtures_dir })
}

/// The envelope a bench run uses for `n_loaded` samples: the ratified v0
/// envelope when there are enough samples for certification; otherwise a
/// structural demo on the superseded draft, accepting the samples loaded.
/// The flag says whether the run is a structural demo.
pub fn select_envelope(n_loaded: usize) -> (r: (bool, ConformanceEnvelope))
    ensures
        r.0 == (n_loaded < envelope_v0_spec().min_test_samples),
        r.0 ==> r.1 == (ConformanceEnvelope { min_test_samples: n_loaded, ..envelope_v0_draft_spec() }),
        !r.0 ==> r.1 == envelope_v0_spec(),
{
    let v0 = conformance_envelope_v0();
    if n_loaded < v0.min_test_samples {
        let draft = conformance_envelope_v0_draft();
        (true, ConformanceEnvelope { min_test_samples: n_loaded, ..draft })
    } else {
        (false, v0)
    }
}

/// The notice appended to a structural demo report.
pub open spec fn demo_notice_text(n_loaded: nat) -> Seq<char> {
    "\n⚠ STRUCTURAL DEMO — "@ + decimal_digits(n_loaded) + " samples loaded (minimum for certification: "@
        + decimal_digits(envelope_v0_spec().min_test_samples as nat)
        + ").\nProvide ≥100 samples via --fixtures to obtain a certification-valid run.\n"@
}

/// The notice appended to a structural demo report.
pub fn demo_notice(n_loaded: usize) -> (s: String)
    ensures
        s@ == demo_notice_text(n_loaded as nat),
{
    let mut s = "\n⚠ STRUCTURAL DEMO — ".to_owned();
    push_decimal(&mut s, n_loaded as u64);
    s.append(" samples loaded (minimum for certification: ");
    push_decimal(&mut s, conformance_envelope_v0().min_test_samples as u64);
    s.append(").\nProvide ≥100 samples via --fixtures to obtain a certification-valid run.\n");
    s
}

} // verus!
