use thrindex::conformance::report::{certifies_against, draft_notice, passed, verdict_line};
use thrindex::conformance::envelope::{
    EnvelopeStatus, conformance_envelope_v0, conformance_envelope_v0_draft,
};
use thrindex::conformance::error::ConformanceError;
use thrindex::conformance::exclusions::{excluded_backends, find_exclusion};
use thrindex::conformance::harness::{
    ProtocolAction, ProtocolPhase, SampleProtocol, advance_protocol, check_output_shape, check_test_set_size,
    next_action, start_protocol,
};
use thrindex::conformance::metric::{
    count_spikes, first_spike_latency_totals, hamming_counts, prediction,
    prediction_agreement_count, rate_error_counts,
};

fn raster(spikes: &[(usize, usize)], t: usize, n: usize) -> Vec<Vec<bool>> {
    let mut r = vec![vec![false; n]; t];
    for &(step, neuron) in spikes {
        r[step][neuron] = true;
    }
    r
}

fn rate_errors(r: &Vec<Vec<bool>>, b: &Vec<Vec<bool>>) -> Vec<f64> {
    let t = r.len() as f64;
    rate_error_counts(r, b).iter().map(|&d| d as f64 / t).collect()
}

fn agreement(rs: &Vec<Vec<Vec<bool>>>, ts: &Vec<Vec<Vec<bool>>>) -> f64 {
    if rs.is_empty() {
        return 1.0;
    }
    prediction_agreement_count(rs, ts) as f64 / rs.len() as f64
}

#[test]
fn akida_excluded_flag() {
    let exclusion = find_exclusion("akida-akd1500");
    assert!(exclusion.is_some(), "akida-akd1500 must be registered as excluded");
    let e = exclusion.unwrap();
    assert_eq!(e.backend_name, "akida-akd1500");
    assert_eq!(e.reason, "non-snn-backend", "reason code must be 'non-snn-backend'");
    assert_eq!(
        e.alternative_metric, "top-1-accuracy-frozen-brainchip-dataset",
        "alternative metric must be the frozen BrainChip dataset accuracy"
    );
}

#[test]
fn akida_exclusion_line_format() {
    let exclusion = find_exclusion("akida-akd1500").unwrap();
    assert_eq!(
        exclusion.exclusion_line(),
        "EXCLUDED akida-akd1500: reason=non-snn-backend; metric=top-1-accuracy-frozen-brainchip-dataset"
    );
}

#[test]
fn sim_backend_not_excluded() {
    assert!(
        find_exclusion("sim").is_none(),
        "sim backend must not be excluded from spike-raster conformance"
    );
}

#[test]
fn print_exclusion_matches_line() {
    let e = find_exclusion("akida-akd1500").unwrap();
    let expected = e.exclusion_line();
    assert!(
        expected.starts_with("EXCLUDED akida-akd1500:"),
        "exclusion line must start with 'EXCLUDED akida-akd1500:'; got: {expected}"
    );
    assert!(
        expected.contains("reason=non-snn-backend"),
        "exclusion line must contain reason code; got: {expected}"
    );
    assert!(
        expected.contains("metric=top-1-accuracy-frozen-brainchip-dataset"),
        "exclusion line must contain alternative metric; got: {expected}"
    );
}

#[test]
fn registry_holds_exactly_the_akd1500() {
    let all = excluded_backends();
    assert_eq!(all.len(), 1);
    assert_eq!(all[0].backend_name, "akida-akd1500");
    assert!(find_exclusion("akida").is_none());
    assert!(find_exclusion("").is_none());
}

#[test]
fn draft_envelope_is_labeled_draft() {
    let env = conformance_envelope_v0_draft();
    assert_eq!(env.status, EnvelopeStatus::Draft, "DRAFT envelope must have Draft status");
    assert!(
        env.version.contains("draft"),
        "DRAFT version string must contain 'draft': {}",
        env.version
    );
    assert_eq!(env.min_test_samples, 100, "min_test_samples must be 100");
}

#[test]
fn v0_envelope_constants() {
    let env = conformance_envelope_v0();
    assert_eq!(env.status, EnvelopeStatus::Final, "V0 must be Final");
    assert_eq!(env.version, "v0");
    assert_eq!(
        env.t_mean_threshold_ppm as f64 / 1_000_000.0,
        0.020,
        "T_mean must be 0.020"
    );
    assert_eq!(
        env.t_max_threshold_ppm as f64 / 1_000_000.0,
        0.130,
        "T_max must be 0.130"
    );
    assert_eq!(
        env.pred_agreement_min_ppm as f64 / 1_000_000.0,
        0.900,
        "P_min must be 0.900"
    );
    assert_eq!(env.min_test_samples, 100);
}

#[test]
fn draft_envelope_thresholds() {
    let env = conformance_envelope_v0_draft();
    assert_eq!(env.t_mean_threshold_ppm, 20_000);
    assert_eq!(env.t_max_threshold_ppm, 100_000);
    assert_eq!(env.pred_agreement_min_ppm, 990_000);
}

#[test]
fn self_distance_is_zero() {
    let r = raster(&[(0, 0), (2, 1), (5, 0)], 10, 4);
    let errors = rate_errors(&r, &r);
    assert!(errors.iter().all(|&e| e == 0.0), "self-distance must be exactly 0");
    let mean = errors.iter().sum::<f64>() / errors.len() as f64;
    let max = errors.iter().cloned().fold(0.0_f64, f64::max);
    assert_eq!(mean, 0.0);
    assert_eq!(max, 0.0);
}

#[test]
fn silent_neuron_contributes_zero() {
    let ref_r = raster(&[(0, 0), (1, 1)], 10, 4);
    let test_r = raster(&[(0, 0), (1, 1)], 10, 4);
    let errors = rate_errors(&ref_r, &test_r);
    assert_eq!(errors[3], 0.0, "silent neuron contributes exactly 0");
}

#[test]
fn one_spike_miss_equals_one_over_t() {
    let ref_r = raster(&[(0, 0)], 100, 2);
    let test_r = raster(&[], 100, 2);
    let errors = rate_errors(&ref_r, &test_r);
    let expected = 1.0 / 100.0;
    assert!((errors[0] - expected).abs() < 1e-12, "1-spike miss must give 1/T; got {}", errors[0]);
    assert_eq!(errors[1], 0.0);
}

#[test]
fn prediction_agreement_identical_rasters() {
    let r = vec![raster(&[(0, 2), (1, 2), (2, 2)], 10, 5)];
    assert_eq!(agreement(&r, &r), 1.0);
}

#[test]
fn prediction_agreement_different_argmax() {
    let ref_r = vec![raster(&[(0, 2), (1, 2), (2, 2)], 10, 5)];
    let test_r = vec![raster(&[(0, 4), (1, 4), (2, 4)], 10, 5)];
    assert_eq!(agreement(&ref_r, &test_r), 0.0);
}

#[test]
fn hamming_is_informational_not_pass_fail() {
    let ref_r = raster(&[(0, 0), (1, 1)], 5, 2);
    let test_r = raster(&[(0, 0)], 5, 2);
    let (diff, total) = hamming_counts(&ref_r, &test_r);
    let h = diff as f64 / total as f64;
    assert!((h - 0.1).abs() < 1e-12, "expected 0.1, got {h}");
}

#[test]
fn spike_counts_per_neuron() {
    let r = raster(&[(0, 0), (2, 0), (3, 1)], 4, 2);
    assert_eq!(count_spikes(&r, 0), 2);
    assert_eq!(count_spikes(&r, 1), 1);
}

#[test]
fn prediction_ties_go_to_lowest_index() {
    let r = raster(&[(0, 3), (1, 1), (2, 3), (3, 1)], 4, 5);
    assert_eq!(prediction(&r), 1);
    assert_eq!(prediction(&raster(&[], 4, 5)), 0);
    assert_eq!(prediction(&vec![]), 0);
    assert_eq!(prediction(&vec![vec![], vec![]]), 0);
}

#[test]
fn rate_error_is_symmetric_and_empty_for_no_frames() {
    let a = raster(&[(0, 0), (1, 0), (2, 1)], 3, 2);
    let b = raster(&[(0, 1)], 3, 2);
    assert_eq!(rate_error_counts(&a, &b), vec![2, 0]);
    assert_eq!(rate_error_counts(&b, &a), vec![2, 0]);
    assert!(rate_error_counts(&vec![], &vec![]).is_empty());
}

#[test]
fn hamming_compares_only_shared_cells() {
    let a = vec![vec![true, false, true], vec![false]];
    let b = vec![vec![true, true]];
    assert_eq!(hamming_counts(&a, &b), (1, 2));
    assert_eq!(hamming_counts(&vec![], &b), (0, 0));
}

#[test]
fn first_spike_latency_over_neurons_firing_in_both() {
    // Neuron 0 fires at t=1 and t=3; neuron 1 only in the reference; neuron 2 at t=0 and t=2.
    let r = raster(&[(1, 0), (0, 1), (0, 2)], 4, 3);
    let b = raster(&[(3, 0), (2, 2)], 4, 3);
    assert_eq!(first_spike_latency_totals(&r, &b), (4, 2));
    assert_eq!(first_spike_latency_totals(&r, &r), (0, 3));
    assert_eq!(first_spike_latency_totals(&vec![], &vec![]), (0, 0));
}

#[test]
fn e0205_test_set_too_small() {
    let env = conformance_envelope_v0();
    assert_eq!(
        check_test_set_size(99, &env),
        Err(ConformanceError::TestSetTooSmall { got: 99, required: 100 })
    );
    assert_eq!(check_test_set_size(100, &env), Ok(()));
}

#[test]
fn e0206_output_shape_mismatch() {
    assert_eq!(check_output_shape(3, 10, 20, 10, 20), Ok(()));
    assert_eq!(
        check_output_shape(3, 10, 20, 1, 20),
        Err(ConformanceError::OutputShapeMismatch { sample_idx: 3, ref_t: 10, ref_n: 20, got_t: 1, got_n: 20 })
    );
}

#[test]
fn draft_envelope_never_certifies_a_run() {
    assert!(!passed(EnvelopeStatus::Draft, true));
    assert!(!passed(EnvelopeStatus::Draft, false));
    assert!(passed(EnvelopeStatus::Final, true));
    assert!(!passed(EnvelopeStatus::Final, false));
    assert_eq!(draft_notice(EnvelopeStatus::Draft), "  ⚠ DRAFT — not certification-valid ⚠");
    assert_eq!(draft_notice(EnvelopeStatus::Final), "");
    assert_eq!(verdict_line(EnvelopeStatus::Final, true, "v0"), " PASS — THRINDEX Certified [v0]\n");
    assert_eq!(verdict_line(EnvelopeStatus::Final, false, "v0"), " FAIL — does not meet conformance thresholds\n");
    assert_eq!(
        verdict_line(EnvelopeStatus::Draft, true, "v0_draft"),
        " WOULD PASS (draft thresholds) — not certification-valid\n"
    );
    assert!(verdict_line(EnvelopeStatus::Draft, false, "v0_draft").ends_with("not certification-valid\n"));
}

#[test]
fn metrics_are_symmetric() {
    let a = raster(&[(0, 0), (1, 1), (3, 1)], 4, 2);
    let b = raster(&[(2, 0), (1, 1)], 4, 2);
    assert_eq!(hamming_counts(&a, &b), hamming_counts(&b, &a));
    let ra = vec![a.clone(), b.clone()];
    let rb = vec![b, a];
    assert_eq!(prediction_agreement_count(&ra, &rb), prediction_agreement_count(&rb, &ra));
    assert_eq!(prediction_agreement_count(&ra, &ra), 2);
}

#[test]
fn conformance_error_messages() {
    let e = ConformanceError::TestSetTooSmall { got: 3, required: 100 };
    assert_eq!(
        e.message(),
        "E0205: test set too small — 3 samples provided, minimum is 100\nWhy: fewer samples than the envelope's `min_test_samples` cannot statistically characterise the metric distribution\nFix: provide ≥100 samples; see ADR-0010 Part II for the ratification measurement specification\nDocs: https://docs.thrindex.com/errors/E0205"
    );
    let e = ConformanceError::OutputShapeMismatch { sample_idx: 2, ref_t: 100, ref_n: 10, got_t: 99, got_n: 10 };
    assert_eq!(
        e.message(),
        "E0206: backend output shape mismatch on sample 2 — reference [100×10], backend [99×10]\nWhy: the backend returned a different number of timesteps or output neurons\nFix: verify the backend runs exactly T=100 timesteps and produces N_out=10 neurons per the artifact\nDocs: https://docs.thrindex.com/errors/E0206"
    );
    let e = ConformanceError::BackendExecution { sample_idx: 0, detail: "boom".to_string() };
    assert!(e.message().starts_with("E0207: backend execution error on sample 0: boom\nWhy: "));
    let e = ConformanceError::ReferenceError { sample_idx: 7, detail: "bad".to_string() };
    assert!(e.message().starts_with("E0208: reference simulator error on sample 7: bad\nWhy: "));
    assert!(e.message().ends_with("\nDocs: https://docs.thrindex.com/errors/E0208"));
}

#[test]
fn draft_envelope_never_certifies() {
    // A zero-error run against the draft envelope: within its thresholds, yet
    // not certified.
    let draft = conformance_envelope_v0_draft();
    assert_eq!(draft.status, EnvelopeStatus::Draft);
    let (mean_err, max_err, agreement_ppm) = (0u32, 0u32, 1_000_000u32);
    let metrics_pass = mean_err <= draft.t_mean_threshold_ppm
        && max_err <= draft.t_max_threshold_ppm
        && agreement_ppm >= draft.pred_agreement_min_ppm;
    assert!(metrics_pass, "a zero-error run is within the draft thresholds");
    assert!(!passed(draft.status, metrics_pass), "a draft envelope never certifies");
}

#[test]
fn report_render_includes_draft_notice() {
    let notice = draft_notice(EnvelopeStatus::Draft);
    let verdict = verdict_line(EnvelopeStatus::Draft, true, "v0_draft");
    assert!(notice.contains("DRAFT"), "draft notice must say DRAFT; got:\n{notice}");
    assert!(verdict.contains("not certification-valid"), "verdict must say 'not certification-valid'; got:\n{verdict}");
}

#[test]
fn draft_on_either_side_never_certifies() {
    let (draft, fin) = (EnvelopeStatus::Draft, EnvelopeStatus::Final);
    assert!(certifies_against(fin, fin, true));
    assert!(!certifies_against(fin, fin, false));
    // A final report judged against a draft envelope does not certify.
    assert!(!certifies_against(fin, draft, true));
    assert!(!certifies_against(draft, fin, true));
    assert!(!certifies_against(draft, draft, true));
}

#[test]
fn sample_protocol_runs_reference_then_backend_in_order() {
    let mut env = conformance_envelope_v0();
    env.min_test_samples = 2;
    assert_eq!(
        start_protocol(1, &env),
        Err(ConformanceError::TestSetTooSmall { got: 1, required: 2 })
    );
    let mut p = start_protocol(2, &env).unwrap();
    assert_eq!(next_action(&p), ProtocolAction::RunReference { sample_idx: 0 });
    p = advance_protocol(p, Ok((5, 3))).unwrap();
    assert_eq!(p.phase, ProtocolPhase::Backend { ref_t: 5, ref_n: 3 });
    assert_eq!(next_action(&p), ProtocolAction::RunBackend { sample_idx: 0 });
    p = advance_protocol(p, Ok((5, 3))).unwrap();
    assert_eq!(next_action(&p), ProtocolAction::RunReference { sample_idx: 1 });
    p = advance_protocol(p, Ok((5, 3))).unwrap();
    p = advance_protocol(p, Ok((5, 3))).unwrap();
    assert_eq!(p, SampleProtocol { n_samples: 2, sample_idx: 2, phase: ProtocolPhase::Reference });
    assert_eq!(next_action(&p), ProtocolAction::Finished);
}

#[test]
fn sample_protocol_failures() {
    let at = |phase| SampleProtocol { n_samples: 3, sample_idx: 1, phase };
    assert_eq!(
        advance_protocol(at(ProtocolPhase::Reference), Err("sim broke".to_string())),
        Err(ConformanceError::ReferenceError { sample_idx: 1, detail: "sim broke".to_string() })
    );
    let waiting = at(ProtocolPhase::Backend { ref_t: 5, ref_n: 3 });
    assert_eq!(
        advance_protocol(waiting, Err("device".to_string())),
        Err(ConformanceError::BackendExecution { sample_idx: 1, detail: "device".to_string() })
    );
    assert_eq!(
        advance_protocol(waiting, Ok((4, 3))),
        Err(ConformanceError::OutputShapeMismatch { sample_idx: 1, ref_t: 5, ref_n: 3, got_t: 4, got_n: 3 })
    );
}
