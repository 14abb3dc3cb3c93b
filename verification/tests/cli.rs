use thrindex::artifact::layers::LayerKind;
use thrindex::cli::bench::{BenchArgs, demo_notice, plan, select_envelope};
use thrindex::cli::doctor::{Check, CheckStatus, DoctorArgs, render_report, run as doctor_run};
use thrindex::cli::run::{RunArgs, first_in_features, synthetic_spikes};
use thrindex::cli::targets::{TargetsArgs, run as targets_run};
use thrindex::conformance::envelope::EnvelopeStatus;

fn border() -> String {
    "═".repeat(55)
}

#[test]
fn check_status_icons() {
    assert_eq!(CheckStatus::Pass.icon(), "OK ");
    assert_eq!(CheckStatus::Advisory.icon(), "?  ");
    assert_eq!(CheckStatus::Fail.icon(), "ERR");
}

#[test]
fn targets_table() {
    let s = targets_run(&TargetsArgs {});
    let b = border();
    let expected = format!(
        "{b}\n thrindex 0.3.0  —  available targets\n{b}\n sim      Behavioral simulator (this build)\n          Precision: float32  |  ADR-0007\n          Deterministic, CPU-parallel (Rayon)\n{}\n Fixed-point targets: pending RFC-004 (target calibration)\n{b}\n",
        "─".repeat(55)
    );
    assert_eq!(s, expected);
}

#[test]
fn doctor_all_passed() {
    let s = doctor_run(&DoctorArgs { check: None, verbose: false }, None);
    let b = border();
    assert_eq!(
        s,
        format!("{b}\n thrindex doctor v0.3.0\n{b}\n [OK ]  thrindex-sim 0.3.0\n{b}\n All checks passed.\n{b}\n")
    );
}

#[test]
fn doctor_verbose_shows_details() {
    let args = DoctorArgs { check: Some("m.thx".to_string()), verbose: true };
    let s = doctor_run(&args, Some(Ok(4)));
    assert!(s.contains(" [OK ]  artifact: m.thx\n        4 layers — format OK\n"));
    assert!(s.contains("        core simulator library loaded successfully\n"));
}

#[test]
fn doctor_failure_shows_detail_lines() {
    let args = DoctorArgs { check: Some("bad.thx".to_string()), verbose: false };
    let s = doctor_run(&args, Some(Err("E0001: artifact file not found: bad.thx\r\nWhy: gone.\n".to_string())));
    assert!(s.contains(" [ERR]  artifact: bad.thx\n        E0001: artifact file not found: bad.thx\n        Why: gone.\n"));
    assert!(s.contains(" 1 failure(s). Run `thrindex doctor --verbose` for details.\n"));
    assert!(!s.contains("core simulator library"));
}

#[test]
fn doctor_advisories_are_counted() {
    let checks = vec![
        Check { label: "a".to_string(), status: CheckStatus::Advisory, detail: None },
        Check { label: "b".to_string(), status: CheckStatus::Advisory, detail: Some("x\n\ny".to_string()) },
    ];
    let s = render_report(&checks, false);
    assert!(s.contains(" [?  ]  b\n        x\n        \n        y\n"));
    assert!(s.contains(" 2 advisory. Run `thrindex doctor --verbose` for details.\n"));
}

#[test]
fn first_input_width() {
    assert_eq!(first_in_features(&vec![]), 1);
    assert_eq!(first_in_features(&vec![(LayerKind::Lif, 9), (LayerKind::Dense, 700)]), 700);
    assert_eq!(first_in_features(&vec![(LayerKind::Flatten, 0), (LayerKind::Conv2d, 3)]), 3);
}

#[test]
fn synthetic_input_is_deterministic() {
    let a = synthetic_spikes(16, 100, 42);
    let b = synthetic_spikes(16, 100, 42);
    assert_eq!(a, b);
    assert_eq!(a.len(), 100);
    assert!(a.iter().all(|f| f.len() == 16));
    // Reference: the same linear congruential generator written out.
    let mut state = 7u64.wrapping_add(6_364_136_223_846_793_005);
    let c = synthetic_spikes(3, 2, 7);
    for frame in &c {
        for &cell in frame {
            state = state.wrapping_mul(6_364_136_223_846_793_005).wrapping_add(1_442_695_040_888_963_407);
            assert_eq!(cell, (state >> 33) % 5 == 0);
        }
    }
    let spikes = a.iter().flatten().filter(|&&x| x).count();
    assert!(spikes > 150 && spikes < 500, "about one cell in five spikes, got {spikes}");
}

#[test]
fn run_args_record() {
    let r = RunArgs { artifact: "m.thx".to_string(), seed: 0, threads: 0 };
    assert_eq!(r.artifact, "m.thx");
}

#[test]
fn bench_requires_conformance_and_sim() {
    let args = BenchArgs { conformance: false, target: "sim".to_string(), artifact: None, fixtures: None };
    assert!(plan(&args).unwrap_err().starts_with("thrindex bench: no action specified."));
    let args = BenchArgs { conformance: true, target: "loihi2".to_string(), artifact: None, fixtures: None };
    assert!(plan(&args).unwrap_err().starts_with("thrindex bench: target 'loihi2' is not yet available."));
    let args = BenchArgs { conformance: true, target: "sim".to_string(), artifact: None, fixtures: Some("fx".to_string()) };
    let p = plan(&args).unwrap();
    assert_eq!(p.artifact_path, "templates/keyword-spotting/model.thx");
    assert_eq!(p.fixtures_dir, "fx");
}

#[test]
fn bench_envelope_choice() {
    let (demo, env) = select_envelope(3);
    assert!(demo);
    assert_eq!(env.status, EnvelopeStatus::Draft);
    assert_eq!(env.min_test_samples, 3);
    let (demo, env) = select_envelope(120);
    assert!(!demo);
    assert_eq!(env.version, "v0");
    assert_eq!(
        demo_notice(3),
        "\n⚠ STRUCTURAL DEMO — 3 samples loaded (minimum for certification: 100).\nProvide ≥100 samples via --fixtures to obtain a certification-valid run.\n"
    );
}
