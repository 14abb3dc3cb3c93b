use thrindex::akida::backend::{check_temporal_input, hardware_unavailable_error, preflight};
use thrindex::akida::capability::{AKD1500_NATIVE_DELAY_MAX_STEPS, AKD1500_TARGET_NAME, AKD1500_WEIGHT_MAX};
use thrindex::akida::error::AkidaError;
use thrindex::akida::runtime::{check_batch, output_width, parse_runtime_args, scale_4bit_level};
use thrindex::akida::validate::{AkidaArtifactView, AkidaLayerView, count_nonfinite_f32, validate_artifact};
use thrindex::backend_api::error::BackendError;

fn layer(ty: &str) -> AkidaLayerView {
    AkidaLayerView {
        layer_type: Some(ty.to_string()),
        threshold_text: "0".to_string(),
        alpha_text: "0".to_string(),
        reset: None,
        has_delays_b64: false,
        has_delays_sparse: false,
        delays_encoding: None,
        weights_b64: None,
    }
}

fn artifact(target: &str, layers: Vec<AkidaLayerView>) -> AkidaArtifactView {
    AkidaArtifactView { target: Some(target.to_string()), layers }
}

fn lif_artifact() -> AkidaArtifactView {
    let mut l = layer("lif");
    l.threshold_text = "1".to_string();
    l.alpha_text = "0.9".to_string();
    l.reset = Some("subtract".to_string());
    artifact("akida-akd1500", vec![l])
}

fn dense_with_delays_artifact() -> AkidaArtifactView {
    let mut l = layer("dense");
    l.weights_b64 = Some("AAAAAAAAAAAAAAAAAAAAAAAAAAAAAAAA".to_string());
    l.has_delays_b64 = true;
    l.delays_encoding = Some("dense".to_string());
    artifact("akida-akd1500", vec![l])
}

fn message(e: AkidaError) -> String {
    match e.into_backend_error() {
        BackendError::Execution { detail } => detail,
        other => panic!("unexpected {other:?}"),
    }
}

fn batch_timesteps(json: &str) -> Vec<usize> {
    let v: serde_json::Value = serde_json::from_str(json).unwrap();
    v["batch"].as_array().unwrap().iter().map(|s| s.as_array().unwrap().len()).collect()
}

#[test]
fn target_name_constant() {
    assert_eq!(AKD1500_TARGET_NAME, "akida-akd1500");
}

#[test]
fn weight_max_is_four_bit_ceiling() {
    assert_eq!(AKD1500_WEIGHT_MAX, 7);
}

#[test]
fn no_native_delays() {
    assert_eq!(AKD1500_NATIVE_DELAY_MAX_STEPS, 0);
}

#[test]
fn t_not_1_rejected() {
    let json = r#"{"batch": [[[0.1, 0.2], [0.3, 0.4]]]}"#;
    let err = check_batch(&batch_timesteps(json)).unwrap_err();
    assert!(err.starts_with("E0407"), "expected E0407, got: {err}");
}

#[test]
fn empty_batch_returns_empty() {
    let json = r#"{"batch": []}"#;
    let n_samples = check_batch(&batch_timesteps(json)).unwrap();
    let outputs: Vec<Vec<f32>> = Vec::with_capacity(n_samples);
    assert_eq!(n_samples, 0);
    assert!(outputs.is_empty());
}

#[test]
fn e0407_names_first_multi_frame_sample() {
    let err = check_batch(&vec![1, 1, 3, 2]).unwrap_err();
    assert_eq!(
        err,
        "E0407 [temporal-input-not-supported]: sample[2] has T=3 timesteps; AKD1500 is a stateless single-frame backend (T must equal 1); split the spike train into individual frames before calling run_batch."
    );
    assert_eq!(check_batch(&vec![1, 1]), Ok(2));
}

#[test]
fn lif_rejection() {
    let msg = message(validate_artifact(&lif_artifact()).unwrap_err());
    assert!(msg.contains("E0401"), "expected E0401 in:\n{msg}");
    assert!(msg.contains("lif"), "expected 'lif' mention in:\n{msg}");
    assert!(msg.contains("threshold=1"), "expected threshold in:\n{msg}");
}

#[test]
fn delay_rejection() {
    let msg = message(validate_artifact(&dense_with_delays_artifact()).unwrap_err());
    assert!(msg.contains("E0402"), "expected E0402 in:\n{msg}");
    assert!(msg.contains("dense"), "expected encoding in:\n{msg}");
    assert!(msg.contains("native_delay_max_steps=0"), "expected cap in:\n{msg}");
    assert!(msg.contains("TNP"), "expected TNP in:\n{msg}");
}

#[test]
fn wrong_target() {
    let msg = message(validate_artifact(&artifact("sim", vec![])).unwrap_err());
    assert!(msg.contains("E0404"), "expected E0404 in:\n{msg}");
    assert!(msg.contains("\"sim\""), "expected actual target in:\n{msg}");
    assert!(msg.contains("Recompile"), "expected advice in:\n{msg}");
}

#[test]
fn missing_target_field_rejected() {
    let v = AkidaArtifactView { target: None, layers: vec![] };
    assert_eq!(
        validate_artifact(&v),
        Err(AkidaError::WrongTarget { actual_target: String::new() })
    );
}

#[test]
fn valid_dense_only() {
    let mut l = layer("dense");
    l.weights_b64 = Some("AAAAAAAAAAAAAAAAAAAAAAAAAAAAAAAAAAAAAAAAAAA=".to_string());
    validate_artifact(&artifact("akida-akd1500", vec![l]))
        .expect("Dense-only artifact with correct target should pass validation");
}

#[test]
fn nonfinite_weights_rejected() {
    // 1.0, +inf, NaN as little-endian f32: 0000803f 0000807f 0000c07f.
    let mut l = layer("conv2d");
    l.weights_b64 = Some("AACAPwAAgH8AAMB/".to_string());
    assert_eq!(count_nonfinite_f32("AACAPwAAgH8AAMB/"), 2);
    assert_eq!(
        validate_artifact(&artifact("akida-akd1500", vec![layer("flatten"), l])),
        Err(AkidaError::NonFiniteWeights { index: 1, count: 2 })
    );
}

#[test]
fn undecodable_weights_count_nothing() {
    assert_eq!(count_nonfinite_f32("not base64!"), 0);
    assert_eq!(count_nonfinite_f32(""), 0);
}

#[test]
fn first_violation_wins() {
    let v = artifact("akida-akd1500", vec![dense_with_delays_artifact().layers[0].clone(), lif_artifact().layers[0].clone()]);
    assert!(matches!(validate_artifact(&v), Err(AkidaError::DelaysNotSupported { index: 0, .. })));
}

#[test]
fn e0407_temporal_input_rejected() {
    let ok = artifact("akida-akd1500", vec![]);
    let err = preflight(&ok, &vec![(5, 4)]).unwrap_err();
    let msg = err.message();
    assert!(msg.contains("E0407"), "expected E0407 in:\n{msg}");
    assert!(msg.contains("T=5"), "expected timestep count in:\n{msg}");
}

#[test]
fn e0401_lif_rejected_before_hardware() {
    let err = preflight(&lif_artifact(), &vec![(1, 4)]).unwrap_err();
    let msg = err.message();
    assert!(msg.contains("E0401"), "expected E0401 in:\n{msg}");
}

#[test]
fn valid_artifact_t1_passes_preflight_fails_hardware_stub() {
    let ok = artifact("akida-akd1500", vec![]);
    preflight(&ok, &vec![(1, 4)]).unwrap();
    let msg = hardware_unavailable_error("/dev/null").message();
    assert!(msg.contains("E0204"), "expected E0204 stub in:\n{msg}");
    assert!(!msg.contains("E0401"), "should not contain E0401:\n{msg}");
    assert!(!msg.contains("E0407"), "should not contain E0407:\n{msg}");
    assert!(msg.contains("fbz_path=/dev/null"));
}

#[test]
fn temporal_check_reads_only_the_first_sample() {
    assert_eq!(check_temporal_input(&vec![]), Ok(()));
    assert_eq!(check_temporal_input(&vec![(1, 3), (7, 3)]), Ok(()));
    assert_eq!(
        check_temporal_input(&vec![(0, 0)]),
        Err(AkidaError::TemporalInputNotSupported { batch: 1, timesteps: 0, features: 0 })
    );
}

#[test]
fn runtime_arguments() {
    let args = |v: &[&str]| v.iter().map(|s| s.to_string()).collect::<Vec<String>>();
    let a = parse_runtime_args(&args(&["akida-runtime", "model.fbz"])).unwrap();
    assert_eq!(a.fbz_path, "model.fbz");
    assert_eq!(a.pcie_addr, "0001:01:00.0");
    let a = parse_runtime_args(&args(&["akida-runtime", "--pcie-addr", "0000:02:00.0", "m.fbz"])).unwrap();
    assert_eq!(a.pcie_addr, "0000:02:00.0");
    assert_eq!(a.fbz_path, "m.fbz");
    assert_eq!(
        parse_runtime_args(&args(&["akida-runtime", "m.fbz", "--verbose"])).unwrap_err(),
        "E0204: unknown flag --verbose"
    );
    assert_eq!(
        parse_runtime_args(&args(&["akida-runtime", "m.fbz", "--pcie-addr"])).unwrap_err(),
        "E0204: unknown flag --pcie-addr"
    );
    assert_eq!(
        parse_runtime_args(&args(&["akida-runtime"])).unwrap_err(),
        "E0204: usage: akida-runtime <fbz_path> [--pcie-addr ADDR]"
    );
}

#[test]
fn runtime_output_width() {
    assert_eq!(output_width(40, 2), Ok(20));
    assert_eq!(output_width(0, 2), Err("E0204: akida_run_batch returned empty output".to_string()));
    assert_eq!(output_width(1, 2), Err("E0204: output length 1 is not divisible by n_samples 2".to_string()));
}

#[test]
fn quantize_boundaries() {
    assert_eq!(scale_4bit_level(0), 0);
    assert_eq!(scale_4bit_level(15), 255);
    assert_eq!(scale_4bit_level(8), 136);
    assert_eq!(scale_4bit_level(200), 255);
}

#[test]
fn public_constants() {
    assert_eq!(AKD1500_TARGET_NAME, "akida-akd1500");
    assert_eq!(AKD1500_WEIGHT_MAX, 7, "4-bit signed range [-7, 7]; scale = max|W| / 7");
}

#[test]
fn validate_delay_rejection() {
    let mut l = layer("dense");
    l.weights_b64 = Some("AAAAAAAAAAAAAAAAAAAAAAAAAAAAAAAAAAAAAAAAAAA=".to_string());
    l.has_delays_b64 = true;
    l.delays_encoding = Some("dense".to_string());
    let err = validate_artifact(&artifact("akida-akd1500", vec![l]))
        .expect_err("artifact with delays must be rejected by akida-akd1500 backend");
    let msg = message(err);
    assert!(msg.contains("E0402"), "BackendError must contain E0402; got:\n{msg}");
    assert!(msg.contains("native_delay_max_steps=0"), "error must cite the zero delay cap; got:\n{msg}");
    assert!(msg.contains("TNP"), "error must explain TNP is not present on Akida 1.0; got:\n{msg}");
    assert!(msg.contains("dense"), "error must state the delay encoding type; got:\n{msg}");
}

#[test]
fn validate_lif_rejection() {
    let err = validate_artifact(&lif_artifact()).expect_err("LIF artifact must be rejected by akida-akd1500 backend");
    let msg = message(err);
    assert!(msg.contains("E0401"), "BackendError must contain E0401 in detail; got:\n{msg}");
    assert!(msg.contains("lif"), "error must mention the rejected layer type; got:\n{msg}");
    assert!(msg.contains("bounded ReLU"), "error must explain the neuron model incompatibility; got:\n{msg}");
    assert!(msg.contains("What to do:"), "error must include remediation advice; got:\n{msg}");
    let e401 = AkidaError::LifNotSupported {
        index: 0,
        threshold: "1".to_owned(),
        alpha: "0.9".to_owned(),
        reset: "subtract".to_owned(),
    };
    assert_eq!(
        e401.message(),
        "E0401: layer[0] type=\"lif\" cannot be mapped to akida-akd1500.\nObserved: .thx layer 0 has type \"lif\" with threshold=1, alpha=0.9, reset=\"subtract\".\nWhy: AKD1500 implements Akida 1.0. Akida 1.0's activation is bounded ReLU applied per-inference-call to the integer dot product. It has no membrane potential, no exponential leak (alpha term), and no spike-triggered reset. The leaky integrate-and-fire dynamics encoded in this layer do not exist in the hardware.\nWhat to do: (a) Use the 'sim' backend for SNN simulation. (b) If you want AKD1500 inference, re-design the model without LIF layers using the CNN workflow described in the BrainChip documentation. There is no lossless conversion from LIF to bounded-ReLU; they are different computational models.\nDocs: https://docs.thrindex.com/errors/E0401"
    );
}

#[test]
fn validate_wrong_target() {
    let err = validate_artifact(&artifact("sim", vec![]))
        .expect_err("sim-targeted artifact must be rejected by akida-akd1500 backend");
    let msg = message(err);
    assert!(msg.contains("E0404"), "BackendError must contain E0404; got:\n{msg}");
    assert!(msg.contains("\"sim\""), "error must cite the actual target name; got:\n{msg}");
    assert!(msg.contains("akida-akd1500"), "error must name the expected target; got:\n{msg}");
    assert!(msg.contains("Recompile"), "error must suggest recompilation; got:\n{msg}");
}
