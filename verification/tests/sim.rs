use thrindex::artifact::layers::LayerKind;
use thrindex::sim::error::SimError;
use thrindex::sim::model::{
    FlattenLayer, MIN_THRINDEX_VERSION, ResetMode, SUPPORTED_FORMAT_VERSION, check_dimensions,
    check_format_version, decode_weight_bytes, dispatch_layer_type, parse_reset, verify_crc32,
};

#[test]
fn format_version_gate() {
    assert_eq!(SUPPORTED_FORMAT_VERSION, "m2-draft");
    assert_eq!(MIN_THRINDEX_VERSION, "0.2.0");
    assert_eq!(check_format_version("m2-draft"), Ok(()));
    let err = check_format_version("m1").unwrap_err();
    assert_eq!(
        err,
        SimError::UnsupportedFormatVersion {
            version: "m1".to_string(),
            supported: "m2-draft".to_string(),
            min_thrindex: "0.2.0".to_string()
        }
    );
    assert!(err.message().starts_with("E0002: unsupported artifact format version: \"m1\"\n"));
}

#[test]
fn integrity_check() {
    assert_eq!(verify_crc32("123456789", "CBF43926"), Ok(()));
    assert_eq!(verify_crc32("123456789", "cbf43927"), Err(SimError::IntegrityCheckFailed));
    assert!(SimError::IntegrityCheckFailed.message().starts_with("E0009: artifact integrity check failed"));
}

#[test]
fn layer_dispatch() {
    assert_eq!(dispatch_layer_type(0, Some("dense")), Ok(LayerKind::Dense));
    assert_eq!(dispatch_layer_type(0, Some("flatten")), Ok(LayerKind::Flatten));
    assert_eq!(
        dispatch_layer_type(2, Some("rnn")),
        Err(SimError::UnknownLayerType { layer_type: "rnn".to_string() })
    );
    assert!(dispatch_layer_type(2, Some("rnn"))
        .unwrap_err()
        .message()
        .starts_with("E0003: unknown layer type: \"rnn\"\n"));
    assert_eq!(
        dispatch_layer_type(7, None),
        Err(SimError::JsonParseError { detail: "layer[7] missing \"type\" field".to_string() })
    );
}

#[test]
fn reset_modes() {
    assert_eq!(parse_reset(0, "subtract"), Ok(ResetMode::Subtract));
    assert_eq!(parse_reset(0, "zero"), Ok(ResetMode::Zero));
    let err = parse_reset(3, "hold").unwrap_err();
    assert_eq!(
        err.message(),
        "E0005: invalid LIF parameter in layer 3: unknown reset mode \"hold\"\nWhy: only \"subtract\" and \"zero\" are supported\nFix: recompile from a model that uses reset=\"subtract\" or reset=\"zero\"\nDocs: https://docs.thrindex.com/errors/E0005"
    );
}

#[test]
fn weight_blob_shapes() {
    // 8 bytes: two f32 values.
    assert_eq!(decode_weight_bytes("AAAAAAAAAAA=", 2, 0, "weights").unwrap().len(), 8);
    assert_eq!(
        decode_weight_bytes("AAAAAAAAAAA=", 3, 1, "weights"),
        Err(SimError::WeightShapeMismatch { layer_idx: 1, declared: 3, decoded: 8, got_f32: 2 })
    );
    match decode_weight_bytes("***", 1, 4, "bias") {
        Err(SimError::Base64DecodeError { layer_idx, field, .. }) => {
            assert_eq!(layer_idx, 4);
            assert_eq!(field, "bias");
        }
        other => panic!("expected E0006, got {other:?}"),
    }
}

#[test]
fn dimension_continuity() {
    let dense = |i: usize, o: usize| (Some(i), Some(o));
    let lif = (None, None);
    assert_eq!(check_dimensions(&vec![dense(700, 512), lif, dense(512, 20), lif]), Ok(()));
    assert_eq!(
        check_dimensions(&vec![dense(4, 8), lif, dense(6, 2)]),
        Err(SimError::DimensionMismatch { layer_idx: 2, prev_idx: 1, expected: 6, got: 8 })
    );
    let msg = SimError::DimensionMismatch { layer_idx: 2, prev_idx: 1, expected: 6, got: 8 }.message();
    assert!(msg.starts_with("E0004: layer dimension mismatch at layer 2\nWhy: layer 2 expects 6 input features but receives 8 from layer 1."));
}

#[test]
fn flatten_record() {
    let f = FlattenLayer { start_dim: 1, end_dim: -1 };
    assert_eq!((f.start_dim, f.end_dim), (1, -1));
}
