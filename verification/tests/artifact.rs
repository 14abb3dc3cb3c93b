use thrindex::artifact::error::ArtifactError;
use thrindex::artifact::integrity::{check_artifact, check_format_version, content_hash, supported_versions, verify_crc32};
use thrindex::artifact::layers::{FlattenLayer, LayerKind, classify_layer_type};
use thrindex::artifact::resource::{LayerInfo, derive_summary};
use thrindex::codec::{crc32_hex, sha256_hex};

fn info(ty: Option<&str>) -> LayerInfo {
    LayerInfo {
        layer_type: ty.map(|s| s.to_string()),
        in_features: None,
        out_features: None,
        in_channels: None,
        out_channels: None,
        kernel_h: None,
        kernel_w: None,
        has_delays_b64: false,
    }
}

fn dense(i: usize, o: usize) -> LayerInfo {
    LayerInfo { in_features: Some(i), out_features: Some(o), ..info(Some("dense")) }
}

#[test]
fn crc32_is_eight_lowercase_hex_digits() {
    assert_eq!(crc32_hex("123456789"), "cbf43926");
    assert_eq!(crc32_hex(""), "00000000");
}

#[test]
fn sha256_is_64_lowercase_hex_digits() {
    assert_eq!(
        sha256_hex(b"abc"),
        "ba7816bf8f01cfea414140de5dae2223b00361a396177a9cb410ff61f20015ad"
    );
    let h = content_hash(b"");
    assert_eq!(h.len(), 64, "SHA-256 hex should be 64 chars");
    assert!(h.chars().all(|c| c.is_ascii_hexdigit()), "content hash should be hex");
}

#[test]
fn crc32_check_is_case_insensitive() {
    assert_eq!(verify_crc32("123456789", "cbf43926"), Ok(()));
    assert_eq!(verify_crc32("123456789", "CBF43926"), Ok(()));
}

#[test]
fn corrupt_crc32_is_rejected() {
    let model_canonical = "{\"layers\":[{\"bias_b64\":null,\"in_features\":2,\"out_features\":2,\"type\":\"dense\",\"weights_b64\":\"AACAPwAAAAAAAAAAAACAPw==\"}]}";
    match check_artifact("m2-draft", model_canonical, "deadbeef") {
        Err(ArtifactError::IntegrityCheckFailed { expected, computed }) => {
            assert_eq!(expected, "deadbeef");
            assert_eq!(computed, crc32_hex(model_canonical));
            assert_ne!(computed, "deadbeef");
        }
        other => panic!("expected IntegrityCheckFailed, got {other:?}"),
    }
    assert_eq!(
        verify_crc32("123456789", "deadbeef"),
        Err(ArtifactError::IntegrityCheckFailed {
            expected: "deadbeef".to_string(),
            computed: "cbf43926".to_string()
        })
    );
}

#[test]
fn unsupported_format_version_is_rejected() {
    assert_eq!(supported_versions(), vec!["m2-draft"]);
    assert_eq!(check_format_version("m2-draft"), Ok(()));
    assert_eq!(
        check_format_version("m99-future"),
        Err(ArtifactError::UnsupportedFormatVersion { version: "m99-future".to_string(), supported: "m2-draft" })
    );
}

#[test]
fn version_gate_comes_before_integrity() {
    assert!(matches!(
        check_artifact("m99-future", "x", "deadbeef"),
        Err(ArtifactError::UnsupportedFormatVersion { .. })
    ));
    assert!(matches!(
        check_artifact("m2-draft", "x", "deadbeef"),
        Err(ArtifactError::IntegrityCheckFailed { .. })
    ));
    assert_eq!(check_artifact("m2-draft", "123456789", "cbf43926"), Ok(()));
}

#[test]
fn layer_kinds() {
    assert_eq!(classify_layer_type("dense"), LayerKind::Dense);
    assert_eq!(classify_layer_type("lif"), LayerKind::Lif);
    assert_eq!(classify_layer_type("conv2d"), LayerKind::Conv2d);
    assert_eq!(classify_layer_type("flatten"), LayerKind::Flatten);
    assert_eq!(classify_layer_type("Dense"), LayerKind::Other);
    let f = FlattenLayer { start_dim: 1, end_dim: -1 };
    assert_eq!(f.end_dim, -1);
}

#[test]
fn keyword_spotting_resource_summary() {
    let layers = vec![dense(700, 512), info(Some("lif")), dense(512, 20), info(Some("lif"))];
    let rs = derive_summary(&layers).unwrap();
    assert_eq!(rs.layer_count, 4);
    assert_eq!(rs.layer_types, vec!["dense", "lif", "dense", "lif"]);
    assert_eq!(rs.total_weight_count, 700 * 512 + 512 * 20, "total weight count: 700*512 + 512*20 = 368640");
    assert_eq!(rs.total_weight_count, 368_640);
    assert_eq!(rs.lif_neuron_count, 512 + 20, "LIF neuron count");
    assert!(!rs.has_delays);
    assert_eq!(rs.input_shape, Some(700));
    assert_eq!(rs.output_shape, Some(20));
}

#[test]
fn resource_summary_of_conv_and_unknown_layers() {
    let conv = LayerInfo {
        in_channels: Some(2),
        out_channels: Some(8),
        kernel_h: Some(3),
        kernel_w: Some(3),
        ..info(Some("conv2d"))
    };
    let delayed = LayerInfo { has_delays_b64: true, ..dense(72, 10) };
    let layers = vec![info(None), conv, info(Some("lif")), info(Some("mystery")), delayed, info(Some("lif"))];
    let rs = derive_summary(&layers).unwrap();
    assert_eq!(rs.layer_types, vec!["unknown", "conv2d", "lif", "mystery", "dense", "lif"]);
    assert_eq!(rs.total_weight_count, 2 * 8 * 3 * 3 + 72 * 10);
    assert_eq!(rs.lif_neuron_count, 8 + 10);
    assert!(rs.has_delays);
    assert_eq!(rs.input_shape, None);
    assert_eq!(rs.output_shape, Some(10));
}

#[test]
fn output_shape_skips_layers_without_the_field() {
    let no_out = LayerInfo { out_features: None, ..dense(4, 4) };
    let layers = vec![dense(3, 6), no_out, info(Some("lif"))];
    let rs = derive_summary(&layers).unwrap();
    assert_eq!(rs.output_shape, Some(6));
    // The LIF layer counts the width in force, a missing field counting zero.
    assert_eq!(rs.lif_neuron_count, 0);
}

#[test]
fn overflowing_totals_are_refused() {
    let huge = dense(usize::MAX, 2);
    assert!(derive_summary(&vec![huge]).is_none());
    let zero_kernel = LayerInfo {
        in_channels: Some(usize::MAX),
        out_channels: Some(usize::MAX),
        kernel_h: Some(0),
        kernel_w: Some(3),
        ..info(Some("conv2d"))
    };
    assert_eq!(derive_summary(&vec![zero_kernel]).unwrap().total_weight_count, 0);
    assert!(derive_summary(&vec![]).is_some());
}

#[test]
fn artifact_error_messages() {
    assert_eq!(ArtifactError::JsonParse { detail: "eof".to_string() }.message(), "JSON parse error: eof");
    assert_eq!(
        ArtifactError::UnsupportedFormatVersion { version: "m9\"x".to_string(), supported: "m2-draft" }.message(),
        "unsupported format version \"m9\\\"x\"; this crate supports: \"m2-draft\""
    );
    assert_eq!(
        ArtifactError::IntegrityCheckFailed { expected: "deadbeef".to_string(), computed: "00c0ffee".to_string() }.message(),
        "CRC32 integrity check failed: artifact claims deadbeef, computed 00c0ffee"
    );
    assert_eq!(
        ArtifactError::InvalidContent { detail: "layer 0: x".to_string() }.message(),
        "invalid artifact content: layer 0: x"
    );
}
