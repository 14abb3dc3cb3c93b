use base64::Engine as _;
use thrindex::compiler::delays::{
    DelayPolicy, check_cap, encode_sparse_pairs, encode_u16_le, lower_delays, parse_sparse_pairs,
    parse_u16_le,
};
use thrindex::compiler::error::CompileError;
use thrindex::compiler::lower::{DelayFallback, delay_policy_for};
use thrindex::compiler::timestamp::{days_to_ymd, format_iso8601, is_leap, iso8601_from_clock, now_iso8601};
use thrindex::compiler::validate::{IrLayer, validate};
use thrindex::ir::{Delays, GraphConv2d, GraphDense, ResetMode};

fn dense(i: usize, o: usize, delays: Option<Delays>) -> IrLayer {
    IrLayer::Dense(GraphDense {
        in_features: i,
        out_features: o,
        weights_b64: String::new(),
        bias_b64: None,
        delays,
    })
}

fn lif(reset: &str, ok: bool) -> IrLayer {
    let tau_mem: f64 = if ok { 20.0 } else { 0.5 };
    IrLayer::Lif {
        reset: reset.to_string(),
        tau_mem_exceeds_dt: ok,
        tau_mem_text: format!("{tau_mem:.4}"),
        dt_text: format!("{:.4}", 1.0_f64),
    }
}

#[test]
fn e0105_empty_model() {
    assert_eq!(validate(&vec![]), Err(CompileError::EmptyModel));
}

#[test]
fn e0107_invalid_reset_mode() {
    assert_eq!(
        validate(&vec![dense(4, 4, None), lif("explode", true)]),
        Err(CompileError::InvalidResetMode { layer_idx: 1, mode: "explode".to_string() })
    );
}

#[test]
fn e0101_tau_mem_too_small() {
    assert_eq!(
        validate(&vec![dense(4, 4, None), lif("subtract", false)]),
        Err(CompileError::TauMemTooSmall {
            layer_idx: 1,
            tau_mem: "0.5000".to_string(),
            effective_dt: "1.0000".to_string()
        })
    );
}

#[test]
fn e0106_dimension_mismatch() {
    let layers = vec![dense(4, 8, None), lif("zero", true), dense(6, 2, None)];
    assert_eq!(
        validate(&layers),
        Err(CompileError::DimensionMismatch { layer_idx: 2, prev_idx: 0, expected: 6, got: 8 })
    );
}

#[test]
fn conv_sets_the_width() {
    let conv = IrLayer::Conv2d(GraphConv2d {
        in_channels: 1,
        out_channels: 3,
        kernel_h: 3,
        kernel_w: 3,
        stride: [1, 1],
        padding: [0, 0],
        weights_b64: String::new(),
        bias_b64: None,
    });
    assert_eq!(validate(&vec![conv.clone(), dense(3, 2, None)]), Ok(()));
    assert!(validate(&vec![conv, dense(4, 2, None)]).is_err());
}

#[test]
fn e0109_delay_length_mismatch() {
    // 2 × 2 = 4 connections, but 3 u16 delays (6 bytes).
    let d = Delays::Dense { delays_b64: encode_u16_le(&[1, 2, 3]) };
    assert_eq!(
        validate(&vec![dense(2, 2, Some(d))]),
        Err(CompileError::DelayLengthMismatch { layer_idx: 0, expected: 4, got: 3 })
    );
    let ok = Delays::Dense { delays_b64: encode_u16_le(&[1, 2, 3, 4]) };
    assert_eq!(validate(&vec![dense(2, 2, Some(ok)), lif("subtract", true)]), Ok(()));
}

#[test]
fn e0108_undecodable_delays() {
    let d = Delays::Sparse { delays_b64: "!!".to_string() };
    match validate(&vec![dense(2, 2, Some(d))]) {
        Err(CompileError::IrJsonParseError { detail }) => {
            assert!(detail.starts_with("delay base64 decode failed: "), "{detail}")
        }
        other => panic!("expected E0108, got {other:?}"),
    }
}

#[test]
fn reset_mode_names() {
    assert_eq!(ResetMode::try_from("subtract"), Ok(ResetMode::Subtract));
    assert_eq!(ResetMode::try_from("zero"), Ok(ResetMode::Zero));
    assert_eq!(
        ResetMode::try_from("hold"),
        Err("unknown reset mode \"hold\"; expected \"subtract\" or \"zero\"".to_string())
    );
    assert_eq!(
        ResetMode::try_from("a\"b\n"),
        Err(format!("unknown reset mode {:?}; expected \"subtract\" or \"zero\"", "a\"b\n"))
    );
    // Non-ASCII text is rendered as `{:?}` renders it: printable letters as
    // they are, invisible and combining characters escaped.
    for name in ["\u{e9}\u{200b}x", "a\u{301}", "\u{7f}\u{1b}\0'", "\u{df}\u{feff}"] {
        assert_eq!(
            ResetMode::try_from(name),
            Err(format!("unknown reset mode {:?}; expected \"subtract\" or \"zero\"", name))
        );
    }
    assert_eq!(
        ResetMode::try_from("\u{200b}"),
        Err("unknown reset mode \"\\u{200b}\"; expected \"subtract\" or \"zero\"".to_string())
    );
}

#[test]
fn unknown_target() {
    match delay_policy_for("loihi") {
        Err(CompileError::IrJsonParseError { detail }) => {
            assert_eq!(detail, "unknown target \"loihi\"; supported: \"sim\"")
        }
        other => panic!("expected E0108, got {other:?}"),
    }
    let sim = delay_policy_for("sim").unwrap();
    assert_eq!(sim.native_delay_max_steps, u16::MAX);
    assert_eq!(sim.delay_fallback, DelayFallback::Emulate);
}

#[test]
fn u16_le_round_trip() {
    let steps = [0u16, 1, 255, 256, 65535];
    let b64 = encode_u16_le(&steps);
    let bytes = base64_decode(&b64);
    assert_eq!(bytes, vec![0, 0, 1, 0, 255, 0, 0, 1, 255, 255]);
    assert_eq!(parse_u16_le(&bytes, 0).unwrap(), steps.to_vec());
}

#[test]
fn sparse_pairs_round_trip() {
    let pairs = [(0u32, 7u16), (70_000, 3), (u32::MAX, 65535)];
    let bytes = base64_decode(&encode_sparse_pairs(&pairs));
    assert_eq!(bytes.len(), 18);
    assert_eq!(&bytes[0..6], &[0, 0, 0, 0, 7, 0]);
    assert_eq!(parse_sparse_pairs(&bytes, 0).unwrap(), pairs.to_vec());
}

fn base64_decode(s: &str) -> Vec<u8> {
    base64::engine::general_purpose::STANDARD.decode(s).unwrap()
}

#[test]
fn byte_counts_must_be_whole_records() {
    assert_eq!(
        parse_u16_le(&[1, 2, 3], 4),
        Err(CompileError::IrJsonParseError { detail: "layer 4: delay byte count not divisible by 2".to_string() })
    );
    assert_eq!(
        parse_sparse_pairs(&[0; 7], 12),
        Err(CompileError::IrJsonParseError {
            detail: "layer 12: sparse delay byte count not divisible by 6".to_string()
        })
    );
}

#[test]
fn delay_cap() {
    let reject0 = DelayPolicy { native_delay_max_steps: 0, delay_fallback: DelayFallback::Reject };
    let emulate0 = DelayPolicy { native_delay_max_steps: 0, delay_fallback: DelayFallback::Emulate };
    let reject8 = DelayPolicy { native_delay_max_steps: 8, delay_fallback: DelayFallback::Reject };
    assert_eq!(check_cap(0, 3, 1, &reject0), Err(CompileError::NoNativeDelaySupport { layer_idx: 3 }));
    assert_eq!(check_cap(99, 3, 1, &emulate0), Ok(()));
    assert_eq!(check_cap(8, 3, 1, &reject8), Ok(()));
    assert_eq!(
        check_cap(9, 3, 1, &reject8),
        Err(CompileError::DelayExceedsTargetMax { layer_idx: 3, conn_idx: 1, delay_steps: 9, max_steps: 8 })
    );
}

#[test]
fn lower_delays_passes_through_or_checks() {
    let d = Delays::Dense { delays_b64: encode_u16_le(&[1, 9, 2]) };
    let sim = delay_policy_for("sim").unwrap();
    let (out, enc) = lower_delays(&d, 0, &sim).unwrap();
    assert_eq!(enc, "dense");
    assert_eq!(out, encode_u16_le(&[1, 9, 2]));
    let reject8 = DelayPolicy { native_delay_max_steps: 8, delay_fallback: DelayFallback::Reject };
    assert_eq!(
        lower_delays(&d, 5, &reject8),
        Err(CompileError::DelayExceedsTargetMax { layer_idx: 5, conn_idx: 1, delay_steps: 9, max_steps: 8 })
    );
    let s = Delays::Sparse { delays_b64: encode_sparse_pairs(&[(17, 3)]) };
    let (out, enc) = lower_delays(&s, 0, &reject8).unwrap();
    assert_eq!(enc, "sparse");
    assert_eq!(out, encode_sparse_pairs(&[(17, 3)]));
}

#[test]
fn leap_years() {
    assert!(is_leap(2000));
    assert!(!is_leap(1900));
    assert!(is_leap(2024));
    assert!(!is_leap(2023));
}

#[test]
fn calendar_dates() {
    assert_eq!(days_to_ymd(0), (1970, 1, 1));
    assert_eq!(days_to_ymd(31), (1970, 2, 1));
    assert_eq!(days_to_ymd(59), (1970, 3, 1));
    assert_eq!(days_to_ymd(365), (1971, 1, 1));
    assert_eq!(days_to_ymd(789), (1972, 2, 29));
    assert_eq!(days_to_ymd(10957), (2000, 1, 1));
    assert_eq!(days_to_ymd(19782), (2024, 2, 29));
}

#[test]
fn iso8601_rendering() {
    assert_eq!(format_iso8601(0), "1970-01-01T00:00:00Z");
    assert_eq!(format_iso8601(951_782_400 + 3_723), "2000-02-29T01:02:03Z");
    assert_eq!(format_iso8601(1_700_000_000), "2023-11-14T22:13:20Z");
    let now = now_iso8601();
    assert_eq!(now.len(), 20);
    assert!(now.ends_with('Z'));
}

#[test]
fn calendar_round_trip_over_years() {
    // Counting days from 1970-01-01 month by month must land on each month's first day.
    let mut days: u64 = 0;
    for year in 1970u64..2101 {
        for month in 1u64..=12 {
            assert_eq!(days_to_ymd(days), (year, month, 1));
            let len = match month {
                2 => if is_leap(year) { 29 } else { 28 },
                4 | 6 | 9 | 11 => 30,
                _ => 31,
            };
            assert_eq!(days_to_ymd(days + len - 1), (year, month, len));
            days += len;
        }
    }
}

#[test]
fn compile_error_messages() {
    let e = CompileError::TauMemTooSmall { layer_idx: 1, tau_mem: "0.5000".to_string(), effective_dt: "1.0000".to_string() };
    assert_eq!(
        e.message(),
        "E0101: LIF tau_mem too small for effective dt in layer 1\nWhy: tau_mem=0.5000 ms is ≤ dt=1.0000 ms; the membrane would lose all history within one step (ADR-0005 guard, ADR-0008).\nFix: set tau_mem > 1.0000 ms when constructing the LIF layer.\nDocs: https://docs.thrindex.com/errors/E0101"
    );
    let e = CompileError::RetimingDelayNotInteger {
        layer_idx: 0,
        conn_idx: 3,
        delay_steps: 3,
        authored_dt: "0.5000".to_string(),
        target_dt: "1.0000".to_string(),
        ratio: "1.500000".to_string(),
    };
    assert_eq!(
        e.message(),
        "E0102: synaptic delay cannot be retimed in layer 0 connection 3\nWhy: delay_steps=3 × (authored_dt=0.5000 ms / target_dt=1.0000 ms) = 1.500000 is not an integer; sub-step delay precision is not available.\nFix: use a delay that is an integer multiple of target_dt / authored_dt, or author the model at target_dt directly.\nDocs: https://docs.thrindex.com/errors/E0102"
    );
    let e = CompileError::DelayExceedsTargetMax { layer_idx: 2, conn_idx: 7, delay_steps: 300, max_steps: 255 };
    assert_eq!(
        e.message(),
        "E0103: synaptic delay exceeds target maximum in layer 2 connection 7\nWhy: delay_steps=300 > native_delay_max_steps=255 for this target, and delay_fallback is \"reject\".\nFix: reduce the delay to ≤ 255 steps, or use a target that supports longer delays or emulation.\nDocs: https://docs.thrindex.com/errors/E0103"
    );
    assert!(CompileError::NoNativeDelaySupport { layer_idx: 4 }
        .message()
        .starts_with("E0104: target has no native delay support and emulation is disabled in layer 4\nWhy: "));
    assert!(CompileError::EmptyModel.message().starts_with("E0105: model has no layers\n"));
    assert_eq!(
        CompileError::DimensionMismatch { layer_idx: 2, prev_idx: 0, expected: 6, got: 8 }.message(),
        "E0106: layer dimension mismatch at layer 2\nWhy: layer 2 declares 6 input features but layer 0 produces 8 output features.\nFix: recheck the architecture — input/output sizes must chain correctly.\nDocs: https://docs.thrindex.com/errors/E0106"
    );
    assert!(CompileError::InvalidResetMode { layer_idx: 1, mode: "explode".to_string() }
        .message()
        .starts_with("E0107: invalid LIF reset mode \"explode\" in layer 1\nWhy: "));
    assert!(CompileError::IrJsonParseError { detail: "eof".to_string() }
        .message()
        .starts_with("E0108: Graph IR JSON parse error: eof\nWhy: "));
    assert_eq!(
        CompileError::DelayLengthMismatch { layer_idx: 0, expected: 4, got: 3 }.message(),
        "E0109: delay array length mismatch in layer 0\nWhy: a dense delay array must have exactly in_features × out_features = 4 entries, but it has 3 entries.\nFix: recompile the model — the Graph IR delay data may be corrupt.\nDocs: https://docs.thrindex.com/errors/E0109"
    );
}

#[test]
fn clock_reading_before_the_epoch_stamps_the_epoch() {
    assert_eq!(iso8601_from_clock(None), "1970-01-01T00:00:00Z");
    assert_eq!(iso8601_from_clock(Some(0)), "1970-01-01T00:00:00Z");
    assert_eq!(iso8601_from_clock(Some(86_400 + 3_661)), "1970-01-02T01:01:01Z");
}
