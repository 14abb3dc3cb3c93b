//! Loading decisions for `.thx` artifacts in the simulator.

use vstd::prelude::*;
use crate::artifact::integrity::canonical_crc_hex;
use crate::artifact::layers::{LayerKind, kind_of_name, classify_layer_type};
use crate::codec::{b64_decode, base64_decode_text, crc32_hex};
use crate::sim::error::SimError;
use crate::text::{decimal_digits, eq_ignore_ascii_case, push_decimal, str_eq, str_eq_ignore_ascii_case};

verus! {

/// The format version this simulator reads.
pub const SUPPORTED_FORMAT_VERSION: &'static str = "m2-draft";

/// The minimum thrindex version whose artifacts this format covers.
pub const MIN_THRINDEX_VERSION: &'static str = "0.2.0";

/// Membrane reset mode after a spike.
#[derive(Debug, Clone, Copy, PartialEq, Eq, Structural)]
pub enum ResetMode {
    Subtract,
    Zero,
}

/// Flatten layer: reshape spatial output to a 1-D feature vector (a no-op
/// for a simulator that runs on 1-D feature vectors throughout).
#[derive(Debug, Clone, Copy, PartialEq, Eq, Structural)]
pub struct FlattenLayer {
    pub start_dim: i32,
    pub end_dim: i32,
}

/// E0002: accept only the supported format version.
pub fn check_format_version(version: &str) -> (r: Result<(), SimError>)
    ensures
        r is Ok <==> version@ == SUPPORTED_FORMAT_VERSION@,
        r is Err ==> (r matches Err(SimError::UnsupportedFormatVersion { version: v, supported, min_thrindex })
            && v@ == version@ && supported@ == SUPPORTED_FORMAT_VERSION@ && min_thrindex@
            == MIN_THRINDEX_VERSION@),
{
    if !str_eq(version, SUPPORTED_FORMAT_VERSION) {
        return Err(
            SimError::UnsupportedFormatVersion {
                version: version.to_owned(),
                supported: SUPPORTED_FORMAT_VERSION.to_owned(),
                min_thrindex: MIN_THRINDEX_VERSION.to_owned(),
            },
        );
    }
    Ok(())
}

/// E0009: the stored CRC32 must match that of `model_canonical` (8 lowercase
/// hexadecimal digits, compared up to ASCII case).
pub fn verify_crc32(model_canonical: &str, crc32: &str) -> (r: Result<(), SimError>)
    ensures
        r is Ok <==> eq_ignore_ascii_case(canonical_crc_hex(model_canonical), crc32@),
        r is Err ==> r == Err::<(), SimError>(SimError::IntegrityCheckFailed),
{
    let computed = crc32_hex(model_canonical);
    if !str_eq_ignore_ascii_case(computed.as_str(), crc32) {
        return Err(SimError::IntegrityCheckFailed);
    }
    Ok(())
}

/// The header checks of a freshly parsed artifact, in order: the format
/// version gate (E0002), then the integrity check (E0009).
pub fn check_header(format_version: &str, model_canonical: &str, crc32: &str) -> (r: Result<
    (),
    SimError,
>)
    ensures
        r is Ok <==> format_version@ == SUPPORTED_FORMAT_VERSION@ && eq_ignore_ascii_case(
            canonical_crc_hex(model_canonical),
            crc32@,
        ),
        format_version@ != SUPPORTED_FORMAT_VERSION@ ==> (r matches Err(
            SimError::UnsupportedFormatVersion { version: v, supported, min_thrindex },
        ) && v@ == format_version@ && supported@ == SUPPORTED_FORMAT_VERSION@ && min_thrindex@
            == MIN_THRINDEX_VERSION@),
        format_version@ == SUPPORTED_FORMAT_VERSION@ && !eq_ignore_ascii_case(
            canonical_crc_hex(model_canonical),
            crc32@,
        ) ==> r == Err::<(), SimError>(SimError::IntegrityCheckFailed),
{
    match check_format_version(format_version) {
        Err(e) => Err(e),
        Ok(()) => verify_crc32(model_canonical, crc32),
    }
}

/// The E0008 message for a layer record without a `"type"` string.
pub open spec fn missing_type_message(idx: usize) -> Seq<char> {
    "layer["@ + decimal_digits(idx as nat) + "] missing \"type\" field"@
}

/// Dispatch layer `idx` on its `"type"` string: `dense`, `lif`, `conv2d` or
/// `flatten`; a missing type is an E0008 error, an unknown one E0003 naming
/// the type.
pub fn dispatch_layer_type(idx: usize, layer_type: Option<&str>) -> (r: Result<LayerKind, SimError>)
    ensures
        match layer_type {
            None => r matches Err(SimError::JsonParseError { detail }) && detail@
                == missing_type_message(idx),
            Some(ty) => if kind_of_name(ty@) == LayerKind::Other {
                r matches Err(SimError::UnknownLayerType { layer_type }) && layer_type@ == ty@
            } else {
                r == Ok::<LayerKind, SimError>(kind_of_name(ty@))
            },
        },
{
    match layer_type {
        None => {
            let mut d = "layer[".to_owned();
            push_decimal(&mut d, idx as u64);
            d.append("] missing \"type\" field");
            Err(SimError::JsonParseError { detail: d })
        },
        Some(ty) => {
            let kind = classify_layer_type(ty);
            if kind == LayerKind::Other {
                return Err(SimError::UnknownLayerType { layer_type: ty.to_owned() });
            }
            Ok(kind)
        },
    }
}

/// E0005: a LIF reset mode must be `subtract` or `zero`.
pub fn parse_reset(layer_idx: usize, reset: &str) -> (r: Result<ResetMode, SimError>)
    ensures
        reset@ == "subtract"@ ==> r == Ok::<ResetMode, SimError>(ResetMode::Subtract),
        reset@ == "zero"@ ==> r == Ok::<ResetMode, SimError>(ResetMode::Zero),
        reset@ != "subtract"@ && reset@ != "zero"@ ==> (r matches Err(SimError::InvalidLifParam { layer_idx: i, message, reason, fix })
            && i == layer_idx && message@ == "unknown reset mode \""@ + reset@ + "\""@ && reason@
            == "only \"subtract\" and \"zero\" are supported"@ && fix@
            == "recompile from a model that uses reset=\"subtract\" or reset=\"zero\""@),
{
    proof {
        reveal_strlit("subtract");
        reveal_strlit("zero");
        assert("subtract"@.len() != "zero"@.len());
    }
    if str_eq(reset, "subtract") {
        Ok(ResetMode::Subtract)
    } else if str_eq(reset, "zero") {
        Ok(ResetMode::Zero)
    } else {
        let mut message = "unknown reset mode \"".to_owned();
        message.append(reset);
        message.append("\"");
        Err(
            SimError::InvalidLifParam {
                layer_idx,
                message,
                reason: "only \"subtract\" and \"zero\" are supported".to_owned(),
                fix: "recompile from a model that uses reset=\"subtract\" or reset=\"zero\"".to_owned(),
            },
        )
    }
}

/// Decode a base64 little-endian `f32` weight blob that must hold `expected`
/// values: a blob that does not decode is E0006, one of another length E0007.
/// On success the bytes are exactly `4 × expected` long.
pub fn decode_weight_bytes(b64: &str, expected: usize, layer_idx: usize, field: &str) -> (r: Result<
    Vec<u8>,
    SimError,
>)
    requires
        expected * 4 <= usize::MAX,
    ensures
        match base64_decode_text(b64@) {
            Err(m) => r matches Err(SimError::Base64DecodeError { layer_idx: i, field: f, detail })
                && i == layer_idx && f@ == field@ && detail@ == m,
            Ok(bytes) => if bytes.len() == expected * 4 {
                r matches Ok(v) && v@ == bytes
            } else {
                r == Err::<Vec<u8>, SimError>(
                    SimError::WeightShapeMismatch {
                        layer_idx,
                        declared: expected,
                        decoded: bytes.len() as usize,
                        got_f32: (bytes.len() / 4) as usize,
                    },
                )
            },
        },
{
    let bytes = match b64_decode(b64) {
        Ok(b) => b,
        Err(m) => {
            return Err(
                SimError::Base64DecodeError { layer_idx, field: field.to_owned(), detail: m },
            );
        },
    };
    if bytes.len() != expected * 4 {
        return Err(
            SimError::WeightShapeMismatch {
                layer_idx,
                declared: expected,
                decoded: bytes.len(),
                got_f32: bytes.len() / 4,
            },
        );
    }
    Ok(bytes)
}

/// Output width in force before position `i`: that of the last layer before
/// it that declares one.
pub open spec fn prev_out(dims: Seq<(Option<usize>, Option<usize>)>, i: int) -> Option<usize>
    decreases i,
{
    if i <= 0 {
        None
    } else {
        match dims[i - 1].1 {
            Some(o) => Some(o),
            None => prev_out(dims, i - 1),
        }
    }
}

/// Layer `i` declares an input width that differs from the width in force.
pub open spec fn dims_break(dims: Seq<(Option<usize>, Option<usize>)>, i: int) -> bool {
    match (prev_out(dims, i), dims[i].0) {
        (Some(p), Some(e)) => p != e,
        _ => false,
    }
}

/// E0004: check dimension continuity over the resolved layers, given each
/// layer's `(input width, output width)` (`None` where the layer neither
/// consumes nor sets one, as LIF and Flatten).
pub fn check_dimensions(dims: &Vec<(Option<usize>, Option<usize>)>) -> (r: Result<(), SimError>)
    ensures
        r is Ok <==> forall|i: int| 0 <= i < dims@.len() ==> !#[trigger] dims_break(dims@, i),
        r is Err ==> exists|i: int|
            0 <= i < dims@.len() && #[trigger] dims_break(dims@, i) && (forall|j: int|
                0 <= j < i ==> !#[trigger] dims_break(dims@, j)) && r == Err::<(), SimError>(
                SimError::DimensionMismatch {
                    layer_idx: i as usize,
                    prev_idx: (i - 1) as usize,
                    expected: dims@[i].0->0,
                    got: prev_out(dims@, i)->0,
                },
            ),
{
    let mut prev: Option<usize> = None;
    let mut i: usize = 0;
    while i < dims.len()
        invariant
            i <= dims@.len(),
            prev == prev_out(dims@, i as int),
            forall|j: int| 0 <= j < i ==> !#[trigger] dims_break(dims@, j),
        decreases dims.len() - i,
    {
        let (in_dim, out_dim) = dims[i];
        if let (Some(p), Some(e)) = (prev, in_dim) {
            if p != e {
                proof {
                    assert(dims_break(dims@, i as int));
                    assert(i >= 1) by {
                        if i == 0 {
                            assert(prev_out(dims@, 0) is None);
                        }
                    }
                }
                return Err(
                    SimError::DimensionMismatch { layer_idx: i, prev_idx: i - 1, expected: e, got: p },
                );
            }
        }
        if let Some(o) = out_dim {
            prev = Some(o);
        }
        i = i + 1;
    }
    Ok(())
}

} // verus!
