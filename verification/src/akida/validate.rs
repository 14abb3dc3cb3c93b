//! Pre-flight validation of a `.thx` artifact for the AKD1500: the target must
//! be `akida-akd1500`, and no layer may be LIF, carry delays, or hold
//! non-finite weights.

use vstd::prelude::*;
use crate::akida::capability::AKD1500_TARGET_NAME;
use crate::akida::error::AkidaError;
use crate::codec::{b64_decode, base64_decode_text};
use crate::text::str_eq;

verus! {

/// What the validation reads of one raw layer record.
#[derive(Debug, Clone, PartialEq, Eq)]
pub struct AkidaLayerView {
    /// The record's `"type"` string, if it has one.
    pub layer_type: Option<String>,
    /// The record's `threshold` as rendered text (`0` when absent).
    pub threshold_text: String,
    /// The record's `alpha` as rendered text (`0` when absent).
    pub alpha_text: String,
    /// The record's `reset` string, if it has one.
    pub reset: Option<String>,
    /// Whether the record has a `delays_b64` field.
    pub has_delays_b64: bool,
    /// Whether the record has a `delays_sparse` field.
    pub has_delays_sparse: bool,
    /// The record's `delays_encoding` string, if it has one.
    pub delays_encoding: Option<String>,
    /// The record's `weights_b64` string, if it has one.
    pub weights_b64: Option<String>,
}

/// What the validation reads of a raw artifact.
#[derive(Debug, Clone, PartialEq, Eq)]
pub struct AkidaArtifactView {
    /// The artifact's `target` string, if it has one.
    pub target: Option<String>,
    /// The records of `model.layers` (none when the list is absent).
    pub layers: Vec<AkidaLayerView>,
}

/// An IEEE-754 binary32 value is NaN or infinite exactly when its 8 exponent
/// bits are all ones; in little-endian order they are the top bit of byte 2
/// and the low 7 bits of byte 3.
pub open spec fn nonfinite_le(b2: u8, b3: u8) -> bool {
    (b3 & 0x7f) == 0x7f && (b2 & 0x80) == 0x80
}

/// Number of non-finite values among the first `k` little-endian `f32`s of
/// `bytes`.
pub open spec fn nonfinite_count(bytes: Seq<u8>, k: int) -> nat
    decreases k,
{
    if k <= 0 {
        0
    } else {
        nonfinite_count(bytes, k - 1) + if nonfinite_le(bytes[4 * k - 2], bytes[4 * k - 1]) {
            1nat
        } else {
            0nat
        }
    }
}

/// Non-finite `f32` values in a base64 weight blob; a blob that does not
/// decode counts none.
pub open spec fn blob_nonfinite(b64: Seq<char>) -> nat {
    match base64_decode_text(b64) {
        Ok(bytes) => nonfinite_count(bytes, (bytes.len() / 4) as int),
        Err(_) => 0,
    }
}

/// The layer's `"type"` string, empty when it has none.
pub open spec fn layer_type_text(l: AkidaLayerView) -> Seq<char> {
    match l.layer_type {
        Some(t) => t@,
        None => ""@,
    }
}

/// A layer whose weights the AKD1500 must inspect: Dense or Conv2d.
pub open spec fn is_weighted(l: AkidaLayerView) -> bool {
    layer_type_text(l) == "dense"@ || layer_type_text(l) == "conv2d"@
}

/// The layer carries delays in either encoding.
pub open spec fn has_delays(l: AkidaLayerView) -> bool {
    l.has_delays_b64 || l.has_delays_sparse
}

/// Non-finite weight values of a layer (none without a weight blob).
pub open spec fn layer_nonfinite(l: AkidaLayerView) -> nat {
    match l.weights_b64 {
        Some(w) => blob_nonfinite(w@),
        None => 0,
    }
}

/// The layer cannot run on the AKD1500.
pub open spec fn violates(l: AkidaLayerView) -> bool {
    ||| layer_type_text(l) == "lif"@
    ||| is_weighted(l) && has_delays(l)
    ||| is_weighted(l) && layer_nonfinite(l) > 0
}

/// `e` is the error reported for layer `l` at position `index`.
pub open spec fn reports(e: AkidaError, l: AkidaLayerView, index: int) -> bool {
    if layer_type_text(l) == "lif"@ {
        e matches AkidaError::LifNotSupported { index: i, threshold, alpha, reset } && i == index
            && threshold@ == l.threshold_text@ && alpha@ == l.alpha_text@ && reset@ == (match l.reset {
            Some(r) => r@,
            None => "unknown"@,
        })
    } else if has_delays(l) {
        e matches AkidaError::DelaysNotSupported { index: i, encoding } && i == index && encoding@
            == (match l.delays_encoding {
            Some(enc) => enc@,
            None => "present"@,
        })
    } else {
        e matches AkidaError::NonFiniteWeights { index: i, count } && i == index && count
            == layer_nonfinite(l)
    }
}

/// The artifact's target string, empty when it has none.
pub open spec fn target_text(v: AkidaArtifactView) -> Seq<char> {
    match v.target {
        Some(t) => t@,
        None => ""@,
    }
}

/// Number of non-finite `f32` values in a base64 little-endian `f32` blob;
/// `0` when the blob is not valid base64.
pub fn count_nonfinite_f32(b64: &str) -> (count: usize)
    ensures
        count == blob_nonfinite(b64@),
{
    let bytes = match b64_decode(b64) {
        Ok(bytes) => bytes,
        Err(_) => {
            return 0;
        },
    };
    let len = bytes.len();
    let n = len / 4;
    let mut count: usize = 0;
    let mut k: usize = 0;
    while k < n
        invariant
            base64_decode_text(b64@) == Ok::<Seq<u8>, Seq<char>>(bytes@),
            len == bytes@.len(),
            n == len / 4,
            k <= n,
            count == nonfinite_count(bytes@, k as int),
            count <= k,
        decreases n - k,
    {
        assert(4 * k + 3 < bytes@.len()) by (nonlinear_arith)
            requires
                k < n,
                n == len / 4,
                len == bytes@.len(),
        ;
        let b2 = bytes[4 * k + 2];
        let b3 = bytes[4 * k + 3];
        if (b3 & 0x7f) == 0x7f && (b2 & 0x80) == 0x80 {
            count = count + 1;
        }
        k = k + 1;
    }
    count
}

/// The error a single layer raises, if any.
fn check_layer(l: &AkidaLayerView, index: usize) -> (r: Result<(), AkidaError>)
    ensures
        r is Ok <==> !violates(*l),
        r matches Err(e) ==> reports(e, *l, index as int),
{
    let ty: &str = match &l.layer_type {
        Some(t) => t.as_str(),
        None => "",
    };
    proof {
        assert(ty@ == layer_type_text(*l));
    }
    if str_eq(ty, "lif") {
        let reset = match &l.reset {
            Some(r) => r.clone(),
            None => "unknown".to_owned(),
        };
        return Err(
            AkidaError::LifNotSupported {
                index,
                threshold: l.threshold_text.clone(),
                alpha: l.alpha_text.clone(),
                reset,
            },
        );
    }
    if str_eq(ty, "dense") || str_eq(ty, "conv2d") {
        if l.has_delays_b64 || l.has_delays_sparse {
            let encoding = match &l.delays_encoding {
                Some(e) => e.clone(),
                None => "present".to_owned(),
            };
            return Err(AkidaError::DelaysNotSupported { index, encoding });
        }
        if let Some(w) = &l.weights_b64 {
            let count = count_nonfinite_f32(w.as_str());
            if count > 0 {
                return Err(AkidaError::NonFiniteWeights { index, count });
            }
        }
    }
    Ok(())
}

/// Validate an artifact for AKD1500 compatibility, failing on the first
/// violation: a target other than `akida-akd1500` (E0404), then, layer by
/// layer, a LIF layer (E0401), delays on a Dense or Conv2d layer (E0402), or
/// non-finite weights in one (E0403).
pub fn validate_artifact(view: &AkidaArtifactView) -> (r: Result<(), AkidaError>)
    ensures
        r is Ok <==> target_text(*view) == AKD1500_TARGET_NAME@ && forall|i: int|
            0 <= i < view.layers@.len() ==> !violates(#[trigger] view.layers@[i]),
        target_text(*view) != AKD1500_TARGET_NAME@ ==> (r matches Err(
            AkidaError::WrongTarget { actual_target },
        ) && actual_target@ == target_text(*view)),
        target_text(*view) == AKD1500_TARGET_NAME@ && r is Err ==> exists|i: int|
            0 <= i < view.layers@.len() && violates(#[trigger] view.layers@[i]) && (forall|j: int|
                0 <= j < i ==> !violates(#[trigger] view.layers@[j])) && (r matches Err(e)
                && reports(e, view.layers@[i], i)),
{
    let target: &str = match &view.target {
        Some(t) => t.as_str(),
        None => "",
    };
    proof {
        assert(target@ == target_text(*view));
    }
    if !str_eq(target, AKD1500_TARGET_NAME) {
        return Err(AkidaError::WrongTarget { actual_target: target.to_owned() });
    }
    let mut i: usize = 0;
    while i < view.layers.len()
        invariant
            i <= view.layers@.len(),
            target_text(*view) == AKD1500_TARGET_NAME@,
            forall|j: int| 0 <= j < i ==> !violates(#[trigger] view.layers@[j]),
        decreases view.layers.len() - i,
    {
        let r = check_layer(&view.layers[i], i);
        if r.is_err() {
            proof {
                assert(violates(view.layers@[i as int]));
            }
            return r;
        }
        i = i + 1;
    }
    Ok(())
}

} // verus!
