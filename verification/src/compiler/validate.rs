//! Semantic validation of a Graph IR model before lowering.

use vstd::prelude::*;
use crate::codec::{b64_decode, base64_decode_text};
use crate::compiler::error::CompileError;
use crate::ir::{Delays, GraphConv2d, GraphDense, ResetMode, reset_mode_of};

verus! {

/// What validation reads of one Graph IR layer. For a LIF layer it reads the
/// reset mode string, whether its membrane time constant exceeds the
/// authored timestep (a comparison of the two continuous values), and both
/// values as the E0101 message displays them.
#[derive(Debug, Clone, PartialEq, Eq)]
pub enum IrLayer {
    Dense(GraphDense),
    Lif { reset: String, tau_mem_exceeds_dt: bool, tau_mem_text: String, dt_text: String },
    Conv2d(GraphConv2d),
}

/// The width-bearing layer before position `i`: its index and output width.
pub open spec fn prev_width(layers: Seq<IrLayer>, i: int) -> Option<(usize, usize)>
    decreases i,
{
    if i <= 0 {
        None
    } else {
        match layers[i - 1] {
            IrLayer::Dense(d) => Some(((i - 1) as usize, d.out_features)),
            IrLayer::Conv2d(c) => Some(((i - 1) as usize, c.out_channels)),
            IrLayer::Lif { .. } => prev_width(layers, i - 1),
        }
    }
}

/// The base64 payload of a delay array.
pub open spec fn delay_payload(d: Delays) -> Seq<char> {
    match d {
        Delays::Dense { delays_b64 } => delays_b64@,
        Delays::Sparse { delays_b64 } => delays_b64@,
    }
}

/// Entries of a dense delay array: its decoded byte count over 2.
pub open spec fn dense_delay_entries(d: GraphDense) -> int {
    match d.delays {
        Some(del) => match base64_decode_text(delay_payload(del)) {
            Ok(bytes) => (bytes.len() / 2) as int,
            Err(_) => 0,
        },
        None => 0,
    }
}

/// The Dense layer's width does not continue the previous layer's.
pub open spec fn dense_dim_fault(d: GraphDense, prev: Option<(usize, usize)>) -> bool {
    match prev {
        Some((_, w)) => d.in_features != w,
        None => false,
    }
}

/// The Dense layer's delay payload does not decode.
pub open spec fn delay_decode_fault(d: GraphDense) -> bool {
    match d.delays {
        Some(del) => base64_decode_text(delay_payload(del)) is Err,
        None => false,
    }
}

/// The Dense layer's dense delay array has not `in × out` entries.
pub open spec fn delay_length_fault(d: GraphDense) -> bool {
    match d.delays {
        Some(Delays::Dense { .. }) => dense_delay_entries(d) != d.in_features * d.out_features,
        _ => false,
    }
}

/// Layer `l`, with `prev` the width-bearing layer before it, is invalid.
pub open spec fn layer_fault(l: IrLayer, prev: Option<(usize, usize)>) -> bool {
    match l {
        IrLayer::Lif { reset, tau_mem_exceeds_dt, .. } => reset_mode_of(reset@) is None
            || !tau_mem_exceeds_dt,
        IrLayer::Dense(d) => dense_dim_fault(d, prev) || delay_decode_fault(d) || delay_length_fault(d),
        IrLayer::Conv2d(_) => false,
    }
}

/// `e` is the error reported for the invalid layer `l` at position `i`.
pub open spec fn reports_fault(e: CompileError, l: IrLayer, i: int, prev: Option<(usize, usize)>) -> bool {
    match l {
        IrLayer::Lif { reset, tau_mem_text, dt_text, .. } => if reset_mode_of(reset@) is None {
            e == CompileError::InvalidResetMode { layer_idx: i as usize, mode: reset }
        } else {
            e == CompileError::TauMemTooSmall {
                layer_idx: i as usize,
                tau_mem: tau_mem_text,
                effective_dt: dt_text,
            }
        },
        IrLayer::Dense(d) => if dense_dim_fault(d, prev) {
            match prev {
                Some((prev_idx, got)) => e == CompileError::DimensionMismatch {
                    layer_idx: i as usize,
                    prev_idx,
                    expected: d.in_features,
                    got,
                },
                None => false,
            }
        } else if delay_decode_fault(d) {
            e matches CompileError::IrJsonParseError { detail } && detail@ == "delay base64 decode failed: "@
                + base64_decode_text(delay_payload(d.delays->0))->Err_0
        } else {
            e == CompileError::DelayLengthMismatch {
                layer_idx: i as usize,
                expected: (d.in_features * d.out_features) as usize,
                got: dense_delay_entries(d) as usize,
            }
        },
        IrLayer::Conv2d(_) => false,
    }
}

/// Every Dense layer with delays has an `in × out` that fits in a `usize`.
pub open spec fn delay_products_fit(layers: Seq<IrLayer>) -> bool {
    forall|i: int|
        0 <= i < layers.len() ==> match #[trigger] layers[i] {
            IrLayer::Dense(d) => d.delays is Some ==> d.in_features * d.out_features <= usize::MAX,
            _ => true,
        }
}

/// Validate one layer given the width-bearing layer before it.
fn validate_layer(l: &IrLayer, idx: usize, prev: Option<(usize, usize)>) -> (r: Result<(), CompileError>)
    requires
        match *l {
            IrLayer::Dense(d) => d.delays is Some ==> d.in_features * d.out_features <= usize::MAX,
            _ => true,
        },
    ensures
        r is Ok <==> !layer_fault(*l, prev),
        r matches Err(e) ==> reports_fault(e, *l, idx as int, prev),
{
    match l {
        IrLayer::Lif { reset, tau_mem_exceeds_dt, tau_mem_text, dt_text } => {
            match ResetMode::try_from(reset.as_str()) {
                Err(_) => {
                    return Err(
                        CompileError::InvalidResetMode { layer_idx: idx, mode: reset.clone() },
                    );
                },
                Ok(_) => {},
            }
            if !*tau_mem_exceeds_dt {
                return Err(
                    CompileError::TauMemTooSmall {
                        layer_idx: idx,
                        tau_mem: tau_mem_text.clone(),
                        effective_dt: dt_text.clone(),
                    },
                );
            }
            Ok(())
        },
        IrLayer::Dense(dense) => {
            if let Some((prev_idx, prev_width)) = prev {
                if dense.in_features != prev_width {
                    return Err(
                        CompileError::DimensionMismatch {
                            layer_idx: idx,
                            prev_idx,
                            expected: dense.in_features,
                            got: prev_width,
                        },
                    );
                }
            }
            if let Some(delays) = &dense.delays {
                let expected = dense.in_features * dense.out_features;
                let bytes = match b64_decode(delays.payload()) {
                    Ok(b) => b,
                    Err(m) => {
                        let mut d = "delay base64 decode failed: ".to_owned();
                        d.append(m.as_str());
                        return Err(CompileError::IrJsonParseError { detail: d });
                    },
                };
                let is_dense = match delays {
                    Delays::Dense { .. } => true,
                    Delays::Sparse { .. } => false,
                };
                let entry_count = if is_dense {
                    bytes.len() / 2
                } else {
                    bytes.len() / 6
                };
                if is_dense && entry_count != expected {
                    return Err(
                        CompileError::DelayLengthMismatch {
                            layer_idx: idx,
                            expected,
                            got: entry_count,
                        },
                    );
                }
            }
            Ok(())
        },
        IrLayer::Conv2d(_) => Ok(()),
    }
}

/// Validate a Graph IR model, returning the first semantic error: no layers
/// (E0105); then, layer by layer, an unknown LIF reset mode (E0107), a LIF
/// time constant not above the timestep (E0101), a Dense input width that
/// does not continue the previous Dense or Conv2d output width (E0106), a
/// delay payload that does not decode (E0108), or a dense delay array without
/// `in × out` entries (E0109).
pub fn validate(layers: &Vec<IrLayer>) -> (r: Result<(), CompileError>)
    requires
        delay_products_fit(layers@),
    ensures
        r is Ok <==> layers@.len() > 0 && forall|i: int|
            0 <= i < layers@.len() ==> !layer_fault(#[trigger] layers@[i], prev_width(layers@, i)),
        layers@.len() == 0 ==> r == Err::<(), CompileError>(CompileError::EmptyModel),
        layers@.len() > 0 && r is Err ==> exists|i: int|
            0 <= i < layers@.len() && layer_fault(#[trigger] layers@[i], prev_width(layers@, i))
                && (forall|j: int|
                0 <= j < i ==> !layer_fault(#[trigger] layers@[j], prev_width(layers@, j))) && (r matches Err(
                e,
            ) && reports_fault(e, layers@[i], i, prev_width(layers@, i))),
{
    if layers.len() == 0 {
        return Err(CompileError::EmptyModel);
    }
    let mut prev: Option<(usize, usize)> = None;
    let mut i: usize = 0;
    while i < layers.len()
        invariant
            layers@.len() > 0,
            i <= layers@.len(),
            delay_products_fit(layers@),
            prev == prev_width(layers@, i as int),
            forall|j: int| 0 <= j < i ==> !layer_fault(#[trigger] layers@[j], prev_width(layers@, j)),
        decreases layers.len() - i,
    {
        let l = &layers[i];
        proof {
            assert(match layers@[i as int] {
                IrLayer::Dense(d) => d.delays is Some ==> d.in_features * d.out_features
                    <= usize::MAX,
                _ => true,
            });
        }
        let r = validate_layer(l, i, prev);
        if r.is_err() {
            return r;
        }
        match l {
            IrLayer::Dense(d) => {
                prev = Some((i, d.out_features));
            },
            IrLayer::Conv2d(c) => {
                prev = Some((i, c.out_channels));
            },
            IrLayer::Lif { .. } => {},
        }
        i = i + 1;
    }
    Ok(())
}

} // verus!
