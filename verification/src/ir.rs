//! Graph IR: the pre-lowering description of an SNN model's layers.
//!
//! Weight tensors are base64 little-endian `f32`; delays are integer
//! multiples of the authored timestep.

use vstd::prelude::*;
use crate::text::{debug_quoted, push_debug_quoted, str_eq};

verus! {

/// Dense (fully-connected) layer, optionally with per-connection delays.
#[derive(Debug, Clone, PartialEq, Eq)]
pub struct GraphDense {
    /// Number of input features.
    pub in_features: usize,
    /// Number of output features.
    pub out_features: usize,
    /// Weights as base64 little-endian `f32` (row-major `out × in`).
    pub weights_b64: String,
    /// Optional bias as base64 little-endian `f32` (length `out_features`).
    pub bias_b64: Option<String>,
    /// Per-connection delays; `None` means no delays on this layer.
    pub delays: Option<Delays>,
}

/// 2-D convolutional layer (no delays).
#[derive(Debug, Clone, PartialEq, Eq)]
pub struct GraphConv2d {
    /// Input channels.
    pub in_channels: usize,
    /// Output channels.
    pub out_channels: usize,
    /// Kernel height.
    pub kernel_h: usize,
    /// Kernel width.
    pub kernel_w: usize,
    /// Stride `[height, width]`.
    pub stride: [usize; 2],
    /// Padding `[height, width]`.
    pub padding: [usize; 2],
    /// Weights as base64 little-endian `f32`, `[out, in, kH, kW]`.
    pub weights_b64: String,
    /// Optional bias as base64 little-endian `f32` (length `out_channels`).
    pub bias_b64: Option<String>,
}

/// Per-connection delay encoding of a Dense layer.
#[derive(Debug, Clone, PartialEq, Eq)]
pub enum Delays {
    /// One `u16` per connection, base64 little-endian.
    Dense {
        /// Base64 little-endian `u16` array of `in_features × out_features`
        /// entries.
        delays_b64: String,
    },
    /// Sorted `(u32 connection_index, u16 delay_steps)` pairs, base64
    /// little-endian.
    Sparse {
        /// Base64 little-endian `(u32, u16)` pairs.
        delays_b64: String,
    },
}

/// Membrane reset mode after a spike.
#[derive(Debug, Clone, Copy, PartialEq, Eq, Structural)]
pub enum ResetMode {
    /// Membrane potential decremented by the threshold.
    Subtract,
    /// Membrane potential set to zero.
    Zero,
}

/// The reset mode a string names: `subtract` or `zero`.
pub open spec fn reset_mode_of(name: Seq<char>) -> Option<ResetMode> {
    if name == "subtract"@ {
        Some(ResetMode::Subtract)
    } else if name == "zero"@ {
        Some(ResetMode::Zero)
    } else {
        None
    }
}

/// The message for an unknown reset mode string.
pub open spec fn unknown_reset_message(name: Seq<char>) -> Seq<char> {
    "unknown reset mode "@ + debug_quoted(name) + "; expected \"subtract\" or \"zero\""@
}

impl Delays {
    /// The base64 payload of either encoding.
    pub fn payload(&self) -> (b64: &str)
        ensures
            b64@ == (match *self {
                Delays::Dense { delays_b64 } => delays_b64@,
                Delays::Sparse { delays_b64 } => delays_b64@,
            }),
    {
        match self {
            Delays::Dense { delays_b64 } => delays_b64.as_str(),
            Delays::Sparse { delays_b64 } => delays_b64.as_str(),
        }
    }
}

impl ResetMode {
    /// Parse a reset mode string: `"subtract"` or `"zero"`.
    pub fn try_from(name: &str) -> (r: Result<ResetMode, String>)
        ensures
            match (r, reset_mode_of(name@)) {
                (Ok(m), Some(sm)) => m == sm,
                (Err(msg), None) => msg@ == unknown_reset_message(name@),
                _ => false,
            },
    {
        if str_eq(name, "subtract") {
            Ok(ResetMode::Subtract)
        } else if str_eq(name, "zero") {
            Ok(ResetMode::Zero)
        } else {
            let mut msg = "unknown reset mode ".to_owned();
            push_debug_quoted(&mut msg, name);
            msg.append("; expected \"subtract\" or \"zero\"");
            Err(msg)
        }
    }
}

} // verus!
