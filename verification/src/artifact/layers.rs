//! Layer records of a `.thx` artifact that hold no weights.

use vstd::prelude::*;
use crate::text::str_eq;

verus! {

/// The kind of a layer, named by its `"type"` string.
#[derive(Debug, Clone, Copy, PartialEq, Eq, Structural)]
pub enum LayerKind {
    Dense,
    Lif,
    Conv2d,
    Flatten,
    /// Any other `"type"` string.
    Other,
}

/// The kind a `"type"` string names: `dense`, `lif`, `conv2d` or `flatten`,
/// and `Other` for anything else.
pub open spec fn kind_of_name(name: Seq<char>) -> LayerKind {
    if name == "dense"@ {
        LayerKind::Dense
    } else if name == "lif"@ {
        LayerKind::Lif
    } else if name == "conv2d"@ {
        LayerKind::Conv2d
    } else if name == "flatten"@ {
        LayerKind::Flatten
    } else {
        LayerKind::Other
    }
}

/// The kind a layer `"type"` string names.
pub fn classify_layer_type(name: &str) -> (kind: LayerKind)
    ensures
        kind == kind_of_name(name@),
{
    if str_eq(name, "dense") {
        LayerKind::Dense
    } else if str_eq(name, "lif") {
        LayerKind::Lif
    } else if str_eq(name, "conv2d") {
        LayerKind::Conv2d
    } else if str_eq(name, "flatten") {
        LayerKind::Flatten
    } else {
        LayerKind::Other
    }
}

/// Flatten layer: reshape spatial output to a 1-D feature vector.
#[derive(Debug, Clone, Copy, PartialEq, Eq, Structural)]
pub struct FlattenLayer {
    pub start_dim: i32,
    pub end_dim: i32,
}

} // verus!
