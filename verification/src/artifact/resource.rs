//! Resource summary derived from the layer geometry of an artifact.
//!
//! The `m2-draft` format stores no resource declaration, so the figures are
//! derived from the layer shapes.

use vstd::prelude::*;
use crate::artifact::layers::{LayerKind, classify_layer_type, kind_of_name};

verus! {

/// What the resource summary reads of one raw layer record: its `"type"`
/// string and its integer shape fields, each `None` where the record lacks it
/// or it is not an unsigned integer.
#[derive(Debug, Clone, PartialEq, Eq)]
pub struct LayerInfo {
    pub layer_type: Option<String>,
    pub in_features: Option<usize>,
    pub out_features: Option<usize>,
    pub in_channels: Option<usize>,
    pub out_channels: Option<usize>,
    pub kernel_h: Option<usize>,
    pub kernel_w: Option<usize>,
    /// Whether the record has a string `delays_b64` field.
    pub has_delays_b64: bool,
}

/// Derived resource figures.
#[derive(Debug, Clone, PartialEq, Eq)]
pub struct ResourceSummary {
    /// Total number of layers.
    pub layer_count: usize,
    /// Sum of LIF neuron counts, each taken from the output width of the
    /// nearest preceding Dense or Conv2d layer.
    pub lif_neuron_count: usize,
    /// Total number of weights of the Dense and Conv2d weight tensors, biases
    /// excluded.
    pub total_weight_count: usize,
    /// Whether any Dense layer carries axonal delays.
    pub has_delays: bool,
    /// Ordered layer type strings (`"unknown"` where a record has none).
    pub layer_types: Vec<String>,
    /// Input width of the first layer, if it is a Dense or Conv2d layer.
    pub input_shape: Option<usize>,
    /// Output width of the last Dense or Conv2d layer that declares it.
    pub output_shape: Option<usize>,
}

/// The kind of a layer record; a record without a `"type"` string is `Other`.
pub open spec fn info_kind(l: LayerInfo) -> LayerKind {
    match l.layer_type {
        Some(name) => kind_of_name(name@),
        None => LayerKind::Other,
    }
}

/// A missing integer field counts as zero.
pub open spec fn or_zero(o: Option<usize>) -> nat {
    match o {
        Some(v) => v as nat,
        None => 0,
    }
}

/// Weights of one layer: `in × out` for Dense, `in × out × kh × kw` for
/// Conv2d, none for any other layer.
pub open spec fn weight_count(l: LayerInfo) -> nat {
    match info_kind(l) {
        LayerKind::Dense => or_zero(l.in_features) * or_zero(l.out_features),
        LayerKind::Conv2d => or_zero(l.in_channels) * or_zero(l.out_channels) * or_zero(l.kernel_h)
            * or_zero(l.kernel_w),
        _ => 0,
    }
}

/// Total weights of a layer sequence.
pub open spec fn total_weights(s: Seq<LayerInfo>) -> nat
    decreases s.len(),
{
    if s.len() == 0 {
        0
    } else {
        total_weights(s.drop_last()) + weight_count(s.last())
    }
}

/// Output width a layer sets for the layers after it: Dense and Conv2d set
/// it (a missing field as zero), other layers leave it.
pub open spec fn layer_output(l: LayerInfo) -> Option<nat> {
    match info_kind(l) {
        LayerKind::Dense => Some(or_zero(l.out_features)),
        LayerKind::Conv2d => Some(or_zero(l.out_channels)),
        _ => None,
    }
}

/// Output width in force after a layer sequence (zero before any Dense or
/// Conv2d layer).
pub open spec fn last_output(s: Seq<LayerInfo>) -> nat
    decreases s.len(),
{
    if s.len() == 0 {
        0
    } else {
        match layer_output(s.last()) {
            Some(o) => o,
            None => last_output(s.drop_last()),
        }
    }
}

/// LIF neurons of a layer sequence: each LIF layer counts the output width in
/// force before it.
pub open spec fn lif_neurons(s: Seq<LayerInfo>) -> nat
    decreases s.len(),
{
    if s.len() == 0 {
        0
    } else {
        lif_neurons(s.drop_last()) + if info_kind(s.last()) == LayerKind::Lif {
            last_output(s.drop_last())
        } else {
            0
        }
    }
}

/// Whether some Dense layer carries a delay array.
pub open spec fn has_delays_spec(s: Seq<LayerInfo>) -> bool {
    exists|i: int|
        0 <= i < s.len() && info_kind(#[trigger] s[i]) == LayerKind::Dense && s[i].has_delays_b64
}

/// The type string a layer reports, `"unknown"` when it has none.
pub open spec fn reported_type(l: LayerInfo) -> Seq<char> {
    match l.layer_type {
        Some(name) => name@,
        None => "unknown"@,
    }
}

/// Input width: that of the first layer, when it is Dense or Conv2d and
/// declares it.
pub open spec fn input_shape_spec(s: Seq<LayerInfo>) -> Option<usize> {
    if s.len() == 0 {
        None
    } else {
        match info_kind(s[0]) {
            LayerKind::Dense => s[0].in_features,
            LayerKind::Conv2d => s[0].in_channels,
            _ => None,
        }
    }
}

/// The output width a layer declares, if it is Dense or Conv2d.
pub open spec fn declared_output(l: LayerInfo) -> Option<usize> {
    match info_kind(l) {
        LayerKind::Dense => l.out_features,
        LayerKind::Conv2d => l.out_channels,
        _ => None,
    }
}

/// Output width: that declared by the last layer that declares one.
pub open spec fn output_shape_spec(s: Seq<LayerInfo>) -> Option<usize>
    decreases s.len(),
{
    if s.len() == 0 {
        None
    } else {
        match declared_output(s.last()) {
            Some(o) => Some(o),
            None => output_shape_spec(s.drop_last()),
        }
    }
}

/// The weight and neuron totals of the sequence fit in a `usize`.
pub open spec fn totals_fit(s: Seq<LayerInfo>) -> bool {
    total_weights(s) <= usize::MAX && lif_neurons(s) <= usize::MAX
}

/// `r` is the resource summary of the layer sequence `s`.
pub open spec fn summarizes(r: ResourceSummary, s: Seq<LayerInfo>) -> bool {
    &&& r.layer_count == s.len()
    &&& r.lif_neuron_count == lif_neurons(s)
    &&& r.total_weight_count == total_weights(s)
    &&& r.has_delays == has_delays_spec(s)
    &&& r.layer_types@.len() == s.len()
    &&& forall|i: int| 0 <= i < s.len() ==> (#[trigger] r.layer_types@[i])@ == reported_type(s[i])
    &&& r.input_shape == input_shape_spec(s)
    &&& r.output_shape == output_shape_spec(s)
}

proof fn lemma_totals_monotone(s: Seq<LayerInfo>, i: int, j: int)
    requires
        0 <= i <= j <= s.len(),
    ensures
        total_weights(s.subrange(0, i)) <= total_weights(s.subrange(0, j)),
        lif_neurons(s.subrange(0, i)) <= lif_neurons(s.subrange(0, j)),
    decreases j - i,
{
    if i < j {
        lemma_totals_monotone(s, i, j - 1);
        assert(s.subrange(0, j).drop_last() =~= s.subrange(0, j - 1));
    }
}

proof fn lemma_product_exceeds(x: int, y: int)
    requires
        x > usize::MAX,
        y >= 1,
    ensures
        x * y > usize::MAX,
{
    assert(x * y >= x) by (nonlinear_arith)
        requires
            x > 0,
            y >= 1,
    ;
}

/// Weights of one layer, or `None` when the count does not fit in a `usize`.
fn layer_weights(l: &LayerInfo) -> (w: Option<usize>)
    ensures
        match w {
            Some(v) => v == weight_count(*l),
            None => weight_count(*l) > usize::MAX,
        },
{
    let kind = match &l.layer_type {
        Some(name) => classify_layer_type(name.as_str()),
        None => LayerKind::Other,
    };
    let a = match l.in_features { Some(v) => v, None => 0 };
    let b = match l.out_features { Some(v) => v, None => 0 };
    match kind {
        LayerKind::Dense => a.checked_mul(b),
        LayerKind::Conv2d => {
            let c0 = match l.in_channels { Some(v) => v, None => 0 };
            let c1 = match l.out_channels { Some(v) => v, None => 0 };
            let kh = match l.kernel_h { Some(v) => v, None => 0 };
            let kw = match l.kernel_w { Some(v) => v, None => 0 };
            if c0 == 0 || c1 == 0 || kh == 0 || kw == 0 {
                proof {
                    assert(c0 * c1 * kh * kw == 0) by (nonlinear_arith)
                        requires
                            c0 == 0 || c1 == 0 || kh == 0 || kw == 0,
                    ;
                }
                return Some(0);
            }
            match c0.checked_mul(c1) {
                None => {
                    proof {
                        lemma_product_exceeds(c0 * c1, kh as int);
                        lemma_product_exceeds(c0 * c1 * kh, kw as int);
                    }
                    None
                },
                Some(p1) => match p1.checked_mul(kh) {
                    None => {
                        proof {
                            lemma_product_exceeds(p1 * kh, kw as int);
                        }
                        None
                    },
                    Some(p2) => p2.checked_mul(kw),
                },
            }
        },
        _ => Some(0),
    }
}

/// Derive the resource summary of an ordered layer sequence, or `None` when
/// the weight or neuron total does not fit in a `usize`.
pub fn derive_summary(layers: &Vec<LayerInfo>) -> (summary: Option<ResourceSummary>)
    ensures
        summary is Some <==> totals_fit(layers@),
        summary matches Some(r) ==> summarizes(r, layers@),
{
    let ghost s = layers@;
    let mut lif_neuron_count: usize = 0;
    let mut total_weight_count: usize = 0;
    let mut has_delays = false;
    let mut layer_types: Vec<String> = Vec::new();
    let mut last_out: usize = 0;
    let mut output_shape: Option<usize> = None;
    let mut i: usize = 0;
    while i < layers.len()
        invariant
            s == layers@,
            i <= s.len(),
            total_weight_count == total_weights(s.subrange(0, i as int)),
            lif_neuron_count == lif_neurons(s.subrange(0, i as int)),
            last_out == last_output(s.subrange(0, i as int)),
            has_delays == has_delays_spec(s.subrange(0, i as int)),
            output_shape == output_shape_spec(s.subrange(0, i as int)),
            layer_types@.len() == i,
            forall|k: int| 0 <= k < i ==> (#[trigger] layer_types@[k])@ == reported_type(s[k]),
        decreases s.len() - i,
    {
        let l = &layers[i];
        let ghost pre = s.subrange(0, i as int);
        let ghost next = s.subrange(0, i + 1);
        proof {
            assert(next.drop_last() =~= pre);
            assert(next.last() == s[i as int]);
        }
        let kind = match &l.layer_type {
            Some(name) => classify_layer_type(name.as_str()),
            None => LayerKind::Other,
        };
        let name = match &l.layer_type {
            Some(name) => name.clone(),
            None => "unknown".to_owned(),
        };
        layer_types.push(name);
        let w = layer_weights(l);
        match w {
            None => {
                proof {
                    lemma_totals_monotone(s, i + 1, s.len() as int);
                    assert(s.subrange(0, s.len() as int) =~= s);
                }
                return None;
            },
            Some(wv) => {
                match total_weight_count.checked_add(wv) {
                    None => {
                        proof {
                            lemma_totals_monotone(s, i + 1, s.len() as int);
                            assert(s.subrange(0, s.len() as int) =~= s);
                        }
                        return None;
                    },
                    Some(t) => {
                        total_weight_count = t;
                    },
                }
            },
        }
        if kind == LayerKind::Lif {
            match lif_neuron_count.checked_add(last_out) {
                None => {
                    proof {
                        lemma_totals_monotone(s, i + 1, s.len() as int);
                        assert(s.subrange(0, s.len() as int) =~= s);
                    }
                    return None;
                },
                Some(t) => {
                    lif_neuron_count = t;
                },
            }
        }
        if kind == LayerKind::Dense {
            if l.has_delays_b64 {
                has_delays = true;
                proof {
                    assert(info_kind(next[i as int]) == LayerKind::Dense && next[i as int].has_delays_b64);
                }
            }
            last_out = match l.out_features { Some(v) => v, None => 0 };
            if let Some(o) = l.out_features {
                output_shape = Some(o);
            }
        } else if kind == LayerKind::Conv2d {
            last_out = match l.out_channels { Some(v) => v, None => 0 };
            if let Some(o) = l.out_channels {
                output_shape = Some(o);
            }
        }
        proof {
            assert(has_delays == has_delays_spec(next)) by {
                if has_delays_spec(next) {
                    let j = choose|j: int|
                        0 <= j < next.len() && info_kind(#[trigger] next[j]) == LayerKind::Dense
                            && next[j].has_delays_b64;
                    if j < i {
                        assert(pre[j] == next[j]);
                    }
                }
                if has_delays_spec(pre) {
                    let j = choose|j: int|
                        0 <= j < pre.len() && info_kind(#[trigger] pre[j]) == LayerKind::Dense
                            && pre[j].has_delays_b64;
                    assert(next[j] == pre[j]);
                }
            }
        }
        i = i + 1;
    }
    proof {
        assert(s.subrange(0, s.len() as int) =~= s);
    }
    let input_shape = if layers.len() == 0 {
        None
    } else {
        let first = &layers[0];
        let kind = match &first.layer_type {
            Some(name) => classify_layer_type(name.as_str()),
            None => LayerKind::Other,
        };
        match kind {
            LayerKind::Dense => first.in_features,
            LayerKind::Conv2d => first.in_channels,
            _ => None,
        }
    };
    Some(
        ResourceSummary {
            layer_count: layers.len(),
            lif_neuron_count,
            total_weight_count,
            has_delays,
            layer_types,
            input_shape,
            output_shape,
        },
    )
}

} // verus!
