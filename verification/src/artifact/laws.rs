//! Laws of the resource summary, stated over the layer records' `"type"`
//! strings and shape fields.

use vstd::prelude::*;
use crate::artifact::resource::{
    LayerInfo, ResourceSummary, declared_output, info_kind, output_shape_spec, summarizes,
    total_weights,
};
use crate::artifact::layers::LayerKind;

verus! {

/// The record's `"type"` string is `name`.
pub open spec fn has_type(l: LayerInfo, name: Seq<char>) -> bool {
    l.layer_type matches Some(t) && t@ == name
}

/// The record is a Dense layer declaring `out_features`, or a Conv2d layer
/// declaring `out_channels`, and `o` is that width.
pub open spec fn declares_output(l: LayerInfo, o: usize) -> bool {
    ||| has_type(l, "dense"@) && l.out_features == Some(o)
    ||| has_type(l, "conv2d"@) && l.out_channels == Some(o)
}

proof fn lemma_kind_by_name(l: LayerInfo)
    ensures
        has_type(l, "dense"@) <==> info_kind(l) == LayerKind::Dense,
        has_type(l, "conv2d"@) <==> info_kind(l) == LayerKind::Conv2d,
        has_type(l, "lif"@) <==> info_kind(l) == LayerKind::Lif,
{
    reveal_strlit("dense");
    reveal_strlit("conv2d");
    reveal_strlit("lif");
    reveal_strlit("flatten");
    assert("dense"@.len() == 5 && "lif"@.len() == 3 && "conv2d"@.len() == 6);
    assert("dense"@ != "lif"@ && "dense"@ != "conv2d"@ && "lif"@ != "conv2d"@);
}

/// The summary's input width is the first layer's: its `in_features` when
/// it is a Dense layer, its `in_channels` when it is a Conv2d layer, and none
/// for any other first layer or an empty model.
pub proof fn law_summary_input_shape_is_first_layer_input(r: ResourceSummary, s: Seq<LayerInfo>)
    requires
        summarizes(r, s),
    ensures
        s.len() == 0 ==> r.input_shape is None,
        s.len() > 0 && has_type(s[0], "dense"@) ==> r.input_shape == s[0].in_features,
        s.len() > 0 && has_type(s[0], "conv2d"@) ==> r.input_shape == s[0].in_channels,
        s.len() > 0 && !has_type(s[0], "dense"@) && !has_type(s[0], "conv2d"@) ==> r.input_shape
            is None,
{
    if s.len() > 0 {
        lemma_kind_by_name(s[0]);
    }
}

proof fn lemma_output_shape_is_last_declared(s: Seq<LayerInfo>)
    ensures
        match output_shape_spec(s) {
            Some(o) => exists|i: int|
                0 <= i < s.len() && declares_output(#[trigger] s[i], o) && forall|j: int|
                    i < j < s.len() ==> forall|p: usize| !declares_output(#[trigger] s[j], p),
            None => forall|j: int|
                0 <= j < s.len() ==> forall|p: usize| !declares_output(#[trigger] s[j], p),
        },
    decreases s.len(),
{
    if s.len() > 0 {
        let last = s.last();
        let init = s.drop_last();
        lemma_kind_by_name(last);
        lemma_output_shape_is_last_declared(init);
        let n = s.len() - 1;
        assert(forall|j: int| 0 <= j < n ==> s[j] == init[j]);
        match declared_output(last) {
            Some(o) => {
                assert(declares_output(s[n], o));
            },
            None => {
                assert(forall|p: usize| !declares_output(last, p));
                match output_shape_spec(init) {
                    Some(o) => {
                        let i = choose|i: int|
                            0 <= i < init.len() && declares_output(#[trigger] init[i], o) && forall|
                                j: int,
                            |
                                i < j < init.len() ==> forall|p: usize|
                                    !declares_output(#[trigger] init[j], p);
                        assert(declares_output(s[i], o));
                        assert forall|j: int| i < j < s.len() implies forall|p: usize|
                            !declares_output(#[trigger] s[j], p) by {
                            if j < n {
                                assert(s[j] == init[j]);
                            }
                        }
                    },
                    None => {
                        assert forall|j: int| 0 <= j < s.len() implies forall|p: usize|
                            !declares_output(#[trigger] s[j], p) by {
                            if j < n {
                                assert(s[j] == init[j]);
                            }
                        }
                    },
                }
            },
        }
    }
}

/// The summary's output width is the one declared by the last Dense
/// (`out_features`) or Conv2d (`out_channels`) layer that declares one; it is
/// none exactly when no layer declares one.
pub proof fn law_summary_output_shape_is_last_declared_output(r: ResourceSummary, s: Seq<LayerInfo>)
    requires
        summarizes(r, s),
    ensures
        match r.output_shape {
            Some(o) => exists|i: int|
                0 <= i < s.len() && declares_output(#[trigger] s[i], o) && forall|j: int|
                    i < j < s.len() ==> forall|p: usize| !declares_output(#[trigger] s[j], p),
            None => forall|j: int|
                0 <= j < s.len() ==> forall|p: usize| !declares_output(#[trigger] s[j], p),
        },
{
    lemma_output_shape_is_last_declared(s);
}

/// The summary flags delays exactly when some Dense layer carries a
/// `delays_b64` string.
pub proof fn law_summary_delays_flag(r: ResourceSummary, s: Seq<LayerInfo>)
    requires
        summarizes(r, s),
    ensures
        r.has_delays <==> exists|i: int|
            0 <= i < s.len() && has_type(#[trigger] s[i], "dense"@) && s[i].has_delays_b64,
{
    assert forall|i: int| 0 <= i < s.len() implies (has_type(s[i], "dense"@) <==> info_kind(
        #[trigger] s[i],
    ) == LayerKind::Dense) by {
        lemma_kind_by_name(s[i]);
    }
}

/// Appending a layer adds its weights to the total: `in × out` for a Dense
/// layer, `in × out × kh × kw` for a Conv2d layer (a missing field counting
/// as zero), and nothing for any other layer.
pub proof fn law_total_weights_append(s: Seq<LayerInfo>, l: LayerInfo)
    ensures
        ({
            let z = |o: Option<usize>| -> int {
                match o {
                    Some(v) => v as int,
                    None => 0,
                }
            };
            let added = if has_type(l, "dense"@) {
                z(l.in_features) * z(l.out_features)
            } else if has_type(l, "conv2d"@) {
                z(l.in_channels) * z(l.out_channels) * z(l.kernel_h) * z(l.kernel_w)
            } else {
                0
            };
            total_weights(s.push(l)) == total_weights(s) + added
        }),
{
    lemma_kind_by_name(l);
    assert(s.push(l).drop_last() =~= s);
}

} // verus!
