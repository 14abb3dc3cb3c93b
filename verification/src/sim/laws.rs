//! Laws of the simulator's loading decisions.

use vstd::prelude::*;
use crate::sim::model::{dims_break, prev_out};

verus! {

/// The width in force before position `i` is that of the last layer `j < i`
/// that declares an output width.
proof fn lemma_prev_out_is_last_declared(dims: Seq<(Option<usize>, Option<usize>)>, i: int, j: int)
    requires
        0 <= j < i <= dims.len(),
        dims[j].1 is Some,
        forall|k: int| j < k < i ==> (#[trigger] dims[k]).1 is None,
    ensures
        prev_out(dims, i) == dims[j].1,
    decreases i - j,
{
    if i - 1 > j {
        lemma_prev_out_is_last_declared(dims, i - 1, j);
    }
}

/// Without any output width declared before position `i`, none is in force.
proof fn lemma_prev_out_none(dims: Seq<(Option<usize>, Option<usize>)>, i: int)
    requires
        0 <= i <= dims.len(),
        forall|k: int| 0 <= k < i ==> (#[trigger] dims[k]).1 is None,
    ensures
        prev_out(dims, i) is None,
    decreases i,
{
    if i > 0 {
        lemma_prev_out_none(dims, i - 1);
    }
}

/// Layer `i` breaks dimension continuity exactly when it declares an input
/// width that differs, in either direction, from the output width of the
/// last layer before it that declares one (layer `j`).
pub proof fn law_dimension_break_is_a_width_disagreement(
    dims: Seq<(Option<usize>, Option<usize>)>,
    i: int,
    j: int,
)
    requires
        0 <= j < i < dims.len(),
        dims[j].1 is Some,
        forall|k: int| j < k < i ==> (#[trigger] dims[k]).1 is None,
    ensures
        prev_out(dims, i) == dims[j].1,
        dims_break(dims, i) <==> (dims[i].0 is Some && dims[i].0->0 != dims[j].1->0),
        dims[i].0 is Some && dims[i].0->0 < dims[j].1->0 ==> dims_break(dims, i),
        dims[i].0 is Some && dims[i].0->0 > dims[j].1->0 ==> dims_break(dims, i),
{
    lemma_prev_out_is_last_declared(dims, i, j);
}

/// A layer with no output width declared before it, or one that declares no
/// input width, never breaks dimension continuity.
pub proof fn law_no_break_without_both_widths(dims: Seq<(Option<usize>, Option<usize>)>, i: int)
    requires
        0 <= i < dims.len(),
        dims[i].0 is None || forall|k: int| 0 <= k < i ==> (#[trigger] dims[k]).1 is None,
    ensures
        !dims_break(dims, i),
{
    if dims[i].0 is Some {
        lemma_prev_out_none(dims, i);
    }
}

} // verus!
