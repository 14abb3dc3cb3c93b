//! Conformance metric kernels on binarised spike rasters.
//!
//! A raster is `[timesteps][neurons]`; a cell is `true` where the neuron
//! spiked. These kernels count exactly; the rates and fractions reported to
//! users are these counts divided by the trial length or the cell count.

use vstd::prelude::*;

verus! {

/// Number of frames of `r` in which neuron `n` spiked.
pub open spec fn spike_count(r: Seq<Vec<bool>>, n: int) -> nat
    decreases r.len(),
{
    if r.len() == 0 {
        0
    } else {
        spike_count(r.drop_last(), n) + if r.last()@[n] {
            1nat
        } else {
            0nat
        }
    }
}

/// Every frame of `r` has at least `width` cells.
pub open spec fn covers(r: Seq<Vec<bool>>, width: int) -> bool {
    forall|t: int| 0 <= t < r.len() ==> #[trigger] r[t]@.len() >= width
}

/// The neuron count of a raster: the width of its first frame.
pub open spec fn width_of(r: Seq<Vec<bool>>) -> int {
    if r.len() == 0 {
        0
    } else {
        r[0]@.len() as int
    }
}

/// A raster whose every frame is at least as wide as its first.
pub open spec fn well_formed(r: Seq<Vec<bool>>) -> bool {
    covers(r, width_of(r))
}

/// `|a - b|`.
pub open spec fn abs_diff(a: int, b: int) -> nat {
    if a >= b {
        (a - b) as nat
    } else {
        (b - a) as nat
    }
}

/// Per-neuron spike-count difference between a reference and a test raster.
pub open spec fn count_error(r: Seq<Vec<bool>>, b: Seq<Vec<bool>>, n: int) -> nat {
    abs_diff(spike_count(r, n) as int, spike_count(b, n) as int)
}

/// `p` is the neuron with the highest spike count among the first `w`
/// neurons, the lowest index winning ties.
pub open spec fn is_first_argmax(r: Seq<Vec<bool>>, w: int, p: int) -> bool {
    &&& 0 <= p < w
    &&& forall|j: int| 0 <= j < w ==> spike_count(r, j) <= spike_count(r, p)
    &&& forall|j: int| 0 <= j < p ==> spike_count(r, j) < spike_count(r, p)
}

/// Best neuron among the first `k`, scanning upwards and keeping the earlier
/// neuron on a tie.
pub open spec fn best_among(r: Seq<Vec<bool>>, k: int) -> int
    decreases k,
{
    if k <= 1 {
        0
    } else {
        let b = best_among(r, k - 1);
        if spike_count(r, k - 1) > spike_count(r, b) {
            k - 1
        } else {
            b
        }
    }
}

/// The predicted class of a raster: the most active neuron, lowest index on
/// ties, and `0` for an empty raster or a raster without neurons.
pub open spec fn prediction_spec(r: Seq<Vec<bool>>) -> int {
    if r.len() == 0 || r[0]@.len() == 0 {
        0
    } else {
        best_among(r, width_of(r))
    }
}

/// Number of samples on which the two batches predict the same class.
pub open spec fn agreement_count(rs: Seq<Vec<Vec<bool>>>, ts: Seq<Vec<Vec<bool>>>) -> nat
    decreases rs.len(),
{
    if rs.len() == 0 {
        0
    } else {
        let last = rs.len() - 1;
        agreement_count(rs.drop_last(), ts.subrange(0, last)) + if prediction_spec(rs[last]@)
            == prediction_spec(ts[last]@) {
            1nat
        } else {
            0nat
        }
    }
}

/// Number of cells compared in one frame pair: the cells both frames have.
pub open spec fn frame_cells(a: Seq<bool>, b: Seq<bool>) -> nat {
    if a.len() <= b.len() {
        a.len()
    } else {
        b.len()
    }
}

/// Number of the first `k` cells at which two frames differ.
pub open spec fn frame_mismatches(a: Seq<bool>, b: Seq<bool>, k: int) -> nat
    decreases k,
{
    if k <= 0 {
        0
    } else {
        frame_mismatches(a, b, k - 1) + if a[k - 1] != b[k - 1] {
            1nat
        } else {
            0nat
        }
    }
}

/// Cells compared over the first `k` frame pairs.
pub open spec fn hamming_total(r: Seq<Vec<bool>>, b: Seq<Vec<bool>>, k: int) -> nat
    decreases k,
{
    if k <= 0 {
        0
    } else {
        hamming_total(r, b, k - 1) + frame_cells(r[k - 1]@, b[k - 1]@)
    }
}

/// Differing cells over the first `k` frame pairs.
pub open spec fn hamming_diff(r: Seq<Vec<bool>>, b: Seq<Vec<bool>>, k: int) -> nat
    decreases k,
{
    if k <= 0 {
        0
    } else {
        hamming_diff(r, b, k - 1) + frame_mismatches(
            r[k - 1]@,
            b[k - 1]@,
            frame_cells(r[k - 1]@, b[k - 1]@) as int,
        )
    }
}

/// Frames compared by the Hamming metric: the frames both rasters have.
pub open spec fn paired_frames(r: Seq<Vec<bool>>, b: Seq<Vec<bool>>) -> int {
    if r.len() <= b.len() {
        r.len() as int
    } else {
        b.len() as int
    }
}

/// First frame at or after `t` in which neuron `n` spikes.
pub open spec fn first_spike_from(r: Seq<Vec<bool>>, n: int, t: int) -> Option<int>
    decreases r.len() - t,
{
    if t < 0 || t >= r.len() {
        None
    } else if r[t]@[n] {
        Some(t)
    } else {
        first_spike_from(r, n, t + 1)
    }
}

/// First frame in which neuron `n` spikes, if any.
pub open spec fn first_spike(r: Seq<Vec<bool>>, n: int) -> Option<int> {
    first_spike_from(r, n, 0)
}

/// Over the first `k` neurons firing in both rasters: the sum of first-spike
/// latency differences, and how many such neurons there are.
pub open spec fn latency_totals(r: Seq<Vec<bool>>, b: Seq<Vec<bool>>, k: int) -> (nat, nat)
    decreases k,
{
    if k <= 0 {
        (0, 0)
    } else {
        let prev = latency_totals(r, b, k - 1);
        match (first_spike(r, k - 1), first_spike(b, k - 1)) {
            (Some(fr), Some(ft)) => (prev.0 + abs_diff(fr, ft), prev.1 + 1),
            _ => prev,
        }
    }
}

/// Number of frames of `raster` in which neuron `n` spiked.
pub fn count_spikes(raster: &Vec<Vec<bool>>, n: usize) -> (count: usize)
    requires
        covers(raster@, n + 1),
    ensures
        count == spike_count(raster@, n as int),
{
    let mut count: usize = 0;
    let mut t: usize = 0;
    while t < raster.len()
        invariant
            t <= raster@.len(),
            covers(raster@, n + 1),
            count == spike_count(raster@.subrange(0, t as int), n as int),
            count <= t,
        decreases raster.len() - t,
    {
        assert(raster@[t as int]@.len() >= n + 1);
        let hit = raster[t][n];
        proof {
            let pre = raster@.subrange(0, t + 1);
            assert(pre.drop_last() =~= raster@.subrange(0, t as int));
        }
        if hit {
            count = count + 1;
        }
        t = t + 1;
    }
    proof {
        assert(raster@.subrange(0, raster@.len() as int) =~= raster@);
    }
    count
}

/// Per-neuron spike-count differences between a reference raster and a test
/// raster. The rate error of neuron `n` is entry `n` divided by the number of
/// timesteps.
pub fn rate_error_counts(ref_raster: &Vec<Vec<bool>>, test_raster: &Vec<Vec<bool>>) -> (errors:
    Vec<usize>)
    requires
        ref_raster@.len() == test_raster@.len(),
        well_formed(ref_raster@),
        covers(test_raster@, width_of(ref_raster@)),
    ensures
        errors@.len() == width_of(ref_raster@),
        forall|n: int|
            0 <= n < errors@.len() ==> #[trigger] errors@[n] == count_error(
                ref_raster@,
                test_raster@,
                n,
            ),
{
    let mut errors: Vec<usize> = Vec::new();
    if ref_raster.len() == 0 {
        return errors;
    }
    let width = ref_raster[0].len();
    let mut n: usize = 0;
    while n < width
        invariant
            width == width_of(ref_raster@),
            n <= width,
            well_formed(ref_raster@),
            covers(test_raster@, width_of(ref_raster@)),
            errors@.len() == n,
            forall|j: int|
                0 <= j < n ==> #[trigger] errors@[j] == count_error(ref_raster@, test_raster@, j),
        decreases width - n,
    {
        let cr = count_spikes(ref_raster, n);
        let cb = count_spikes(test_raster, n);
        let d = if cr >= cb {
            cr - cb
        } else {
            cb - cr
        };
        errors.push(d);
        n = n + 1;
    }
    errors
}

/// The predicted class of a raster: the neuron with the highest spike count,
/// the lowest index on ties, and `0` for a raster without frames or neurons.
pub fn prediction(raster: &Vec<Vec<bool>>) -> (p: usize)
    requires
        well_formed(raster@),
    ensures
        p == prediction_spec(raster@),
        raster@.len() > 0 && raster@[0]@.len() > 0 ==> is_first_argmax(
            raster@,
            width_of(raster@),
            p as int,
        ),
{
    if raster.len() == 0 || raster[0].len() == 0 {
        return 0;
    }
    let width = raster[0].len();
    let mut best: usize = 0;
    let mut best_count = count_spikes(raster, 0);
    let mut n: usize = 1;
    while n < width
        invariant
            width == width_of(raster@),
            1 <= n <= width,
            well_formed(raster@),
            best < n,
            best == best_among(raster@, n as int),
            best_count == spike_count(raster@, best as int),
            is_first_argmax(raster@, n as int, best as int),
        decreases width - n,
    {
        let c = count_spikes(raster, n);
        if c > best_count {
            best = n;
            best_count = c;
        }
        n = n + 1;
    }
    best
}

/// Number of samples on which the reference and the test batch predict the
/// same class. The prediction agreement is this count over the batch size,
/// and `1` for an empty batch.
pub fn prediction_agreement_count(
    ref_rasters: &Vec<Vec<Vec<bool>>>,
    test_rasters: &Vec<Vec<Vec<bool>>>,
) -> (agree: usize)
    requires
        ref_rasters@.len() == test_rasters@.len(),
        forall|i: int| 0 <= i < ref_rasters@.len() ==> well_formed(#[trigger] ref_rasters@[i]@),
        forall|i: int| 0 <= i < test_rasters@.len() ==> well_formed(#[trigger] test_rasters@[i]@),
    ensures
        agree == agreement_count(ref_rasters@, test_rasters@),
        agree <= ref_rasters@.len(),
{
    let mut agree: usize = 0;
    let mut i: usize = 0;
    while i < ref_rasters.len()
        invariant
            ref_rasters@.len() == test_rasters@.len(),
            forall|k: int|
                0 <= k < ref_rasters@.len() ==> well_formed(#[trigger] ref_rasters@[k]@),
            forall|k: int|
                0 <= k < test_rasters@.len() ==> well_formed(#[trigger] test_rasters@[k]@),
            i <= ref_rasters@.len(),
            agree <= i,
            agree == agreement_count(
                ref_rasters@.subrange(0, i as int),
                test_rasters@.subrange(0, i as int),
            ),
        decreases ref_rasters.len() - i,
    {
        let pr = prediction(&ref_rasters[i]);
        let pt = prediction(&test_rasters[i]);
        proof {
            let rs = ref_rasters@.subrange(0, i + 1);
            let ts = test_rasters@.subrange(0, i + 1);
            assert(rs.drop_last() =~= ref_rasters@.subrange(0, i as int));
            assert(ts.subrange(0, i as int) =~= test_rasters@.subrange(0, i as int));
            assert(rs[i as int] == ref_rasters@[i as int]);
            assert(ts[i as int] == test_rasters@[i as int]);
        }
        if pr == pt {
            agree = agree + 1;
        }
        i = i + 1;
    }
    proof {
        assert(ref_rasters@.subrange(0, ref_rasters@.len() as int) =~= ref_rasters@);
        assert(test_rasters@.subrange(0, test_rasters@.len() as int) =~= test_rasters@);
    }
    agree
}

/// Cells compared and cells differing in one frame pair.
fn frame_hamming(a: &Vec<bool>, b: &Vec<bool>) -> (res: (usize, usize))
    ensures
        res.0 == frame_mismatches(a@, b@, frame_cells(a@, b@) as int),
        res.1 == frame_cells(a@, b@),
        res.0 <= res.1,
{
    let m = if a.len() <= b.len() {
        a.len()
    } else {
        b.len()
    };
    let mut diff: usize = 0;
    let mut j: usize = 0;
    while j < m
        invariant
            m == frame_cells(a@, b@),
            j <= m,
            diff == frame_mismatches(a@, b@, j as int),
            diff <= j,
        decreases m - j,
    {
        if a[j] != b[j] {
            diff = diff + 1;
        }
        j = j + 1;
    }
    (diff, m)
}

/// Differing cells and compared cells between two rasters, over the frames
/// and cells both have. The Hamming fraction is the first over the second,
/// and `0` when nothing is compared.
pub fn hamming_counts(ref_raster: &Vec<Vec<bool>>, test_raster: &Vec<Vec<bool>>) -> (res: (
    u128,
    u128,
))
    ensures
        res.0 == hamming_diff(
            ref_raster@,
            test_raster@,
            paired_frames(ref_raster@, test_raster@),
        ),
        res.1 == hamming_total(
            ref_raster@,
            test_raster@,
            paired_frames(ref_raster@, test_raster@),
        ),
        res.0 <= res.1,
{
    let k = if ref_raster.len() <= test_raster.len() {
        ref_raster.len()
    } else {
        test_raster.len()
    };
    let mut diff: u128 = 0;
    let mut total: u128 = 0;
    let mut t: usize = 0;
    while t < k
        invariant
            k == paired_frames(ref_raster@, test_raster@),
            k <= ref_raster@.len(),
            k <= test_raster@.len(),
            t <= k,
            diff == hamming_diff(ref_raster@, test_raster@, t as int),
            total == hamming_total(ref_raster@, test_raster@, t as int),
            diff <= total,
            total <= t * 0xffff_ffff_ffff_ffffu128,
        decreases k - t,
    {
        let (d, m) = frame_hamming(&ref_raster[t], &test_raster[t]);
        diff = diff + d as u128;
        total = total + m as u128;
        t = t + 1;
    }
    (diff, total)
}

/// Index of the first frame at or after `t` in which neuron `n` spikes.
fn first_spike_index(raster: &Vec<Vec<bool>>, n: usize) -> (first: Option<usize>)
    requires
        covers(raster@, n + 1),
    ensures
        match first {
            Some(t) => first_spike(raster@, n as int) == Some(t as int),
            None => first_spike(raster@, n as int) is None,
        },
{
    let mut t: usize = 0;
    while t < raster.len()
        invariant
            t <= raster@.len(),
            covers(raster@, n + 1),
            first_spike(raster@, n as int) == first_spike_from(raster@, n as int, t as int),
        decreases raster.len() - t,
    {
        assert(raster@[t as int]@.len() >= n + 1);
        if raster[t][n] {
            return Some(t);
        }
        t = t + 1;
    }
    None
}

/// Over the neurons that fire in both rasters: the total first-spike latency
/// difference in timesteps, and how many such neurons there are. The mean
/// latency error is the first over the second, and `0` when none fires in
/// both.
pub fn first_spike_latency_totals(
    ref_raster: &Vec<Vec<bool>>,
    test_raster: &Vec<Vec<bool>>,
) -> (res: (u128, u128))
    requires
        well_formed(ref_raster@),
        covers(test_raster@, width_of(ref_raster@)),
    ensures
        res.0 == latency_totals(ref_raster@, test_raster@, width_of(ref_raster@)).0,
        res.1 == latency_totals(ref_raster@, test_raster@, width_of(ref_raster@)).1,
{
    if ref_raster.len() == 0 || ref_raster[0].len() == 0 {
        return (0, 0);
    }
    let width = ref_raster[0].len();
    let mut total: u128 = 0;
    let mut count: u128 = 0;
    let mut n: usize = 0;
    while n < width
        invariant
            width == width_of(ref_raster@),
            n <= width,
            well_formed(ref_raster@),
            covers(test_raster@, width_of(ref_raster@)),
            total == latency_totals(ref_raster@, test_raster@, n as int).0,
            count == latency_totals(ref_raster@, test_raster@, n as int).1,
            total <= n * 0xffff_ffff_ffff_ffffu128,
            count <= n,
        decreases width - n,
    {
        let fr = first_spike_index(ref_raster, n);
        let ft = first_spike_index(test_raster, n);
        match (fr, ft) {
            (Some(a), Some(b)) => {
                let d = if a >= b {
                    a - b
                } else {
                    b - a
                };
                total = total + d as u128;
                count = count + 1;
            },
            _ => {},
        }
        n = n + 1;
    }
    (total, count)
}

} // verus!
