//! The envelope ratification measurement's command line and the
//! fingerprint that identifies a frozen fixture set.

use vstd::prelude::*;
use crate::codec::{crc32_hex, crc32_of};
use crate::akida::runtime::arg_views;
use crate::text::{decimal_digits, hex_fixed, parse_usize, parse_usize_spec, push_decimal, str_eq};
use crate::conformance::metric::{count_spikes, spike_count, well_formed, width_of};

verus! {

/// The CRC32 of a text's UTF-8 bytes as 8 lowercase hexadecimal digits.
pub open spec fn crc_hex_of_text(t: Seq<char>) -> Seq<char> {
    hex_fixed(crc32_of(vstd::utf8::encode_utf8(t)) as nat, 8)
}

/// The CRC32 texts of the fixture files, concatenated in order.
pub open spec fn joined_crcs(raws: Seq<String>) -> Seq<char>
    decreases raws.len(),
{
    if raws.len() == 0 {
        Seq::empty()
    } else {
        joined_crcs(raws.drop_last()) + crc_hex_of_text(raws.last()@)
    }
}

/// The fingerprint of a fixture set: the CRC32 of its files' concatenated
/// CRC32 texts, and the file count.
pub open spec fn fingerprint_text(raws: Seq<String>) -> Seq<char> {
    "crc32="@ + crc_hex_of_text(joined_crcs(raws)) + " ("@ + decimal_digits(raws.len()) + " files)"@
}

/// The fingerprint of a frozen fixture set, from the files' contents in
/// order: `crc32=<8 hex digits> (<n> files)`.
pub fn fixture_fingerprint(raws: &Vec<String>) -> (fp: String)
    ensures
        fp@ == fingerprint_text(raws@),
{
    let mut combined = String::new();
    let mut i: usize = 0;
    while i < raws.len()
        invariant
            i <= raws@.len(),
            combined@ == joined_crcs(raws@.subrange(0, i as int)),
        decreases raws.len() - i,
    {
        let h = crc32_hex(raws[i].as_str());
        combined.append(h.as_str());
        proof {
            let pre = raws@.subrange(0, i + 1);
            assert(pre.drop_last() =~= raws@.subrange(0, i as int));
            assert(pre.last() == raws@[i as int]);
        }
        i = i + 1;
    }
    proof {
        assert(raws@.subrange(0, raws@.len() as int) =~= raws@);
    }
    let set_crc = crc32_hex(combined.as_str());
    let mut fp = "crc32=".to_owned();
    fp.append(set_crc.as_str());
    fp.append(" (");
    push_decimal(&mut fp, raws.len() as u64);
    fp.append(" files)");
    fp
}

/// Scan the measurement's arguments from position `i`: `--artifact PATH`,
/// `--data-dir DIR` and `--n-samples N` set their values (an `N` that does not
/// parse refuses the command line), anything else is skipped.
pub open spec fn scan_ratify(
    args: Seq<Seq<char>>,
    i: int,
    artifact: Option<Seq<char>>,
    data_dir: Option<Seq<char>>,
    n_samples: usize,
) -> Option<(Option<Seq<char>>, Option<Seq<char>>, usize)>
    decreases args.len() - i,
{
    if i < 0 || i >= args.len() {
        Some((artifact, data_dir, n_samples))
    } else if args[i] == "--artifact"@ && i + 1 < args.len() {
        scan_ratify(args, i + 2, Some(args[i + 1]), data_dir, n_samples)
    } else if args[i] == "--data-dir"@ && i + 1 < args.len() {
        scan_ratify(args, i + 2, artifact, Some(args[i + 1]), n_samples)
    } else if args[i] == "--n-samples"@ && i + 1 < args.len() {
        match parse_usize_spec(args[i + 1]) {
            None => None,
            Some(n) => scan_ratify(args, i + 2, artifact, data_dir, n),
        }
    } else {
        scan_ratify(args, i + 1, artifact, data_dir, n_samples)
    }
}

/// The measurement's reading of its command line (program name first): the
/// artifact path, the fixture directory and the sample count (100 by
/// default); `None` when a path is missing or the count does not parse.
pub open spec fn ratify_args_spec(args: Seq<Seq<char>>) -> Option<(Seq<char>, Seq<char>, usize)> {
    match scan_ratify(args, 1, None, None, 100) {
        Some((Some(a), Some(d), n)) => Some((a, d, n)),
        _ => None,
    }
}

/// The ratification measurement's command line, read.
#[derive(Debug, Clone, PartialEq, Eq)]
pub struct RatifyArgs {
    /// Path of the trained `.thx` artifact.
    pub artifact: String,
    /// Directory whose `frozen/` subdirectory holds the fixtures.
    pub data_dir: String,
    /// Number of samples to use.
    pub n_samples: usize,
}

/// The character view of an optional string.
pub open spec fn opt_view(o: Option<String>) -> Option<Seq<char>> {
    match o {
        Some(s) => Some(s@),
        None => None,
    }
}

/// Read the measurement's command line:
/// `--artifact <model.thx> --data-dir <fixture_dir> [--n-samples N]`.
pub fn parse_ratify_args(args: &Vec<String>) -> (r: Option<RatifyArgs>)
    ensures
        match (r, ratify_args_spec(arg_views(args@))) {
            (Some(a), Some((art, dir, n))) => a.artifact@ == art && a.data_dir@ == dir && a.n_samples == n,
            (None, None) => true,
            _ => false,
        },
{
    let ghost views = arg_views(args@);
    let mut artifact: Option<String> = None;
    let mut data_dir: Option<String> = None;
    let mut n_samples: usize = 100;
    let mut i: usize = 1;
    while i < args.len()
        invariant
            views == arg_views(args@),
            views.len() == args@.len(),
            1 <= i,
            scan_ratify(views, 1, None, None, 100) == scan_ratify(
                views,
                i as int,
                opt_view(artifact),
                opt_view(data_dir),
                n_samples,
            ),
        decreases args.len() - i,
    {
        proof {
            assert(views[i as int] == args@[i as int]@);
        }
        let a = args[i].as_str();
        if str_eq(a, "--artifact") && i + 1 < args.len() {
            proof {
                assert(views[i + 1] == args@[i + 1]@);
            }
            artifact = Some(args[i + 1].clone());
            i = i + 2;
        } else if str_eq(a, "--data-dir") && i + 1 < args.len() {
            proof {
                assert(views[i + 1] == args@[i + 1]@);
            }
            data_dir = Some(args[i + 1].clone());
            i = i + 2;
        } else if str_eq(a, "--n-samples") && i + 1 < args.len() {
            proof {
                assert(views[i + 1] == args@[i + 1]@);
            }
            match parse_usize(args[i + 1].as_str()) {
                None => {
                    return None;
                },
                Some(n) => {
                    n_samples = n;
                },
            }
            i = i + 2;
        } else {
            i = i + 1;
        }
    }
    match (artifact, data_dir) {
        (Some(a), Some(d)) => Some(RatifyArgs { artifact: a, data_dir: d, n_samples }),
        _ => None,
    }
}


/// Some event of `events` is the pair `(t, u)`.
pub open spec fn has_event(events: Seq<(usize, usize)>, t: int, u: int) -> bool {
    exists|e: int| 0 <= e < events.len() && #[trigger] events[e] == (t as usize, u as usize)
}

/// A sparse event list spread into a `t_size × n_in` raster: cell `(t, u)`
/// is set exactly when some event is `(t, u)`; events outside the raster are
/// dropped.
pub fn events_to_raster(t_size: usize, n_in: usize, events: &Vec<(usize, usize)>) -> (r: Vec<Vec<bool>>)
    ensures
        r@.len() == t_size,
        forall|t: int| 0 <= t < t_size ==> #[trigger] r@[t]@.len() == n_in,
        forall|t: int, u: int|
            0 <= t < t_size && 0 <= u < n_in ==> (#[trigger] r@[t]@[u] <==> has_event(events@, t, u)),
{
    let mut r: Vec<Vec<bool>> = Vec::new();
    let mut t: usize = 0;
    while t < t_size
        invariant
            t <= t_size,
            r@.len() == t,
            forall|i: int| 0 <= i < t ==> #[trigger] r@[i]@.len() == n_in,
            forall|i: int, u: int| 0 <= i < t && 0 <= u < n_in ==> !#[trigger] r@[i]@[u],
        decreases t_size - t,
    {
        let mut row: Vec<bool> = Vec::new();
        let mut u: usize = 0;
        while u < n_in
            invariant
                u <= n_in,
                row@.len() == u,
                forall|j: int| 0 <= j < u ==> !#[trigger] row@[j],
            decreases n_in - u,
        {
            row.push(false);
            u = u + 1;
        }
        r.push(row);
        t = t + 1;
    }
    let mut k: usize = 0;
    while k < events.len()
        invariant
            k <= events@.len(),
            r@.len() == t_size,
            forall|i: int| 0 <= i < t_size ==> #[trigger] r@[i]@.len() == n_in,
            forall|i: int, u: int|
                0 <= i < t_size && 0 <= u < n_in ==> (#[trigger] r@[i]@[u] <==> has_event(
                    events@.subrange(0, k as int),
                    i,
                    u,
                )),
        decreases events.len() - k,
    {
        let (et, eu) = events[k];
        let ghost old_r = r@;
        let ghost pre = events@.subrange(0, k as int);
        let ghost post = events@.subrange(0, k + 1);
        if et < t_size && eu < n_in {
            r[et].set(eu, true);
        }
        proof {
            assert forall|i: int, u: int| 0 <= i < t_size && 0 <= u < n_in implies (#[trigger] r@[i]@[u]
                <==> has_event(post, i, u)) by {
                if has_event(pre, i, u) {
                    let e = choose|e: int| 0 <= e < pre.len() && #[trigger] pre[e] == (i as usize, u as usize);
                    assert(post[e] == pre[e]);
                }
                if has_event(post, i, u) {
                    let e = choose|e: int| 0 <= e < post.len() && #[trigger] post[e] == (i as usize, u as usize);
                    if e < k {
                        assert(pre[e] == post[e]);
                    } else {
                        assert(post[e] == events@[k as int]);
                    }
                }
                if et == i && eu == u {
                    assert(post[k as int] == events@[k as int]);
                }
            }
        }
        k = k + 1;
    }
    proof {
        assert(events@.subrange(0, events@.len() as int) =~= events@);
    }
    r
}

/// The reference raster sits near a decision boundary: it has neurons and
/// frames, and some neuron other than a most active one is within three
/// spikes of the top count (the top two counts, in sorted order, differ by
/// less than three).
pub open spec fn near_boundary_spec(r: Seq<Vec<bool>>) -> bool {
    let w = width_of(r);
    &&& r.len() > 0
    &&& w > 1
    &&& exists|j: int, k: int|
        0 <= j < w && 0 <= k < w && j != k && (forall|i: int|
            0 <= i < w ==> #[trigger] spike_count(r, i) <= spike_count(r, j)) && #[trigger] spike_count(r, k)
            + 3 > #[trigger] spike_count(r, j)
}

/// Whether the top two per-neuron spike counts of a reference raster differ
/// by fewer than three spikes (only rasters with frames and at least two
/// neurons qualify).
pub fn near_argmax_boundary(raster: &Vec<Vec<bool>>) -> (b: bool)
    requires
        well_formed(raster@),
    ensures
        b == near_boundary_spec(raster@),
{
    if raster.len() == 0 {
        return false;
    }
    let w = raster[0].len();
    if w <= 1 {
        return false;
    }
    let mut counts: Vec<usize> = Vec::new();
    let mut n: usize = 0;
    while n < w
        invariant
            w == width_of(raster@),
            well_formed(raster@),
            n <= w,
            counts@.len() == n,
            forall|i: int| 0 <= i < n ==> #[trigger] counts@[i] == spike_count(raster@, i),
        decreases w - n,
    {
        let c = count_spikes(raster, n);
        counts.push(c);
        n = n + 1;
    }
    let mut best: usize = 0;
    let mut i: usize = 1;
    while i < w
        invariant
            counts@.len() == w,
            1 <= i <= w,
            best < i,
            forall|j: int| 0 <= j < i ==> #[trigger] counts@[j] <= counts@[best as int],
        decreases w - i,
    {
        if counts[i] > counts[best] {
            best = i;
        }
        i = i + 1;
    }
    let mut second: usize = if best == 0 { 1 } else { 0 };
    let mut i: usize = 0;
    while i < w
        invariant
            counts@.len() == w,
            i <= w,
            best < w,
            second < w,
            second != best,
            forall|j: int| 0 <= j < i && j != best ==> #[trigger] counts@[j] <= counts@[second as int],
        decreases w - i,
    {
        if i != best && counts[i] > counts[second] {
            second = i;
        }
        i = i + 1;
    }
    let top = counts[best];
    let next = counts[second];
    let b = top - next < 3;
    proof {
        let r = raster@;
        assert(forall|j: int| 0 <= j < w ==> #[trigger] spike_count(r, j) == counts@[j]);
        if b {
            assert(forall|j: int| 0 <= j < w ==> #[trigger] spike_count(r, j) <= spike_count(r, best as int));
            assert(spike_count(r, second as int) + 3 > spike_count(r, best as int));
        }
        if near_boundary_spec(r) {
            let (j, k) = choose|j: int, k: int|
                0 <= j < w && 0 <= k < w && j != k && (forall|i: int|
                    0 <= i < w ==> #[trigger] spike_count(r, i) <= spike_count(r, j)) && #[trigger] spike_count(r, k)
                    + 3 > #[trigger] spike_count(r, j);
            assert(spike_count(r, j) == counts@[j]);
            assert(spike_count(r, k) == counts@[k]);
            assert(counts@[best as int] <= counts@[j]);
            assert(counts@[j] <= counts@[best as int]);
            if k != best {
                assert(counts@[k] <= counts@[second as int]);
            } else {
                assert(counts@[j] <= counts@[second as int]);
            }
        }
    }
    b
}

} // verus!
