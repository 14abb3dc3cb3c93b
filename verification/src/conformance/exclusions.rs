//! Backends excluded from the spike-raster conformance suite, and the exact
//! line a harness prints for each of them.

use vstd::prelude::*;

verus! {

/// A backend excluded from the spike-raster conformance suite.
#[derive(Debug, Clone, Copy, PartialEq, Eq)]
pub struct BackendExclusion {
    /// Backend name matching the capability descriptor `name` field.
    pub backend_name: &'static str,
    /// Machine-readable reason code (lowercase, hyphens, no spaces).
    pub reason: &'static str,
    /// Alternative metric this backend can be evaluated against.
    pub alternative_metric: &'static str,
}

/// The canonical exclusion line:
/// `EXCLUDED <name>: reason=<reason>; metric=<alternative_metric>`.
pub open spec fn exclusion_line_spec(e: BackendExclusion) -> Seq<char> {
    "EXCLUDED "@ + e.backend_name@ + ": reason="@ + e.reason@ + "; metric="@
        + e.alternative_metric@
}

/// The registered entry for the AKD1500, which runs bounded ReLU inference and
/// has no spike raster to compare.
pub open spec fn akd1500_exclusion() -> BackendExclusion {
    BackendExclusion {
        backend_name: "akida-akd1500",
        reason: "non-snn-backend",
        alternative_metric: "top-1-accuracy-frozen-brainchip-dataset",
    }
}

/// The registry of excluded backends, in order.
pub open spec fn excluded_backends_spec() -> Seq<BackendExclusion> {
    seq![akd1500_exclusion()]
}

/// Index of the first registry entry named `name`, if any.
pub open spec fn first_exclusion_index(entries: Seq<BackendExclusion>, name: Seq<char>) -> Option<
    int,
> {
    if exists|i: int| 0 <= i < entries.len() && (#[trigger] entries[i]).backend_name@ == name {
        let i = choose|i: int|
            0 <= i < entries.len() && (#[trigger] entries[i]).backend_name@ == name && forall|
                j: int,
            |
                0 <= j < i ==> (#[trigger] entries[j]).backend_name@ != name;
        Some(i)
    } else {
        None
    }
}

impl BackendExclusion {
    /// The canonical exclusion line as it must appear in harness output.
    pub fn exclusion_line(&self) -> (line: String)
        ensures
            line@ == exclusion_line_spec(*self),
    {
        let mut s = "EXCLUDED ".to_owned();
        s.append(self.backend_name);
        s.append(": reason=");
        s.append(self.reason);
        s.append("; metric=");
        s.append(self.alternative_metric);
        s
    }
}

/// All registered backend exclusions from the spike-raster conformance suite.
pub fn excluded_backends() -> (entries: Vec<BackendExclusion>)
    ensures
        entries@ == excluded_backends_spec(),
{
    let mut v = Vec::new();
    v.push(
        BackendExclusion {
            backend_name: "akida-akd1500",
            reason: "non-snn-backend",
            alternative_metric: "top-1-accuracy-frozen-brainchip-dataset",
        },
    );
    proof {
        assert(v@ =~= excluded_backends_spec());
    }
    v
}

/// Find the exclusion entry for a backend by name: `Some` when the backend is
/// excluded from spike-raster conformance, `None` when it is subject to it.
pub fn find_exclusion(backend_name: &str) -> (found: Option<BackendExclusion>)
    ensures
        found == (match first_exclusion_index(excluded_backends_spec(), backend_name@) {
            Some(i) => Some(excluded_backends_spec()[i]),
            None => None,
        }),
{
    let entries = excluded_backends();
    let mut i: usize = 0;
    while i < entries.len()
        invariant
            entries@ == excluded_backends_spec(),
            i <= entries.len(),
            forall|j: int| 0 <= j < i ==> (#[trigger] entries@[j]).backend_name@ != backend_name@,
        decreases entries.len() - i,
    {
        let e = &entries[i];
        if crate::text::str_eq(e.backend_name, backend_name) {
            proof {
                let ghost spec_i = first_exclusion_index(entries@, backend_name@);
                assert(entries@[i as int].backend_name@ == backend_name@);
                let k = choose|k: int|
                    0 <= k < entries@.len() && (#[trigger] entries@[k]).backend_name@
                        == backend_name@ && forall|j: int|
                        0 <= j < k ==> (#[trigger] entries@[j]).backend_name@ != backend_name@;
                assert(k == i) by {
                    if k < i {
                    } else if k > i {
                        assert(entries@[i as int].backend_name@ == backend_name@);
                    }
                }
            }
            return Some(*e);
        }
        i = i + 1;
    }
    None
}

} // verus!
