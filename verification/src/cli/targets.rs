//! `thrindex targets`: the table of available execution targets.

use vstd::prelude::*;

verus! {

/// The version printed by the command line.
pub const THRINDEX_VERSION: &'static str = "0.3.0";

/// Arguments of `thrindex targets` (none).
#[derive(Debug, Clone, Copy, PartialEq, Eq)]
pub struct TargetsArgs {}

/// `n` copies of `s`, concatenated.
pub open spec fn repeat_text(s: Seq<char>, n: nat) -> Seq<char>
    decreases n,
{
    if n == 0 {
        Seq::empty()
    } else {
        repeat_text(s, (n - 1) as nat) + s
    }
}

/// Append `n` copies of `piece`.
pub fn push_repeated(s: &mut String, piece: &str, n: usize)
    ensures
        final(s)@ == old(s)@ + repeat_text(piece@, n as nat),
{
    let mut i: usize = 0;
    while i < n
        invariant
            i <= n,
            s@ == old(s)@ + repeat_text(piece@, i as nat),
        decreases n - i,
    {
        s.append(piece);
        i = i + 1;
        proof {
            assert(old(s)@ + repeat_text(piece@, i as nat) =~= old(s)@ + repeat_text(
                piece@,
                (i - 1) as nat,
            ) + piece@);
        }
    }
}

/// The rendered targets table.
pub open spec fn targets_text() -> Seq<char> {
    let border = repeat_text("═"@, 55);
    let sep = repeat_text("─"@, 55);
    border + "\n"@ + " thrindex "@ + THRINDEX_VERSION@ + "  —  available targets\n"@ + border
        + "\n"@ + " sim      Behavioral simulator (this build)\n"@
        + "          Precision: float32  |  ADR-0007\n"@
        + "          Deterministic, CPU-parallel (Rayon)\n"@ + sep + "\n"@
        + " Fixed-point targets: pending RFC-004 (target calibration)\n"@ + border + "\n"@
}

/// Execute `thrindex targets`: the rendered table.
pub fn run(_args: &TargetsArgs) -> (s: String)
    ensures
        s@ == targets_text(),
{
    let mut s = String::new();
    push_repeated(&mut s, "═", 55);
    s.append("\n");
    s.append(" thrindex ");
    s.append(THRINDEX_VERSION);
    s.append("  —  available targets\n");
    push_repeated(&mut s, "═", 55);
    s.append("\n");
    s.append(" sim      Behavioral simulator (this build)\n");
    s.append("          Precision: float32  |  ADR-0007\n");
    s.append("          Deterministic, CPU-parallel (Rayon)\n");
    push_repeated(&mut s, "─", 55);
    s.append("\n");
    s.append(" Fixed-point targets: pending RFC-004 (target calibration)\n");
    push_repeated(&mut s, "═", 55);
    s.append("\n");
    s
}

} // verus!
