//! `thrindex doctor`: the environment check report.

use vstd::prelude::*;
use crate::cli::targets::{THRINDEX_VERSION, push_repeated, repeat_text};
use crate::text::{decimal_digits, push_decimal};

verus! {

/// Arguments of `thrindex doctor`.
#[derive(Debug, Clone, PartialEq, Eq)]
pub struct DoctorArgs {
    /// Optional path to a `.thx` artifact to test for readability.
    pub check: Option<String>,
    /// Show the detail of every check.
    pub verbose: bool,
}

/// Outcome of one check.
#[derive(Debug, Clone, Copy, PartialEq, Eq, Structural)]
pub enum CheckStatus {
    Pass,
    Advisory,
    Fail,
}

/// One check of the report.
#[derive(Debug, Clone, PartialEq, Eq)]
pub struct Check {
    pub label: String,
    pub status: CheckStatus,
    pub detail: Option<String>,
}

/// The three-character marker of a check status.
pub open spec fn icon_spec(status: CheckStatus) -> Seq<char> {
    match status {
        CheckStatus::Pass => "OK "@,
        CheckStatus::Advisory => "?  "@,
        CheckStatus::Fail => "ERR"@,
    }
}

impl CheckStatus {
    /// The three-character marker of this status.
    pub fn icon(&self) -> (s: &'static str)
        ensures
            s@ == icon_spec(*self),
    {
        match self {
            CheckStatus::Pass => "OK ",
            CheckStatus::Advisory => "?  ",
            CheckStatus::Fail => "ERR",
        }
    }
}

/// Index of the first line feed at or after `i`, or the length.
pub open spec fn line_end(s: Seq<char>, i: int) -> int
    decreases s.len() - i,
{
    if i < 0 || i >= s.len() {
        s.len() as int
    } else if s[i] == '\n' {
        i
    } else {
        line_end(s, i + 1)
    }
}

/// Where the line starting at `i` ends.
pub proof fn lemma_line_end_bound(s: Seq<char>, i: int)
    requires
        0 <= i,
    ensures
        i <= line_end(s, i) <= s.len() || (i > s.len() && line_end(s, i) == s.len()),
        line_end(s, i) < s.len() ==> s[line_end(s, i)] == '\n',
    decreases s.len() - i,
{
    if i < s.len() && s[i] != '\n' {
        lemma_line_end_bound(s, i + 1);
    }
}

/// The lines of a text as `str::lines` gives them: split at each line feed,
/// a carriage return before it dropped, no line after a final line feed.
pub open spec fn lines_of(s: Seq<char>) -> Seq<Seq<char>>
    decreases s.len(),
{
    if s.len() == 0 {
        Seq::empty()
    } else {
        let k = line_end(s, 0);
        proof {
            lemma_line_end_bound(s, 0);
        }
        let line = if k < s.len() && k > 0 && s[k - 1] == '\r' {
            s.subrange(0, k - 1)
        } else {
            s.subrange(0, k)
        };
        let rest = if k < s.len() {
            s.subrange(k + 1, s.len() as int)
        } else {
            Seq::empty()
        };
        seq![line] + lines_of(rest)
    }
}

/// Detail lines as the report indents them.
pub open spec fn detail_block(lines: Seq<Seq<char>>) -> Seq<char>
    decreases lines.len(),
{
    if lines.len() == 0 {
        Seq::empty()
    } else {
        "        "@ + lines[0] + "\n"@ + detail_block(lines.drop_first())
    }
}

/// The report entry of one check.
pub open spec fn check_entry(c: Check, verbose: bool) -> Seq<char> {
    " ["@ + icon_spec(c.status) + "]  "@ + c.label@ + "\n"@ + if (verbose || c.status
        != CheckStatus::Pass) && c.detail is Some {
        detail_block(lines_of(c.detail->0@))
    } else {
        Seq::empty()
    }
}

/// The report entries of a check list.
pub open spec fn check_entries(cs: Seq<Check>, verbose: bool) -> Seq<char>
    decreases cs.len(),
{
    if cs.len() == 0 {
        Seq::empty()
    } else {
        check_entries(cs.drop_last(), verbose) + check_entry(cs.last(), verbose)
    }
}

/// Number of checks with a status.
pub open spec fn count_status(cs: Seq<Check>, st: CheckStatus) -> nat
    decreases cs.len(),
{
    if cs.len() == 0 {
        0
    } else {
        count_status(cs.drop_last(), st) + if cs.last().status == st {
            1nat
        } else {
            0nat
        }
    }
}

/// The summary line: failures first, then advisories, else all passed.
pub open spec fn summary_line(fails: nat, advisories: nat) -> Seq<char> {
    if fails > 0 {
        " "@ + decimal_digits(fails) + " failure(s). Run `thrindex doctor --verbose` for details.\n"@
    } else if advisories > 0 {
        " "@ + decimal_digits(advisories)
            + " advisory. Run `thrindex doctor --verbose` for details.\n"@
    } else {
        " All checks passed.\n"@
    }
}

/// The rendered doctor report.
pub open spec fn report_text(cs: Seq<Check>, verbose: bool) -> Seq<char> {
    let border = repeat_text("═"@, 55);
    border + "\n"@ + " thrindex doctor v"@ + THRINDEX_VERSION@ + "\n"@ + border + "\n"@
        + check_entries(cs, verbose) + border + "\n"@ + summary_line(
        count_status(cs, CheckStatus::Fail),
        count_status(cs, CheckStatus::Advisory),
    ) + border + "\n"@
}

/// Append the indented lines of a detail text.
fn push_detail_lines(s: &mut String, detail: &str)
    ensures
        final(s)@ == old(s)@ + detail_block(lines_of(detail@)),
    decreases detail@.len(),
{
    let n = detail.unicode_len();
    if n == 0 {
        return;
    }
    let mut k: usize = 0;
    while k < n && detail.get_char(k) != '\n'
        invariant
            n == detail@.len(),
            k <= n,
            line_end(detail@, 0) == line_end(detail@, k as int),
        decreases n - k,
    {
        k = k + 1;
    }
    let line_len = if k < n && k > 0 && detail.get_char(k - 1) == '\r' {
        k - 1
    } else {
        k
    };
    s.append("        ");
    s.append(detail.substring_char(0, line_len));
    s.append("\n");
    let rest = if k < n {
        detail.substring_char(k + 1, n)
    } else {
        detail.substring_char(n, n)
    };
    proof {
        lemma_line_end_bound(detail@, 0);
        assert(k == line_end(detail@, 0));
        if k < n {
            assert(rest@ =~= detail@.subrange(k + 1, n as int));
        } else {
            assert(rest@ =~= Seq::<char>::empty());
        }
    }
    push_detail_lines(s, rest);
    proof {
        let ls = lines_of(detail@);
        assert(ls.drop_first() =~= lines_of(rest@));
        assert(final(s)@ =~= old(s)@ + detail_block(ls));
    }
}

/// Render the report of a list of checks; details are shown for every check
/// when `verbose`, otherwise only for checks that did not pass.
pub fn render_report(checks: &Vec<Check>, verbose: bool) -> (s: String)
    ensures
        s@ == report_text(checks@, verbose),
{
    let mut s = String::new();
    push_repeated(&mut s, "═", 55);
    s.append("\n");
    s.append(" thrindex doctor v");
    s.append(THRINDEX_VERSION);
    s.append("\n");
    push_repeated(&mut s, "═", 55);
    s.append("\n");
    let ghost header = s@;
    let mut fails: usize = 0;
    let mut advisories: usize = 0;
    let mut i: usize = 0;
    while i < checks.len()
        invariant
            i <= checks@.len(),
            s@ == header + check_entries(checks@.subrange(0, i as int), verbose),
            fails == count_status(checks@.subrange(0, i as int), CheckStatus::Fail),
            advisories == count_status(checks@.subrange(0, i as int), CheckStatus::Advisory),
            fails <= i,
            advisories <= i,
        decreases checks.len() - i,
    {
        let c = &checks[i];
        let ghost before = s@;
        s.append(" [");
        s.append(c.status.icon());
        s.append("]  ");
        s.append(c.label.as_str());
        s.append("\n");
        if verbose || c.status != CheckStatus::Pass {
            if let Some(d) = &c.detail {
                push_detail_lines(&mut s, d.as_str());
            }
        }
        if c.status == CheckStatus::Fail {
            fails = fails + 1;
        } else if c.status == CheckStatus::Advisory {
            advisories = advisories + 1;
        }
        proof {
            let pre = checks@.subrange(0, i + 1);
            assert(pre.drop_last() =~= checks@.subrange(0, i as int));
            assert(pre.last() == checks@[i as int]);
            assert(s@ =~= before + check_entry(checks@[i as int], verbose));
        }
        i = i + 1;
    }
    proof {
        assert(checks@.subrange(0, checks@.len() as int) =~= checks@);
    }
    push_repeated(&mut s, "═", 55);
    s.append("\n");
    if fails > 0 {
        s.append(" ");
        push_decimal(&mut s, fails as u64);
        s.append(" failure(s). Run `thrindex doctor --verbose` for details.\n");
    } else if advisories > 0 {
        s.append(" ");
        push_decimal(&mut s, advisories as u64);
        s.append(" advisory. Run `thrindex doctor --verbose` for details.\n");
    } else {
        s.append(" All checks passed.\n");
    }
    push_repeated(&mut s, "═", 55);
    s.append("\n");
    s
}

/// The label of the artifact check for `path`.
pub open spec fn artifact_label(path: Seq<char>) -> Seq<char> {
    "artifact: "@ + path
}

/// The checks the doctor runs: the simulator self-check, then, when
/// `args.check` names an artifact, whether it loaded (`Ok` with its layer
/// count, or the load error's message).
pub open spec fn doctor_checks_ok(checks: Seq<Check>, args: DoctorArgs, outcome: Option<Result<usize, String>>) -> bool {
    &&& checks.len() == if args.check is Some && outcome is Some {
        2int
    } else {
        1int
    }
    &&& checks[0].label@ == "thrindex-sim "@ + THRINDEX_VERSION@
    &&& checks[0].status == CheckStatus::Pass
    &&& (checks[0].detail matches Some(d) && d@ == "core simulator library loaded successfully"@)
    &&& (args.check is Some && outcome is Some) ==> {
        &&& checks[1].label@ == artifact_label(args.check->0@)
        &&& match outcome->0 {
            Ok(n) => checks[1].status == CheckStatus::Pass && (checks[1].detail matches Some(d)
                && d@ == decimal_digits(n as nat) + " layers — format OK"@),
            Err(m) => checks[1].status == CheckStatus::Fail && (checks[1].detail matches Some(d)
                && d@ == m@),
        }
    }
}

/// Execute `thrindex doctor`, given the outcome of loading the artifact named
/// by `args.check` (its layer count, or the load error's message). Returns the
/// rendered report.
pub fn run(args: &DoctorArgs, artifact_outcome: Option<Result<usize, String>>) -> (s: String)
    ensures
        exists|checks: Seq<Check>|
            doctor_checks_ok(checks, *args, artifact_outcome) && s@ == #[trigger] report_text(
                checks,
                args.verbose,
            ),
{
    let mut checks: Vec<Check> = Vec::new();
    let mut label = "thrindex-sim ".to_owned();
    label.append(THRINDEX_VERSION);
    checks.push(
        Check {
            label,
            status: CheckStatus::Pass,
            detail: Some("core simulator library loaded successfully".to_owned()),
        },
    );
    if let Some(path) = &args.check {
        if let Some(outcome) = artifact_outcome {
            let mut label = "artifact: ".to_owned();
            label.append(path.as_str());
            match outcome {
                Ok(n) => {
                    let mut d = String::new();
                    push_decimal(&mut d, n as u64);
                    d.append(" layers — format OK");
                    checks.push(Check { label, status: CheckStatus::Pass, detail: Some(d) });
                },
                Err(m) => {
                    checks.push(Check { label, status: CheckStatus::Fail, detail: Some(m) });
                },
            }
        }
    }
    let s = render_report(&checks, args.verbose);
    proof {
        assert(doctor_checks_ok(checks@, *args, artifact_outcome));
    }
    s
}

} // verus!
