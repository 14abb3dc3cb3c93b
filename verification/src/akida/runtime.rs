//! Decisions of the device-side AKD1500 runtime: its command line, the batch
//! shape it accepts, and the shape of the device output.

use vstd::prelude::*;
use crate::text::{decimal_digits, push_decimal, str_eq};

verus! {

/// The PCIe address used when none is given.
pub open spec fn default_pcie_addr() -> Seq<char> {
    "0001:01:00.0"@
}

/// The argument looks like a flag: it starts with `--`.
pub open spec fn is_flag(arg: Seq<char>) -> bool {
    arg.len() >= 2 && arg[0] == '-' && arg[1] == '-'
}

/// Scan the arguments from position `i` with the program path and PCIe
/// address found so far: `--pcie-addr ADDR` sets the address, any other flag
/// is refused, and any other argument is the program path (a later one
/// replacing an earlier one).
pub open spec fn scan_args(
    args: Seq<Seq<char>>,
    i: int,
    fbz: Option<Seq<char>>,
    pcie: Seq<char>,
) -> Result<(Option<Seq<char>>, Seq<char>), Seq<char>>
    decreases args.len() - i,
{
    if i < 0 || i >= args.len() {
        Ok((fbz, pcie))
    } else if args[i] == "--pcie-addr"@ && i + 1 < args.len() {
        scan_args(args, i + 2, fbz, args[i + 1])
    } else if is_flag(args[i]) {
        Err("E0204: unknown flag "@ + args[i])
    } else {
        scan_args(args, i + 1, Some(args[i]), pcie)
    }
}

/// The runtime's reading of its command line `args` (program name first): the
/// program path and the PCIe address, or the error message it prints.
pub open spec fn runtime_args_spec(args: Seq<Seq<char>>) -> Result<(Seq<char>, Seq<char>), Seq<char>> {
    match scan_args(args, 1, None, default_pcie_addr()) {
        Err(m) => Err(m),
        Ok((None, _)) => Err("E0204: usage: akida-runtime <fbz_path> [--pcie-addr ADDR]"@),
        Ok((Some(f), p)) => Ok((f, p)),
    }
}

/// The character views of a list of strings.
pub open spec fn arg_views(args: Seq<String>) -> Seq<Seq<char>> {
    args.map_values(|s: String| s@)
}

/// The runtime's command line, read.
#[derive(Debug, Clone, PartialEq, Eq)]
pub struct RuntimeArgs {
    /// Path of the compiled `.fbz` program.
    pub fbz_path: String,
    /// PCIe address of the device.
    pub pcie_addr: String,
}

/// Whether `s` starts with `--`.
fn starts_with_dashes(s: &str) -> (r: bool)
    ensures
        r == is_flag(s@),
{
    let n = s.unicode_len();
    n >= 2 && s.get_char(0) == '-' && s.get_char(1) == '-'
}

/// Read the runtime's command line: `akida-runtime <fbz_path> [--pcie-addr ADDR]`,
/// `args[0]` being the program name.
pub fn parse_runtime_args(args: &Vec<String>) -> (r: Result<RuntimeArgs, String>)
    ensures
        match (r, runtime_args_spec(arg_views(args@))) {
            (Ok(a), Ok((f, p))) => a.fbz_path@ == f && a.pcie_addr@ == p,
            (Err(m), Err(sm)) => m@ == sm,
            _ => false,
        },
{
    let ghost views = arg_views(args@);
    let mut fbz: Option<String> = None;
    let mut pcie = "0001:01:00.0".to_owned();
    let mut i: usize = 1;
    proof {
        reveal_strlit("0001:01:00.0");
    }
    while i < args.len()
        invariant
            views == arg_views(args@),
            views.len() == args@.len(),
            1 <= i,
            scan_args(views, 1, None, default_pcie_addr()) == scan_args(
                views,
                i as int,
                match fbz {
                    Some(f) => Some(f@),
                    None => None,
                },
                pcie@,
            ),
        decreases args.len() - i,
    {
        proof {
            assert(views[i as int] == args@[i as int]@);
        }
        let a = args[i].as_str();
        if str_eq(a, "--pcie-addr") && i + 1 < args.len() {
            proof {
                assert(views[i + 1] == args@[i + 1]@);
            }
            pcie = args[i + 1].clone();
            i = i + 2;
        } else if starts_with_dashes(a) {
            let mut m = "E0204: unknown flag ".to_owned();
            m.append(a);
            return Err(m);
        } else {
            fbz = Some(args[i].clone());
            i = i + 1;
        }
    }
    match fbz {
        None => Err("E0204: usage: akida-runtime <fbz_path> [--pcie-addr ADDR]".to_owned()),
        Some(f) => Ok(RuntimeArgs { fbz_path: f, pcie_addr: pcie }),
    }
}

/// The E0407 message the runtime prints for sample `idx` with `t` timesteps.
pub open spec fn temporal_input_message(idx: nat, t: nat) -> Seq<char> {
    "E0407 [temporal-input-not-supported]: sample["@ + decimal_digits(idx) + "] has T="@
        + decimal_digits(t)
        + " timesteps; AKD1500 is a stateless single-frame backend (T must equal 1); split the spike train into individual frames before calling run_batch."@
}

/// Check the batch the runtime received, given each sample's timestep count:
/// every sample must have exactly one frame (E0407, naming the first sample
/// that does not). On success returns the number of samples; an empty batch
/// is answered with no outputs and no device call.
pub fn check_batch(sample_timesteps: &Vec<usize>) -> (r: Result<usize, String>)
    ensures
        r is Ok <==> forall|i: int| 0 <= i < sample_timesteps@.len() ==> #[trigger] sample_timesteps@[i] == 1,
        r matches Ok(n) ==> n == sample_timesteps@.len(),
        r matches Err(m) ==> exists|i: int|
            0 <= i < sample_timesteps@.len() && #[trigger] sample_timesteps@[i] != 1 && (forall|
                j: int,
            |
                0 <= j < i ==> #[trigger] sample_timesteps@[j] == 1) && m@ == temporal_input_message(
                i as nat,
                sample_timesteps@[i] as nat,
            ),
{
    let mut i: usize = 0;
    while i < sample_timesteps.len()
        invariant
            i <= sample_timesteps@.len(),
            forall|j: int| 0 <= j < i ==> #[trigger] sample_timesteps@[j] == 1,
        decreases sample_timesteps.len() - i,
    {
        let t = sample_timesteps[i];
        if t != 1 {
            let mut m = "E0407 [temporal-input-not-supported]: sample[".to_owned();
            push_decimal(&mut m, i as u64);
            m.append("] has T=");
            push_decimal(&mut m, t as u64);
            m.append(
                " timesteps; AKD1500 is a stateless single-frame backend (T must equal 1); split the spike train into individual frames before calling run_batch.",
            );
            return Err(m);
        }
        i = i + 1;
    }
    Ok(sample_timesteps.len())
}

/// Width of each sample's output, given the length of the flat device output
/// for `n_samples` samples; an empty output, or one shorter than the sample
/// count, is an E0204 error.
pub fn output_width(total: usize, n_samples: usize) -> (r: Result<usize, String>)
    requires
        n_samples > 0,
    ensures
        r is Ok <==> total >= n_samples,
        r matches Ok(w) ==> w == total / n_samples,
        total == 0 ==> (r matches Err(m) && m@ == "E0204: akida_run_batch returned empty output"@),
        0 < total < n_samples ==> (r matches Err(m) && m@ == "E0204: output length "@
            + decimal_digits(total as nat) + " is not divisible by n_samples "@ + decimal_digits(
            n_samples as nat,
        )),
{
    if total == 0 {
        return Err("E0204: akida_run_batch returned empty output".to_owned());
    }
    let w = total / n_samples;
    proof {
        assert((total / n_samples == 0) <==> total < n_samples) by (nonlinear_arith)
            requires
                n_samples > 0,
        ;
    }
    if w == 0 {
        let mut m = "E0204: output length ".to_owned();
        push_decimal(&mut m, total as u64);
        m.append(" is not divisible by n_samples ");
        push_decimal(&mut m, n_samples as u64);
        return Err(m);
    }
    Ok(w)
}

/// A 4-bit feature level as the device's `u8` input: `level × 17`, saturating
/// at 255 (so 15 maps to 255).
pub fn scale_4bit_level(level: u8) -> (v: u8)
    ensures
        v == (if level * 17 > 255 {
            255
        } else {
            level * 17
        }),
{
    if level > 15 {
        255
    } else {
        level * 17
    }
}

} // verus!
