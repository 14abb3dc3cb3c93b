//! Target descriptors and the compile report.

use vstd::prelude::*;
use crate::compiler::delays::DelayPolicy;
use crate::compiler::error::CompileError;
use crate::text::{debug_quoted, push_debug_quoted, str_eq};

verus! {

/// Delay fallback policy when native support is insufficient.
#[derive(Debug, Clone, Copy, PartialEq, Eq, Structural)]
pub enum DelayFallback {
    /// Emulate via a ring buffer (costs memory and cycles, but works).
    Emulate,
    /// Reject with E0103 or E0104.
    Reject,
}

/// Output of a successful compilation.
#[derive(Debug, Clone, PartialEq, Eq)]
pub struct CompileReport {
    /// The complete `.thx` artifact as a JSON string.
    pub thx_json: String,
    /// Retiming advisory emitted when the target timestep differs from the
    /// authored one; callers must surface it.
    pub advisory: Option<String>,
}

/// The delay policy of the `sim` target: any `u16` delay, emulated.
pub open spec fn sim_delay_policy() -> DelayPolicy {
    DelayPolicy { native_delay_max_steps: 0xffff, delay_fallback: DelayFallback::Emulate }
}

/// The delay policy of a compile target; only `sim` is known, any other
/// target is an E0108 error naming it.
pub fn delay_policy_for(target: &str) -> (r: Result<DelayPolicy, CompileError>)
    ensures
        r is Ok <==> target@ == "sim"@,
        r matches Ok(p) ==> p == sim_delay_policy(),
        r matches Err(e) ==> (e matches CompileError::IrJsonParseError { detail } && detail@
            == "unknown target "@ + debug_quoted(target@) + "; supported: \"sim\""@),
{
    if str_eq(target, "sim") {
        Ok(DelayPolicy { native_delay_max_steps: 0xffff, delay_fallback: DelayFallback::Emulate })
    } else {
        let mut d = "unknown target ".to_owned();
        push_debug_quoted(&mut d, target);
        d.append("; supported: \"sim\"");
        Err(CompileError::IrJsonParseError { detail: d })
    }
}

} // verus!
