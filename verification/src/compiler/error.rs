//! Compiler errors; each variant maps to a stable `E####` code.

use vstd::prelude::*;
use crate::text::{debug_quoted, decimal_digits, push_debug_quoted, push_decimal};

verus! {

/// Compiler errors. Continuous-time quantities (time constants, timesteps,
/// ratios) are carried as the text they are displayed with, rendered by the
/// caller that computed them.
#[derive(Debug, Clone, PartialEq, Eq)]
pub enum CompileError {
    /// E0101: a LIF layer's membrane time constant does not exceed the
    /// effective timestep (both in milliseconds, four decimals).
    TauMemTooSmall { layer_idx: usize, tau_mem: String, effective_dt: String },
    /// E0102: a delay rescaled to the target timestep is not a whole number of
    /// steps (timesteps with four decimals, the ratio with six).
    RetimingDelayNotInteger {
        layer_idx: usize,
        conn_idx: u32,
        delay_steps: u16,
        authored_dt: String,
        target_dt: String,
        ratio: String,
    },
    /// E0103: a delay exceeds the target's declared maximum and the target
    /// rejects over-cap delays.
    DelayExceedsTargetMax { layer_idx: usize, conn_idx: u32, delay_steps: u16, max_steps: u16 },
    /// E0104: the target has no native delay support and emulation is off.
    NoNativeDelaySupport { layer_idx: usize },
    /// E0105: the model has no layers.
    EmptyModel,
    /// E0106: consecutive layers have incompatible dimensions.
    DimensionMismatch { layer_idx: usize, prev_idx: usize, expected: usize, got: usize },
    /// E0107: a LIF reset mode string is not recognised.
    InvalidResetMode { layer_idx: usize, mode: String },
    /// E0108: the Graph IR could not be read.
    IrJsonParseError { detail: String },
    /// E0109: a dense delay array does not have `in × out` entries.
    DelayLengthMismatch { layer_idx: usize, expected: usize, got: usize },
}

/// The rendered message of a [`CompileError`]: what happened, why, how to
/// fix it, and where the code is documented.
pub open spec fn compile_error_message(e: CompileError) -> Seq<char> {
    match e {
        CompileError::TauMemTooSmall { layer_idx, tau_mem, effective_dt } =>
            "E0101: LIF tau_mem too small for effective dt in layer "@ + decimal_digits(layer_idx as nat)
            + "\nWhy: tau_mem="@ + tau_mem@ + " ms is ≤ dt="@ + effective_dt@
            + " ms; the membrane would lose all history within one step (ADR-0005 guard, ADR-0008).\nFix: set tau_mem > "@
            + effective_dt@
            + " ms when constructing the LIF layer.\nDocs: https://docs.thrindex.com/errors/E0101"@,
        CompileError::RetimingDelayNotInteger {
            layer_idx,
            conn_idx,
            delay_steps,
            authored_dt,
            target_dt,
            ratio,
        } => "E0102: synaptic delay cannot be retimed in layer "@ + decimal_digits(layer_idx as nat)
            + " connection "@ + decimal_digits(conn_idx as nat) + "\nWhy: delay_steps="@
            + decimal_digits(delay_steps as nat) + " × (authored_dt="@ + authored_dt@
            + " ms / target_dt="@ + target_dt@ + " ms) = "@ + ratio@
            + " is not an integer; sub-step delay precision is not available.\nFix: use a delay that is an integer multiple of target_dt / authored_dt, or author the model at target_dt directly.\nDocs: https://docs.thrindex.com/errors/E0102"@,
        CompileError::DelayExceedsTargetMax { layer_idx, conn_idx, delay_steps, max_steps } =>
            "E0103: synaptic delay exceeds target maximum in layer "@ + decimal_digits(layer_idx as nat)
            + " connection "@ + decimal_digits(conn_idx as nat) + "\nWhy: delay_steps="@
            + decimal_digits(delay_steps as nat) + " > native_delay_max_steps="@ + decimal_digits(
            max_steps as nat,
        )
            + " for this target, and delay_fallback is \"reject\".\nFix: reduce the delay to ≤ "@
            + decimal_digits(max_steps as nat)
            + " steps, or use a target that supports longer delays or emulation.\nDocs: https://docs.thrindex.com/errors/E0103"@,
        CompileError::NoNativeDelaySupport { layer_idx } =>
            "E0104: target has no native delay support and emulation is disabled in layer "@
            + decimal_digits(layer_idx as nat)
            + "\nWhy: this target's capability descriptor declares native_delay_max_steps=0 and delay_fallback=\"reject\".\nFix: use the \"sim\" target (which emulates delays via ring buffers), or remove delays from the model.\nDocs: https://docs.thrindex.com/errors/E0104"@,
        CompileError::EmptyModel =>
            "E0105: model has no layers\nWhy: an empty Sequential cannot be compiled or simulated.\nFix: add at least one layer to the model before calling thx.compile().\nDocs: https://docs.thrindex.com/errors/E0105"@,
        CompileError::DimensionMismatch { layer_idx, prev_idx, expected, got } =>
            "E0106: layer dimension mismatch at layer "@ + decimal_digits(layer_idx as nat)
            + "\nWhy: layer "@ + decimal_digits(layer_idx as nat) + " declares "@ + decimal_digits(
            expected as nat,
        ) + " input features but layer "@ + decimal_digits(prev_idx as nat) + " produces "@
            + decimal_digits(got as nat)
            + " output features.\nFix: recheck the architecture — input/output sizes must chain correctly.\nDocs: https://docs.thrindex.com/errors/E0106"@,
        CompileError::InvalidResetMode { layer_idx, mode } => "E0107: invalid LIF reset mode "@
            + debug_quoted(mode@) + " in layer "@ + decimal_digits(layer_idx as nat)
            + "\nWhy: reset must be \"subtract\" or \"zero\" (Playbook §28 canonical vocab).\nFix: change reset to \"subtract\" or \"zero\" when constructing the LIF layer.\nDocs: https://docs.thrindex.com/errors/E0107"@,
        CompileError::IrJsonParseError { detail } => "E0108: Graph IR JSON parse error: "@ + detail@
            + "\nWhy: the input is not valid Graph IR JSON (produced by thx.compile's Python extraction pass).\nFix: verify the Graph IR was produced by a current version of the thrindex Python SDK.\nDocs: https://docs.thrindex.com/errors/E0108"@,
        CompileError::DelayLengthMismatch { layer_idx, expected, got } =>
            "E0109: delay array length mismatch in layer "@ + decimal_digits(layer_idx as nat)
            + "\nWhy: a dense delay array must have exactly in_features × out_features = "@
            + decimal_digits(expected as nat) + " entries, but it has "@ + decimal_digits(got as nat)
            + " entries.\nFix: recompile the model — the Graph IR delay data may be corrupt.\nDocs: https://docs.thrindex.com/errors/E0109"@,
    }
}

impl CompileError {
    /// The rendered message.
    pub fn message(&self) -> (m: String)
        ensures
            m@ == compile_error_message(*self),
    {
        let mut s = String::new();
        match self {
            CompileError::TauMemTooSmall { layer_idx, tau_mem, effective_dt } => {
                s.append("E0101: LIF tau_mem too small for effective dt in layer ");
                push_decimal(&mut s, *layer_idx as u64);
                s.append("\nWhy: tau_mem=");
                s.append(tau_mem.as_str());
                s.append(" ms is ≤ dt=");
                s.append(effective_dt.as_str());
                s.append(
                    " ms; the membrane would lose all history within one step (ADR-0005 guard, ADR-0008).\nFix: set tau_mem > ",
                );
                s.append(effective_dt.as_str());
                s.append(" ms when constructing the LIF layer.\nDocs: https://docs.thrindex.com/errors/E0101");
            },
            CompileError::RetimingDelayNotInteger {
                layer_idx,
                conn_idx,
                delay_steps,
                authored_dt,
                target_dt,
                ratio,
            } => {
                s.append("E0102: synaptic delay cannot be retimed in layer ");
                push_decimal(&mut s, *layer_idx as u64);
                s.append(" connection ");
                push_decimal(&mut s, *conn_idx as u64);
                s.append("\nWhy: delay_steps=");
                push_decimal(&mut s, *delay_steps as u64);
                s.append(" × (authored_dt=");
                s.append(authored_dt.as_str());
                s.append(" ms / target_dt=");
                s.append(target_dt.as_str());
                s.append(" ms) = ");
                s.append(ratio.as_str());
                s.append(
                    " is not an integer; sub-step delay precision is not available.\nFix: use a delay that is an integer multiple of target_dt / authored_dt, or author the model at target_dt directly.\nDocs: https://docs.thrindex.com/errors/E0102",
                );
            },
            CompileError::DelayExceedsTargetMax { layer_idx, conn_idx, delay_steps, max_steps } => {
                s.append("E0103: synaptic delay exceeds target maximum in layer ");
                push_decimal(&mut s, *layer_idx as u64);
                s.append(" connection ");
                push_decimal(&mut s, *conn_idx as u64);
                s.append("\nWhy: delay_steps=");
                push_decimal(&mut s, *delay_steps as u64);
                s.append(" > native_delay_max_steps=");
                push_decimal(&mut s, *max_steps as u64);
                s.append(" for this target, and delay_fallback is \"reject\".\nFix: reduce the delay to ≤ ");
                push_decimal(&mut s, *max_steps as u64);
                s.append(
                    " steps, or use a target that supports longer delays or emulation.\nDocs: https://docs.thrindex.com/errors/E0103",
                );
            },
            CompileError::NoNativeDelaySupport { layer_idx } => {
                s.append("E0104: target has no native delay support and emulation is disabled in layer ");
                push_decimal(&mut s, *layer_idx as u64);
                s.append(
                    "\nWhy: this target's capability descriptor declares native_delay_max_steps=0 and delay_fallback=\"reject\".\nFix: use the \"sim\" target (which emulates delays via ring buffers), or remove delays from the model.\nDocs: https://docs.thrindex.com/errors/E0104",
                );
            },
            CompileError::EmptyModel => {
                s.append(
                    "E0105: model has no layers\nWhy: an empty Sequential cannot be compiled or simulated.\nFix: add at least one layer to the model before calling thx.compile().\nDocs: https://docs.thrindex.com/errors/E0105",
                );
            },
            CompileError::DimensionMismatch { layer_idx, prev_idx, expected, got } => {
                s.append("E0106: layer dimension mismatch at layer ");
                push_decimal(&mut s, *layer_idx as u64);
                s.append("\nWhy: layer ");
                push_decimal(&mut s, *layer_idx as u64);
                s.append(" declares ");
                push_decimal(&mut s, *expected as u64);
                s.append(" input features but layer ");
                push_decimal(&mut s, *prev_idx as u64);
                s.append(" produces ");
                push_decimal(&mut s, *got as u64);
                s.append(
                    " output features.\nFix: recheck the architecture — input/output sizes must chain correctly.\nDocs: https://docs.thrindex.com/errors/E0106",
                );
            },
            CompileError::InvalidResetMode { layer_idx, mode } => {
                s.append("E0107: invalid LIF reset mode ");
                push_debug_quoted(&mut s, mode.as_str());
                s.append(" in layer ");
                push_decimal(&mut s, *layer_idx as u64);
                s.append(
                    "\nWhy: reset must be \"subtract\" or \"zero\" (Playbook §28 canonical vocab).\nFix: change reset to \"subtract\" or \"zero\" when constructing the LIF layer.\nDocs: https://docs.thrindex.com/errors/E0107",
                );
            },
            CompileError::IrJsonParseError { detail } => {
                s.append("E0108: Graph IR JSON parse error: ");
                s.append(detail.as_str());
                s.append(
                    "\nWhy: the input is not valid Graph IR JSON (produced by thx.compile's Python extraction pass).\nFix: verify the Graph IR was produced by a current version of the thrindex Python SDK.\nDocs: https://docs.thrindex.com/errors/E0108",
                );
            },
            CompileError::DelayLengthMismatch { layer_idx, expected, got } => {
                s.append("E0109: delay array length mismatch in layer ");
                push_decimal(&mut s, *layer_idx as u64);
                s.append("\nWhy: a dense delay array must have exactly in_features × out_features = ");
                push_decimal(&mut s, *expected as u64);
                s.append(" entries, but it has ");
                push_decimal(&mut s, *got as u64);
                s.append(
                    " entries.\nFix: recompile the model — the Graph IR delay data may be corrupt.\nDocs: https://docs.thrindex.com/errors/E0109",
                );
            },
        }
        s
    }
}

} // verus!
