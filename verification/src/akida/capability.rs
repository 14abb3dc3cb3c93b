//! Constants of the AKD1500 capability descriptor.

use vstd::prelude::*;

verus! {

/// Canonical `.thx` target name for this backend.
pub const AKD1500_TARGET_NAME: &'static str = "akida-akd1500";

/// Maximum absolute value used for 4-bit weight quantization: the signed
/// symmetric range is `[-7, 7]`, and the scale is `max |W| / 7`.
pub const AKD1500_WEIGHT_MAX: i8 = 7;

/// Maximum synaptic delay in timesteps routed natively: none, as Akida 1.0
/// has no temporal neural processors.
pub const AKD1500_NATIVE_DELAY_MAX_STEPS: u16 = 0;

} // verus!
