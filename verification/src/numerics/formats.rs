//! Named fixed-point formats.

use vstd::prelude::*;
use crate::numerics::fixed::Q;

verus! {

/// Q4.4: 8 bits, resolution 1/16.
pub type Q4_4 = Q<4, 4>;

/// Q1.7: 8 bits, range [-1, 1), resolution 1/128.
pub type Q1_7 = Q<1, 7>;

/// Q8.8: 16 bits, resolution 1/256.
pub type Q8_8 = Q<8, 8>;

/// Q4.12: 16 bits, resolution 1/4096.
pub type Q4_12 = Q<4, 12>;

/// Q16.16: 32 bits, resolution 1/65536.
pub type Q16_16 = Q<16, 16>;

/// Q1.31: 32 bits, range [-1, 1), resolution 2^-31.
pub type Q1_31 = Q<1, 31>;

} // verus!
