//! Graph IR to `.thx` compilation: semantic validation of the IR, the
//! per-connection delay codecs and the target delay cap, the compile report,
//! and the artifact timestamp.

pub mod delays;
pub mod error;
pub mod laws;
pub mod lower;
pub mod timestamp;
pub mod validate;
