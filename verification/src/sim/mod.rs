//! The behavioural simulator's artifact loading decisions: the format gate,
//! integrity check, layer type dispatch, reset modes, weight blob shape and
//! layer-to-layer dimension continuity.

pub mod error;
pub mod laws;
pub mod model;
