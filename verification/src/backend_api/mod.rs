//! The execution-backend interface: the capability enumerations a backend
//! declares and the error a backend run produces.

pub mod capability;
pub mod error;
