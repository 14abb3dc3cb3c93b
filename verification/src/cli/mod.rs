//! The `thrindex` command line: argument records of each subcommand and the
//! text each renders.

pub mod bench;
pub mod doctor;
pub mod run;
pub mod targets;
