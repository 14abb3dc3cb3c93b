pub mod akida;
pub mod artifact;
pub mod backend_api;
pub mod cli;
pub mod codec;
pub mod compiler;
pub mod ir;
pub mod numerics;
pub mod sim;
pub mod text;
pub mod conformance;
