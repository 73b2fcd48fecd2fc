//! Authorization and lifecycle logic for a two-party file transfer whose
//! record lives in a caller-supplied account buffer.
pub mod codec;
pub mod error;
pub mod instruction;
pub mod state;
pub mod zk;
pub mod processor;
pub mod lifecycle;
