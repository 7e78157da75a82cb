//! Screen-pixel sampling engine: colour and frame data model, the capture
//! backends' pixel logic, the fixed-rate sampling session and the command
//! control loop, each with its contract.

pub mod control;
pub mod protocol;
pub mod sampler;
pub mod session;
pub mod text;
pub mod types;
pub mod wire;
