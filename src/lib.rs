//! Modbus RTU control of a burn-in test rig: the frame codec, the request
//! builders and decoders of each device, the decisions of a serial exchange,
//! and the windowed averaging and defect detection over stored polls.
use vstd::prelude::*;

pub mod aggregate;
pub mod colors;
pub mod config;
pub mod error;
pub mod mock;
pub mod power;
pub mod protocol;
pub mod relay;
pub mod task;
pub mod temperature;
pub mod transport;
pub mod user;
pub mod utils;
pub mod voltage;

verus! {

} // verus!
