//! Host-side agent for chunked, resumable device firmware updates.
//!
//! The library holds the control plane of the update protocol: the wire
//! records exchanged between a device and a firmware source, the planner that
//! answers a device report from a firmware image held in memory, the session
//! logic that dispatches commands to a device, and the decisions of the cloud
//! long-poll exchange.
use vstd::prelude::*;

pub mod cloud;
pub mod codec;
pub mod driver;
pub mod error;
pub mod firmware;
pub mod gatt;
pub mod laws;
pub mod planner;
pub mod protocol;
pub mod simulator;
