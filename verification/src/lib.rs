//! Host-side core for running sandboxed "capsules" (independently compiled
//! binary modules) on a small networked device.
//!
//! The crate covers the pieces whose correctness carries the whole system:
//! the capsule lifecycle state machine, the two transfer-reassembly protocols
//! that feed new capsule binaries into it (a raw length-prefixed datagram
//! protocol and a CoAP Block1 resource), the resource-budget bookkeeping that
//! bounds a running capsule, and the supervisor decisions that race a running
//! capsule against an incoming replacement.
//!
//! Everything that touches hardware, sockets or an execution engine stays
//! outside: the library works on plain values and hands decisions back to its
//! caller.

pub mod ble;
pub mod block1;
pub mod config;
pub mod fuel;
pub mod hosts;
pub mod lifecycle;
pub mod net_types;
pub mod supervisor;
pub mod transfer;
