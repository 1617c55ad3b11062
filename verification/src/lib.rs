//! Provisioning and lifecycle planning for a single sandboxed, GPU-accelerated,
//! display-attached application session managed through a container runtime
//! daemon.
//!
//! This library holds the decision logic: host capability detection, layered
//! storage layout, construction of the hardened execution specification, and
//! the lifecycle state machine. The surrounding binary performs the actual
//! filesystem probes and daemon calls and hands this library plain values.

pub mod capabilities;
pub mod errors;
pub mod execspec;
pub mod lifecycle;
pub mod numfmt;
pub mod probes;
pub mod storage;

pub use errors::SessionError;
