//! The closed set of fatal conditions a lifecycle command can diagnose.
//!
//! Every variant is raised before any mutating daemon call, so a failed
//! provisioning attempt never leaves a partially created session behind.

use vstd::prelude::*;

verus! {

/// A fatal condition detected while provisioning or operating the session.
#[derive(Clone, Copy, Debug, PartialEq, Eq, Structural)]
pub enum SessionError {
    /// The host exposes no graphics device node at all; there is nothing to
    /// render to.
    NoGpuDevice,
    /// Neither an X11 nor a Wayland display transport is active; there is
    /// nothing to display to.
    NoDisplaySession,
    /// An Nvidia device node is present but the Nvidia container toolkit is
    /// absent from the executable search path; the GPU cannot be safely
    /// exposed to the session.
    NvidiaToolkitMissing,
    /// The runtime daemon's local socket is absent or unresponsive.
    RuntimeUnreachable,
    /// The caller's identity (numeric user id, group id, or the per-user data
    /// root derived from the home directory) cannot be resolved.
    InvalidIdentity,
}

} // verus!
