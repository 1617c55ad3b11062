//! Host capability detection: GPU vendor and display transport.
//!
//! The surrounding binary performs the read-only filesystem and environment
//! probes and hands the raw observations here; the decisions below are the
//! contract of what those observations mean for the session.

use vstd::prelude::*;
use crate::errors::SessionError;

verus! {

/// The GPU vendor class the session is provisioned for. A host without any
/// graphics device never yields a vendor: detection fails instead.
#[derive(Clone, Copy, Debug, PartialEq, Eq, Structural)]
pub enum GpuVendor {
    /// An Intel or AMD device driven by Mesa; runtime-transparent.
    Mesa,
    /// An Nvidia device; requires the Nvidia container toolkit.
    Nvidia,
}

/// The active display transport. Absence of both signals is modelled as
/// `None` at the detection boundary.
#[derive(Clone, Copy, Debug, PartialEq, Eq, Structural)]
pub enum DisplayTransport {
    X11,
    Wayland,
}

/// What the display-transport decision returns for a pair of signals:
/// Wayland takes precedence whenever its signal is set, X11 is chosen only
/// when it is the sole signal, and no transport is reported otherwise.
pub open spec fn transport_decision(wayland_set: bool, x11_set: bool) -> Option<DisplayTransport> {
    if wayland_set {
        Some(DisplayTransport::Wayland)
    } else if x11_set {
        Some(DisplayTransport::X11)
    } else {
        None
    }
}

/// Chooses the display transport from the two environment signals.
pub fn detect_display_transport(wayland_set: bool, x11_set: bool) -> (r: Option<DisplayTransport>)
    ensures
        r == transport_decision(wayland_set, x11_set),
        wayland_set ==> r == Some(DisplayTransport::Wayland),
        r is None <==> !wayland_set && !x11_set,
{
    if wayland_set {
        Some(DisplayTransport::Wayland)
    } else if x11_set {
        Some(DisplayTransport::X11)
    } else {
        None
    }
}

/// Precedence law: when the Wayland and X11 signals are both set, Wayland is
/// chosen.
pub proof fn lemma_wayland_precedence(x11_set: bool)
    ensures
        transport_decision(true, x11_set) == Some(DisplayTransport::Wayland),
{
}

/// What the GPU decision returns for a triple of observations: no graphics
/// device node at all is fatal; an Nvidia device node without the container
/// toolkit on the search path is fatal; an Nvidia device with the toolkit
/// selects the Nvidia vendor; any other graphics device is Mesa-class.
pub open spec fn gpu_decision(
    dri_present: bool,
    nvidia_device_present: bool,
    toolkit_present: bool,
) -> Result<GpuVendor, SessionError> {
    if !dri_present {
        Err(SessionError::NoGpuDevice)
    } else if nvidia_device_present && !toolkit_present {
        Err(SessionError::NvidiaToolkitMissing)
    } else if nvidia_device_present {
        Ok(GpuVendor::Nvidia)
    } else {
        Ok(GpuVendor::Mesa)
    }
}

/// Decides the GPU vendor from the host observations: whether the graphics
/// device directory exists, whether the primary Nvidia device node exists,
/// and whether the Nvidia container toolkit is on the executable search path.
pub fn detect_gpu(dri_present: bool, nvidia_device_present: bool, toolkit_present: bool) -> (r:
    Result<GpuVendor, SessionError>)
    ensures
        r == gpu_decision(dri_present, nvidia_device_present, toolkit_present),
        r == Ok::<GpuVendor, SessionError>(GpuVendor::Nvidia) ==> toolkit_present,
        !dri_present ==> r == Err::<GpuVendor, SessionError>(SessionError::NoGpuDevice),
        dri_present && nvidia_device_present && !toolkit_present ==> r == Err::<
            GpuVendor,
            SessionError,
        >(SessionError::NvidiaToolkitMissing),
        dri_present && !nvidia_device_present ==> r == Ok::<GpuVendor, SessionError>(
            GpuVendor::Mesa,
        ),
{
    if !dri_present {
        Err(SessionError::NoGpuDevice)
    } else if nvidia_device_present {
        if !toolkit_present {
            Err(SessionError::NvidiaToolkitMissing)
        } else {
            Ok(GpuVendor::Nvidia)
        }
    } else {
        Ok(GpuVendor::Mesa)
    }
}

} // verus!
