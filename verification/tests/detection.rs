use hackerosteam::capabilities::{detect_display_transport, detect_gpu, DisplayTransport, GpuVendor};
use hackerosteam::errors::SessionError;

#[test]
fn wayland_wins_when_both_signals_set() {
    assert_eq!(detect_display_transport(true, true), Some(DisplayTransport::Wayland));
}

#[test]
fn wayland_only() {
    assert_eq!(detect_display_transport(true, false), Some(DisplayTransport::Wayland));
}

#[test]
fn x11_only() {
    assert_eq!(detect_display_transport(false, true), Some(DisplayTransport::X11));
}

#[test]
fn no_display_signal() {
    assert_eq!(detect_display_transport(false, false), None);
}

#[test]
fn no_graphics_device_is_fatal() {
    assert_eq!(detect_gpu(false, false, false), Err(SessionError::NoGpuDevice));
    assert_eq!(detect_gpu(false, true, true), Err(SessionError::NoGpuDevice));
}

#[test]
fn nvidia_without_toolkit_is_fatal() {
    assert_eq!(detect_gpu(true, true, false), Err(SessionError::NvidiaToolkitMissing));
}

#[test]
fn nvidia_with_toolkit() {
    assert_eq!(detect_gpu(true, true, true), Ok(GpuVendor::Nvidia));
}

#[test]
fn mesa_always_succeeds() {
    assert_eq!(detect_gpu(true, false, false), Ok(GpuVendor::Mesa));
    assert_eq!(detect_gpu(true, false, true), Ok(GpuVendor::Mesa));
}
