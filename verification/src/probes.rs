//! Plain-value observations of the host, gathered by the surrounding binary.
//!
//! Everything the provisioning logic depends on is read once, up front, into
//! these types: device-node presence, the toolkit probe, the display and
//! data-directory environment values, and the caller's numeric identity.

use vstd::prelude::*;

verus! {

/// Presence of each node of the fixed Nvidia device-node candidate list.
#[derive(Clone, Copy, Debug, PartialEq, Eq, Structural)]
pub struct NvidiaNodes {
    /// `/dev/nvidia0`, the primary device.
    pub dev0: bool,
    /// `/dev/nvidiactl`, the control device.
    pub ctl: bool,
    /// `/dev/nvidia-modeset`, the mode-setting device.
    pub modeset: bool,
    /// `/dev/nvidia-uvm`, the unified-memory device.
    pub uvm: bool,
    /// `/dev/nvidia-uvm-tools`, the unified-memory tools device.
    pub uvm_tools: bool,
}

/// The caller's numeric identity, mapped unchanged into the session.
#[derive(Clone, Copy, Debug, PartialEq, Eq, Structural)]
pub struct Identity {
    pub uid: u32,
    pub gid: u32,
}

/// One coherent snapshot of the host state a lifecycle command acts on.
pub struct HostProbes {
    /// Whether the graphics device directory `/dev/dri` exists.
    pub dri_present: bool,
    /// Which Nvidia device nodes exist.
    pub nvidia: NvidiaNodes,
    /// Whether the Nvidia container toolkit is on the executable search path.
    pub toolkit_present: bool,
    /// The Wayland display address, when that environment signal is set.
    pub wayland_display: Option<String>,
    /// The X11 display address, when that environment signal is set.
    pub x11_display: Option<String>,
    /// The data-directory override, when set.
    pub xdg_data_home: Option<String>,
    /// The caller's home directory, when resolvable.
    pub home: Option<String>,
    /// The caller's numeric user and group id.
    pub identity: Identity,
}

/// The mathematical image of a host snapshot: strings as character sequences.
pub struct HostProbesView {
    pub dri_present: bool,
    pub nvidia: NvidiaNodes,
    pub toolkit_present: bool,
    pub wayland_display: Option<Seq<char>>,
    pub x11_display: Option<Seq<char>>,
    pub xdg_data_home: Option<Seq<char>>,
    pub home: Option<Seq<char>>,
    pub identity: Identity,
}

impl DeepView for HostProbes {
    type V = HostProbesView;

    open spec fn deep_view(&self) -> HostProbesView {
        HostProbesView {
            dri_present: self.dri_present,
            nvidia: self.nvidia,
            toolkit_present: self.toolkit_present,
            wayland_display: self.wayland_display.deep_view(),
            x11_display: self.x11_display.deep_view(),
            xdg_data_home: self.xdg_data_home.deep_view(),
            home: self.home.deep_view(),
            identity: self.identity,
        }
    }
}

} // verus!
