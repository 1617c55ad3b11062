//! The session lifecycle state machine.
//!
//! Each command is planned here as a sequence of daemon calls from the
//! observations the surrounding binary hands over; the binary then performs
//! the calls in order, stopping at the first failure. Every capability check
//! fails before any mutating call is planned, so a failed `create` never
//! leaves a partially provisioned session.

use vstd::prelude::*;
use vstd::string::StringExecFns;
use crate::capabilities::{
    detect_display_transport, detect_gpu, gpu_decision, transport_decision, DisplayTransport,
};
use crate::errors::SessionError;
use crate::execspec::{build_model, build_spec, ExecutionSpec, ExecutionSpecView};
use crate::numfmt::{dec_digits, u64_to_dec};
use crate::probes::HostProbes;
use crate::probes::HostProbesView;
use crate::storage::{
    apply_provision_storage, apply_remove_storage, data_root_model, layout_model, resolve_layout,
    wf_storage, StorageLayout, StorageLayoutView, StorageState,
};
use crate::storage::lemma_upper_durable;

verus! {

/// The externally observed lifecycle state of the session; owned by the
/// runtime daemon and re-queried by every command, never cached.
#[derive(Clone, Copy, Debug, PartialEq, Eq, Structural)]
pub enum SessionState {
    Absent,
    Created,
    Running,
    Stopped,
}

/// The state an inspect observation denotes: a failed inspect means the
/// session is absent; otherwise the daemon's status string tells a running
/// session and a stopped one apart, and anything else is merely created.
pub open spec fn observed_state_model(present: bool, status: Option<Seq<char>>) -> SessionState {
    if !present {
        SessionState::Absent
    } else {
        match status {
            Some(s) => if s == "running"@ {
                SessionState::Running
            } else if s == "stopped"@ || s == "exited"@ {
                SessionState::Stopped
            } else {
                SessionState::Created
            },
            None => SessionState::Created,
        }
    }
}

/// Classifies the daemon's inspect observation.
pub fn observed_state(present: bool, status: &Option<String>) -> (r: SessionState)
    ensures
        r == observed_state_model(present, status.deep_view()),
        (r is Absent) <==> !present,
{
    if !present {
        SessionState::Absent
    } else {
        match status {
            Some(s) => {
                let running = String::from_str("running");
                let stopped = String::from_str("stopped");
                let exited = String::from_str("exited");
                if s.eq(&running) {
                    SessionState::Running
                } else if s.eq(&stopped) || s.eq(&exited) {
                    SessionState::Stopped
                } else {
                    SessionState::Created
                }
            },
            None => SessionState::Created,
        }
    }
}

/// Whether the daemon knows the session at all.
pub open spec fn session_exists(state: SessionState) -> bool {
    !(state is Absent)
}

/// One call against the runtime daemon, planned by the library and performed
/// by the surrounding binary.
#[derive(Clone, Copy, Debug, PartialEq, Eq, Structural)]
pub enum DaemonAction {
    /// Create the session from the execution specification.
    CreateSession,
    /// Start the session.
    StartSession,
    /// Run the first-boot installation command inside the session, as root,
    /// streaming its output.
    RunInstall,
    /// Stop the session gracefully.
    StopSession,
    /// Stop the session, ignoring failure; a forced delete follows.
    StopBestEffort,
    /// Delete the session, forced.
    ForceDelete,
    /// Send an immediate termination signal.
    KillSession,
    /// Restart the session; persistent storage is untouched.
    RestartSession,
    /// Pull the latest base image; the existing session is untouched.
    PullImage,
    /// Attach the interactive command to the running session.
    AttachInteractive,
}

/// The daemon calls of `create`, after the inspect observation: nothing when
/// the session already exists in any state, else create it, start it once,
/// run the first-boot install, and stop it.
pub open spec fn create_actions_model(state: SessionState) -> Seq<DaemonAction> {
    if session_exists(state) {
        Seq::empty()
    } else {
        seq![
            DaemonAction::CreateSession,
            DaemonAction::StartSession,
            DaemonAction::RunInstall,
            DaemonAction::StopSession,
        ]
    }
}

/// Plans the daemon calls of `create`.
pub fn create_actions(state: SessionState) -> (r: Vec<DaemonAction>)
    ensures
        r@ == create_actions_model(state),
        session_exists(state) ==> r@.len() == 0,
{
    let mut v: Vec<DaemonAction> = Vec::new();
    if matches!(state, SessionState::Absent) {
        v.push(DaemonAction::CreateSession);
        v.push(DaemonAction::StartSession);
        v.push(DaemonAction::RunInstall);
        v.push(DaemonAction::StopSession);
    }
    proof {
        assert(v@ =~= create_actions_model(state));
    }
    v
}

/// The daemon calls of `run`: ensure create semantics first, then start the
/// session and attach the interactive command.
pub open spec fn run_actions_model(state: SessionState) -> Seq<DaemonAction> {
    create_actions_model(state) + seq![
        DaemonAction::StartSession,
        DaemonAction::AttachInteractive,
    ]
}

/// Plans the daemon calls of `run`.
pub fn run_actions(state: SessionState) -> (r: Vec<DaemonAction>)
    ensures
        r@ == run_actions_model(state),
{
    let mut v = create_actions(state);
    v.push(DaemonAction::StartSession);
    v.push(DaemonAction::AttachInteractive);
    proof {
        assert(v@ =~= run_actions_model(state));
    }
    v
}

/// The daemon calls of `remove`: best-effort stop, then forced delete.
pub open spec fn remove_actions_model() -> Seq<DaemonAction> {
    seq![DaemonAction::StopBestEffort, DaemonAction::ForceDelete]
}

/// Plans the daemon calls of `remove`.
pub fn remove_actions() -> (r: Vec<DaemonAction>)
    ensures
        r@ == remove_actions_model(),
{
    let mut v: Vec<DaemonAction> = Vec::new();
    v.push(DaemonAction::StopBestEffort);
    v.push(DaemonAction::ForceDelete);
    proof {
        assert(v@ =~= remove_actions_model());
    }
    v
}

/// The daemon calls of `kill`: one immediate termination signal.
pub open spec fn kill_actions_model() -> Seq<DaemonAction> {
    seq![DaemonAction::KillSession]
}

/// Plans the daemon calls of `kill`.
pub fn kill_actions() -> (r: Vec<DaemonAction>)
    ensures
        r@ == kill_actions_model(),
{
    let mut v: Vec<DaemonAction> = Vec::new();
    v.push(DaemonAction::KillSession);
    proof {
        assert(v@ =~= kill_actions_model());
    }
    v
}

/// The daemon calls of `restart`.
pub open spec fn restart_actions_model() -> Seq<DaemonAction> {
    seq![DaemonAction::RestartSession]
}

/// Plans the daemon calls of `restart`.
pub fn restart_actions() -> (r: Vec<DaemonAction>)
    ensures
        r@ == restart_actions_model(),
{
    let mut v: Vec<DaemonAction> = Vec::new();
    v.push(DaemonAction::RestartSession);
    proof {
        assert(v@ =~= restart_actions_model());
    }
    v
}

/// The daemon calls of `update`: refresh the base image, touch nothing else.
pub open spec fn update_actions_model() -> Seq<DaemonAction> {
    seq![DaemonAction::PullImage]
}

/// Plans the daemon calls of `update`.
pub fn update_actions() -> (r: Vec<DaemonAction>)
    ensures
        r@ == update_actions_model(),
{
    let mut v: Vec<DaemonAction> = Vec::new();
    v.push(DaemonAction::PullImage);
    proof {
        assert(v@ =~= update_actions_model());
    }
    v
}

/// Whether a command may proceed at all: the tool operates only rootless.
pub fn rootless_allowed(uid: u32) -> (r: bool)
    ensures
        r == (uid != 0),
{
    uid != 0
}

/// The first-boot installation command: installs the session packages,
/// creates the session group and user with the caller's numeric identity,
/// and hands the home directory to them.
pub open spec fn install_command_model(uid: nat, gid: nat) -> Seq<char> {
    "dnf install -y steam gamescope vulkan-tools mesa-vulkan-drivers libva-vdpau-driver pipewire-pulseaudio gamemode &&\n        groupadd -g "@
        + dec_digits(gid) + " steamgroup || true &&\n        useradd -m -u "@ + dec_digits(uid)
        + " -g "@ + dec_digits(gid)
        + " steam || true &&\n        mkdir -p /home/steam/.steam &&\n        chown -R steam:steamgroup /home/steam &&\n        echo \"Kontener Steam gotowy!\""@
}

/// Builds the first-boot installation command for the caller's identity.
pub fn install_command(uid: u32, gid: u32) -> (r: String)
    ensures
        r@ == install_command_model(uid as nat, gid as nat),
{
    let uid_s = u64_to_dec(uid as u64);
    let gid_s = u64_to_dec(gid as u64);
    let mut s = String::from_str(
        "dnf install -y steam gamescope vulkan-tools mesa-vulkan-drivers libva-vdpau-driver pipewire-pulseaudio gamemode &&\n        groupadd -g ",
    );
    s.append(gid_s.as_str());
    s.append(" steamgroup || true &&\n        useradd -m -u ");
    s.append(uid_s.as_str());
    s.append(" -g ");
    s.append(gid_s.as_str());
    s.append(
        " steam || true &&\n        mkdir -p /home/steam/.steam &&\n        chown -R steam:steamgroup /home/steam &&\n        echo \"Kontener Steam gotowy!\"",
    );
    proof {
        assert(s@ =~= install_command_model(uid as nat, gid as nat));
    }
    s
}

/// The desktop-compositor-wrapped launch command.
pub open spec fn gamescope_command_model() -> Seq<char> {
    "su - steam -c 'gamescope -e -- steam -gamepadui'"@
}

/// The default direct launch command, with its embedded fallback for when
/// the primary binary is unavailable inside the session.
pub open spec fn default_command_model() -> Seq<char> {
    "su - steam -c 'steam -silent || steam'"@
}

/// The interactive command for a requested session profile: the compositor
/// wrap for the two known profile names, the default launch otherwise.
pub open spec fn session_command_model(profile: Option<Seq<char>>) -> Seq<char> {
    if profile == Some("gamescope-session-steam"@) || profile == Some("deck"@) {
        gamescope_command_model()
    } else {
        default_command_model()
    }
}

/// Chooses the interactive command for the requested session profile.
pub fn session_command(profile: &Option<String>) -> (r: String)
    ensures
        r@ == session_command_model(profile.deep_view()),
{
    match profile {
        Some(p) => {
            let wrapped = String::from_str("gamescope-session-steam");
            let deck = String::from_str("deck");
            if p.eq(&wrapped) || p.eq(&deck) {
                String::from_str("su - steam -c 'gamescope -e -- steam -gamepadui'")
            } else {
                String::from_str("su - steam -c 'steam -silent || steam'")
            }
        },
        None => String::from_str("su - steam -c 'steam -silent || steam'"),
    }
}

/// The status report line for an existing session.
pub open spec fn status_line_model(state: Seq<char>, pid: nat) -> Seq<char> {
    "Status: "@ + state + " | PID: "@ + dec_digits(pid)
}

/// Builds the status report line from the daemon's observed state and
/// process id.
pub fn status_line(state: &String, pid: u64) -> (r: String)
    ensures
        r@ == status_line_model(state@, pid as nat),
{
    let mut s = String::from_str("Status: ");
    s.append(state.as_str());
    s.append(" | PID: ");
    let p = u64_to_dec(pid);
    s.append(p.as_str());
    proof {
        assert(s@ =~= status_line_model(state@, pid as nat));
    }
    s
}

/// Everything a create-class command needs before its first daemon call.
pub struct Provision {
    /// The storage layout to materialize.
    pub layout: StorageLayout,
    /// The execution specification for the session.
    pub exec_spec: ExecutionSpec,
    /// The first-boot installation command.
    pub install_command: String,
}

/// The mathematical image of a provision.
pub struct ProvisionView {
    pub layout: StorageLayoutView,
    pub exec_spec: ExecutionSpecView,
    pub install_command: Seq<char>,
}

impl DeepView for Provision {
    type V = ProvisionView;

    open spec fn deep_view(&self) -> ProvisionView {
        ProvisionView {
            layout: self.layout.deep_view(),
            exec_spec: self.exec_spec.deep_view(),
            install_command: self.install_command@,
        }
    }
}

/// The provisioning outcome as a function of the host observations alone:
/// the GPU decision first, then the display transport, then the data root;
/// the first failure wins, and on success the layout, the execution
/// specification and the install command are each pinned to their models.
pub open spec fn provision_model(p: HostProbesView) -> Result<ProvisionView, SessionError> {
    match gpu_decision(p.dri_present, p.nvidia.dev0, p.toolkit_present) {
        Err(e) => Err(e),
        Ok(gpu) => match transport_decision(p.wayland_display is Some, p.x11_display is Some) {
            None => Err(SessionError::NoDisplaySession),
            Some(transport) => match data_root_model(p.xdg_data_home, p.home) {
                None => Err(SessionError::InvalidIdentity),
                Some(root) => {
                    let display_value = match transport {
                        DisplayTransport::Wayland => match p.wayland_display {
                            Some(v) => v,
                            None => Seq::empty(),
                        },
                        DisplayTransport::X11 => match p.x11_display {
                            Some(v) => v,
                            None => Seq::empty(),
                        },
                    };
                    Ok(
                        ProvisionView {
                            layout: layout_model(root),
                            exec_spec: build_model(
                                gpu,
                                p.nvidia,
                                transport,
                                display_value,
                                layout_model(root),
                                p.identity.uid as nat,
                            ),
                            install_command: install_command_model(
                                p.identity.uid as nat,
                                p.identity.gid as nat,
                            ),
                        },
                    )
                },
            },
        },
    }
}

/// Runs the whole pre-daemon pipeline: capability detection, layout
/// resolution, specification construction. Fails exactly as the model says,
/// always before any daemon call.
pub fn provision(probes: &HostProbes) -> (r: Result<Provision, SessionError>)
    ensures
        r matches Ok(p) ==> provision_model(probes.deep_view()) == Ok::<
            ProvisionView,
            SessionError,
        >(p.deep_view()),
        r matches Err(e) ==> provision_model(probes.deep_view()) == Err::<
            ProvisionView,
            SessionError,
        >(e),
{
    let gpu = match detect_gpu(probes.dri_present, probes.nvidia.dev0, probes.toolkit_present) {
        Ok(g) => g,
        Err(e) => {
            return Err(e);
        },
    };
    let transport = match detect_display_transport(
        probes.wayland_display.is_some(),
        probes.x11_display.is_some(),
    ) {
        Some(t) => t,
        None => {
            return Err(SessionError::NoDisplaySession);
        },
    };
    let layout = match resolve_layout(&probes.xdg_data_home, &probes.home) {
        Ok(l) => l,
        Err(e) => {
            return Err(e);
        },
    };
    let display_value: String = match transport {
        DisplayTransport::Wayland => {
            match &probes.wayland_display {
                Some(v) => v.clone(),
                None => String::new(),
            }
        },
        DisplayTransport::X11 => {
            match &probes.x11_display {
                Some(v) => v.clone(),
                None => String::new(),
            }
        },
    };
    let exec_spec = build_spec(
        gpu,
        probes.nvidia,
        transport,
        &display_value,
        &layout,
        probes.identity.uid,
    );
    let install = install_command(probes.identity.uid, probes.identity.gid);
    Ok(Provision { layout, exec_spec, install_command: install })
}

/// Fail-fast law: with no graphics device node, provisioning fails with the
/// no-GPU diagnosis, so `create` errors before any daemon call is planned.
pub proof fn lemma_no_gpu_fails_first(p: HostProbesView)
    requires
        !p.dri_present,
    ensures
        provision_model(p) == Err::<ProvisionView, SessionError>(SessionError::NoGpuDevice),
{
}

/// Toolkit law: a host with a graphics device and an Nvidia device node but
/// no container toolkit on the search path fails with the toolkit diagnosis.
pub proof fn lemma_nvidia_toolkit_missing(p: HostProbesView)
    requires
        p.dri_present,
        p.nvidia.dev0,
        !p.toolkit_present,
    ensures
        provision_model(p) == Err::<ProvisionView, SessionError>(SessionError::NvidiaToolkitMissing),
{
}

/// Idempotence law: when the session already exists, in whatever state,
/// `create` plans zero daemon mutations beyond the initial inspect and
/// reports success.
pub proof fn lemma_create_idempotent(state: SessionState)
    requires
        session_exists(state),
    ensures
        create_actions_model(state) =~= Seq::<DaemonAction>::empty(),
{
}

/// Durability law: `create` → `remove` → `create` preserves the contents of
/// the upper directory exactly, while the daemon-visible session is torn
/// down and recreated from scratch.
pub proof fn lemma_remove_then_create_durable(s: StorageState)
    requires
        wf_storage(s),
    ensures
        apply_provision_storage(
            apply_remove_storage(apply_provision_storage(s)),
        ).upper_entries == apply_provision_storage(s).upper_entries,
        remove_actions_model().contains(DaemonAction::ForceDelete),
        create_actions_model(SessionState::Absent).contains(DaemonAction::CreateSession),
{
    lemma_upper_durable(s);
    assert(remove_actions_model()[1] == DaemonAction::ForceDelete);
    assert(create_actions_model(SessionState::Absent)[0] == DaemonAction::CreateSession);
}

} // verus!
