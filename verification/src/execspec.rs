//! The hardened execution specification and its builder.
//!
//! The specification is an immutable value object, fully determined by the
//! detected host capabilities, the storage layout and the caller identity.
//! The builder is a pure transformation with no I/O; the surrounding binary
//! only translates the finished value into the runtime daemon's wire types.

use vstd::prelude::*;
use vstd::string::StringExecFns;
use crate::capabilities::{DisplayTransport, GpuVendor};
use crate::probes::NvidiaNodes;
use crate::storage::{run_user_dir, run_user_dir_model, StorageLayout, StorageLayoutView};

verus! {

/// Isolation mode of one kernel namespace.
#[derive(Clone, Copy, Debug, PartialEq, Eq, Structural)]
pub enum NamespaceMode {
    /// An isolated user namespace mapping the caller's host numeric id to the
    /// same id inside the session.
    KeepId,
    /// The host's own namespace, shared with the session.
    Host,
}

/// The namespace policy of the session: identity-preserving user namespace,
/// everything else shared with the host so display, audio and input devices
/// work without a network bridge.
#[derive(Clone, Copy, Debug, PartialEq, Eq, Structural)]
pub struct NamespacePolicy {
    pub user: NamespaceMode,
    pub ipc: NamespaceMode,
    pub pid: NamespaceMode,
    pub uts: NamespaceMode,
    pub net: NamespaceMode,
}

/// The fixed resource ceilings of the session.
#[derive(Clone, Copy, Debug, PartialEq, Eq, Structural)]
pub struct ResourceLimits {
    /// CPU quota in microseconds per default scheduling period.
    pub cpu_quota_us: u64,
    /// Memory ceiling in bytes.
    pub memory_limit_bytes: u64,
    /// Process/thread ceiling.
    pub pids_limit: u64,
    /// Block-I/O weight, within the kernel's allowed range of 10 to 1000.
    pub blkio_weight: u64,
}

/// A device-cgroup allow rule: character devices of one major number, all
/// minors, read/write/mknod access.
#[derive(Clone, Copy, Debug, PartialEq, Eq, Structural)]
pub struct DeviceCgroupRule {
    pub major: u64,
}

impl DeepView for DeviceCgroupRule {
    type V = DeviceCgroupRule;

    open spec fn deep_view(&self) -> DeviceCgroupRule {
        *self
    }
}

/// One mount of the session filesystem.
#[derive(Clone, Debug, PartialEq, Eq)]
pub enum Mount {
    /// A recursive bind mount; read-only ones are bound `ro`, writable ones
    /// with private propagation.
    Bind { source: String, destination: String, read_only: bool },
    /// The overlay giving the session its home: read-only lower floor,
    /// durable upper layer, work area.
    Overlay { destination: String, lower: String, upper: String, work: String },
}

/// The mathematical image of a mount.
pub enum MountView {
    Bind { source: Seq<char>, destination: Seq<char>, read_only: bool },
    Overlay { destination: Seq<char>, lower: Seq<char>, upper: Seq<char>, work: Seq<char> },
}

impl DeepView for Mount {
    type V = MountView;

    open spec fn deep_view(&self) -> MountView {
        match self {
            Mount::Bind { source, destination, read_only } => MountView::Bind {
                source: source@,
                destination: destination@,
                read_only: *read_only,
            },
            Mount::Overlay { destination, lower, upper, work } => MountView::Overlay {
                destination: destination@,
                lower: lower@,
                upper: upper@,
                work: work@,
            },
        }
    }
}

/// One environment variable of the session.
#[derive(Clone, Debug, PartialEq, Eq)]
pub struct EnvVar {
    pub key: String,
    pub value: String,
}

/// The mathematical image of an environment variable.
pub struct EnvVarView {
    pub key: Seq<char>,
    pub value: Seq<char>,
}

impl DeepView for EnvVar {
    type V = EnvVarView;

    open spec fn deep_view(&self) -> EnvVarView {
        EnvVarView { key: self.key@, value: self.value@ }
    }
}

/// The complete execution specification handed to the runtime daemon.
#[derive(Clone, Debug, PartialEq, Eq)]
pub struct ExecutionSpec {
    /// The base image reference.
    pub image: String,
    /// The session name.
    pub name: String,
    /// Whether a terminal is allocated.
    pub terminal: bool,
    /// The mounts, base set first, then the present Nvidia device nodes.
    pub mounts: Vec<Mount>,
    /// The device-cgroup allow rules.
    pub device_rules: Vec<DeviceCgroupRule>,
    /// The environment, in a fixed order.
    pub env: Vec<EnvVar>,
    /// Capabilities re-added after dropping all of them.
    pub cap_add: Vec<String>,
    /// Capabilities dropped.
    pub cap_drop: Vec<String>,
    /// The namespace policy.
    pub namespaces: NamespacePolicy,
    /// Mandatory-access-control label enforcement disabled for the session.
    pub selinux_disabled: bool,
    /// Privilege escalation disabled.
    pub no_new_privileges: bool,
    /// The session never runs privileged.
    pub privileged: bool,
    /// The fixed resource ceilings.
    pub limits: ResourceLimits,
    /// The alternate low-level runtime, selected only for Nvidia.
    pub oci_runtime: Option<String>,
}

/// The mathematical image of an execution specification.
pub struct ExecutionSpecView {
    pub image: Seq<char>,
    pub name: Seq<char>,
    pub terminal: bool,
    pub mounts: Seq<MountView>,
    pub device_rules: Seq<DeviceCgroupRule>,
    pub env: Seq<EnvVarView>,
    pub cap_add: Seq<Seq<char>>,
    pub cap_drop: Seq<Seq<char>>,
    pub namespaces: NamespacePolicy,
    pub selinux_disabled: bool,
    pub no_new_privileges: bool,
    pub privileged: bool,
    pub limits: ResourceLimits,
    pub oci_runtime: Option<Seq<char>>,
}

impl DeepView for ExecutionSpec {
    type V = ExecutionSpecView;

    open spec fn deep_view(&self) -> ExecutionSpecView {
        ExecutionSpecView {
            image: self.image@,
            name: self.name@,
            terminal: self.terminal,
            mounts: self.mounts.deep_view(),
            device_rules: self.device_rules.deep_view(),
            env: self.env.deep_view(),
            cap_add: self.cap_add.deep_view(),
            cap_drop: self.cap_drop.deep_view(),
            namespaces: self.namespaces,
            selinux_disabled: self.selinux_disabled,
            no_new_privileges: self.no_new_privileges,
            privileged: self.privileged,
            limits: self.limits,
            oci_runtime: self.oci_runtime.deep_view(),
        }
    }
}

/// The fixed session name.
pub open spec fn session_name_model() -> Seq<char> {
    "hackerosteam"@
}

/// Returns the fixed session name.
pub fn session_name() -> (r: String)
    ensures
        r@ == session_name_model(),
{
    String::from_str("hackerosteam")
}

/// The fixed base image reference.
pub open spec fn image_ref_model() -> Seq<char> {
    "registry.fedoraproject.org/fedora:43"@
}

/// Returns the fixed base image reference.
pub fn image_ref() -> (r: String)
    ensures
        r@ == image_ref_model(),
{
    String::from_str("registry.fedoraproject.org/fedora:43")
}

/// The namespace policy: identity-preserving user namespace, all others
/// shared with the host.
pub open spec fn namespace_policy_model() -> NamespacePolicy {
    NamespacePolicy {
        user: NamespaceMode::KeepId,
        ipc: NamespaceMode::Host,
        pid: NamespaceMode::Host,
        uts: NamespaceMode::Host,
        net: NamespaceMode::Host,
    }
}

/// The fixed resource ceilings: 90% of one scheduling period of CPU, a
/// 16 GiB memory ceiling, 4096 processes, and the block-I/O weight at the
/// midpoint of its allowed range of 10 to 1000.
pub open spec fn resource_limits_model() -> ResourceLimits {
    ResourceLimits {
        cpu_quota_us: 90000,
        memory_limit_bytes: 17179869184,
        pids_limit: 4096,
        blkio_weight: 505,
    }
}

/// A private read-write bind of one device node path onto itself.
pub open spec fn device_bind_model(path: Seq<char>) -> MountView {
    MountView::Bind { source: path, destination: path, read_only: false }
}

/// The mounts every session gets, in order: the X11 socket directory
/// (read-only), the caller's runtime directory, the overlay home, and the
/// graphics, sound and input device directories.
pub open spec fn base_mounts_model(run_user: Seq<char>, layout: StorageLayoutView) -> Seq<
    MountView,
> {
    seq![
        MountView::Bind {
            source: "/tmp/.X11-unix"@,
            destination: "/tmp/.X11-unix"@,
            read_only: true,
        },
        MountView::Bind { source: run_user, destination: run_user, read_only: false },
        MountView::Overlay {
            destination: "/home/steam"@,
            lower: layout.lower,
            upper: layout.upper,
            work: layout.work,
        },
        device_bind_model("/dev/dri"@),
        device_bind_model("/dev/snd"@),
        device_bind_model("/dev/input"@),
    ]
}

/// The fixed candidate list of Nvidia device node paths.
pub open spec fn nvidia_device_paths() -> Seq<Seq<char>> {
    seq![
        "/dev/nvidia0"@,
        "/dev/nvidiactl"@,
        "/dev/nvidia-modeset"@,
        "/dev/nvidia-uvm"@,
        "/dev/nvidia-uvm-tools"@,
    ]
}

/// Whether the candidate node at a given position of the fixed list is
/// present on the host.
pub open spec fn nvidia_node_present(nodes: NvidiaNodes, i: int) -> bool {
    if i == 0 {
        nodes.dev0
    } else if i == 1 {
        nodes.ctl
    } else if i == 2 {
        nodes.modeset
    } else if i == 3 {
        nodes.uvm
    } else {
        nodes.uvm_tools
    }
}

/// The binds for the present Nvidia device nodes, in candidate-list order;
/// absent nodes contribute nothing.
pub open spec fn nvidia_mounts_model(nodes: NvidiaNodes) -> Seq<MountView> {
    (if nodes.dev0 {
        seq![device_bind_model("/dev/nvidia0"@)]
    } else {
        Seq::empty()
    }) + (if nodes.ctl {
        seq![device_bind_model("/dev/nvidiactl"@)]
    } else {
        Seq::empty()
    }) + (if nodes.modeset {
        seq![device_bind_model("/dev/nvidia-modeset"@)]
    } else {
        Seq::empty()
    }) + (if nodes.uvm {
        seq![device_bind_model("/dev/nvidia-uvm"@)]
    } else {
        Seq::empty()
    }) + (if nodes.uvm_tools {
        seq![device_bind_model("/dev/nvidia-uvm-tools"@)]
    } else {
        Seq::empty()
    })
}

/// The full mount list: the base set, then, for Nvidia only, the present
/// device nodes.
pub open spec fn mounts_model(
    gpu: GpuVendor,
    nodes: NvidiaNodes,
    run_user: Seq<char>,
    layout: StorageLayoutView,
) -> Seq<MountView> {
    base_mounts_model(run_user, layout) + (if gpu is Nvidia {
        nvidia_mounts_model(nodes)
    } else {
        Seq::empty()
    })
}

/// The device-cgroup allow rules: the graphics, sound and input major
/// numbers always, the two Nvidia majors only for Nvidia.
pub open spec fn device_rules_model(gpu: GpuVendor) -> Seq<DeviceCgroupRule> {
    seq![
        DeviceCgroupRule { major: 226 },
        DeviceCgroupRule { major: 116 },
        DeviceCgroupRule { major: 13 },
    ] + (if gpu is Nvidia {
        seq![DeviceCgroupRule { major: 195 }, DeviceCgroupRule { major: 235 }]
    } else {
        Seq::empty()
    })
}

/// The environment: audio-server address, the two session-identity markers,
/// the runtime directory, then the address variable of the one transport
/// actually detected with the real address value, then, for Nvidia only, the
/// two visibility variables.
pub open spec fn env_model(
    gpu: GpuVendor,
    transport: DisplayTransport,
    display_value: Seq<char>,
    run_user: Seq<char>,
) -> Seq<EnvVarView> {
    seq![
        EnvVarView { key: "PULSE_SERVER"@, value: "unix:"@ + run_user + "/pulse/native"@ },
        EnvVarView { key: "STEAMOS"@, value: "1"@ },
        EnvVarView { key: "STEAM_RUNTIME"@, value: "0"@ },
        EnvVarView { key: "XDG_RUNTIME_DIR"@, value: run_user },
    ] + (match transport {
        DisplayTransport::X11 => seq![EnvVarView { key: "DISPLAY"@, value: display_value }],
        DisplayTransport::Wayland => seq![
            EnvVarView { key: "WAYLAND_DISPLAY"@, value: display_value },
        ],
    }) + (if gpu is Nvidia {
        seq![
            EnvVarView { key: "NVIDIA_VISIBLE_DEVICES"@, value: "all"@ },
            EnvVarView { key: "NVIDIA_DRIVER_CAPABILITIES"@, value: "all"@ },
        ]
    } else {
        Seq::empty()
    })
}

/// The complete execution specification as a function of the detected
/// capabilities, the present device nodes, the transport address, the
/// storage layout and the caller's user id. This function being the whole
/// contract of the builder is the determinism guarantee: unchanged host
/// state yields an identical specification.
pub open spec fn build_model(
    gpu: GpuVendor,
    nodes: NvidiaNodes,
    transport: DisplayTransport,
    display_value: Seq<char>,
    layout: StorageLayoutView,
    uid: nat,
) -> ExecutionSpecView {
    ExecutionSpecView {
        image: image_ref_model(),
        name: session_name_model(),
        terminal: true,
        mounts: mounts_model(gpu, nodes, run_user_dir_model(uid), layout),
        device_rules: device_rules_model(gpu),
        env: env_model(gpu, transport, display_value, run_user_dir_model(uid)),
        cap_add: seq!["SYS_NICE"@, "IPC_LOCK"@],
        cap_drop: seq!["ALL"@],
        namespaces: namespace_policy_model(),
        selinux_disabled: true,
        no_new_privileges: true,
        privileged: false,
        limits: resource_limits_model(),
        oci_runtime: if gpu is Nvidia {
            Some("nvidia"@)
        } else {
            None
        },
    }
}

/// Builds a bind mount of a fixed path onto itself.
fn self_bind(path: &str, read_only: bool) -> (m: Mount)
    ensures
        m.deep_view() == (MountView::Bind {
            source: path@,
            destination: path@,
            read_only: read_only,
        }),
{
    Mount::Bind {
        source: String::from_str(path),
        destination: String::from_str(path),
        read_only,
    }
}

/// Builds the complete execution specification. The result is pinned to
/// `build_model`, so it is a function of the inputs alone.
pub fn build_spec(
    gpu: GpuVendor,
    nodes: NvidiaNodes,
    transport: DisplayTransport,
    display_value: &String,
    layout: &StorageLayout,
    uid: u32,
) -> (s: ExecutionSpec)
    ensures
        s.deep_view() == build_model(
            gpu,
            nodes,
            transport,
            display_value@,
            layout.deep_view(),
            uid as nat,
        ),
{
    let run_user = run_user_dir(uid);

    let mut mounts: Vec<Mount> = Vec::new();
    mounts.push(self_bind("/tmp/.X11-unix", true));
    mounts.push(
        Mount::Bind { source: run_user.clone(), destination: run_user.clone(), read_only: false },
    );
    mounts.push(
        Mount::Overlay {
            destination: String::from_str("/home/steam"),
            lower: layout.lower.clone(),
            upper: layout.upper.clone(),
            work: layout.work.clone(),
        },
    );
    mounts.push(self_bind("/dev/dri", false));
    mounts.push(self_bind("/dev/snd", false));
    mounts.push(self_bind("/dev/input", false));
    proof {
        assert(mounts.deep_view() =~= base_mounts_model(run_user@, layout.deep_view()));
    }

    let mut device_rules: Vec<DeviceCgroupRule> = Vec::new();
    device_rules.push(DeviceCgroupRule { major: 226 });
    device_rules.push(DeviceCgroupRule { major: 116 });
    device_rules.push(DeviceCgroupRule { major: 13 });

    let mut env: Vec<EnvVar> = Vec::new();
    let mut pulse = String::from_str("unix:");
    pulse.append(run_user.as_str());
    pulse.append("/pulse/native");
    env.push(EnvVar { key: String::from_str("PULSE_SERVER"), value: pulse });
    env.push(EnvVar { key: String::from_str("STEAMOS"), value: String::from_str("1") });
    env.push(EnvVar { key: String::from_str("STEAM_RUNTIME"), value: String::from_str("0") });
    env.push(EnvVar { key: String::from_str("XDG_RUNTIME_DIR"), value: run_user.clone() });
    match transport {
        DisplayTransport::X11 => {
            env.push(EnvVar { key: String::from_str("DISPLAY"), value: display_value.clone() });
        },
        DisplayTransport::Wayland => {
            env.push(
                EnvVar { key: String::from_str("WAYLAND_DISPLAY"), value: display_value.clone() },
            );
        },
    }

    let is_nvidia = match gpu {
        GpuVendor::Nvidia => true,
        GpuVendor::Mesa => false,
    };
    if is_nvidia {
        if nodes.dev0 {
            mounts.push(self_bind("/dev/nvidia0", false));
        }
        if nodes.ctl {
            mounts.push(self_bind("/dev/nvidiactl", false));
        }
        if nodes.modeset {
            mounts.push(self_bind("/dev/nvidia-modeset", false));
        }
        if nodes.uvm {
            mounts.push(self_bind("/dev/nvidia-uvm", false));
        }
        if nodes.uvm_tools {
            mounts.push(self_bind("/dev/nvidia-uvm-tools", false));
        }
        device_rules.push(DeviceCgroupRule { major: 195 });
        device_rules.push(DeviceCgroupRule { major: 235 });
        env.push(
            EnvVar { key: String::from_str("NVIDIA_VISIBLE_DEVICES"), value: String::from_str("all") },
        );
        env.push(
            EnvVar {
                key: String::from_str("NVIDIA_DRIVER_CAPABILITIES"),
                value: String::from_str("all"),
            },
        );
    }
    proof {
        assert(mounts.deep_view() =~= mounts_model(gpu, nodes, run_user@, layout.deep_view()));
        assert(device_rules.deep_view() =~= device_rules_model(gpu));
        assert(env.deep_view() =~= env_model(gpu, transport, display_value@, run_user@));
    }

    let mut cap_add: Vec<String> = Vec::new();
    cap_add.push(String::from_str("SYS_NICE"));
    cap_add.push(String::from_str("IPC_LOCK"));
    let mut cap_drop: Vec<String> = Vec::new();
    cap_drop.push(String::from_str("ALL"));
    proof {
        assert(cap_add.deep_view() =~= seq!["SYS_NICE"@, "IPC_LOCK"@]);
        assert(cap_drop.deep_view() =~= seq!["ALL"@]);
    }

    let oci_runtime: Option<String> = if is_nvidia {
        Some(String::from_str("nvidia"))
    } else {
        None
    };

    ExecutionSpec {
        image: image_ref(),
        name: session_name(),
        terminal: true,
        mounts,
        device_rules,
        env,
        cap_add,
        cap_drop,
        namespaces: NamespacePolicy {
            user: NamespaceMode::KeepId,
            ipc: NamespaceMode::Host,
            pid: NamespaceMode::Host,
            uts: NamespaceMode::Host,
            net: NamespaceMode::Host,
        },
        selinux_disabled: true,
        no_new_privileges: true,
        privileged: false,
        limits: ResourceLimits {
            cpu_quota_us: 90000,
            memory_limit_bytes: 17179869184,
            pids_limit: 4096,
            blkio_weight: 505,
        },
        oci_runtime,
    }
}

proof fn lemma_contains_concat<A>(a: Seq<A>, b: Seq<A>, x: A)
    ensures
        (a + b).contains(x) <==> a.contains(x) || b.contains(x),
{
    if (a + b).contains(x) {
        let i = choose|i: int| 0 <= i < (a + b).len() && (a + b)[i] == x;
        if i < a.len() {
            assert(a[i] == x);
        } else {
            assert(b[i - a.len()] == x);
        }
    }
    if a.contains(x) {
        let i = choose|i: int| 0 <= i < a.len() && a[i] == x;
        assert((a + b)[i] == x);
    }
    if b.contains(x) {
        let i = choose|i: int| 0 <= i < b.len() && b[i] == x;
        assert((a + b)[a.len() + i] == x);
    }
}

proof fn lemma_contains_singleton<A>(y: A, x: A)
    ensures
        seq![y].contains(x) <==> x == y,
{
    if seq![y].contains(x) {
        let i = choose|i: int| 0 <= i < seq![y].len() && seq![y][i] == x;
        assert(i == 0);
    }
    if x == y {
        assert(seq![y][0] == x);
    }
}

/// Membership in the Nvidia mount segment is exactly the presence of the
/// matching candidate node.
proof fn lemma_nvidia_mounts_membership(nodes: NvidiaNodes, x: MountView)
    ensures
        nvidia_mounts_model(nodes).contains(x) <==> ((nodes.dev0 && x == device_bind_model(
            "/dev/nvidia0"@,
        )) || (nodes.ctl && x == device_bind_model("/dev/nvidiactl"@)) || (nodes.modeset && x
            == device_bind_model("/dev/nvidia-modeset"@)) || (nodes.uvm && x == device_bind_model(
            "/dev/nvidia-uvm"@,
        )) || (nodes.uvm_tools && x == device_bind_model("/dev/nvidia-uvm-tools"@))),
{
    let s0 = if nodes.dev0 {
        seq![device_bind_model("/dev/nvidia0"@)]
    } else {
        Seq::<MountView>::empty()
    };
    let s1 = if nodes.ctl {
        seq![device_bind_model("/dev/nvidiactl"@)]
    } else {
        Seq::<MountView>::empty()
    };
    let s2 = if nodes.modeset {
        seq![device_bind_model("/dev/nvidia-modeset"@)]
    } else {
        Seq::<MountView>::empty()
    };
    let s3 = if nodes.uvm {
        seq![device_bind_model("/dev/nvidia-uvm"@)]
    } else {
        Seq::<MountView>::empty()
    };
    let s4 = if nodes.uvm_tools {
        seq![device_bind_model("/dev/nvidia-uvm-tools"@)]
    } else {
        Seq::<MountView>::empty()
    };
    lemma_contains_concat(s0 + s1 + s2 + s3, s4, x);
    lemma_contains_concat(s0 + s1 + s2, s3, x);
    lemma_contains_concat(s0 + s1, s2, x);
    lemma_contains_concat(s0, s1, x);
    lemma_contains_singleton(device_bind_model("/dev/nvidia0"@), x);
    lemma_contains_singleton(device_bind_model("/dev/nvidiactl"@), x);
    lemma_contains_singleton(device_bind_model("/dev/nvidia-modeset"@), x);
    lemma_contains_singleton(device_bind_model("/dev/nvidia-uvm"@), x);
    lemma_contains_singleton(device_bind_model("/dev/nvidia-uvm-tools"@), x);
    assert(!Seq::<MountView>::empty().contains(x));
}

/// Device-node law: with an Nvidia GPU the mount list binds a candidate
/// device node exactly when that node is present on the host, and with a
/// Mesa-class GPU it binds none of them.
pub proof fn lemma_nvidia_binds_exact(
    nodes: NvidiaNodes,
    uid: nat,
    layout: StorageLayoutView,
    i: int,
)
    requires
        0 <= i < 5,
    ensures
        mounts_model(GpuVendor::Nvidia, nodes, run_user_dir_model(uid), layout).contains(
            device_bind_model(nvidia_device_paths()[i]),
        ) <==> nvidia_node_present(nodes, i),
        !mounts_model(GpuVendor::Mesa, nodes, run_user_dir_model(uid), layout).contains(
            device_bind_model(nvidia_device_paths()[i]),
        ),
{
    reveal_strlit("/run/user/");
    reveal_strlit("/tmp/.X11-unix");
    reveal_strlit("/home/steam");
    reveal_strlit("/dev/dri");
    reveal_strlit("/dev/snd");
    reveal_strlit("/dev/input");
    reveal_strlit("/dev/nvidia0");
    reveal_strlit("/dev/nvidiactl");
    reveal_strlit("/dev/nvidia-modeset");
    reveal_strlit("/dev/nvidia-uvm");
    reveal_strlit("/dev/nvidia-uvm-tools");
    let run_user = run_user_dir_model(uid);
    let p = nvidia_device_paths()[i];
    let b = device_bind_model(p);
    let base = base_mounts_model(run_user, layout);

    // Pin the candidate path of this position.
    if i == 0 {
        assert(p == "/dev/nvidia0"@);
    } else if i == 1 {
        assert(p == "/dev/nvidiactl"@);
    } else if i == 2 {
        assert(p == "/dev/nvidia-modeset"@);
    } else if i == 3 {
        assert(p == "/dev/nvidia-uvm"@);
    } else {
        assert(p == "/dev/nvidia-uvm-tools"@);
    }
    // The caller's runtime directory never names a device node.
    assert(run_user[1] == 'r');
    assert(p[1] == 'd');
    assert(run_user != p);

    // No base mount is a read-write self-bind of a candidate node path: the
    // device directories are shorter than every candidate path.
    assert(p.len() >= 12);
    assert("/dev/dri"@.len() == 8);
    assert("/dev/snd"@.len() == 8);
    assert("/dev/input"@.len() == 10);
    assert(forall|k: int| 0 <= k < base.len() ==> base[k] != b) by {
        assert(base[0] != b);
        assert(base[1] != b);
        assert(base[2] != b);
        assert(base[3] != b);
        assert(base[4] != b);
        assert(base[5] != b);
    }
    assert(!base.contains(b));

    lemma_contains_concat(base, nvidia_mounts_model(nodes), b);
    lemma_contains_concat(base, Seq::<MountView>::empty(), b);
    assert(!Seq::<MountView>::empty().contains(b));
    lemma_nvidia_mounts_membership(nodes, b);
}

/// Whether some variable of the environment has the given key.
pub open spec fn env_has_key(env: Seq<EnvVarView>, key: Seq<char>) -> bool {
    exists|i: int| 0 <= i < env.len() && env[i].key == key
}

/// Display law: the environment carries the address variable of exactly the
/// transport that was detected — the X11 one only under X11, the Wayland one
/// only under Wayland, never both.
pub proof fn lemma_display_env_exclusive(
    gpu: GpuVendor,
    transport: DisplayTransport,
    display_value: Seq<char>,
    run_user: Seq<char>,
)
    ensures
        env_has_key(env_model(gpu, transport, display_value, run_user), "DISPLAY"@) <==> transport
            is X11,
        env_has_key(env_model(gpu, transport, display_value, run_user), "WAYLAND_DISPLAY"@)
            <==> transport is Wayland,
{
    reveal_strlit("PULSE_SERVER");
    reveal_strlit("STEAMOS");
    reveal_strlit("STEAM_RUNTIME");
    reveal_strlit("XDG_RUNTIME_DIR");
    reveal_strlit("DISPLAY");
    reveal_strlit("WAYLAND_DISPLAY");
    reveal_strlit("NVIDIA_VISIBLE_DEVICES");
    reveal_strlit("NVIDIA_DRIVER_CAPABILITIES");
    assert("PULSE_SERVER"@.len() == 12);
    assert("STEAMOS"@.len() == 7);
    assert("STEAM_RUNTIME"@.len() == 13);
    assert("XDG_RUNTIME_DIR"@.len() == 15);
    assert("DISPLAY"@.len() == 7);
    assert("WAYLAND_DISPLAY"@.len() == 15);
    assert("NVIDIA_VISIBLE_DEVICES"@.len() == 22);
    assert("NVIDIA_DRIVER_CAPABILITIES"@.len() == 26);
    assert("XDG_RUNTIME_DIR"@[0] == 'X' && "WAYLAND_DISPLAY"@[0] == 'W');
    assert("STEAMOS"@[0] == 'S' && "DISPLAY"@[0] == 'D');
    let env = env_model(gpu, transport, display_value, run_user);
    assert(env[0].key == "PULSE_SERVER"@);
    assert(env[1].key == "STEAMOS"@);
    assert(env[2].key == "STEAM_RUNTIME"@);
    assert(env[3].key == "XDG_RUNTIME_DIR"@);
    match transport {
        DisplayTransport::X11 => {
            assert(env[4].key == "DISPLAY"@);
            assert(env_has_key(env, "DISPLAY"@));
            if gpu is Nvidia {
                assert(env.len() == 7);
                assert(env[5].key == "NVIDIA_VISIBLE_DEVICES"@);
                assert(env[6].key == "NVIDIA_DRIVER_CAPABILITIES"@);
            } else {
                assert(env.len() == 5);
            }
            assert forall|i: int| 0 <= i < env.len() implies env[i].key != "WAYLAND_DISPLAY"@ by {
                if i == 0 {
                    assert(env[i].key == "PULSE_SERVER"@);
                } else if i == 1 {
                    assert(env[i].key == "STEAMOS"@);
                } else if i == 2 {
                    assert(env[i].key == "STEAM_RUNTIME"@);
                } else if i == 3 {
                    assert(env[i].key == "XDG_RUNTIME_DIR"@);
                } else if i == 4 {
                    assert(env[i].key == "DISPLAY"@);
                } else if i == 5 {
                    assert(env[i].key == "NVIDIA_VISIBLE_DEVICES"@);
                } else {
                    assert(env[i].key == "NVIDIA_DRIVER_CAPABILITIES"@);
                }
            }
        },
        DisplayTransport::Wayland => {
            assert(env[4].key == "WAYLAND_DISPLAY"@);
            assert(env_has_key(env, "WAYLAND_DISPLAY"@));
            if gpu is Nvidia {
                assert(env.len() == 7);
                assert(env[5].key == "NVIDIA_VISIBLE_DEVICES"@);
                assert(env[6].key == "NVIDIA_DRIVER_CAPABILITIES"@);
            } else {
                assert(env.len() == 5);
            }
            assert forall|i: int| 0 <= i < env.len() implies env[i].key != "DISPLAY"@ by {
                if i == 0 {
                    assert(env[i].key == "PULSE_SERVER"@);
                } else if i == 1 {
                    assert(env[i].key == "STEAMOS"@);
                } else if i == 2 {
                    assert(env[i].key == "STEAM_RUNTIME"@);
                } else if i == 3 {
                    assert(env[i].key == "XDG_RUNTIME_DIR"@);
                } else if i == 4 {
                    assert(env[i].key == "WAYLAND_DISPLAY"@);
                } else if i == 5 {
                    assert(env[i].key == "NVIDIA_VISIBLE_DEVICES"@);
                } else {
                    assert(env[i].key == "NVIDIA_DRIVER_CAPABILITIES"@);
                }
            }
        },
    }
}

/// Builds the overlay mount's option strings in the order the runtime
/// expects them: upper layer, lower floor, work area.
pub fn overlay_option_strings(lower: &String, upper: &String, work: &String) -> (r: Vec<String>)
    ensures
        r.deep_view() =~= seq![
            "upperdir="@ + upper@,
            "lowerdir="@ + lower@,
            "workdir="@ + work@,
        ],
{
    let mut up = String::from_str("upperdir=");
    up.append(upper.as_str());
    let mut lo = String::from_str("lowerdir=");
    lo.append(lower.as_str());
    let mut wk = String::from_str("workdir=");
    wk.append(work.as_str());
    let mut r: Vec<String> = Vec::new();
    r.push(up);
    r.push(lo);
    r.push(wk);
    r
}

} // verus!
