use hackerosteam::errors::SessionError;
use hackerosteam::lifecycle::{
    create_actions, install_command, kill_actions, observed_state, provision, remove_actions,
    restart_actions, rootless_allowed, run_actions, session_command, status_line, update_actions,
    DaemonAction, SessionState,
};
use hackerosteam::probes::{HostProbes, Identity, NvidiaNodes};

fn probes() -> HostProbes {
    HostProbes {
        dri_present: true,
        nvidia: NvidiaNodes { dev0: false, ctl: false, modeset: false, uvm: false, uvm_tools: false },
        toolkit_present: false,
        wayland_display: None,
        x11_display: Some(":0".to_string()),
        xdg_data_home: Some("/data".to_string()),
        home: Some("/home/u".to_string()),
        identity: Identity { uid: 1000, gid: 1000 },
    }
}

#[test]
fn no_gpu_fails_before_any_daemon_call() {
    let mut p = probes();
    p.dri_present = false;
    let mut daemon_calls: usize = 0;
    match provision(&p) {
        Ok(prov) => {
            for _a in create_actions(SessionState::Absent) {
                daemon_calls += 1;
            }
            drop(prov);
        },
        Err(e) => assert_eq!(e, SessionError::NoGpuDevice),
    }
    assert_eq!(daemon_calls, 0);
}

#[test]
fn nvidia_node_without_toolkit_fails() {
    let mut p = probes();
    p.nvidia.dev0 = true;
    p.toolkit_present = false;
    assert!(matches!(provision(&p), Err(SessionError::NvidiaToolkitMissing)));
}

#[test]
fn no_display_fails() {
    let mut p = probes();
    p.wayland_display = None;
    p.x11_display = None;
    assert!(matches!(provision(&p), Err(SessionError::NoDisplaySession)));
}

#[test]
fn no_data_root_fails() {
    let mut p = probes();
    p.xdg_data_home = None;
    p.home = None;
    assert!(matches!(provision(&p), Err(SessionError::InvalidIdentity)));
}

#[test]
fn provision_carries_layout_spec_and_install() {
    let prov = provision(&probes()).unwrap();
    assert_eq!(prov.layout.upper, "/data/hackerosteam/upper");
    assert_eq!(prov.exec_spec.name, "hackerosteam");
    assert!(prov.install_command.starts_with("dnf install -y steam"));
}

#[test]
fn create_on_existing_session_plans_nothing() {
    let mut mutations: usize = 0;
    for _a in create_actions(SessionState::Created) {
        mutations += 1;
    }
    assert_eq!(mutations, 0);
    assert_eq!(create_actions(SessionState::Running), vec![]);
    assert_eq!(create_actions(SessionState::Stopped), vec![]);
}

#[test]
fn create_on_absent_session_plans_full_first_boot() {
    assert_eq!(
        create_actions(SessionState::Absent),
        vec![
            DaemonAction::CreateSession,
            DaemonAction::StartSession,
            DaemonAction::RunInstall,
            DaemonAction::StopSession,
        ]
    );
}

#[test]
fn run_extends_create() {
    assert_eq!(
        run_actions(SessionState::Created),
        vec![DaemonAction::StartSession, DaemonAction::AttachInteractive]
    );
    assert_eq!(
        run_actions(SessionState::Absent),
        vec![
            DaemonAction::CreateSession,
            DaemonAction::StartSession,
            DaemonAction::RunInstall,
            DaemonAction::StopSession,
            DaemonAction::StartSession,
            DaemonAction::AttachInteractive,
        ]
    );
}

#[test]
fn inspect_observation_classifies_state() {
    assert_eq!(observed_state(false, &None), SessionState::Absent);
    assert_eq!(observed_state(false, &Some("running".to_string())), SessionState::Absent);
    assert_eq!(observed_state(true, &Some("running".to_string())), SessionState::Running);
    assert_eq!(observed_state(true, &Some("stopped".to_string())), SessionState::Stopped);
    assert_eq!(observed_state(true, &Some("exited".to_string())), SessionState::Stopped);
    assert_eq!(observed_state(true, &Some("created".to_string())), SessionState::Created);
    assert_eq!(observed_state(true, &None), SessionState::Created);
}

#[test]
fn remove_is_stop_then_forced_delete() {
    assert_eq!(
        remove_actions(),
        vec![DaemonAction::StopBestEffort, DaemonAction::ForceDelete]
    );
}

#[test]
fn kill_restart_update_plans() {
    assert_eq!(kill_actions(), vec![DaemonAction::KillSession]);
    assert_eq!(restart_actions(), vec![DaemonAction::RestartSession]);
    assert_eq!(update_actions(), vec![DaemonAction::PullImage]);
}

#[test]
fn session_profile_selects_compositor_wrap() {
    let wrapped = "su - steam -c 'gamescope -e -- steam -gamepadui'";
    let plain = "su - steam -c 'steam -silent || steam'";
    assert_eq!(session_command(&Some("gamescope-session-steam".to_string())), wrapped);
    assert_eq!(session_command(&Some("deck".to_string())), wrapped);
    assert_eq!(session_command(&Some("other".to_string())), plain);
    assert_eq!(session_command(&None), plain);
}

#[test]
fn install_command_embeds_identity() {
    let c = install_command(1000, 985);
    let expected = "dnf install -y steam gamescope vulkan-tools mesa-vulkan-drivers libva-vdpau-driver pipewire-pulseaudio gamemode &&\n        groupadd -g 985 steamgroup || true &&\n        useradd -m -u 1000 -g 985 steam || true &&\n        mkdir -p /home/steam/.steam &&\n        chown -R steam:steamgroup /home/steam &&\n        echo \"Kontener Steam gotowy!\"";
    assert_eq!(c, expected);
}

#[test]
fn status_line_renders_state_and_pid() {
    assert_eq!(status_line(&"running".to_string(), 4242), "Status: running | PID: 4242");
    assert_eq!(status_line(&"".to_string(), 0), "Status:  | PID: 0");
}

#[test]
fn refuses_root() {
    assert!(!rootless_allowed(0));
    assert!(rootless_allowed(1000));
}
