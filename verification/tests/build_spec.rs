use hackerosteam::capabilities::{DisplayTransport, GpuVendor};
use hackerosteam::execspec::{
    build_spec, overlay_option_strings, DeviceCgroupRule, Mount, NamespaceMode,
};
use hackerosteam::probes::NvidiaNodes;
use hackerosteam::storage::resolve_layout;

fn no_nodes() -> NvidiaNodes {
    NvidiaNodes { dev0: false, ctl: false, modeset: false, uvm: false, uvm_tools: false }
}

#[test]
fn mesa_x11_spec() {
    let layout = resolve_layout(&Some("/data".to_string()), &None).unwrap();
    let s = build_spec(
        GpuVendor::Mesa,
        no_nodes(),
        DisplayTransport::X11,
        &":0".to_string(),
        &layout,
        1000,
    );
    assert_eq!(s.image, "registry.fedoraproject.org/fedora:43");
    assert_eq!(s.name, "hackerosteam");
    assert!(s.terminal);
    assert_eq!(s.mounts.len(), 6);
    match &s.mounts[0] {
        Mount::Bind { source, destination, read_only } => {
            assert_eq!(source, "/tmp/.X11-unix");
            assert_eq!(destination, "/tmp/.X11-unix");
            assert!(*read_only);
        },
        _ => panic!("first mount must be the X11 socket bind"),
    }
    match &s.mounts[1] {
        Mount::Bind { source, destination, read_only } => {
            assert_eq!(source, "/run/user/1000");
            assert_eq!(destination, "/run/user/1000");
            assert!(!*read_only);
        },
        _ => panic!("second mount must be the runtime directory bind"),
    }
    match &s.mounts[2] {
        Mount::Overlay { destination, lower, upper, work } => {
            assert_eq!(destination, "/home/steam");
            assert_eq!(lower, "/data/hackerosteam/empty");
            assert_eq!(upper, "/data/hackerosteam/upper");
            assert_eq!(work, "/data/hackerosteam/work");
        },
        _ => panic!("third mount must be the overlay home"),
    }
    let rules: Vec<u64> = s.device_rules.iter().map(|r| r.major).collect();
    assert_eq!(rules, vec![226, 116, 13]);
    let env: Vec<(String, String)> =
        s.env.iter().map(|e| (e.key.clone(), e.value.clone())).collect();
    assert_eq!(
        env,
        vec![
            ("PULSE_SERVER".to_string(), "unix:/run/user/1000/pulse/native".to_string()),
            ("STEAMOS".to_string(), "1".to_string()),
            ("STEAM_RUNTIME".to_string(), "0".to_string()),
            ("XDG_RUNTIME_DIR".to_string(), "/run/user/1000".to_string()),
            ("DISPLAY".to_string(), ":0".to_string()),
        ]
    );
    assert_eq!(s.cap_add, vec!["SYS_NICE".to_string(), "IPC_LOCK".to_string()]);
    assert_eq!(s.cap_drop, vec!["ALL".to_string()]);
    assert_eq!(s.namespaces.user, NamespaceMode::KeepId);
    assert_eq!(s.namespaces.ipc, NamespaceMode::Host);
    assert_eq!(s.namespaces.pid, NamespaceMode::Host);
    assert_eq!(s.namespaces.uts, NamespaceMode::Host);
    assert_eq!(s.namespaces.net, NamespaceMode::Host);
    assert!(s.selinux_disabled);
    assert!(s.no_new_privileges);
    assert!(!s.privileged);
    assert_eq!(s.limits.cpu_quota_us, 90000);
    assert_eq!(s.limits.memory_limit_bytes, 17179869184);
    assert_eq!(s.limits.pids_limit, 4096);
    assert_eq!(s.limits.blkio_weight, 505);
    assert_eq!(s.oci_runtime, None);
}

#[test]
fn wayland_sets_only_wayland_address() {
    let layout = resolve_layout(&Some("/data".to_string()), &None).unwrap();
    let s = build_spec(
        GpuVendor::Mesa,
        no_nodes(),
        DisplayTransport::Wayland,
        &"wayland-1".to_string(),
        &layout,
        7,
    );
    let keys: Vec<&str> = s.env.iter().map(|e| e.key.as_str()).collect();
    assert!(keys.contains(&"WAYLAND_DISPLAY"));
    assert!(!keys.contains(&"DISPLAY"));
    let wl = s.env.iter().find(|e| e.key == "WAYLAND_DISPLAY").unwrap();
    assert_eq!(wl.value, "wayland-1");
}

#[test]
fn nvidia_binds_exactly_the_present_nodes() {
    let layout = resolve_layout(&Some("/data".to_string()), &None).unwrap();
    let nodes =
        NvidiaNodes { dev0: true, ctl: false, modeset: false, uvm: true, uvm_tools: false };
    let s = build_spec(
        GpuVendor::Nvidia,
        nodes,
        DisplayTransport::X11,
        &":0".to_string(),
        &layout,
        1000,
    );
    let nvidia_binds: Vec<&str> = s
        .mounts
        .iter()
        .filter_map(|m| match m {
            Mount::Bind { source, .. } if source.starts_with("/dev/nvidia") => {
                Some(source.as_str())
            },
            _ => None,
        })
        .collect();
    assert_eq!(nvidia_binds, vec!["/dev/nvidia0", "/dev/nvidia-uvm"]);
    let rules: Vec<u64> = s.device_rules.iter().map(|r| r.major).collect();
    assert_eq!(rules, vec![226, 116, 13, 195, 235]);
    let keys: Vec<&str> = s.env.iter().map(|e| e.key.as_str()).collect();
    assert!(keys.contains(&"NVIDIA_VISIBLE_DEVICES"));
    assert!(keys.contains(&"NVIDIA_DRIVER_CAPABILITIES"));
    assert_eq!(s.oci_runtime, Some("nvidia".to_string()));
}

#[test]
fn mesa_never_binds_nvidia_nodes() {
    let layout = resolve_layout(&Some("/data".to_string()), &None).unwrap();
    let nodes = NvidiaNodes { dev0: true, ctl: true, modeset: true, uvm: true, uvm_tools: true };
    let s = build_spec(
        GpuVendor::Mesa,
        nodes,
        DisplayTransport::X11,
        &":0".to_string(),
        &layout,
        1000,
    );
    assert_eq!(s.mounts.len(), 6);
    assert!(s.mounts.iter().all(|m| match m {
        Mount::Bind { source, .. } => !source.starts_with("/dev/nvidia"),
        _ => true,
    }));
    assert_eq!(s.oci_runtime, None);
}

#[test]
fn unchanged_host_state_builds_identical_spec() {
    let layout = resolve_layout(&None, &Some("/home/u".to_string())).unwrap();
    let nodes =
        NvidiaNodes { dev0: true, ctl: true, modeset: false, uvm: false, uvm_tools: false };
    let a = build_spec(
        GpuVendor::Nvidia,
        nodes,
        DisplayTransport::Wayland,
        &"wayland-0".to_string(),
        &layout,
        1000,
    );
    let b = build_spec(
        GpuVendor::Nvidia,
        nodes,
        DisplayTransport::Wayland,
        &"wayland-0".to_string(),
        &layout,
        1000,
    );
    assert_eq!(a, b);
}

#[test]
fn overlay_options_exact() {
    let opts = overlay_option_strings(
        &"/d/empty".to_string(),
        &"/d/upper".to_string(),
        &"/d/work".to_string(),
    );
    assert_eq!(
        opts,
        vec![
            "upperdir=/d/upper".to_string(),
            "lowerdir=/d/empty".to_string(),
            "workdir=/d/work".to_string(),
        ]
    );
}

#[test]
fn device_rule_majors_are_plain_values() {
    let r = DeviceCgroupRule { major: 226 };
    assert_eq!(r.major, 226);
}
