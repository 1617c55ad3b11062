use hackerosteam::errors::SessionError;
use hackerosteam::storage::{
    daemon_address, daemon_socket_path, overlay_decision, resolve_layout, run_user_dir,
    OverlayAction,
};

#[test]
fn run_user_dir_renders_uid() {
    assert_eq!(run_user_dir(0), "/run/user/0");
    assert_eq!(run_user_dir(1000), "/run/user/1000");
    assert_eq!(run_user_dir(u32::MAX), "/run/user/4294967295");
}

#[test]
fn socket_path_under_runtime_dir() {
    assert_eq!(daemon_socket_path(1000), "/run/user/1000/podman/podman.sock");
}

#[test]
fn daemon_address_requires_socket() {
    assert_eq!(daemon_address(1000, true), Ok("/run/user/1000/podman/podman.sock".to_string()));
    assert_eq!(daemon_address(1000, false), Err(SessionError::RuntimeUnreachable));
}

#[test]
fn layout_prefers_data_dir_override() {
    let l = resolve_layout(&Some("/data".to_string()), &Some("/home/u".to_string())).unwrap();
    assert_eq!(l.base, "/data/hackerosteam");
    assert_eq!(l.lower, "/data/hackerosteam/empty");
    assert_eq!(l.upper, "/data/hackerosteam/upper");
    assert_eq!(l.work, "/data/hackerosteam/work");
}

#[test]
fn layout_falls_back_to_home() {
    let l = resolve_layout(&None, &Some("/home/u".to_string())).unwrap();
    assert_eq!(l.base, "/home/u/.local/share/hackerosteam");
    assert_eq!(l.lower, "/home/u/.local/share/hackerosteam/empty");
    assert_eq!(l.upper, "/home/u/.local/share/hackerosteam/upper");
    assert_eq!(l.work, "/home/u/.local/share/hackerosteam/work");
}

#[test]
fn layout_without_any_root_is_fatal() {
    assert_eq!(resolve_layout(&None, &None), Err(SessionError::InvalidIdentity));
}

#[test]
fn overlay_initializes_absent_or_empty_upper() {
    assert_eq!(overlay_decision(false, false), OverlayAction::Initialize);
    assert_eq!(overlay_decision(true, false), OverlayAction::Initialize);
}

#[test]
fn overlay_preserves_populated_upper() {
    assert_eq!(overlay_decision(true, true), OverlayAction::Preserve);
}
