use tcp_tester::control_plane::{
    parse_kernel_release, select_attach_mode, AttachMode, ControlPlane, ControlPlaneStage,
    KernelVersion,
};
use tcp_tester::errors::{AttachError, LoadError};

fn v(major: u16, minor: u16, patch: u16) -> KernelVersion {
    KernelVersion { major, minor, patch }
}

#[test]
fn kernel_below_threshold_takes_multi_program_mode() {
    assert_eq!(select_attach_mode(v(5, 6, 0)), AttachMode::AllowMultiple);
    assert_eq!(select_attach_mode(v(5, 6, 19)), AttachMode::AllowMultiple);
    assert_eq!(select_attach_mode(v(4, 19, 200)), AttachMode::AllowMultiple);
}

#[test]
fn kernel_at_or_above_threshold_takes_exclusive_mode() {
    assert_eq!(select_attach_mode(v(5, 7, 0)), AttachMode::Single);
    assert_eq!(select_attach_mode(v(5, 7, 1)), AttachMode::Single);
    assert_eq!(select_attach_mode(v(5, 8, 0)), AttachMode::Single);
    assert_eq!(select_attach_mode(v(6, 0, 0)), AttachMode::Single);
}

#[test]
fn release_strings_parse_to_versions() {
    assert_eq!(parse_kernel_release(b"5.6.3"), Some(v(5, 6, 3)));
    assert_eq!(parse_kernel_release(b"5.7.0"), Some(v(5, 7, 0)));
    assert_eq!(parse_kernel_release(b"5.15.0-91-generic"), Some(v(5, 15, 0)));
    assert_eq!(parse_kernel_release(b"6.1.44.1"), Some(v(6, 1, 44)));
}

#[test]
fn malformed_release_strings_are_rejected() {
    assert_eq!(parse_kernel_release(b""), None);
    assert_eq!(parse_kernel_release(b"5.7"), None);
    assert_eq!(parse_kernel_release(b"5..7"), None);
    assert_eq!(parse_kernel_release(b"a.b.c"), None);
    assert_eq!(parse_kernel_release(b".5.7.0"), None);
    assert_eq!(parse_kernel_release(b"5.7.x"), None);
    assert_eq!(parse_kernel_release(b"70000.1.2"), None);
}

#[test]
fn release_string_below_threshold_selects_multi_program_mode() {
    let version = parse_kernel_release(b"5.6.19-generic").unwrap();
    assert_eq!(select_attach_mode(version), AttachMode::AllowMultiple);
    let version = parse_kernel_release(b"5.7.0-rc1").unwrap();
    assert_eq!(select_attach_mode(version), AttachMode::Single);
}

#[test]
fn control_plane_reaches_attached_in_order() {
    let mut cp = ControlPlane::new(1024);
    assert!(cp.finish_load(true).is_ok());
    let mode = cp.finish_attach(v(5, 7, 0), true, true).unwrap();
    assert_eq!(mode, AttachMode::Single);
    let map = cp.into_map();
    assert_eq!(map.get(&tcp_tester::socket_key::from_socket_view(1, 2, 3, 4)), None);
}

#[test]
fn rejected_artifact_is_a_load_error() {
    let mut cp = ControlPlane::new(16);
    assert_eq!(cp.finish_load(false), Err(LoadError::ArtifactRejected));
}

#[test]
fn failed_packet_path_attach_is_fatal() {
    let mut cp = ControlPlane::new(16);
    cp.finish_load(true).unwrap();
    assert_eq!(
        cp.finish_attach(v(5, 7, 0), false, true),
        Err(AttachError::PacketPathFailed)
    );
}

#[test]
fn failed_socket_hook_attach_is_fatal() {
    let mut cp = ControlPlane::new(16);
    cp.finish_load(true).unwrap();
    assert_eq!(
        cp.finish_attach(v(5, 6, 0), true, false),
        Err(AttachError::SocketHookFailed)
    );
}

#[test]
fn stage_enum_distinguishes_the_three_stages() {
    assert_ne!(ControlPlaneStage::Unloaded, ControlPlaneStage::Loaded);
    assert_ne!(ControlPlaneStage::Loaded, ControlPlaneStage::Attached);
}
