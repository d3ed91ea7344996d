use frost_tune::elevation::{check_elevation_target, check_executable, check_helper_version, FileStat, PendingRequests};

#[test]
fn elevation_target_checks_in_order() {
    let ok_exe = FileStat { mode: 0o755, uid: 0 };
    let ok_dir = FileStat { mode: 0o755, uid: 0 };
    assert!(check_elevation_target(ok_exe, Some(ok_dir), 1000).is_ok());
    assert_eq!(
        check_elevation_target(FileStat { mode: 0o775, uid: 0 }, Some(ok_dir), 1000).unwrap_err().message,
        "Executable is group-writable or world-writable; refusing to elevate."
    );
    assert_eq!(
        check_elevation_target(FileStat { mode: 0o755, uid: 1000 }, Some(ok_dir), 1000).unwrap_err().message,
        "Executable must be owned by root to prevent TOCTOU attacks when elevating."
    );
    assert_eq!(check_elevation_target(ok_exe, None, 1000).unwrap_err().message, "Failed to resolve executable directory");
    assert_eq!(
        check_elevation_target(ok_exe, Some(FileStat { mode: 0o777, uid: 0 }), 1000).unwrap_err().message,
        "Executable directory is world-writable; refusing to elevate."
    );
    assert!(check_elevation_target(ok_exe, Some(FileStat { mode: 0o755, uid: 1000 }), 1000).is_ok());
    assert!(check_elevation_target(ok_exe, Some(FileStat { mode: 0o755, uid: 7 }), 1000).is_err());
}

#[test]
fn helper_version_must_match() {
    assert!(check_helper_version(Some("1.4.0".to_string())).is_ok());
    assert_eq!(
        check_helper_version(Some("1.3.0".to_string())).unwrap_err().message,
        "IPC Version mismatch: UI=1.4.0 helper=1.3.0. Re-install the application."
    );
    assert_eq!(check_helper_version(None).unwrap_err().message, "Elevated helper failed version handshake");
}

#[test]
fn pending_responses_reach_their_request_once() {
    let mut p: PendingRequests<&str> = PendingRequests::new();
    let a = p.register("first");
    let b = p.register("second");
    assert_eq!((a, b), (1, 2));
    assert_eq!(p.complete(b), Some("second"));
    assert_eq!(p.complete(b), None);
    assert_eq!(p.len(), 1);
    assert_eq!(p.complete(a), Some("first"));
    assert_eq!(p.complete(99), None);
}

#[test]
fn executable_checks_come_first() {
    assert!(check_executable(FileStat { mode: 0o755, uid: 0 }).is_ok());
    assert_eq!(
        check_executable(FileStat { mode: 0o775, uid: 0 }).unwrap_err().message,
        "Executable is group-writable or world-writable; refusing to elevate."
    );
    assert_eq!(
        check_executable(FileStat { mode: 0o755, uid: 1000 }).unwrap_err().message,
        "Executable must be owned by root to prevent TOCTOU attacks when elevating."
    );
}
