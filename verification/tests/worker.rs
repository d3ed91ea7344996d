use frost_tune::device::{DeviceInfo, SupportedProfile};
use frost_tune::error::{AppError, ErrorKind};
use frost_tune::worker::{
    ActiveBackend, ApiInit, BackendKind, ConnectPlan, ConnectionResult, DiscoveryManager,
    HelperCheck, HelperOp, HelperReply, LocalConnectNext, LocalStatus, LocalWorker,
    RespawnBudget, WorkerRouting,
};

fn dev(path: &str) -> DeviceInfo {
    DeviceInfo { vendor_id: 0x3302, product_id: 0x43E6, path: path.to_string(), manufacturer: None }
}

fn unknown(path: &str) -> DeviceInfo {
    DeviceInfo { vendor_id: 1, product_id: 2, path: path.to_string(), manufacturer: None }
}

#[test]
fn local_connect_uses_first_listed_device() {
    let listings = vec![None, Some(vec![]), Some(vec![dev("/a"), dev("/b")])];
    match LocalWorker::plan_connect(None, &listings) {
        ConnectPlan::Open { provider, target, profile } => {
            assert_eq!(provider, 2);
            assert_eq!(target.path, "/a");
            assert_eq!(profile, SupportedProfile::TP35Pro);
        }
        other => panic!("unexpected {:?}", other),
    }
}

#[test]
fn local_connect_refusals() {
    match LocalWorker::plan_connect(None, &vec![None, Some(vec![])]) {
        ConnectPlan::Refuse(r) => {
            assert!(!r.success);
            assert!(r.device.is_none());
            assert_eq!(r.error.unwrap().message, "No supported device found");
        }
        other => panic!("unexpected {:?}", other),
    }
    match LocalWorker::plan_connect(Some(unknown("/u")), &vec![Some(vec![unknown("/u")])]) {
        ConnectPlan::Refuse(r) => assert_eq!(r.error.unwrap().message, "Unsupported DAC device"),
        other => panic!("unexpected {:?}", other),
    }
    match LocalWorker::plan_connect(Some(dev("/gone")), &vec![Some(vec![dev("/a")])]) {
        ConnectPlan::Refuse(r) => {
            assert_eq!(r.device.unwrap().path, "/gone");
            assert_eq!(r.error.unwrap().message, "Device not found or failed to open");
        }
        other => panic!("unexpected {:?}", other),
    }
}

#[test]
fn local_worker_tracks_generation() {
    let mut w = LocalWorker::new();
    let r = w.finish_connect(dev("/a"), SupportedProfile::TP35Pro, Ok(()));
    assert!(r.success);
    assert_eq!(w.generation, 1);
    assert!(w.connected());
    assert!(!w.physical_check(&vec![Some(vec![dev("/a")])]));
    assert!(w.physical_check(&vec![Some(vec![dev("/b")])]));
    assert!(!w.connected());
    assert_eq!(w.generation, 2);
    let failed = w.finish_connect(dev("/a"), SupportedProfile::TP35Pro, Err(AppError::new(ErrorKind::PermissionDenied, "denied")));
    assert!(!failed.success);
    assert_eq!(w.generation, 2);
    w.disconnect();
    assert_eq!(w.generation, 3);
}

#[test]
fn local_status_falls_back_to_first_listed() {
    let w = LocalWorker::new();
    let s = w.status(true, &vec![Some(vec![dev("/x")]), None, Some(vec![dev("/y")])]);
    assert!(!s.connected);
    assert!(s.physically_present);
    assert_eq!(s.device.unwrap().path, "/x");
    assert_eq!(s.available_devices.len(), 2);
    assert!(s.backend_reset);
    assert_eq!(w.operation_profile().unwrap_err().message, "Not connected");
}

#[test]
fn routing_falls_back_to_elevated_on_permission_error() {
    let mut r = WorkerRouting::new();
    assert_eq!(r.connect_route(None), BackendKind::Local);
    let denied = ConnectionResult { success: false, device: None, error: Some(AppError::new(ErrorKind::PermissionDenied, "no")) };
    assert!(matches!(r.after_local_connect(Some(denied)), LocalConnectNext::TryElevated));
    let res = r.after_elevated_connect(Ok(HelperReply::Connected { device: Some(dev("/e")) }));
    assert!(res.success);
    assert_eq!(r.preferred_backend, BackendKind::Elevated);
    assert_eq!(r.operation_route(), BackendKind::Elevated);
    match r.after_local_connect(None) {
        LocalConnectNext::Reply(c) => assert_eq!(c.error.unwrap().message, "Worker thread died"),
        _ => panic!("expected a reply"),
    }
}

#[test]
fn routing_drops_dead_helper() {
    let mut r = WorkerRouting { backend: Some(ActiveBackend::Elevated { device_info: None }), preferred_backend: BackendKind::Elevated };
    let ok = r.after_elevated_operation(HelperOp::Pull, Ok(HelperReply::Pulled { parsed: Ok(()) }));
    assert!(ok.is_ok());
    let parse = r.after_elevated_operation(HelperOp::Reset, Ok(HelperReply::Pulled { parsed: Err("bad json".to_string()) }));
    assert_eq!(parse.unwrap_err().kind, ErrorKind::ParseError);
    assert!(r.backend.is_some());
    let dead = r.after_elevated_operation(HelperOp::Push, Ok(HelperReply::Pulled { parsed: Ok(()) }));
    assert_eq!(dead.unwrap_err().message, "Elevated helper died");
    assert!(r.backend.is_none());
}

#[test]
fn status_merge_takes_helper_view() {
    let mut r = WorkerRouting { backend: Some(ActiveBackend::Elevated { device_info: Some(dev("/e")) }), preferred_backend: BackendKind::Elevated };
    let local = LocalStatus { connected: false, physically_present: true, device: None, available_devices: vec![dev("/e")], backend_reset: false, generation: 4, fatal_error: None };
    let s = r.merge_status(Some(local), Some(Ok(HelperReply::Status { connected: true, physically_present: true, device: None })));
    assert!(s.connected);
    assert_eq!(s.device.unwrap().path, "/e");
    assert_eq!(s.generation, 4);
    assert!(r.backend.is_some());
    let s2 = r.merge_status(None, Some(Err(AppError::general("pipe"))));
    assert!(!s2.connected && s2.backend_reset);
    assert_eq!(s2.fatal_error.unwrap(), "Local worker thread died");
    assert!(r.backend.is_none());
}

#[test]
fn disconnect_forgets_backend() {
    let mut r = WorkerRouting { backend: Some(ActiveBackend::Local), preferred_backend: BackendKind::Local };
    assert_eq!(r.begin_disconnect(), BackendKind::Local);
    assert!(r.backend.is_none());
}

#[test]
fn discovery_manager_checks() {
    let d = DiscoveryManager::new();
    assert!(!d.should_check(999));
    assert!(d.should_check(1000));
    let listings = vec![Some(vec![dev("/a")]), None];
    assert!(d.check_physical_presence(Some(&dev("/a")), &listings));
    assert!(!d.check_physical_presence(Some(&dev("/b")), &listings));
    assert!(!d.check_physical_presence(None, &listings));
    assert_eq!(d.list_devices(&listings).len(), 1);
}

#[test]
fn helper_respawn_budget() {
    let mut b = RespawnBudget::new();
    assert_eq!(b.on_health_check(false, None), HelperCheck::Respawn);
    assert_eq!(b.on_health_check(false, Some(1000)), HelperCheck::Drop);
    assert_eq!(b.attempts, 0);
    assert_eq!(b.on_health_check(false, None), HelperCheck::Respawn);
    assert_eq!(b.on_health_check(false, Some(2000)), HelperCheck::Respawn);
    assert_eq!(b.on_health_check(false, Some(4000)), HelperCheck::Respawn);
    assert_eq!(b.on_health_check(false, Some(100_000)), HelperCheck::Drop);
    assert_eq!(b.on_health_check(true, None), HelperCheck::Keep);
    assert!(b.on_respawned(true));
}

#[test]
fn api_init_backoff() {
    let mut a = ApiInit::new();
    assert!(a.should_try(None));
    a.record_try(Err("no hidraw".to_string()));
    assert_eq!(a.retry_count, 1);
    assert_eq!(a.fatal_error.as_deref(), Some("Failed to initialize HID API: no hidraw"));
    assert!(!a.should_try(Some(1999)));
    assert!(a.should_try(Some(2000)));
    a.record_try(Ok(()));
    assert_eq!(a.retry_count, 0);
    assert!(a.fatal_error.is_none());
}
