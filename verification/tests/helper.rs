use frost_tune::device::{DeviceInfo, SupportedProfile};
use frost_tune::error::{AppError, ErrorKind};
use frost_tune::helper::{after_line, SessionAction};
use frost_tune::helper::{check_request_line, request_authorized, HelperConnect, HelperSession, LineCheck, MAX_REQUEST_BYTES};

fn dev(path: &str) -> DeviceInfo {
    DeviceInfo { vendor_id: 0x2FC6, product_id: 0xDF30, path: path.to_string(), manufacturer: Some("Moondrop".to_string()) }
}

#[test]
fn request_lines_are_classified() {
    assert_eq!(check_request_line("", 0), LineCheck::End);
    assert_eq!(check_request_line("{\"x\":1", MAX_REQUEST_BYTES), LineCheck::TooLarge);
    assert_eq!(check_request_line("  \n", 3), LineCheck::Blank);
    assert_eq!(check_request_line("{}\n", 3), LineCheck::Request);
    assert!(request_authorized("tok", "tok"));
    assert!(!request_authorized("tok", "tok2"));
}

#[test]
fn helper_connects_and_reports_status() {
    let mut s = HelperSession::new();
    match s.connect_plan(None, Some(Ok(vec![dev("/h")]))) {
        HelperConnect::Open { target, profile } => {
            assert_eq!(profile, SupportedProfile::DawnPro);
            let r = s.finish_connect(target, profile, Ok(()));
            assert_eq!(r.unwrap().unwrap().path, "/h");
        }
        other => panic!("unexpected {:?}", other),
    }
    match s.connect_plan(Some(dev("/other")), None) {
        HelperConnect::Answer(Ok(Some(d))) => assert_eq!(d.path, "/h"),
        other => panic!("unexpected {:?}", other),
    }
    assert_eq!(s.operation_profile().unwrap(), SupportedProfile::DawnPro);
    let (connected, present, _) = s.status(Err(AppError::general("enumeration")));
    assert!(connected && present);
    let (connected, present, device) = s.status(Ok(vec![]));
    assert!(!connected && !present && device.is_none());
    assert_eq!(s.operation_profile().unwrap_err().message, "Not connected");
}

#[test]
fn helper_refuses_missing_device() {
    let s = HelperSession::new();
    match s.connect_plan(None, Some(Ok(vec![]))) {
        HelperConnect::Answer(Err(e)) => {
            assert_eq!(e.kind, ErrorKind::NotConnected);
            assert_eq!(e.message, "Device not found. Is it plugged in?");
        }
        other => panic!("unexpected {:?}", other),
    }
}

#[test]
fn session_actions_follow_the_line() {
    assert_eq!(after_line(LineCheck::End, false, false, false), SessionAction::Stop);
    assert_eq!(after_line(LineCheck::TooLarge, true, true, false), SessionAction::RejectTooLarge);
    assert_eq!(after_line(LineCheck::Blank, false, false, false), SessionAction::Skip);
    assert_eq!(after_line(LineCheck::Request, false, true, true), SessionAction::RejectUnparsed);
    assert_eq!(after_line(LineCheck::Request, true, false, false), SessionAction::RejectUnauthorized);
    assert_eq!(after_line(LineCheck::Request, true, false, true), SessionAction::RejectUnauthorized);
    assert_eq!(after_line(LineCheck::Request, true, true, true), SessionAction::ShutDown);
    assert_eq!(after_line(LineCheck::Request, true, true, false), SessionAction::Serve);
}
