use frost_tune::error::{AppError, ErrorKind};
use frost_tune::eq::FilterType;
use frost_tune::pipeline::{
    check_write_capacity, choose_pull_result, is_default_state, pull_needs_retry, reset_commit_failure, rollback_failure,
    PullRetry, PullRetryStep, PushAction, PushEvent, PushFlow, PushPhase, RollbackStage,
};
use frost_tune::tp35pro::FilterWords;

#[test]
fn pull_retry_gives_up_after_three_attempts() {
    let mut r = PullRetry::new();
    assert!(r.before_attempt(false).is_ok());
    assert_eq!(r.before_attempt(true).unwrap_err().kind, ErrorKind::OperationCancelled);
    assert!(matches!(r.after_attempt::<u8>(Err(AppError::general("a"))), PullRetryStep::RetryAfterDelay));
    assert!(matches!(r.after_attempt::<u8>(Err(AppError::general("b"))), PullRetryStep::RetryAfterDelay));
    match r.after_attempt::<u8>(Err(AppError::general("c"))) {
        PullRetryStep::Return(Err(e)) => assert_eq!(e.message, "c"),
        _ => panic!("expected the last error"),
    }
    let mut c = PullRetry::new();
    assert!(matches!(c.after_attempt::<u8>(Err(AppError::new(ErrorKind::OperationCancelled, "Cancelled"))), PullRetryStep::Return(Err(_))));
    assert!(matches!(c.after_attempt(Ok(5u8)), PullRetryStep::Return(Ok(5))));
}

fn blank(index: u8) -> FilterWords {
    FilterWords { index, enabled: false, freq: 100, q_word: 256, gain_word: 0, filter_type: FilterType::Peak }
}

#[test]
fn default_state_triggers_second_pull() {
    let bands = vec![blank(0), blank(1)];
    assert!(is_default_state(&bands, 0));
    assert!(!is_default_state(&bands, 1));
    assert!(pull_needs_retry(&Ok((bands.clone(), 0))));
    assert!(pull_needs_retry(&Err(AppError::general("x"))));
    let mut live = bands.clone();
    live[1].enabled = true;
    assert!(!pull_needs_retry(&Ok((live, 0))));
    assert_eq!(choose_pull_result::<u8>(Ok(1), Err(AppError::general("x"))).unwrap(), 1);
    assert_eq!(choose_pull_result::<u8>(Ok(1), Ok(2)).unwrap(), 2);
    assert_eq!(choose_pull_result::<u8>(Err(AppError::general("x")), Err(AppError::general("y"))).unwrap_err().message, "y");
}

#[test]
fn push_verifies_with_growing_backoff_then_rolls_back() {
    let f = PushFlow::new(false, 100);
    let (f, a) = f.step(PushEvent::SnapshotTaken { result: Ok(()), cancelled: false });
    assert!(matches!(a, PushAction::Write));
    let (f, a) = f.step(PushEvent::Written(Ok(())));
    assert!(matches!(a, PushAction::ReadBackAfter(100)));
    let (f, a) = f.step(PushEvent::ReadBack(Ok(false)));
    assert!(matches!(a, PushAction::ReadBackAfter(200)));
    let (f, a) = f.step(PushEvent::ReadBack(Ok(false)));
    assert!(matches!(a, PushAction::ReadBackAfter(400)));
    let (f, a) = f.step(PushEvent::ReadBack(Ok(false)));
    assert!(matches!(a, PushAction::Rollback));
    let (f, a) = f.step(PushEvent::RolledBack(Ok(())));
    assert!(matches!(f.phase, PushPhase::Done));
    match a {
        PushAction::Fail(e) => {
            assert_eq!(e.kind, ErrorKind::VerifyFailed);
            assert_eq!(e.message, "Verification failed: settings did not match");
        }
        _ => panic!("expected failure"),
    }
}

#[test]
fn push_write_failure_reports_both_errors() {
    let f = PushFlow::new(false, 100);
    let (f, _) = f.step(PushEvent::SnapshotTaken { result: Ok(()), cancelled: false });
    let (f, a) = f.step(PushEvent::Written(Err(AppError::new(ErrorKind::WriteError, "HID Write failed"))));
    assert!(matches!(a, PushAction::Rollback));
    let (_, a) = f.step(PushEvent::RolledBack(Err(AppError::new(ErrorKind::RollbackFailed, "rollback write failed: x"))));
    match a {
        PushAction::Fail(e) => {
            assert_eq!(e.kind, ErrorKind::RollbackFailed);
            assert_eq!(e.message, "Write failed: HID Write failed | rollback failed: rollback write failed: x");
        }
        _ => panic!("expected failure"),
    }
}

#[test]
fn push_succeeds_or_skips_verification() {
    let f = PushFlow::new(true, 100);
    let (f, _) = f.step(PushEvent::SnapshotTaken { result: Ok(()), cancelled: false });
    let (_, a) = f.step(PushEvent::Written(Ok(())));
    assert!(matches!(a, PushAction::SucceedAsWritten));
    let g = PushFlow::new(false, 100);
    let (g, _) = g.step(PushEvent::SnapshotTaken { result: Ok(()), cancelled: false });
    let (g, _) = g.step(PushEvent::Written(Ok(())));
    let (_, a) = g.step(PushEvent::ReadBack(Ok(true)));
    assert!(matches!(a, PushAction::SucceedAsReadBack));
    let c = PushFlow::new(false, 100);
    let (_, a) = c.step(PushEvent::SnapshotTaken { result: Ok(()), cancelled: true });
    assert!(matches!(a, PushAction::Fail(ref e) if e.kind == ErrorKind::OperationCancelled));
}

#[test]
fn rollback_and_reset_messages() {
    let e = AppError::general("boom");
    assert_eq!(rollback_failure(RollbackStage::VerifyRead, &e).message, "rollback verify read failed: boom");
    assert_eq!(rollback_failure(RollbackStage::Compare, &e).kind, ErrorKind::RollbackFailed);
    assert_eq!(reset_commit_failure(&e).message, "Reset commit failed: boom — device may be in an inconsistent state");
}

#[test]
fn push_flow_accepts_only_the_awaited_event() {
    let f = PushFlow::new(false, 100);
    assert!(f.accepts(&PushEvent::SnapshotTaken { result: Ok(()), cancelled: false }));
    assert!(!f.accepts(&PushEvent::Written(Ok(()))));
    let (f, _) = f.step(PushEvent::SnapshotTaken { result: Ok(()), cancelled: false });
    assert!(f.accepts(&PushEvent::Written(Ok(()))));
    assert!(!f.accepts(&PushEvent::ReadBack(Ok(true))));
    let (f, _) = f.step(PushEvent::Written(Ok(())));
    assert!(f.accepts(&PushEvent::ReadBack(Ok(false))));
    assert!(!f.accepts(&PushEvent::RolledBack(Ok(()))));
    let (f, _) = f.step(PushEvent::ReadBack(Ok(true)));
    assert!(matches!(f.phase, PushPhase::Done));
    assert!(!f.accepts(&PushEvent::ReadBack(Ok(true))));
}

#[test]
fn writes_beyond_the_device_capacity_are_refused() {
    assert!(check_write_capacity(10, 10).is_ok());
    assert!(check_write_capacity(0, 10).is_ok());
    let e = check_write_capacity(11, 10).unwrap_err();
    assert_eq!(e.kind, ErrorKind::InvalidPayload);
    assert_eq!(e.message, "Payload exceeds device capacity. Provided: 11, max allowed: 10");
}
