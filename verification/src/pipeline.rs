//! The decisions of a pull, a push and a reset: when to retry a pull, which
//! of two pulls to keep, and the push sequence of snapshot, write, verified
//! read-backs with growing delays, and rollback, with the errors each failure
//! ends in. The application performs the HID traffic and the delays.
use crate::error::{AppError, ErrorKind};
use crate::retry::{cap_u64, saturating_mul, saturating_pow2, two_pow};
use crate::text::{decimal, push_decimal};
use crate::tp35pro::FilterWords;
use crate::worker::is_error;
use vstd::prelude::*;
use vstd::string::StringExecFns;

verus! {

/// Attempts of one pull before it gives up.
pub const PEQ_RETRY_COUNT: usize = 3;

/// Read-backs after a push before it rolls back.
pub const VERIFY_RETRY_COUNT: u32 = 3;

/// The nonce of the request that wakes a device before a pull or push.
pub const WAKE_NONCE: u8 = 0x01;

/// The error of an operation cancelled by a newer request.
pub open spec fn is_cancelled(e: AppError) -> bool {
    is_error(e, ErrorKind::OperationCancelled, "Cancelled"@)
}

/// The error of an operation cancelled by a newer request.
pub fn cancelled_error() -> (e: AppError)
    ensures
        is_cancelled(e),
{
    AppError::new(ErrorKind::OperationCancelled, "Cancelled")
}

/// What follows one attempt of a pull.
#[derive(Debug)]
pub enum PullRetryStep<T> {
    /// The pull ends with this result.
    Return(Result<T, AppError>),
    /// Wait the pull retry delay, then try again.
    RetryAfterDelay,
}

/// The attempts of one pull: up to `PEQ_RETRY_COUNT`, each preceded by a
/// check for cancellation and a drain of stale reports.
#[derive(Debug)]
pub struct PullRetry {
    pub attempt: usize,
}

impl PullRetry {
    /// Before the first attempt.
    pub fn new() -> (r: PullRetry)
        ensures
            r.attempt == 0,
    {
        PullRetry { attempt: 0 }
    }

    /// Before an attempt: a cancelled pull stops.
    pub fn before_attempt(&self, cancelled: bool) -> (r: Result<(), AppError>)
        ensures
            cancelled ==> (r matches Err(e) && is_cancelled(e)),
            !cancelled ==> r is Ok,
    {
        if cancelled {
            Err(cancelled_error())
        } else {
            Ok(())
        }
    }

    /// After an attempt: success and cancellation end the pull; any other
    /// error is retried until the attempts are used up, and then returned.
    pub fn after_attempt<T>(&mut self, result: Result<T, AppError>) -> (s: PullRetryStep<T>)
        requires
            old(self).attempt < PEQ_RETRY_COUNT,
        ensures
            match result {
                Ok(x) => s == PullRetryStep::Return(Ok::<T, AppError>(x)) && final(self).attempt == old(self).attempt,
                Err(e) => if e.kind == ErrorKind::OperationCancelled {
                    s == PullRetryStep::<T>::Return(Err(e)) && final(self).attempt == old(self).attempt
                } else {
                    &&& final(self).attempt == old(self).attempt + 1
                    &&& final(self).attempt < PEQ_RETRY_COUNT ==> s is RetryAfterDelay
                    &&& final(self).attempt == PEQ_RETRY_COUNT ==> s == PullRetryStep::<T>::Return(Err(e))
                },
            },
    {
        match result {
            Ok(x) => PullRetryStep::Return(Ok(x)),
            Err(e) => {
                if e.kind == ErrorKind::OperationCancelled {
                    return PullRetryStep::Return(Err(e));
                }
                self.attempt = self.attempt + 1;
                if self.attempt < PEQ_RETRY_COUNT {
                    PullRetryStep::RetryAfterDelay
                } else {
                    PullRetryStep::Return(Err(e))
                }
            },
        }
    }
}

/// A freshly reset device: every band disabled at 100 Hz and no global gain.
pub open spec fn spec_is_default_state(bands: Seq<FilterWords>, global_gain: i8) -> bool {
    &&& forall|i: int| 0 <= i < bands.len() ==> !(#[trigger] bands[i]).enabled
    &&& global_gain == 0
    &&& forall|i: int| 0 <= i < bands.len() ==> (#[trigger] bands[i]).freq == 100
}

/// Whether pulled bands look like a freshly reset device, which a device that
/// was still waking up reports.
pub fn is_default_state(bands: &Vec<FilterWords>, global_gain: i8) -> (b: bool)
    ensures
        b == spec_is_default_state(bands@, global_gain),
{
    let mut i: usize = 0;
    while i < bands.len()
        invariant
            i <= bands@.len(),
            forall|j: int| 0 <= j < i ==> !(#[trigger] bands@[j]).enabled && bands@[j].freq == 100,
        decreases bands@.len() - i,
    {
        if bands[i].enabled || bands[i].freq != 100 {
            return false;
        }
        i = i + 1;
    }
    global_gain == 0
}

/// Whether a pull is tried a second time: after a failure, or when it read a
/// freshly reset device.
pub fn pull_needs_retry(first: &Result<(Vec<FilterWords>, i8), AppError>) -> (b: bool)
    ensures
        b == match first {
            Ok(p) => spec_is_default_state(p.0@, p.1),
            Err(_) => true,
        },
{
    match first {
        Ok(p) => is_default_state(&p.0, p.1),
        Err(_) => true,
    }
}

/// The outcome of a pull that was tried twice: the second result when it
/// succeeded, else the first when that succeeded, else the second error.
pub fn choose_pull_result<T>(first: Result<T, AppError>, second: Result<T, AppError>) -> (r: Result<T, AppError>)
    ensures
        r == match second {
            Ok(x) => Ok(x),
            Err(e) => match first {
                Ok(x) => Ok(x),
                Err(_) => Err(e),
            },
        },
{
    match second {
        Ok(x) => Ok(x),
        Err(e) => match first {
            Ok(x) => Ok(x),
            Err(_) => Err(e),
        },
    }
}

/// The stage of a rollback that failed.
#[derive(Debug, Clone, Copy, PartialEq, Eq, Structural)]
pub enum RollbackStage {
    /// Writing the snapshot back.
    Write,
    /// Reading the device after writing the snapshot back.
    VerifyRead,
    /// The device did not hold the snapshot after it.
    Compare,
}

/// The words that introduce a failed rollback stage.
pub open spec fn rollback_stage_prefix(stage: RollbackStage) -> Seq<char> {
    match stage {
        RollbackStage::Write => "rollback write failed: "@,
        RollbackStage::VerifyRead => "rollback verify read failed: "@,
        RollbackStage::Compare => "rollback verify mismatch: "@,
    }
}

/// The error a rollback ends in when one of its stages fails with `e`.
pub fn rollback_failure(stage: RollbackStage, e: &AppError) -> (r: AppError)
    ensures
        is_error(r, ErrorKind::RollbackFailed, rollback_stage_prefix(stage) + e.message@),
{
    let mut msg = match stage {
        RollbackStage::Write => String::from_str("rollback write failed: "),
        RollbackStage::VerifyRead => String::from_str("rollback verify read failed: "),
        RollbackStage::Compare => String::from_str("rollback verify mismatch: "),
    };
    msg.append(e.message.as_str());
    AppError::new(ErrorKind::RollbackFailed, msg.as_str())
}

/// The error of a reset whose commit packet could not be sent.
pub fn reset_commit_failure(e: &AppError) -> (r: AppError)
    ensures
        is_error(
            r,
            ErrorKind::RollbackFailed,
            "Reset commit failed: "@ + e.message@ + " — device may be in an inconsistent state"@,
        ),
{
    let mut msg = String::from_str("Reset commit failed: ");
    msg.append(e.message.as_str());
    msg.append(" — device may be in an inconsistent state");
    AppError::new(ErrorKind::RollbackFailed, msg.as_str())
}

/// Why a push rolls back.
#[derive(Debug)]
pub enum RollbackCause {
    /// Writing the new configuration failed.
    WriteFailed(AppError),
    /// Reading the device back failed.
    VerifyReadFailed(AppError),
    /// Every read-back differed from what was written.
    Mismatch,
}

/// Where a push stands.
#[derive(Debug)]
pub enum PushPhase {
    /// Waiting for the snapshot of the current configuration.
    Snapshot,
    /// Waiting for the write and commit of the new configuration.
    Writing,
    /// Waiting for read-back number `attempt` (from 0).
    Verifying { attempt: u32 },
    /// Waiting for the snapshot to be written back.
    RollingBack(RollbackCause),
    /// Finished.
    Done,
}

/// What happened since the last step of a push.
#[derive(Debug)]
pub enum PushEvent {
    /// The snapshot was taken, or failed; `cancelled` tells whether a newer
    /// request arrived meanwhile.
    SnapshotTaken { result: Result<(), AppError>, cancelled: bool },
    /// The write and commit finished, or failed.
    Written(Result<(), AppError>),
    /// A read-back finished: whether it matched what was written, or why it
    /// failed.
    ReadBack(Result<bool, AppError>),
    /// The rollback (write back, read, compare) finished, or failed.
    RolledBack(Result<(), AppError>),
}

/// What a push does next.
#[derive(Debug)]
pub enum PushAction {
    /// Write and commit the new configuration.
    Write,
    /// Wait this many milliseconds, then read the device back.
    ReadBackAfter(u64),
    /// Write the snapshot back and check it.
    Rollback,
    /// Succeed with the configuration as written (verification skipped).
    SucceedAsWritten,
    /// Succeed with the configuration read back.
    SucceedAsReadBack,
    /// Fail with this error.
    Fail(AppError),
}

/// The wait before read-back number `attempt`: the base delay times
/// `2^attempt`, saturating.
pub open spec fn verify_backoff(base_ms: u64, attempt: u32) -> u64 {
    cap_u64(base_ms * cap_u64(two_pow(attempt as nat) as int))
}

/// Whether `event` is the one `phase` waits for.
pub open spec fn event_fits(phase: PushPhase, event: PushEvent) -> bool {
    match (phase, event) {
        (PushPhase::Snapshot, PushEvent::SnapshotTaken { .. }) => true,
        (PushPhase::Writing, PushEvent::Written(_)) => true,
        (PushPhase::Verifying { attempt }, PushEvent::ReadBack(_)) => attempt < VERIFY_RETRY_COUNT,
        (PushPhase::RollingBack(_), PushEvent::RolledBack(_)) => true,
        _ => false,
    }
}

/// The error a push ends in after a successful rollback.
pub open spec fn cause_error(c: RollbackCause, e: AppError) -> bool {
    match c {
        RollbackCause::WriteFailed(w) => e == w,
        RollbackCause::VerifyReadFailed(w) => e == w,
        RollbackCause::Mismatch => is_error(e, ErrorKind::VerifyFailed, "Verification failed: settings did not match"@),
    }
}

/// The message of a push whose rollback failed with `r`.
pub open spec fn failed_rollback_message(c: RollbackCause, r: AppError) -> Seq<char> {
    match c {
        RollbackCause::WriteFailed(w) => "Write failed: "@ + w.message@ + " | rollback failed: "@ + r.message@,
        RollbackCause::VerifyReadFailed(w) => "Verify read error: "@ + w.message@ + " | rollback failed: "@ + r.message@,
        RollbackCause::Mismatch => "Verification failed: settings did not match | rollback failed: "@ + r.message@,
    }
}

/// The step of a push: from its phase and what happened to its next phase
/// and action.
pub open spec fn push_transition(
    skip_verify: bool,
    base_ms: u64,
    phase: PushPhase,
    event: PushEvent,
    next: PushPhase,
    action: PushAction,
) -> bool {
    match (phase, event) {
        (PushPhase::Snapshot, PushEvent::SnapshotTaken { result, cancelled }) => match result {
            Err(e) => next is Done && action == PushAction::Fail(e),
            Ok(()) => if cancelled {
                next is Done && (action matches PushAction::Fail(e) && is_cancelled(e))
            } else {
                next is Writing && action is Write
            },
        },
        (PushPhase::Writing, PushEvent::Written(r)) => match r {
            Err(e) => next == PushPhase::RollingBack(RollbackCause::WriteFailed(e)) && action is Rollback,
            Ok(()) => if skip_verify {
                next is Done && action is SucceedAsWritten
            } else {
                next == (PushPhase::Verifying { attempt: 0 }) && action == PushAction::ReadBackAfter(
                    verify_backoff(base_ms, 0),
                )
            },
        },
        (PushPhase::Verifying { attempt }, PushEvent::ReadBack(r)) => match r {
            Ok(true) => next is Done && action is SucceedAsReadBack,
            Ok(false) => if attempt + 1 < VERIFY_RETRY_COUNT {
                next == (PushPhase::Verifying { attempt: (attempt + 1) as u32 }) && action
                    == PushAction::ReadBackAfter(verify_backoff(base_ms, (attempt + 1) as u32))
            } else {
                next == PushPhase::RollingBack(RollbackCause::Mismatch) && action is Rollback
            },
            Err(e) => next == PushPhase::RollingBack(RollbackCause::VerifyReadFailed(e)) && action is Rollback,
        },
        (PushPhase::RollingBack(c), PushEvent::RolledBack(r)) => next is Done && match r {
            Ok(()) => (action matches PushAction::Fail(e) && cause_error(c, e)),
            Err(rb) => (action matches PushAction::Fail(e) && is_error(
                e,
                ErrorKind::RollbackFailed,
                failed_rollback_message(c, rb),
            )),
        },
        _ => false,
    }
}

/// A push in progress.
#[derive(Debug)]
pub struct PushFlow {
    pub phase: PushPhase,
    pub skip_verify: bool,
    pub backoff_base_ms: u64,
}

/// The wait before read-back number `attempt`.
fn backoff_for(base_ms: u64, attempt: u32) -> (d: u64)
    ensures
        d == verify_backoff(base_ms, attempt),
{
    saturating_mul(base_ms, saturating_pow2(attempt))
}

impl PushFlow {
    /// A push that starts by taking a snapshot of the device.
    pub fn new(skip_verify: bool, backoff_base_ms: u64) -> (f: PushFlow)
        ensures
            f.phase is Snapshot,
            f.skip_verify == skip_verify,
            f.backoff_base_ms == backoff_base_ms,
    {
        PushFlow { phase: PushPhase::Snapshot, skip_verify, backoff_base_ms }
    }

    /// Whether the flow, in its present phase, waits for an event like `event`.
    pub fn accepts(&self, event: &PushEvent) -> (b: bool)
        ensures
            b == event_fits(self.phase, *event),
    {
        match (&self.phase, event) {
            (PushPhase::Snapshot, PushEvent::SnapshotTaken { .. }) => true,
            (PushPhase::Writing, PushEvent::Written(_)) => true,
            (PushPhase::Verifying { attempt }, PushEvent::ReadBack(_)) => *attempt
                < VERIFY_RETRY_COUNT,
            (PushPhase::RollingBack(_), PushEvent::RolledBack(_)) => true,
            _ => false,
        }
    }

    /// Takes in what happened and says what to do next (see
    /// `push_transition`).
    pub fn step(self, event: PushEvent) -> (r: (PushFlow, PushAction))
        requires
            event_fits(self.phase, event),
        ensures
            r.0.skip_verify == self.skip_verify,
            r.0.backoff_base_ms == self.backoff_base_ms,
            push_transition(self.skip_verify, self.backoff_base_ms, self.phase, event, r.0.phase, r.1),
    {
        let skip_verify = self.skip_verify;
        let base = self.backoff_base_ms;
        let (next, action) = match (self.phase, event) {
            (PushPhase::Snapshot, PushEvent::SnapshotTaken { result, cancelled }) => match result {
                Err(e) => (PushPhase::Done, PushAction::Fail(e)),
                Ok(()) => if cancelled {
                    (PushPhase::Done, PushAction::Fail(cancelled_error()))
                } else {
                    (PushPhase::Writing, PushAction::Write)
                },
            },
            (PushPhase::Writing, PushEvent::Written(r)) => match r {
                Err(e) => (PushPhase::RollingBack(RollbackCause::WriteFailed(e)), PushAction::Rollback),
                Ok(()) => if skip_verify {
                    (PushPhase::Done, PushAction::SucceedAsWritten)
                } else {
                    (PushPhase::Verifying { attempt: 0 }, PushAction::ReadBackAfter(backoff_for(base, 0)))
                },
            },
            (PushPhase::Verifying { attempt }, PushEvent::ReadBack(r)) => match r {
                Ok(true) => (PushPhase::Done, PushAction::SucceedAsReadBack),
                Ok(false) => if attempt + 1 < VERIFY_RETRY_COUNT {
                    (
                        PushPhase::Verifying { attempt: attempt + 1 },
                        PushAction::ReadBackAfter(backoff_for(base, attempt + 1)),
                    )
                } else {
                    (PushPhase::RollingBack(RollbackCause::Mismatch), PushAction::Rollback)
                },
                Err(e) => (PushPhase::RollingBack(RollbackCause::VerifyReadFailed(e)), PushAction::Rollback),
            },
            (PushPhase::RollingBack(c), PushEvent::RolledBack(r)) => {
                let err = match r {
                    Ok(()) => match c {
                        RollbackCause::WriteFailed(w) => w,
                        RollbackCause::VerifyReadFailed(w) => w,
                        RollbackCause::Mismatch => AppError::new(
                            ErrorKind::VerifyFailed,
                            "Verification failed: settings did not match",
                        ),
                    },
                    Err(rb) => {
                        let mut msg = match &c {
                            RollbackCause::WriteFailed(w) => {
                                let mut m = String::from_str("Write failed: ");
                                m.append(w.message.as_str());
                                m.append(" | rollback failed: ");
                                m
                            },
                            RollbackCause::VerifyReadFailed(w) => {
                                let mut m = String::from_str("Verify read error: ");
                                m.append(w.message.as_str());
                                m.append(" | rollback failed: ");
                                m
                            },
                            RollbackCause::Mismatch => String::from_str(
                                "Verification failed: settings did not match | rollback failed: ",
                            ),
                        };
                        msg.append(rb.message.as_str());
                        AppError::new(ErrorKind::RollbackFailed, msg.as_str())
                    },
                };
                (PushPhase::Done, PushAction::Fail(err))
            },
            (PushPhase::Done, _) => (PushPhase::Done, PushAction::Fail(cancelled_error())),
            (_, _) => (PushPhase::Done, PushAction::Fail(cancelled_error())),
        };
        (PushFlow { phase: next, skip_verify, backoff_base_ms: base }, action)
    }
}

/// A push that began writing fails only out of a rollback: every failure
/// after the snapshot was taken is reported once the snapshot has been
/// written back (or writing it back failed).
pub proof fn lemma_failure_after_write_rolls_back(
    skip_verify: bool,
    base_ms: u64,
    phase: PushPhase,
    event: PushEvent,
    next: PushPhase,
    action: PushAction,
)
    requires
        push_transition(skip_verify, base_ms, phase, event, next, action),
        action is Fail,
        !(phase is Snapshot),
    ensures
        phase is RollingBack,
{
}

/// A push reads the device back at most `VERIFY_RETRY_COUNT` times: the
/// read-back it waits for is always numbered below it, so the next event fits.
pub proof fn lemma_read_backs_bounded(
    skip_verify: bool,
    base_ms: u64,
    phase: PushPhase,
    event: PushEvent,
    next: PushPhase,
    action: PushAction,
    next_event: PushEvent,
)
    requires
        push_transition(skip_verify, base_ms, phase, event, next, action),
        next is Verifying,
        next_event is ReadBack,
    ensures
        next->attempt < VERIFY_RETRY_COUNT,
        event_fits(next, next_event),
{
}

proof fn lemma_two_pow_step(n: nat)
    ensures
        two_pow(n) <= two_pow(n + 1),
        two_pow(n) >= 1,
    decreases n,
{
    if n > 0 {
        lemma_two_pow_step((n - 1) as nat);
    }
    assert(two_pow(n + 1) == 2 * two_pow(n));
}

/// The waits before successive read-backs never shrink.
pub proof fn lemma_backoff_grows(base_ms: u64, attempt: u32)
    requires
        attempt < u32::MAX,
    ensures
        verify_backoff(base_ms, attempt) <= verify_backoff(base_ms, (attempt + 1) as u32),
{
    let a = cap_u64(two_pow(attempt as nat) as int);
    let b = cap_u64(two_pow((attempt + 1) as nat) as int);
    lemma_two_pow_step(attempt as nat);
    assert(a <= b);
    assert(base_ms * a <= base_ms * b) by (nonlinear_arith)
        requires
            a <= b,
    ;
}

/// The message of a write that carries more bands than the device holds.
pub open spec fn capacity_message(provided: usize, max: usize) -> Seq<char> {
    "Payload exceeds device capacity. Provided: "@ + decimal(provided as nat) + ", max allowed: "@
        + decimal(max as nat)
}

/// Before a write: refuses more bands than the device holds.
pub fn check_write_capacity(provided: usize, max: usize) -> (r: Result<(), AppError>)
    ensures
        provided <= max ==> r is Ok,
        provided > max ==> (r matches Err(e) && e.kind == ErrorKind::InvalidPayload && e.message@
            == capacity_message(provided, max) && e.context is None),
{
    if provided <= max {
        return Ok(());
    }
    let mut msg = String::from_str("Payload exceeds device capacity. Provided: ");
    push_decimal(&mut msg, provided as u64);
    msg.append(", max allowed: ");
    push_decimal(&mut msg, max as u64);
    Err(AppError::new(ErrorKind::InvalidPayload, msg.as_str()))
}

} // verus!
