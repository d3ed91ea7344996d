//! Application error type: a kind that drives the user-facing message, a
//! free-form message and an optional context string.
use vstd::prelude::*;
use vstd::string::StringExecFns;

verus! {

/// The category of an error. Each category has a fixed user-facing message.
#[derive(Debug, Clone, Copy, PartialEq, Eq, Structural)]
pub enum ErrorKind {
    NotConnected,
    PermissionDenied,
    PolkitAuthRequired,
    DeviceBusy,
    ReadTimeout,
    WriteError,
    VerifyFailed,
    RollbackFailed,
    DeviceLost,
    HardwareError,
    ParseError,
    StorageError,
    IpcError,
    InvalidPayload,
    Timeout,
    OperationCancelled,
    WorkerDied,
    Unknown,
}

/// The user-facing message of each error kind.
pub open spec fn kind_message(kind: ErrorKind) -> Seq<char> {
    match kind {
        ErrorKind::NotConnected => "Device not found. Is it plugged in?"@,
        ErrorKind::PermissionDenied => "Access denied. Check USB permissions."@,
        ErrorKind::PolkitAuthRequired =>
            "Authentication required to access USB DAC on Linux. Approve the polkit prompt."@,
        ErrorKind::DeviceBusy => "Device is busy. Another app may be connected."@,
        ErrorKind::ReadTimeout => "USB read timeout. Try again."@,
        ErrorKind::WriteError => "USB write failed."@,
        ErrorKind::VerifyFailed => "Verification failed. Changes not applied."@,
        ErrorKind::RollbackFailed =>
            "Failed to restore previous settings. Device may be in an inconsistent state."@,
        ErrorKind::DeviceLost => "Device disconnected during operation."@,
        ErrorKind::HardwareError => "Hardware protocol error."@,
        ErrorKind::ParseError => "Failed to parse data."@,
        ErrorKind::StorageError => "Profile storage error."@,
        ErrorKind::IpcError => "IPC communication error with background helper."@,
        ErrorKind::InvalidPayload => "Invalid or malformed data payload."@,
        ErrorKind::Timeout => "Operation timed out."@,
        ErrorKind::OperationCancelled => "Operation cancelled or interrupted."@,
        ErrorKind::WorkerDied => "Background worker terminated unexpectedly."@,
        ErrorKind::Unknown => "Unknown error."@,
    }
}

impl ErrorKind {
    /// The fixed user-facing message of this kind.
    pub fn message(&self) -> (s: &'static str)
        ensures
            s@ == kind_message(*self),
    {
        match self {
            ErrorKind::NotConnected => "Device not found. Is it plugged in?",
            ErrorKind::PermissionDenied => "Access denied. Check USB permissions.",
            ErrorKind::PolkitAuthRequired =>
                "Authentication required to access USB DAC on Linux. Approve the polkit prompt.",
            ErrorKind::DeviceBusy => "Device is busy. Another app may be connected.",
            ErrorKind::ReadTimeout => "USB read timeout. Try again.",
            ErrorKind::WriteError => "USB write failed.",
            ErrorKind::VerifyFailed => "Verification failed. Changes not applied.",
            ErrorKind::RollbackFailed =>
                "Failed to restore previous settings. Device may be in an inconsistent state.",
            ErrorKind::DeviceLost => "Device disconnected during operation.",
            ErrorKind::HardwareError => "Hardware protocol error.",
            ErrorKind::ParseError => "Failed to parse data.",
            ErrorKind::StorageError => "Profile storage error.",
            ErrorKind::IpcError => "IPC communication error with background helper.",
            ErrorKind::InvalidPayload => "Invalid or malformed data payload.",
            ErrorKind::Timeout => "Operation timed out.",
            ErrorKind::OperationCancelled => "Operation cancelled or interrupted.",
            ErrorKind::WorkerDied => "Background worker terminated unexpectedly.",
            ErrorKind::Unknown => "Unknown error.",
        }
    }

    /// The user-facing message of this kind as an owned string.
    pub fn to_message_string(&self) -> (s: String)
        ensures
            s@ == kind_message(*self),
    {
        String::from_str(self.message())
    }
}

/// The result of an operation that fails with an application error.
pub type Result<T> = core::result::Result<T, AppError>;

/// An application error.
#[derive(Debug, Clone)]
pub struct AppError {
    pub kind: ErrorKind,
    pub message: String,
    pub context: Option<String>,
}

impl AppError {
    /// An error of the given kind and message, without context.
    pub fn new(kind: ErrorKind, msg: &str) -> (e: AppError)
        ensures
            e.kind == kind,
            e.message@ == msg@,
            e.context is None,
    {
        AppError { kind, message: String::from_str(msg), context: None }
    }

    /// An error of kind `Unknown` with the given message.
    pub fn general(msg: &str) -> (e: AppError)
        ensures
            e.kind == ErrorKind::Unknown,
            e.message@ == msg@,
            e.context is None,
    {
        AppError::new(ErrorKind::Unknown, msg)
    }

    /// The same error with its context set to `context`.
    pub fn with_context(self, context: &str) -> (e: AppError)
        ensures
            e.kind == self.kind,
            e.message == self.message,
            e.context matches Some(c) && c@ == context@,
    {
        AppError { kind: self.kind, message: self.message, context: Some(String::from_str(context)) }
    }

    /// The user-facing message, which depends on the kind alone.
    pub fn user_message(&self) -> (s: String)
        ensures
            s@ == kind_message(self.kind),
    {
        self.kind.to_message_string()
    }
}

impl From<String> for AppError {
    fn from(s: String) -> (e: AppError) {
        AppError { kind: ErrorKind::Unknown, message: s, context: None }
    }
}

impl vstd::std_specs::convert::FromSpecImpl<String> for AppError {
    open spec fn obeys_from_spec() -> bool {
        true
    }

    open spec fn from_spec(s: String) -> AppError {
        AppError { kind: ErrorKind::Unknown, message: s, context: None }
    }
}

impl<'a> From<&'a str> for AppError {
    fn from(s: &'a str) -> (e: AppError)
        ensures
            e.kind == ErrorKind::Unknown,
            e.message@ == s@,
            e.context is None,
    {
        AppError::general(s)
    }
}

impl<'a> vstd::std_specs::convert::FromSpecImpl<&'a str> for AppError {
    open spec fn obeys_from_spec() -> bool {
        false
    }

    open spec fn from_spec(s: &'a str) -> AppError {
        AppError { kind: ErrorKind::Unknown, message: arbitrary(), context: None }
    }
}

} // verus!
