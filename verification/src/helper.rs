//! The elevated helper's side of the connection: which request lines it
//! reads, whom it answers, and the device it holds on behalf of the
//! application. The helper process does the pipe and HID traffic.
use crate::device::{get_profile, DeviceInfo, SupportedProfile};
use crate::error::{AppError, ErrorKind};
use crate::text::{chars_of, class_pred, lead_count, CharClass};
use crate::worker::{is_error, list_has_path, profile_for};
use vstd::prelude::*;
use vstd::string::StrSliceExecFns;

verus! {

/// Version of the request protocol between the application and the helper.
pub const IPC_VERSION: &'static str = "1.4.0";

/// Longest request line read, in bytes.
pub const MAX_REQUEST_BYTES: usize = 65536;

/// What a request line read from the application is.
#[derive(Debug, Clone, Copy, PartialEq, Eq, Structural)]
pub enum LineCheck {
    /// The input ended: stop serving.
    End,
    /// The line was cut at the size limit: refuse it and stop.
    TooLarge,
    /// Only whitespace: skip it.
    Blank,
    /// A request to parse.
    Request,
}

/// Classifies a line of `bytes_read` bytes (at most `MAX_REQUEST_BYTES`
/// were asked for).
pub fn check_request_line(line: &str, bytes_read: usize) -> (c: LineCheck)
    ensures
        bytes_read == 0 ==> c == LineCheck::End,
        bytes_read != 0 && bytes_read == MAX_REQUEST_BYTES && !(line@.len() > 0 && line@.last()
            == '\n') ==> c == LineCheck::TooLarge,
        bytes_read != 0 && !(bytes_read == MAX_REQUEST_BYTES && !(line@.len() > 0 && line@.last()
            == '\n')) ==> (c == LineCheck::Blank <==> crate::text::lead(
            line@,
            class_pred(CharClass::Whitespace),
        ) == line@.len()) && (c == LineCheck::Blank || c == LineCheck::Request),
{
    if bytes_read == 0 {
        return LineCheck::End;
    }
    let chars = chars_of(line);
    let n = chars.len();
    let ends_with_newline = n > 0 && chars[n - 1] == '\n';
    if bytes_read == MAX_REQUEST_BYTES && !ends_with_newline {
        return LineCheck::TooLarge;
    }
    let lead = lead_count(&chars, 0, n, CharClass::Whitespace);
    assert(chars@.subrange(0, n as int) =~= line@);
    if lead == n {
        LineCheck::Blank
    } else {
        LineCheck::Request
    }
}

/// Whether a request carries the session's token.
pub fn request_authorized(auth: &str, token: &str) -> (b: bool)
    ensures
        b == (auth@ == token@),
{
    let a = chars_of(auth);
    let t = chars_of(token);
    if a.len() != t.len() {
        assert(a@.len() != t@.len());
        return false;
    }
    let mut i: usize = 0;
    while i < a.len()
        invariant
            a@ == auth@,
            t@ == token@,
            a@.len() == t@.len(),
            i <= a@.len(),
            forall|j: int| 0 <= j < i ==> a@[j] == t@[j],
        decreases a@.len() - i,
    {
        if a[i] != t[i] {
            return false;
        }
        i = i + 1;
    }
    assert(a@ =~= t@);
    true
}

/// What the helper does after reading a line.
#[derive(Debug, Clone, Copy, PartialEq, Eq, Structural)]
pub enum SessionAction {
    /// The input ended: stop without a reply.
    Stop,
    /// A blank line: read the next one.
    Skip,
    /// Reply that the request is too large (under id 0), then stop.
    RejectTooLarge,
    /// Reply that the request could not be parsed (under id 0), then stop.
    RejectUnparsed,
    /// Reply that the token does not match (under the request's id), then stop.
    RejectUnauthorized,
    /// Acknowledge the shutdown request, then stop.
    ShutDown,
    /// Serve the request and reply; go on while the reply can be written.
    Serve,
}

/// The action for a line: how it was classified, whether it parsed as a
/// request, whether that request carries the session's token, and whether
/// it asks to shut down.
pub open spec fn session_action(
    check: LineCheck,
    parsed: bool,
    authorized: bool,
    shutdown: bool,
) -> SessionAction {
    match check {
        LineCheck::End => SessionAction::Stop,
        LineCheck::TooLarge => SessionAction::RejectTooLarge,
        LineCheck::Blank => SessionAction::Skip,
        LineCheck::Request => if !parsed {
            SessionAction::RejectUnparsed
        } else if !authorized {
            SessionAction::RejectUnauthorized
        } else if shutdown {
            SessionAction::ShutDown
        } else {
            SessionAction::Serve
        },
    }
}

/// Whether the session ends after the action.
pub open spec fn ends_session(a: SessionAction) -> bool {
    !(a == SessionAction::Skip || a == SessionAction::Serve)
}

/// Decides what to do with a line read from the application.
pub fn after_line(check: LineCheck, parsed: bool, authorized: bool, shutdown: bool) -> (a:
    SessionAction)
    ensures
        a == session_action(check, parsed, authorized, shutdown),
{
    match check {
        LineCheck::End => SessionAction::Stop,
        LineCheck::TooLarge => SessionAction::RejectTooLarge,
        LineCheck::Blank => SessionAction::Skip,
        LineCheck::Request => {
            if !parsed {
                SessionAction::RejectUnparsed
            } else if !authorized {
                SessionAction::RejectUnauthorized
            } else if shutdown {
                SessionAction::ShutDown
            } else {
                SessionAction::Serve
            }
        },
    }
}

/// A parsed request without the session's token is never served, is refused
/// and ends the session; a request is served only when it is a parsed,
/// authorized request line that does not ask to shut down.
pub proof fn lemma_unauthorized_never_served(
    check: LineCheck,
    parsed: bool,
    authorized: bool,
    shutdown: bool,
)
    ensures
        check == LineCheck::Request && parsed && !authorized ==> session_action(
            check,
            parsed,
            authorized,
            shutdown,
        ) == SessionAction::RejectUnauthorized && ends_session(
            session_action(check, parsed, authorized, shutdown),
        ),
        session_action(check, parsed, authorized, shutdown) == SessionAction::Serve <==> (check
            == LineCheck::Request && parsed && authorized && !shutdown),
        ends_session(session_action(check, parsed, authorized, shutdown)) <==> !(check
            == LineCheck::Blank || (check == LineCheck::Request && parsed && authorized
            && !shutdown)),
{
}

/// What to do with a connect request.
#[derive(Debug)]
pub enum HelperConnect {
    /// Answer at once: connected to this device, or this error.
    Answer(Result<Option<DeviceInfo>, AppError>),
    /// Open `target`, a device of `profile`.
    Open { target: DeviceInfo, profile: SupportedProfile },
}

/// The device the helper holds. The helper process keeps the open handle,
/// open exactly while `info` is `Some`.
#[derive(Debug)]
pub struct HelperSession {
    pub info: Option<DeviceInfo>,
    pub profile: Option<SupportedProfile>,
}

impl HelperSession {
    /// No device held.
    pub fn new() -> (s: HelperSession)
        ensures
            s.info is None,
            s.profile is None,
    {
        HelperSession { info: None, profile: None }
    }

    /// Decides a connect request. While a device is held the answer names
    /// it. Otherwise the target is the requested device, or else the first
    /// listed one (`listing` is the device list, read only in that case); a
    /// failed listing is the answer; no device, or one the registry does not
    /// know, is refused.
    pub fn connect_plan(
        &self,
        target: Option<DeviceInfo>,
        listing: Option<Result<Vec<DeviceInfo>, AppError>>,
    ) -> (p: HelperConnect)
        requires
            listing is Some <==> (self.info is None && target is None),
        ensures
            self.info is Some ==> p == HelperConnect::Answer(Ok(self.info)),
            self.info is None ==> match target {
                Some(t) => connect_to(t, p),
                None => match listing {
                    Some(Err(e)) => p == HelperConnect::Answer(Err(e)),
                    Some(Ok(l)) => if l@.len() == 0 {
                        p matches HelperConnect::Answer(Err(e)) && is_error(
                            e,
                            ErrorKind::NotConnected,
                            "Device not found. Is it plugged in?"@,
                        )
                    } else {
                        connect_to(l@[0], p)
                    },
                    None => false,
                },
            },
    {
        if self.info.is_some() {
            let held = match &self.info {
                Some(i) => Some(i.clone()),
                None => None,
            };
            return HelperConnect::Answer(Ok(held));
        }
        let t = match target {
            Some(t) => t,
            None => match listing {
                Some(Err(e)) => {
                    return HelperConnect::Answer(Err(e));
                },
                Some(Ok(l)) => {
                    if l.len() == 0 {
                        return HelperConnect::Answer(
                            Err(AppError::new(ErrorKind::NotConnected, "Device not found. Is it plugged in?")),
                        );
                    }
                    l[0].clone()
                },
                None => {
                    return HelperConnect::Answer(
                        Err(AppError::new(ErrorKind::NotConnected, "Device not found. Is it plugged in?")),
                    );
                },
            },
        };
        match get_profile(t.vendor_id, t.product_id) {
            Some(profile) => HelperConnect::Open { target: t, profile },
            None => HelperConnect::Answer(
                Err(AppError::new(ErrorKind::HardwareError, "Unsupported DAC device")),
            ),
        }
    }

    /// Records how opening the planned device went; the answer names it on
    /// success.
    pub fn finish_connect(
        &mut self,
        target: DeviceInfo,
        profile: SupportedProfile,
        opened: Result<(), AppError>,
    ) -> (r: Result<Option<DeviceInfo>, AppError>)
        ensures
            match opened {
                Ok(()) => r == Ok::<Option<DeviceInfo>, AppError>(Some(target)) && final(self).info == Some(target)
                    && final(self).profile == Some(profile),
                Err(e) => r == Err::<Option<DeviceInfo>, AppError>(e) && final(self).info == old(self).info
                    && final(self).profile == old(self).profile,
            },
    {
        match opened {
            Ok(()) => {
                self.info = Some(target.clone());
                self.profile = Some(profile);
                Ok(Some(target))
            },
            Err(e) => Err(e),
        }
    }

    /// Lets the device go.
    pub fn disconnect(&mut self)
        ensures
            final(self).info is None,
            final(self).profile is None,
    {
        self.info = None;
        self.profile = None;
    }

    /// Answers a status request from the device list (or the error listing
    /// gave): the held device is present while listed, and is assumed present
    /// when listing failed; without one, any listed device counts. A held
    /// device that is gone is let go. Returns connected, present and the held
    /// device.
    pub fn status(&mut self, listing: Result<Vec<DeviceInfo>, AppError>) -> (r: (bool, bool, Option<DeviceInfo>))
        ensures
            ({
                let present = match listing {
                    Err(_) => old(self).info is Some,
                    Ok(l) => match old(self).info {
                        Some(i) => exists|j: int| 0 <= j < l@.len() && (#[trigger] l@[j]).path@ == i.path@,
                        None => l@.len() > 0,
                    },
                };
                let keep = !(old(self).info is Some && !present);
                &&& r.1 == present
                &&& keep ==> final(self).info == old(self).info && final(self).profile == old(self).profile
                &&& !keep ==> final(self).info is None && final(self).profile is None
                &&& r.0 == final(self).info is Some
                &&& r.2 == final(self).info
            }),
    {
        let present = match &listing {
            Err(_) => self.info.is_some(),
            Ok(l) => match &self.info {
                Some(i) => list_has_path(l, &i.path),
                None => l.len() > 0,
            },
        };
        if self.info.is_some() && !present {
            self.info = None;
            self.profile = None;
        }
        let held = match &self.info {
            Some(i) => Some(i.clone()),
            None => None,
        };
        (self.info.is_some(), present, held)
    }

    /// The profile a pull, push or reset works with: it needs a held device
    /// and its profile.
    pub fn operation_profile(&self) -> (r: Result<SupportedProfile, AppError>)
        ensures
            self.info is None ==> (r matches Err(e) && is_error(e, ErrorKind::NotConnected, "Not connected"@)),
            self.info is Some && self.profile is None ==> (r matches Err(e) && is_error(
                e,
                ErrorKind::NotConnected,
                "Device profile not loaded"@,
            )),
            self.info is Some && self.profile is Some ==> r == Ok::<SupportedProfile, AppError>(self.profile->0),
    {
        if self.info.is_none() {
            return Err(AppError::new(ErrorKind::NotConnected, "Not connected"));
        }
        match self.profile {
            Some(p) => Ok(p),
            None => Err(AppError::new(ErrorKind::NotConnected, "Device profile not loaded")),
        }
    }
}

/// The plan for connecting to `t`: open it as a device of its registry
/// profile, or refuse it as unsupported.
pub open spec fn connect_to(t: DeviceInfo, p: HelperConnect) -> bool {
    if profile_for(t, None) {
        p matches HelperConnect::Answer(Err(e)) && is_error(e, ErrorKind::HardwareError, "Unsupported DAC device"@)
    } else {
        p matches HelperConnect::Open { target, profile } && target == t && profile_for(t, Some(profile))
    }
}

} // verus!
