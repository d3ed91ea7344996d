//! The decisions of the hardware worker. The application owns the device
//! handles, the helper process and the channels; it asks these functions what
//! to do next and hands back what happened.
use crate::device::{get_profile, profile_product_id, profile_vendor_id, registry, DeviceInfo, SupportedProfile};
use crate::error::{AppError, ErrorKind};
use vstd::prelude::*;
use vstd::string::StringExecFns;

verus! {

/// Which transport a connection goes through.
#[derive(Debug, Clone, Copy, PartialEq, Eq, Structural)]
pub enum BackendKind {
    Local,
    Elevated,
}

/// The answer to a connect request.
#[derive(Debug)]
pub struct ConnectionResult {
    pub success: bool,
    pub device: Option<DeviceInfo>,
    pub error: Option<AppError>,
}

/// What the local worker reports about its device.
#[derive(Debug)]
pub struct LocalStatus {
    pub connected: bool,
    pub physically_present: bool,
    pub device: Option<DeviceInfo>,
    pub available_devices: Vec<DeviceInfo>,
    pub backend_reset: bool,
    pub generation: u64,
    pub fatal_error: Option<String>,
}

/// What the worker reports to the application.
#[derive(Debug)]
pub struct WorkerStatus {
    pub connected: bool,
    pub physically_present: bool,
    pub device: Option<DeviceInfo>,
    pub available_devices: Vec<DeviceInfo>,
    pub backend_reset: bool,
    pub generation: u64,
    pub fatal_error: Option<String>,
}

/// An error of `kind` whose message is `msg`, without context.
pub open spec fn is_error(e: AppError, kind: ErrorKind, msg: Seq<char>) -> bool {
    e.kind == kind && e.message@ == msg && e.context is None
}

/// The generation after one more change of connection: one up, stopping at
/// the largest value.
pub open spec fn next_generation(g: u64) -> u64 {
    if g == u64::MAX {
        g
    } else {
        (g + 1) as u64
    }
}

/// The generation never moves backwards, and moves on unless it is at its
/// largest value.
pub proof fn lemma_generation_advances(g: u64)
    ensures
        next_generation(g) >= g,
        g < u64::MAX ==> next_generation(g) == g + 1,
{
}

/// What the discovery providers listed: one entry per provider, `None` where
/// listing failed.
pub type Listings = Vec<Option<Vec<DeviceInfo>>>;

/// The first device of the first provider that listed any.
pub open spec fn first_discovered(listings: Seq<Option<Vec<DeviceInfo>>>) -> Option<DeviceInfo>
    decreases listings.len(),
{
    if listings.len() == 0 {
        None
    } else {
        match listings[0] {
            Some(l) if l@.len() > 0 => Some(l@[0]),
            _ => first_discovered(listings.drop_first()),
        }
    }
}

/// Whether provider `i` listed a device at `path`.
pub open spec fn provider_lists(listings: Seq<Option<Vec<DeviceInfo>>>, i: int, path: Seq<char>) -> bool {
    0 <= i < listings.len() && match listings[i] {
        Some(l) => exists|j: int| 0 <= j < l@.len() && (#[trigger] l@[j]).path@ == path,
        None => false,
    }
}

/// Whether some provider listed a device at `path`.
pub open spec fn listed(listings: Seq<Option<Vec<DeviceInfo>>>, path: Seq<char>) -> bool {
    exists|i: int| #[trigger] provider_lists(listings, i, path)
}

/// Every listed device, provider after provider.
pub open spec fn all_listed(listings: Seq<Option<Vec<DeviceInfo>>>) -> Seq<DeviceInfo>
    decreases listings.len(),
{
    if listings.len() == 0 {
        Seq::empty()
    } else {
        all_listed(listings.drop_last()) + match listings.last() {
            Some(l) => l@,
            None => Seq::empty(),
        }
    }
}

/// Whether `p` is the registry's profile for the IDs of `d`.
pub open spec fn profile_for(d: DeviceInfo, p: Option<SupportedProfile>) -> bool {
    match p {
        Some(p) => exists|i: int|
            0 <= i < registry().len() && registry()[i] == p && profile_vendor_id(p) == d.vendor_id
                && profile_product_id(p) == d.product_id && forall|j: int|
                0 <= j < i ==> !(profile_vendor_id(#[trigger] registry()[j]) == d.vendor_id
                    && profile_product_id(registry()[j]) == d.product_id),
        None => forall|i: int|
            0 <= i < registry().len() ==> !(profile_vendor_id(#[trigger] registry()[i])
                == d.vendor_id && profile_product_id(registry()[i]) == d.product_id),
    }
}

/// Whether a provider at or after `from` lists a device at `path`; the first
/// such provider is `i`.
pub open spec fn first_lister(listings: Seq<Option<Vec<DeviceInfo>>>, path: Seq<char>, i: int) -> bool {
    &&& provider_lists(listings, i, path)
    &&& forall|k: int| 0 <= k < i ==> !#[trigger] provider_lists(listings, k, path)
}

/// Whether list `l` holds a device at `path`.
pub fn list_has_path(l: &Vec<DeviceInfo>, path: &String) -> (b: bool)
    ensures
        b == exists|j: int| 0 <= j < l@.len() && (#[trigger] l@[j]).path@ == path@,
{
    let mut j: usize = 0;
    while j < l.len()
        invariant
            j <= l@.len(),
            forall|k: int| 0 <= k < j ==> (#[trigger] l@[k]).path@ != path@,
        decreases l@.len() - j,
    {
        if l[j].path == *path {
            return true;
        }
        j = j + 1;
    }
    false
}

/// The first provider that lists a device at `path`, if any.
pub fn find_lister(listings: &Listings, path: &String) -> (r: Option<usize>)
    ensures
        match r {
            Some(i) => first_lister(listings@, path@, i as int),
            None => !listed(listings@, path@),
        },
{
    let mut i: usize = 0;
    while i < listings.len()
        invariant
            i <= listings@.len(),
            forall|k: int| 0 <= k < i ==> !#[trigger] provider_lists(listings@, k, path@),
        decreases listings@.len() - i,
    {
        match &listings[i] {
            Some(l) => {
                if list_has_path(l, path) {
                    return Some(i);
                }
            },
            None => {},
        }
        i = i + 1;
    }
    None
}

/// The first device of the first provider that listed any.
pub fn first_discovered_device(listings: &Listings) -> (r: Option<DeviceInfo>)
    ensures
        r == first_discovered(listings@),
{
    let mut i: usize = 0;
    assert(listings@.subrange(0, listings@.len() as int) =~= listings@);
    while i < listings.len()
        invariant
            i <= listings@.len(),
            first_discovered(listings@) == first_discovered(listings@.subrange(i as int, listings@.len() as int)),
        decreases listings@.len() - i,
    {
        let ghost rest = listings@.subrange(i as int, listings@.len() as int);
        assert(rest[0] == listings@[i as int]);
        match &listings[i] {
            Some(l) => {
                if l.len() > 0 {
                    return Some(l[0].clone());
                }
            },
            None => {},
        }
        assert(rest.drop_first() =~= listings@.subrange(i + 1, listings@.len() as int));
        i = i + 1;
    }
    None
}

/// Every listed device, provider after provider.
pub fn collect_listed(listings: &Listings) -> (v: Vec<DeviceInfo>)
    ensures
        v@ == all_listed(listings@),
{
    let mut v: Vec<DeviceInfo> = Vec::new();
    let mut i: usize = 0;
    while i < listings.len()
        invariant
            i <= listings@.len(),
            v@ == all_listed(listings@.subrange(0, i as int)),
        decreases listings@.len() - i,
    {
        let ghost before = v@;
        match &listings[i] {
            Some(l) => {
                let mut j: usize = 0;
                while j < l.len()
                    invariant
                        j <= l@.len(),
                        v@ == before + l@.subrange(0, j as int),
                    decreases l@.len() - j,
                {
                    v.push(l[j].clone());
                    assert(v@ =~= before + l@.subrange(0, j + 1));
                    j = j + 1;
                }
                assert(l@.subrange(0, j as int) =~= l@);
            },
            None => {},
        }
        proof {
            let s = listings@.subrange(0, i + 1);
            assert(s.drop_last() =~= listings@.subrange(0, i as int));
            assert(s.last() == listings@[i as int]);
            assert(v@ =~= all_listed(s));
        }
        i = i + 1;
    }
    assert(listings@.subrange(0, i as int) =~= listings@);
    v
}

/// Whether `r` is the error of `kind` with message `msg`.
pub open spec fn fails_with<T>(r: Result<T, AppError>, kind: ErrorKind, msg: Seq<char>) -> bool {
    match r {
        Err(e) => is_error(e, kind, msg),
        Ok(_) => false,
    }
}

/// Whether `r` refuses with the error of `kind` and message `msg`, naming
/// `device`.
pub open spec fn refusal(r: ConnectionResult, device: Option<DeviceInfo>, kind: ErrorKind, msg: Seq<char>) -> bool {
    &&& !r.success
    &&& r.device == device
    &&& match r.error {
        Some(e) => is_error(e, kind, msg),
        None => false,
    }
}

/// The plan for a connect request: the target is the requested device, or
/// else the first listed one; without one the request is refused as not
/// connected; a device the registry does not know is refused as unsupported;
/// one that no provider lists is refused as not found; otherwise it is opened
/// through the first provider that lists it.
pub open spec fn connect_plan_for(
    target: Option<DeviceInfo>,
    listings: Seq<Option<Vec<DeviceInfo>>>,
    p: ConnectPlan,
) -> bool {
    let resolved = match target {
        Some(t) => Some(t),
        None => first_discovered(listings),
    };
    match resolved {
        None => match p {
            ConnectPlan::Refuse(r) => refusal(r, None, ErrorKind::NotConnected, "No supported device found"@),
            _ => false,
        },
        Some(t) => if profile_for(t, None) {
            match p {
                ConnectPlan::Refuse(r) => refusal(r, Some(t), ErrorKind::HardwareError, "Unsupported DAC device"@),
                _ => false,
            }
        } else if !listed(listings, t.path@) {
            match p {
                ConnectPlan::Refuse(r) => refusal(
                    r,
                    Some(t),
                    ErrorKind::NotConnected,
                    "Device not found or failed to open"@,
                ),
                _ => false,
            }
        } else {
            match p {
                ConnectPlan::Open { provider, target: ot, profile } => ot == t && profile_for(
                    t,
                    Some(profile),
                ) && first_lister(listings, t.path@, provider as int),
                _ => false,
            }
        },
    }
}

/// What to do with a connect request.
#[derive(Debug)]
pub enum ConnectPlan {
    /// Answer at once.
    Refuse(ConnectionResult),
    /// Open `target` through provider `provider`; it is a device of `profile`.
    Open { provider: usize, target: DeviceInfo, profile: SupportedProfile },
}

/// The bookkeeping of the thread that owns a locally opened device. The
/// application keeps the device handle, open exactly while `info` is `Some`.
#[derive(Debug)]
pub struct LocalWorker {
    pub info: Option<DeviceInfo>,
    pub profile: Option<SupportedProfile>,
    pub generation: u64,
    pub fatal_error: Option<String>,
}

impl LocalWorker {
    /// A worker with no device open.
    pub fn new() -> (w: LocalWorker)
        ensures
            w.info is None,
            w.profile is None,
            w.generation == 0,
            w.fatal_error is None,
    {
        LocalWorker { info: None, profile: None, generation: 0, fatal_error: None }
    }

    /// Whether a device is open.
    pub fn connected(&self) -> (b: bool)
        ensures
            b == self.info is Some,
    {
        self.info.is_some()
    }

    /// Checks that the open device is still listed; when it is not, it is
    /// dropped and the generation moves on. Returns whether it was dropped.
    pub fn physical_check(&mut self, listings: &Listings) -> (reset: bool)
        ensures
            reset == (old(self).info matches Some(i) && !listed(listings@, i.path@)),
            reset ==> final(self).info is None && final(self).generation == next_generation(old(self).generation),
            !reset ==> final(self).info == old(self).info && final(self).generation == old(self).generation,
            final(self).profile == old(self).profile,
            final(self).fatal_error == old(self).fatal_error,
    {
        let present = match &self.info {
            Some(i) => find_lister(listings, &i.path).is_some(),
            None => false,
        };
        if self.info.is_some() && !present {
            self.info = None;
            self.generation = self.generation.saturating_add(1);
            true
        } else {
            false
        }
    }

    /// Drops the open device, if any; the generation moves on.
    pub fn disconnect(&mut self)
        ensures
            final(self).info is None,
            final(self).generation == next_generation(old(self).generation),
            final(self).profile == old(self).profile,
            final(self).fatal_error == old(self).fatal_error,
    {
        self.info = None;
        self.generation = self.generation.saturating_add(1);
    }

    /// Decides a connect request: the target is the requested device, or else
    /// the first listed one; it must be a supported device that some
    /// provider lists.
    pub fn plan_connect(target: Option<DeviceInfo>, listings: &Listings) -> (p: ConnectPlan)
        ensures
            connect_plan_for(target, listings@, p),
    {
        let resolved = match target {
            Some(t) => Some(t),
            None => first_discovered_device(listings),
        };
        let t = match resolved {
            Some(t) => t,
            None => {
                return ConnectPlan::Refuse(
                    ConnectionResult {
                        success: false,
                        device: None,
                        error: Some(AppError::new(ErrorKind::NotConnected, "No supported device found")),
                    },
                );
            },
        };
        let profile = match get_profile(t.vendor_id, t.product_id) {
            Some(p) => p,
            None => {
                return ConnectPlan::Refuse(
                    ConnectionResult {
                        success: false,
                        device: Some(t),
                        error: Some(AppError::new(ErrorKind::HardwareError, "Unsupported DAC device")),
                    },
                );
            },
        };
        match find_lister(listings, &t.path) {
            Some(i) => ConnectPlan::Open { provider: i, target: t, profile },
            None => ConnectPlan::Refuse(
                ConnectionResult {
                    success: false,
                    device: Some(t),
                    error: Some(
                        AppError::new(ErrorKind::NotConnected, "Device not found or failed to open"),
                    ),
                },
            ),
        }
    }

    /// Records how opening the planned device went and answers the request.
    pub fn finish_connect(
        &mut self,
        target: DeviceInfo,
        profile: SupportedProfile,
        opened: Result<(), AppError>,
    ) -> (r: ConnectionResult)
        ensures
            r.device == Some(target),
            match opened {
                Ok(()) => r.success && r.error is None && final(self).info == Some(target) && final(self).profile == Some(profile) && final(self).generation == next_generation(old(self).generation),
                Err(e) => !r.success && r.error == Some(e) && final(self).info == old(self).info
                    && final(self).profile == old(self).profile && final(self).generation == old(self).generation,
            },
            final(self).fatal_error == old(self).fatal_error,
    {
        match opened {
            Ok(()) => {
                self.info = Some(target.clone());
                self.profile = Some(profile);
                self.generation = self.generation.saturating_add(1);
                ConnectionResult { success: true, device: Some(target), error: None }
            },
            Err(e) => ConnectionResult { success: false, device: Some(target), error: Some(e) },
        }
    }

    /// The status report: connected while a device is open; the device is the
    /// open one, or else the first listed one.
    pub fn status(&self, backend_reset: bool, listings: &Listings) -> (s: LocalStatus)
        ensures
            s.connected == self.info is Some,
            s.available_devices@ == all_listed(listings@),
            s.physically_present == (all_listed(listings@).len() > 0),
            s.device == (match self.info {
                Some(i) => Some(i),
                None => if all_listed(listings@).len() > 0 {
                    Some(all_listed(listings@)[0])
                } else {
                    None
                },
            }),
            s.backend_reset == backend_reset,
            s.generation == self.generation,
            s.fatal_error == self.fatal_error,
    {
        let available = collect_listed(listings);
        let device = match &self.info {
            Some(i) => Some(i.clone()),
            None => if available.len() > 0 {
                Some(available[0].clone())
            } else {
                None
            },
        };
        let fatal_error = match &self.fatal_error {
            Some(m) => Some(m.clone()),
            None => None,
        };
        LocalStatus {
            connected: self.info.is_some(),
            physically_present: available.len() > 0,
            device,
            available_devices: available,
            backend_reset,
            generation: self.generation,
            fatal_error,
        }
    }

    /// The profile a pull, push or reset works with: it needs an open device
    /// and a loaded profile.
    pub fn operation_profile(&self) -> (r: Result<SupportedProfile, AppError>)
        ensures
            self.info is None ==> fails_with(r, ErrorKind::NotConnected, "Not connected"@),
            self.info is Some && self.profile is None ==> fails_with(
                r,
                ErrorKind::HardwareError,
                "Device profile not loaded"@,
            ),
            self.info is Some && self.profile is Some ==> r == Ok::<SupportedProfile, AppError>(
                self.profile->0,
            ),
    {
        if self.info.is_none() {
            return Err(AppError::new(ErrorKind::NotConnected, "Not connected"));
        }
        match self.profile {
            Some(p) => Ok(p),
            None => Err(AppError::new(ErrorKind::HardwareError, "Device profile not loaded")),
        }
    }
}

/// The transport in use. The application keeps the helper connection that
/// goes with `Elevated`.
#[derive(Debug)]
pub enum ActiveBackend {
    Local,
    Elevated { device_info: Option<DeviceInfo> },
}

/// A reply of the elevated helper, as far as the worker reads it. For data
/// replies, `parsed` says whether their EQ data could be read, or why not.
#[derive(Debug)]
pub enum HelperReply {
    Status { connected: bool, physically_present: bool, device: Option<DeviceInfo> },
    Connected { device: Option<DeviceInfo> },
    Pulled { parsed: Result<(), String> },
    Pushed { parsed: Result<(), String> },
    Error { error: AppError },
    Other,
}

/// An operation forwarded to the elevated helper.
#[derive(Debug, Clone, Copy, PartialEq, Eq, Structural)]
pub enum HelperOp {
    Pull,
    Push,
    Reset,
}

/// What follows a local connect attempt.
#[derive(Debug)]
pub enum LocalConnectNext {
    /// Answer the request with this result.
    Reply(ConnectionResult),
    /// Local access was denied: connect through the elevated helper instead.
    TryElevated,
}

/// Whether `b` is the elevated backend.
pub open spec fn is_elevated(b: Option<ActiveBackend>) -> bool {
    b matches Some(ActiveBackend::Elevated { .. })
}

/// The device the elevated backend was connected to, if any.
pub open spec fn elevated_device(b: Option<ActiveBackend>) -> Option<DeviceInfo> {
    match b {
        Some(ActiveBackend::Elevated { device_info }) => device_info,
        _ => None,
    }
}

/// The status the local worker stands for: its own report, or, when it did
/// not answer, a disconnected report that says it died.
pub open spec fn local_or_dead(local: Option<LocalStatus>) -> (bool, bool, Option<DeviceInfo>, Seq<DeviceInfo>, bool, u64, Option<Seq<char>>) {
    match local {
        Some(l) => (l.connected, l.physically_present, l.device, l.available_devices@, l.backend_reset, l.generation, match l.fatal_error {
            Some(m) => Some(m@),
            None => None,
        }),
        None => (false, false, None, Seq::empty(), false, 0, Some("Local worker thread died"@)),
    }
}

/// The fields of a worker status.
pub open spec fn status_fields(s: WorkerStatus) -> (bool, bool, Option<DeviceInfo>, Seq<DeviceInfo>, bool, u64, Option<Seq<char>>) {
    (s.connected, s.physically_present, s.device, s.available_devices@, s.backend_reset, s.generation, match s.fatal_error {
        Some(m) => Some(m@),
        None => None,
    })
}

/// The report after merging the local status with the helper's status reply:
/// a status reply overrides connection, presence and device (falling back to
/// the device the helper was connected to); any other reply, or none, marks
/// the elevated backend disconnected and reset.
pub open spec fn merged_status(
    local: Option<LocalStatus>,
    backend: Option<ActiveBackend>,
    elevated: Option<Result<HelperReply, AppError>>,
) -> (bool, bool, Option<DeviceInfo>, Seq<DeviceInfo>, bool, u64, Option<Seq<char>>) {
    let l = local_or_dead(local);
    match elevated {
        Some(Ok(HelperReply::Status { connected, physically_present, device })) => (connected, physically_present, match device {
            Some(d) => Some(d),
            None => elevated_device(backend),
        }, l.3, l.4, l.5, l.6),
        Some(_) => (false, l.1, l.2, l.3, true, l.5, l.6),
        None => l,
    }
}

/// Whether the backend is kept after a status request.
pub open spec fn keeps_backend_after_status(
    local: Option<LocalStatus>,
    backend: Option<ActiveBackend>,
    elevated: Option<Result<HelperReply, AppError>>,
) -> bool {
    match elevated {
        Some(Ok(HelperReply::Status { connected, .. })) => connected,
        Some(_) => false,
        None => !(backend matches Some(ActiveBackend::Local) && !local_or_dead(local).0),
    }
}

/// What the elevated helper's reply to an operation means: the data reply
/// the operation expects is success when its data could be read and a parse
/// error otherwise; an error reply is that error; anything else means the
/// helper died.
pub open spec fn helper_op_outcome(op: HelperOp, reply: Result<HelperReply, AppError>) -> Result<(), (ErrorKind, Option<Seq<char>>)> {
    match reply {
        Ok(HelperReply::Pulled { parsed }) if op != HelperOp::Push => match parsed {
            Ok(()) => Ok(()),
            Err(m) => Err((ErrorKind::ParseError, Some(m@))),
        },
        Ok(HelperReply::Pushed { parsed }) if op == HelperOp::Push => match parsed {
            Ok(()) => Ok(()),
            Err(m) => Err((ErrorKind::ParseError, Some(m@))),
        },
        Ok(HelperReply::Error { error }) => Err((error.kind, None)),
        _ => Err((ErrorKind::IpcError, Some("Elevated helper died"@))),
    }
}

/// Which transport the worker forwards requests to, and the one it prefers
/// for new connections.
#[derive(Debug)]
pub struct WorkerRouting {
    pub backend: Option<ActiveBackend>,
    pub preferred_backend: BackendKind,
}

impl WorkerRouting {
    /// No backend yet; local access preferred.
    pub fn new() -> (w: WorkerRouting)
        ensures
            w.backend is None,
            w.preferred_backend == BackendKind::Local,
    {
        WorkerRouting { backend: None, preferred_backend: BackendKind::Local }
    }

    /// The transport a connect request goes to: the requested one, or else the
    /// preferred one.
    pub fn connect_route(&self, target_backend: Option<BackendKind>) -> (k: BackendKind)
        ensures
            k == (match target_backend {
                Some(t) => t,
                None => self.preferred_backend,
            }),
    {
        match target_backend {
            Some(t) => t,
            None => self.preferred_backend,
        }
    }

    /// Reads the local worker's answer to a connect request (`None` when it did
    /// not answer). Success makes local access the backend and the preference;
    /// a permission error sends the request on to the elevated helper.
    pub fn after_local_connect(&mut self, reply: Option<ConnectionResult>) -> (next: LocalConnectNext)
        ensures
            match reply {
                None => next matches LocalConnectNext::Reply(r) && refusal(
                    r,
                    None,
                    ErrorKind::Unknown,
                    "Worker thread died"@,
                ) && final(self).backend == old(self).backend && final(self).preferred_backend == old(self).preferred_backend,
                Some(r) => if r.success {
                    next == LocalConnectNext::Reply(r) && final(self).backend == Some(ActiveBackend::Local)
                        && final(self).preferred_backend == BackendKind::Local
                } else {
                    &&& final(self).backend == old(self).backend
                    &&& final(self).preferred_backend == old(self).preferred_backend
                    &&& (r.error matches Some(e) && e.kind == ErrorKind::PermissionDenied) ==> next is TryElevated
                    &&& !(r.error matches Some(e) && e.kind == ErrorKind::PermissionDenied) ==> next == LocalConnectNext::Reply(r)
                },
            },
    {
        match reply {
            None => LocalConnectNext::Reply(
                ConnectionResult {
                    success: false,
                    device: None,
                    error: Some(AppError::new(ErrorKind::Unknown, "Worker thread died")),
                },
            ),
            Some(r) => {
                if r.success {
                    self.backend = Some(ActiveBackend::Local);
                    self.preferred_backend = BackendKind::Local;
                    return LocalConnectNext::Reply(r);
                }
                let denied = match &r.error {
                    Some(e) => e.kind == ErrorKind::PermissionDenied,
                    None => false,
                };
                if denied {
                    LocalConnectNext::TryElevated
                } else {
                    LocalConnectNext::Reply(r)
                }
            },
        }
    }

    /// Reads the elevated helper's answer to a connect request (an error when
    /// it could not be started or reached). A connection that names its
    /// device makes the helper the backend and the preference; the local
    /// worker is then to drop its device.
    pub fn after_elevated_connect(&mut self, reply: Result<HelperReply, AppError>) -> (r: ConnectionResult)
        ensures
            match reply {
                Ok(HelperReply::Connected { device: Some(info) }) => r.success && r.device == Some(info)
                    && r.error is None && final(self).backend == Some(ActiveBackend::Elevated { device_info: Some(info) })
                    && final(self).preferred_backend == BackendKind::Elevated,
                Ok(HelperReply::Error { error }) => !r.success && r.device is None && r.error == Some(error)
                    && final(self).backend == old(self).backend && final(self).preferred_backend == old(self).preferred_backend,
                Err(e) => !r.success && r.device is None && r.error == Some(e)
                    && final(self).backend == old(self).backend && final(self).preferred_backend == old(self).preferred_backend,
                _ => refusal(r, None, ErrorKind::IpcError, "Elevated helper handshake failed"@)
                    && final(self).backend == old(self).backend && final(self).preferred_backend == old(self).preferred_backend,
            },
    {
        match reply {
            Ok(HelperReply::Connected { device: Some(info) }) => {
                self.backend = Some(ActiveBackend::Elevated { device_info: Some(info.clone()) });
                self.preferred_backend = BackendKind::Elevated;
                ConnectionResult { success: true, device: Some(info), error: None }
            },
            Ok(HelperReply::Error { error }) => ConnectionResult {
                success: false,
                device: None,
                error: Some(error),
            },
            Err(e) => ConnectionResult { success: false, device: None, error: Some(e) },
            _ => ConnectionResult {
                success: false,
                device: None,
                error: Some(AppError::new(ErrorKind::IpcError, "Elevated helper handshake failed")),
            },
        }
    }

    /// Forgets the backend. Returns the transport that still has to be told:
    /// the helper is told to disconnect and shut down, the local worker to
    /// drop its device.
    pub fn begin_disconnect(&mut self) -> (k: BackendKind)
        ensures
            final(self).backend is None,
            final(self).preferred_backend == old(self).preferred_backend,
            k == (if is_elevated(old(self).backend) {
                BackendKind::Elevated
            } else {
                BackendKind::Local
            }),
    {
        let k = match &self.backend {
            Some(ActiveBackend::Elevated { .. }) => BackendKind::Elevated,
            _ => BackendKind::Local,
        };
        self.backend = None;
        k
    }

    /// The transport a pull, push or reset goes to.
    pub fn operation_route(&self) -> (k: BackendKind)
        ensures
            k == (if is_elevated(self.backend) {
                BackendKind::Elevated
            } else {
                BackendKind::Local
            }),
    {
        match &self.backend {
            Some(ActiveBackend::Elevated { .. }) => BackendKind::Elevated,
            _ => BackendKind::Local,
        }
    }

    /// Reads the helper's reply to a forwarded operation (see
    /// `helper_op_outcome`); when the helper died, the backend is dropped.
    pub fn after_elevated_operation(&mut self, op: HelperOp, reply: Result<HelperReply, AppError>) -> (r: Result<(), AppError>)
        ensures
            match helper_op_outcome(op, reply) {
                Ok(()) => r is Ok,
                Err((kind, msg)) => r matches Err(e) && e.kind == kind && match msg {
                    Some(m) => e.message@ == m && e.context is None,
                    None => reply matches Ok(HelperReply::Error { error }) && e == error,
                },
            },
            final(self).preferred_backend == old(self).preferred_backend,
            (helper_op_outcome(op, reply) matches Err((k, Some(m))) && k == ErrorKind::IpcError && m
                == "Elevated helper died"@) ==> final(self).backend is None,
            !(helper_op_outcome(op, reply) matches Err((k, Some(m))) && k == ErrorKind::IpcError && m
                == "Elevated helper died"@) ==> final(self).backend == old(self).backend,
    {
        proof {
            reveal_strlit("Elevated helper died");
        }
        match reply {
            Ok(HelperReply::Pulled { parsed }) if op != HelperOp::Push => match parsed {
                Ok(()) => Ok(()),
                Err(m) => Err(AppError::new(ErrorKind::ParseError, m.as_str())),
            },
            Ok(HelperReply::Pushed { parsed }) if op == HelperOp::Push => match parsed {
                Ok(()) => Ok(()),
                Err(m) => Err(AppError::new(ErrorKind::ParseError, m.as_str())),
            },
            Ok(HelperReply::Error { error }) => Err(error),
            _ => {
                self.backend = None;
                Err(AppError::new(ErrorKind::IpcError, "Elevated helper died"))
            },
        }
    }

    /// Merges the local worker's status (`None` when it did not answer) with
    /// the helper's reply to a status request, which is asked exactly when
    /// the helper is the backend (see `merged_status`); drops a backend that
    /// turned out disconnected.
    pub fn merge_status(
        &mut self,
        local: Option<LocalStatus>,
        elevated: Option<Result<HelperReply, AppError>>,
    ) -> (s: WorkerStatus)
        requires
            elevated is Some <==> is_elevated(old(self).backend),
        ensures
            status_fields(s) == merged_status(local, old(self).backend, elevated),
            keeps_backend_after_status(local, old(self).backend, elevated) ==> final(self).backend == old(self).backend,
            !keeps_backend_after_status(local, old(self).backend, elevated) ==> final(self).backend is None,
            final(self).preferred_backend == old(self).preferred_backend,
    {
        let local_connected = match &local {
            Some(l) => l.connected,
            None => false,
        };
        let mut status = match local {
            Some(l) => WorkerStatus {
                connected: l.connected,
                physically_present: l.physically_present,
                device: l.device,
                available_devices: l.available_devices,
                backend_reset: l.backend_reset,
                generation: l.generation,
                fatal_error: l.fatal_error,
            },
            None => WorkerStatus {
                connected: false,
                physically_present: false,
                device: None,
                available_devices: Vec::new(),
                backend_reset: false,
                generation: 0,
                fatal_error: Some(String::from_str("Local worker thread died")),
            },
        };
        match elevated {
            Some(Ok(HelperReply::Status { connected, physically_present, device })) => {
                let fallback = match &self.backend {
                    Some(ActiveBackend::Elevated { device_info }) => match device_info {
                        Some(d) => Some(d.clone()),
                        None => None,
                    },
                    _ => None,
                };
                status.connected = connected;
                status.physically_present = physically_present;
                status.device = match device {
                    Some(d) => Some(d),
                    None => fallback,
                };
                if !connected {
                    self.backend = None;
                }
            },
            Some(_) => {
                self.backend = None;
                status.connected = false;
                status.backend_reset = true;
            },
            None => {
                let local_backend = match &self.backend {
                    Some(ActiveBackend::Local) => true,
                    _ => false,
                };
                if local_backend && !local_connected {
                    self.backend = None;
                }
            },
        }
        status
    }
}

/// When to look at the USB bus, and what it shows.
#[derive(Debug, Clone, Copy)]
pub struct DiscoveryManager {
    pub check_interval_ms: u64,
}

impl DiscoveryManager {
    /// Looks once a second.
    pub fn new() -> (d: DiscoveryManager)
        ensures
            d.check_interval_ms == 1000,
    {
        DiscoveryManager { check_interval_ms: 1000 }
    }

    /// Whether a look is due, `elapsed_ms` after the last one.
    pub fn should_check(&self, elapsed_ms: u64) -> (b: bool)
        ensures
            b == (elapsed_ms >= self.check_interval_ms),
    {
        elapsed_ms >= self.check_interval_ms
    }

    /// Every device the providers listed.
    pub fn list_devices(&self, listings: &Listings) -> (v: Vec<DeviceInfo>)
        ensures
            v@ == all_listed(listings@),
    {
        collect_listed(listings)
    }

    /// Whether the current device (if any) is still listed.
    pub fn check_physical_presence(&self, current_info: Option<&DeviceInfo>, listings: &Listings) -> (b: bool)
        ensures
            b == match current_info {
                Some(i) => listed(listings@, i.path@),
                None => false,
            },
    {
        match current_info {
            Some(info) => find_lister(listings, &info.path).is_some(),
            None => false,
        }
    }
}

impl Default for DiscoveryManager {
    fn default() -> (d: DiscoveryManager)
        ensures
            d.check_interval_ms == 1000,
    {
        DiscoveryManager::new()
    }
}

/// Respawns of an unresponsive elevated helper allowed in a row.
pub const MAX_HELPER_RESPAWNS: u32 = 3;

/// Longest wait between respawns, or between tries to open the HID API.
pub const MAX_BACKOFF_SECS: u64 = 30;

/// What to do with the elevated backend after a health check.
#[derive(Debug, Clone, Copy, PartialEq, Eq, Structural)]
pub enum HelperCheck {
    /// The helper is fine.
    Keep,
    /// Start a new helper for the same device (and note the time).
    Respawn,
    /// Give the backend up.
    Drop,
}

/// The respawns of an elevated helper tried since it last answered well.
#[derive(Debug, Clone, Copy)]
pub struct RespawnBudget {
    pub attempts: u32,
}

impl RespawnBudget {
    /// No respawns yet.
    pub fn new() -> (b: RespawnBudget)
        ensures
            b.attempts == 0,
    {
        RespawnBudget { attempts: 0 }
    }

    /// Decides after a status request to the helper: `healthy` when it
    /// answered connected and present; `since_last_ms` is the time since the
    /// last respawn, if any. A failing helper is respawned while respawns are
    /// left and the backoff has passed; otherwise it is dropped. Keeping or
    /// dropping starts the count afresh.
    pub fn on_health_check(&mut self, healthy: bool, since_last_ms: Option<u64>) -> (c: HelperCheck)
        requires
            old(self).attempts <= MAX_HELPER_RESPAWNS,
        ensures
            healthy ==> c == HelperCheck::Keep && final(self).attempts == 0,
            !healthy && old(self).attempts < MAX_HELPER_RESPAWNS && match since_last_ms {
                None => true,
                Some(ms) => ms >= crate::retry::backoff_secs(old(self).attempts, MAX_BACKOFF_SECS) * 1000,
            } ==> c == HelperCheck::Respawn && final(self).attempts == old(self).attempts + 1,
            !healthy && !(old(self).attempts < MAX_HELPER_RESPAWNS && match since_last_ms {
                None => true,
                Some(ms) => ms >= crate::retry::backoff_secs(old(self).attempts, MAX_BACKOFF_SECS) * 1000,
            }) ==> c == HelperCheck::Drop && final(self).attempts == 0,
            final(self).attempts <= MAX_HELPER_RESPAWNS,
    {
        if healthy {
            self.attempts = 0;
            return HelperCheck::Keep;
        }
        let due = crate::retry::backoff_elapsed(self.attempts, since_last_ms, MAX_BACKOFF_SECS);
        if due && self.attempts < MAX_HELPER_RESPAWNS {
            self.attempts = self.attempts + 1;
            HelperCheck::Respawn
        } else {
            self.attempts = 0;
            HelperCheck::Drop
        }
    }

    /// After a respawn: a helper that started resets the count and is kept;
    /// one that did not start is dropped.
    pub fn on_respawned(&mut self, started: bool) -> (keep: bool)
        ensures
            keep == started,
            started ==> final(self).attempts == 0,
            !started ==> final(self).attempts == old(self).attempts,
    {
        if started {
            self.attempts = 0;
        }
        started
    }
}

/// The tries to open the HID API, with backoff between failures.
#[derive(Debug)]
pub struct ApiInit {
    pub retry_count: u32,
    pub fatal_error: Option<String>,
}

impl ApiInit {
    /// Nothing tried yet.
    pub fn new() -> (a: ApiInit)
        ensures
            a.retry_count == 0,
            a.fatal_error is None,
    {
        ApiInit { retry_count: 0, fatal_error: None }
    }

    /// Whether to try opening the API now, `since_last_ms` after the last try
    /// (if any).
    pub fn should_try(&self, since_last_ms: Option<u64>) -> (b: bool)
        ensures
            b == match since_last_ms {
                None => true,
                Some(ms) => ms >= crate::retry::backoff_secs(self.retry_count, MAX_BACKOFF_SECS) * 1000,
            },
    {
        crate::retry::backoff_elapsed(self.retry_count, since_last_ms, MAX_BACKOFF_SECS)
    }

    /// Records a try: success clears the count and the error; failure counts
    /// (saturating) and keeps `"Failed to initialize HID API: "` and the
    /// reason as the fatal error.
    pub fn record_try(&mut self, result: Result<(), String>)
        ensures
            match result {
                Ok(()) => final(self).retry_count == 0 && final(self).fatal_error is None,
                Err(reason) => final(self).retry_count == (if old(self).retry_count == u32::MAX {
                    u32::MAX
                } else {
                    (old(self).retry_count + 1) as u32
                }) && (final(self).fatal_error matches Some(m) && m@ == "Failed to initialize HID API: "@ + reason@),
            },
    {
        match result {
            Ok(()) => {
                self.retry_count = 0;
                self.fatal_error = None;
            },
            Err(reason) => {
                self.retry_count = self.retry_count.saturating_add(1);
                let mut m = String::from_str("Failed to initialize HID API: ");
                m.append(reason.as_str());
                self.fatal_error = Some(m);
            },
        }
    }
}

} // verus!
