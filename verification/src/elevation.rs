//! Starting and talking to the elevated helper: the checks on the program
//! that is run with elevated rights, the version handshake, and the table
//! that matches helper responses to the requests that wait for them.
use crate::error::{AppError, ErrorKind};
use crate::helper::IPC_VERSION;
use crate::worker::is_error;
use std::collections::HashMap;
use vstd::prelude::*;
use vstd::string::StringExecFns;

verus! {

broadcast use vstd::std_specs::hash::group_hash_axioms;

/// Permission bits that let the group or others write.
pub const GROUP_OR_WORLD_WRITABLE: u32 = 0o022;

/// Permission bit that lets others write.
pub const WORLD_WRITABLE: u32 = 0o002;

/// The ownership and permissions of a file, as far as the checks read them.
#[derive(Debug, Clone, Copy, PartialEq, Eq, Structural)]
pub struct FileStat {
    pub mode: u32,
    pub uid: u32,
}

/// The checks on the program file alone, which come before the directory is
/// looked at: neither group- nor world-writable, and owned by root.
pub fn check_executable(exe: FileStat) -> (r: Result<(), AppError>)
    ensures
        exe.mode & GROUP_OR_WORLD_WRITABLE != 0 ==> (r matches Err(e) && is_error(
            e,
            ErrorKind::IpcError,
            "Executable is group-writable or world-writable; refusing to elevate."@,
        )),
        exe.mode & GROUP_OR_WORLD_WRITABLE == 0 && exe.uid != 0 ==> (r matches Err(e) && is_error(
            e,
            ErrorKind::IpcError,
            "Executable must be owned by root to prevent TOCTOU attacks when elevating."@,
        )),
        exe.mode & GROUP_OR_WORLD_WRITABLE == 0 && exe.uid == 0 ==> r is Ok,
{
    if exe.mode & GROUP_OR_WORLD_WRITABLE != 0 {
        return Err(
            AppError::new(
                ErrorKind::IpcError,
                "Executable is group-writable or world-writable; refusing to elevate.",
            ),
        );
    }
    if exe.uid != 0 {
        return Err(
            AppError::new(
                ErrorKind::IpcError,
                "Executable must be owned by root to prevent TOCTOU attacks when elevating.",
            ),
        );
    }
    Ok(())
}

/// Whether the program may be run with elevated rights: neither group- nor
/// world-writable, owned by root, and in a directory (`dir`, `None` when it
/// has none) that is not world-writable and is owned by root or by the
/// current user. The first check that fails gives the error.
pub fn check_elevation_target(exe: FileStat, dir: Option<FileStat>, current_uid: u32) -> (r: Result<(), AppError>)
    ensures
        exe.mode & GROUP_OR_WORLD_WRITABLE != 0 ==> (r matches Err(e) && is_error(
            e,
            ErrorKind::IpcError,
            "Executable is group-writable or world-writable; refusing to elevate."@,
        )),
        exe.mode & GROUP_OR_WORLD_WRITABLE == 0 && exe.uid != 0 ==> (r matches Err(e) && is_error(
            e,
            ErrorKind::IpcError,
            "Executable must be owned by root to prevent TOCTOU attacks when elevating."@,
        )),
        exe.mode & GROUP_OR_WORLD_WRITABLE == 0 && exe.uid == 0 ==> match dir {
            None => r matches Err(e) && is_error(
                e,
                ErrorKind::IpcError,
                "Failed to resolve executable directory"@,
            ),
            Some(d) => if d.mode & WORLD_WRITABLE != 0 {
                r matches Err(e) && is_error(
                    e,
                    ErrorKind::IpcError,
                    "Executable directory is world-writable; refusing to elevate."@,
                )
            } else if d.uid != 0 && d.uid != current_uid {
                r matches Err(e) && is_error(
                    e,
                    ErrorKind::IpcError,
                    "Executable directory is not owned by current user or root."@,
                )
            } else {
                r is Ok
            },
        },
{
    match check_executable(exe) {
        Err(e) => {
            return Err(e);
        },
        Ok(()) => {},
    }
    let d = match dir {
        Some(d) => d,
        None => {
            return Err(AppError::new(ErrorKind::IpcError, "Failed to resolve executable directory"));
        },
    };
    if d.mode & WORLD_WRITABLE != 0 {
        return Err(
            AppError::new(
                ErrorKind::IpcError,
                "Executable directory is world-writable; refusing to elevate.",
            ),
        );
    }
    if d.uid != 0 && d.uid != current_uid {
        return Err(
            AppError::new(
                ErrorKind::IpcError,
                "Executable directory is not owned by current user or root.",
            ),
        );
    }
    Ok(())
}

/// Checks the helper's answer to the version request: `Some` with the
/// version it reported, `None` for any other answer. A different version
/// names both versions.
pub fn check_helper_version(reported: Option<String>) -> (r: Result<(), AppError>)
    ensures
        match reported {
            None => r matches Err(e) && is_error(
                e,
                ErrorKind::IpcError,
                "Elevated helper failed version handshake"@,
            ),
            Some(v) => if v@ == IPC_VERSION@ {
                r is Ok
            } else {
                r matches Err(e) && is_error(
                    e,
                    ErrorKind::IpcError,
                    "IPC Version mismatch: UI="@ + IPC_VERSION@ + " helper="@ + v@
                        + ". Re-install the application."@,
                )
            },
        },
{
    match reported {
        None => Err(AppError::new(ErrorKind::IpcError, "Elevated helper failed version handshake")),
        Some(v) => {
            let expected = String::from_str(IPC_VERSION);
            if v == expected {
                Ok(())
            } else {
                let mut m = String::from_str("IPC Version mismatch: UI=");
                m.append(IPC_VERSION);
                m.append(" helper=");
                m.append(v.as_str());
                m.append(". Re-install the application.");
                Err(AppError::new(ErrorKind::IpcError, m.as_str()))
            }
        },
    }
}

/// The requests sent to the helper that wait for a response, by request id.
/// Ids are handed out in turn from 1, wrapping after the largest.
#[derive(Debug)]
pub struct PendingRequests<T> {
    waiting: HashMap<u64, T>,
    next_id: u64,
}

impl<T> PendingRequests<T> {
    /// The waiters by request id.
    pub closed spec fn waiters(&self) -> Map<u64, T> {
        self.waiting@
    }

    /// The id the next request gets.
    pub closed spec fn upcoming_id(&self) -> u64 {
        self.next_id
    }

    /// No request waiting; the first id is 1.
    pub fn new() -> (p: PendingRequests<T>)
        ensures
            p.waiters() == Map::<u64, T>::empty(),
            p.upcoming_id() == 1,
    {
        PendingRequests { waiting: HashMap::new(), next_id: 1 }
    }

    /// Gives the next request its id and files `waiter` under it.
    pub fn register(&mut self, waiter: T) -> (id: u64)
        ensures
            id == old(self).upcoming_id(),
            final(self).waiters() == old(self).waiters().insert(id, waiter),
            final(self).upcoming_id() == (if id == u64::MAX {
                0
            } else {
                (id + 1) as u64
            }),
    {
        let id = self.next_id;
        self.next_id = self.next_id.wrapping_add(1);
        let _ = self.waiting.insert(id, waiter);
        id
    }

    /// Takes the waiter filed under `id` out of the table, if there is one:
    /// the response with that id goes to it, and to no one else after.
    pub fn complete(&mut self, id: u64) -> (w: Option<T>)
        ensures
            match w {
                Some(v) => old(self).waiters().contains_key(id) && v == old(self).waiters()[id],
                None => !old(self).waiters().contains_key(id),
            },
            final(self).waiters() == old(self).waiters().remove(id),
            final(self).upcoming_id() == old(self).upcoming_id(),
    {
        self.waiting.remove(&id)
    }

    /// The number of requests waiting.
    pub fn len(&self) -> (n: usize)
        ensures
            n == self.waiters().len(),
    {
        self.waiting.len()
    }
}

/// A response is delivered once: after its waiter was taken, a second
/// response with the same id finds nobody, and the other waiters stay.
pub proof fn lemma_response_delivered_once<T>(waiters: Map<u64, T>, id: u64, other: u64)
    ensures
        !waiters.remove(id).contains_key(id),
        other != id ==> waiters.remove(id).contains_key(other) == waiters.contains_key(other),
        other != id && waiters.contains_key(other) ==> waiters.remove(id)[other] == waiters[other],
{
}

} // verus!
