//! A backend that lets a redirected printer and a redirected drive share the
//! single backend slot an RDPDR channel accepts, routing each call to the
//! member it belongs to.

use vstd::prelude::*;

use crate::backend::{
    dispatch_laws, next_generation, pending_ok, request_dispatched, reset_closes, resumed, BackendView, Dispatch,
    DriveRequest, FsOp, FsResult, Reply, Step, Task, WasmDriveBackend,
};
use crate::protocol::NOT_SUPPORTED;
use crate::state::handles_of;

verus! {

/// The drive device id to announce: `default_drive_device_id` unless it
/// collides with the printer's, in which case the one after the printer's
/// (or, when the printer's is `u32::MAX`, the one before it).
pub open spec fn resolved_drive_device_id(default_drive_device_id: u32, printer_device_id: u32) -> u32 {
    if default_drive_device_id != printer_device_id {
        default_drive_device_id
    } else if printer_device_id == u32::MAX {
        (u32::MAX - 1) as u32
    } else {
        (printer_device_id + 1) as u32
    }
}

/// Resolves a collision between the drive share's device id and the printer
/// device id, so two devices are never announced under one id.
pub fn resolve_drive_device_id(default_drive_device_id: u32, printer_device_id: u32) -> (id: u32)
    ensures
        id == resolved_drive_device_id(default_drive_device_id, printer_device_id),
        id != printer_device_id,
{
    if default_drive_device_id != printer_device_id {
        return default_drive_device_id;
    }
    match printer_device_id.checked_add(1) {
        Some(id) => id,
        None => printer_device_id - 1,
    }
}

/// Which member a device announce response is for.
#[derive(Debug, Clone, Copy, PartialEq, Eq)]
pub enum AnnounceRoute {
    Drive,
    Printer,
    /// Owned by neither member (logged, not an error).
    Unclaimed,
}

/// A printer member of type `P` and a drive member, each optional and each
/// paired with the device id it is announced under.
pub struct WasmCompositeBackend<P> {
    printer: Option<P>,
    printer_device_id: Option<u32>,
    drive: Option<WasmDriveBackend>,
    drive_device_id: Option<u32>,
}

impl<P> WasmCompositeBackend<P> {
    /// The device id the printer member is announced under.
    pub closed spec fn printer_id(&self) -> Option<u32> {
        self.printer_device_id
    }

    /// The device id the drive member is announced under.
    pub closed spec fn drive_id(&self) -> Option<u32> {
        self.drive_device_id
    }

    /// Whether a printer member is present.
    pub closed spec fn has_printer(&self) -> bool {
        self.printer is Some
    }

    /// The drive member's state, if one is present.
    pub closed spec fn drive_view(&self) -> Option<BackendView> {
        match self.drive {
            Some(d) => Some(d@),
            None => None,
        }
    }

    /// The composite's invariant: each id is present exactly when its member
    /// is, and a present drive member is well formed.
    pub open spec fn wf(&self) -> bool {
        &&& (self.printer_id() is Some <==> self.has_printer())
        &&& (self.drive_id() is Some <==> self.drive_view() is Some)
        &&& (self.drive_view() matches Some(v) ==> v.wf())
    }

    /// Builds a composite from whichever members were configured, each with
    /// the device id it will be announced under.
    pub fn new(printer: Option<(P, u32)>, drive: Option<(WasmDriveBackend, u32)>) -> (c: Self)
        requires
            drive matches Some((d, _)) ==> d@.wf(),
        ensures
            c.wf(),
            c.printer_id() == (match printer {
                Some((_, id)) => Some(id),
                None => None,
            }),
            c.has_printer() == printer is Some,
            c.drive_id() == (match drive {
                Some((_, id)) => Some(id),
                None => None,
            }),
            c.drive_view() == (match drive {
                Some((d, _)) => Some(d@),
                None => None::<BackendView>,
            }),
    {
        let (printer, printer_device_id) = match printer {
            Some((backend, device_id)) => (Some(backend), Some(device_id)),
            None => (None, None),
        };
        let (drive, drive_device_id) = match drive {
            Some((backend, device_id)) => (Some(backend), Some(device_id)),
            None => (None, None),
        };
        WasmCompositeBackend { printer, printer_device_id, drive, drive_device_id }
    }

    /// Which member the announce response for `device_id` goes to: the
    /// drive's id first, then the printer's; neither when no present member
    /// owns it.
    pub fn route_announce_response(&self, device_id: u32) -> (route: AnnounceRoute)
        requires
            self.wf(),
        ensures
            route == (if self.drive_id() == Some(device_id) {
                AnnounceRoute::Drive
            } else if self.printer_id() == Some(device_id) {
                AnnounceRoute::Printer
            } else {
                AnnounceRoute::Unclaimed
            }),
    {
        if self.drive_device_id == Some(device_id) && self.drive.is_some() {
            return AnnounceRoute::Drive;
        }
        if self.printer_device_id == Some(device_id) && self.printer.is_some() {
            return AnnounceRoute::Printer;
        }
        AnnounceRoute::Unclaimed
    }

    /// Routes a drive IRP to the drive member, or, when none is configured,
    /// answers it at once with a close-shaped `NOT_SUPPORTED` completion
    /// (never an error).
    pub fn handle_drive_io_request(&mut self, req: DriveRequest) -> (d: Dispatch)
        requires
            old(self).wf(),
        ensures
            final(self).wf(),
            final(self).printer_id() == old(self).printer_id(),
            final(self).drive_id() == old(self).drive_id(),
            final(self).has_printer() == old(self).has_printer(),
            match old(self).drive_view() {
                Some(v) => final(self).drive_view() matches Some(w) && request_dispatched(
                    v,
                    w,
                    req,
                    d,
                ) && dispatch_laws(v, d),
                None => final(self).drive_view() is None && d == Dispatch::Reply(
                    Reply::Close { status: NOT_SUPPORTED },
                ),
            },
    {
        match &mut self.drive {
            Some(drive) => drive.handle_drive_io_request(req),
            None => Dispatch::Reply(drive_not_configured_response()),
        }
    }

    /// Resets the drive member, if present, returning the task that closes
    /// its stale filesystem handles.
    pub fn reset_drive(&mut self) -> (r: Option<(Task, FsOp)>)
        requires
            old(self).wf(),
        ensures
            final(self).wf(),
            final(self).printer_id() == old(self).printer_id(),
            final(self).drive_id() == old(self).drive_id(),
            final(self).has_printer() == old(self).has_printer(),
            match old(self).drive_view() {
                Some(v) => final(self).drive_view() matches Some(w) && w.generation
                    == next_generation(v.generation) && w.state.entries.is_empty()
                    && w.state.next_file_id == 1 && w.read_only == v.read_only && exists|ids: Seq<u32>|
                    {
                        &&& ids.no_duplicates()
                        &&& ids.to_set() == v.state.entries.dom()
                        &&& reset_closes(handles_of(v.state.entries, ids), w.generation, r)
                    },
                None => final(self).drive_view() is None && r is None,
            },
            r matches Some((t, op)) ==> pending_ok(t, op),
    {
        match &mut self.drive {
            Some(drive) => drive.reset(),
            None => None,
        }
    }

    /// Continues a task of the drive member with the result of its
    /// filesystem operation (see [`WasmDriveBackend::resume`]); with no drive
    /// member there is nothing to continue and nothing is sent.
    pub fn resume_drive(&mut self, task: Task, result: FsResult) -> (s: Step)
        requires
            old(self).wf(),
            task.wf(),
        ensures
            final(self).wf(),
            final(self).printer_id() == old(self).printer_id(),
            final(self).drive_id() == old(self).drive_id(),
            final(self).has_printer() == old(self).has_printer(),
            match old(self).drive_view() {
                Some(v) => final(self).drive_view() matches Some(w) && resumed(v, w, task, result, s)
                    && (task.generation != v.generation ==> w == v && (s is Done ==> s->Done_0 is None))
                    && (s matches Step::Next(t, op) ==> pending_ok(t, op)),
                None => final(self).drive_view() is None && s == Step::Done(None),
            },
    {
        match &mut self.drive {
            Some(drive) => drive.resume(task, result),
            None => Step::Done(None),
        }
    }

    /// The printer member, if present, to hand a printer IRP to; the drive
    /// member and both device ids are left as they are.
    pub fn printer_mut(&mut self) -> (r: Option<&mut P>)
        ensures
            (r is Some) == old(self).has_printer(),
            final(self).has_printer() == old(self).has_printer(),
            final(self).printer_id() == old(self).printer_id(),
            final(self).drive_id() == old(self).drive_id(),
            final(self).drive_view() == old(self).drive_view(),
    {
        self.printer.as_mut()
    }
}

/// The completion for a printer IRP when no printer member is configured: a
/// close-shaped `NOT_SUPPORTED` (a printer IRP is always a create, write or
/// close, and a close-shaped completion ends any of them).
pub fn printer_not_configured_response() -> (r: Reply)
    ensures
        r == (Reply::Close { status: NOT_SUPPORTED }),
{
    Reply::Close { status: NOT_SUPPORTED }
}

/// The completion for a drive IRP when no drive member is configured: a
/// close-shaped `NOT_SUPPORTED`, the same convention as an unconfigured
/// printer.
pub fn drive_not_configured_response() -> (r: Reply)
    ensures
        r == (Reply::Close { status: NOT_SUPPORTED }),
{
    Reply::Close { status: NOT_SUPPORTED }
}

} // verus!
