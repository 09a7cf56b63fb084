//! What clients ask of a context: paths, suspension, seats, groups and plugins.
use vstd::prelude::*;
use crate::api::context::{byte_len, LibinputContext, PATH_MAX};
use crate::backend::state::BackendState;
use crate::backend::tablet::FrameTime;
use crate::ffi_types::{BackendKind, DeviceId, LibinputEvent};

verus! {

// ---------------------------------------------------------------------------
// Hotplug
// ---------------------------------------------------------------------------
impl LibinputContext {
    /// Whether removing a device, if it is open, leaves these behind. `closed`
    /// lists what was to be closed before.
    pub open spec fn device_removed(
        self,
        device: DeviceId,
        at: FrameTime,
        out: Seq<LibinputEvent>,
        closed: Seq<i32>,
        after: LibinputContext,
        reported: Seq<LibinputEvent>,
        fds: Seq<i32>,
    ) -> bool {
        match self.backend.place_from(device, 0) {
            Some(place) => fds.len() == closed.len() + 1 && fds.drop_last() == closed
                && self.removed(place, at, out, after, reported, fds.last()),
            None => after == self && reported == out && fds == closed,
        }
    }

    /// Whether removing the first `n` devices of a list leaves these behind.
    pub open spec fn devices_removed(
        self,
        ids: Seq<DeviceId>,
        n: int,
        at: FrameTime,
        out: Seq<LibinputEvent>,
        after: LibinputContext,
        reported: Seq<LibinputEvent>,
        fds: Seq<i32>,
    ) -> bool
        decreases n,
    {
        if n <= 0 {
            after == self && reported == out && fds.len() == 0
        } else {
            exists|middle: LibinputContext, between: Seq<LibinputEvent>, closed: Seq<i32>|
                self.devices_removed(ids, n - 1, at, out, middle, between, closed)
                    && #[trigger] middle.device_removed(
                    ids[n - 1],
                    at,
                    between,
                    closed,
                    after,
                    reported,
                    fds,
                )
        }
    }

    /// Removes devices one after another, as far as they are open. The result is
    /// to be closed.
    pub fn remove_devices(
        &mut self,
        gone: &Vec<DeviceId>,
        at: FrameTime,
        out: &mut Vec<LibinputEvent>,
    ) -> (fds: Vec<i32>)
        requires
            old(self).wf(),
        ensures
            final(self).wf(),
            old(self).devices_removed(
                gone@,
                gone@.len() as int,
                at,
                old(out)@,
                *final(self),
                final(out)@,
                fds@,
            ),
    {
        let mut fds: Vec<i32> = Vec::new();
        let mut i: usize = 0;
        while i < gone.len()
            invariant
                self.wf(),
                i <= gone@.len(),
                old(self).devices_removed(gone@, i as int, at, old(out)@, *self, out@, fds@),
            decreases gone.len() - i,
        {
            let ghost middle = *self;
            let ghost between = out@;
            let ghost closed = fds@;
            if let Some(fd) = self.remove_device(gone[i], at, out) {
                fds.push(fd);
                assert(fds@.drop_last() =~= closed);
            }
            i += 1;
            assert(middle.device_removed(gone@[i - 1], at, between, closed, *self, out@, fds@));
        }
        fds
    }

    /// Whether the nodes of a context are worth a look: the kernel has told of
    /// a change, and the context is not suspended.
    pub open spec fn notices(self, notified: bool) -> bool {
        notified && !self.backend.suspended
    }

    /// Removes devices whose nodes are gone. The first result is to be closed,
    /// the second tells whether the caller then looks for new devices.
    pub fn handle_hotplug(
        &mut self,
        notified: bool,
        missing: &Vec<DeviceId>,
        at: FrameTime,
        out: &mut Vec<LibinputEvent>,
    ) -> (r: (Vec<i32>, bool))
        requires
            old(self).wf(),
        ensures
            final(self).wf(),
            r.1 == (old(self).notices(notified) && old(self).backend_kind == BackendKind::Udev),
            !old(self).notices(notified) ==> *final(self) == *old(self) && final(out)@ == old(out)@
                && r.0@.len() == 0,
            old(self).notices(notified) ==> old(self).devices_removed(
                missing@,
                missing@.len() as int,
                at,
                old(out)@,
                *final(self),
                final(out)@,
                r.0@,
            ),
    {
        let scans = self.backend.hotplug_scans(self.backend_kind, notified);
        if self.backend.suspended || !notified {
            return (Vec::new(), false);
        }
        (self.remove_devices(missing, at, out), scans)
    }
}

// ---------------------------------------------------------------------------
// Suspending and resuming
// ---------------------------------------------------------------------------
/// Suspends a context. The result is to be closed.
pub fn libinput_suspend(
    ctx: Option<&mut LibinputContext>,
    at: FrameTime,
    out: &mut Vec<LibinputEvent>,
) -> (fds: Vec<i32>)
    requires
        ctx matches Some(c) ==> c.wf(),
    ensures
        match ctx {
            None => fds@.len() == 0 && final(out)@ == old(out)@,
            Some(c) => {
                &&& final(c).wf()
                &&& c.backend.suspended ==> *final(c) == *c && final(out)@ == old(out)@
                    && fds@.len() == 0
                &&& !c.backend.suspended ==> c.put_to_sleep(
                    at,
                    old(out)@,
                    *final(c),
                    final(out)@,
                    fds@,
                )
            },
        },
{
    match ctx {
        None => Vec::new(),
        Some(c) => c.suspend(at, out),
    }
}

/// Resumes a context that was woken and whose devices the caller has tried to
/// open. If one that a client named could not be opened, all are removed
/// again and resuming fails. The first result is what clients are told, the
/// second is to be closed.
pub fn libinput_resume(
    ctx: Option<&mut LibinputContext>,
    failed: bool,
    out: &mut Vec<LibinputEvent>,
) -> (r: (i32, Vec<i32>))
    requires
        ctx matches Some(c) ==> c.wf(),
    ensures
        match ctx {
            None => r.0 == -1 && r.1@.len() == 0 && final(out)@ == old(out)@,
            Some(c) => {
                let gives_up = failed && c.backend_kind == BackendKind::Path;
                let woken = c.with_suspended(false);
                &&& final(c).wf()
                &&& r.0 == (if gives_up {
                    -1int
                } else {
                    0
                })
                &&& gives_up ==> woken.all_detached(old(out)@, *final(c), final(out)@, r.1@)
                &&& !gives_up ==> *final(c) == woken && final(out)@ == old(out)@ && r.1@.len()
                    == 0
            },
        },
{
    match ctx {
        None => (-1, Vec::new()),
        Some(c) => {
            c.wake();
            c.finish_resume(failed, out)
        },
    }
}

// ---------------------------------------------------------------------------
// Devices that clients name
// ---------------------------------------------------------------------------
/// What becomes of a request to add a device.
#[derive(Clone, Copy, Debug, PartialEq, Eq, Structural)]
pub enum PathRequest {
    /// There is no context, no path, or the context finds its own devices.
    Refused,
    /// The path is too long; clients are told.
    TooLong,
    /// There is no device under the path; clients are told.
    NoDevice,
    /// The caller opens the device.
    Open,
}

pub open spec fn path_request(
    ctx: LibinputContext,
    path: Option<Seq<char>>,
    is_char_device: bool,
) -> PathRequest {
    match path {
        None => PathRequest::Refused,
        Some(path) => if ctx.backend_kind != BackendKind::Path {
            PathRequest::Refused
        } else if byte_len(path) > PATH_MAX {
            PathRequest::TooLong
        } else if !is_char_device {
            PathRequest::NoDevice
        } else {
            PathRequest::Open
        },
    }
}

pub open spec fn text_of(text: Option<&str>) -> Option<Seq<char>> {
    match text {
        Some(t) => Some(t@),
        None => None,
    }
}

/// Asks for a device under a path. Plugins can no longer be added once a path
/// was taken.
pub fn libinput_path_add_device(
    ctx: Option<&mut LibinputContext>,
    path: Option<&str>,
    is_char_device: bool,
) -> (request: PathRequest)
    requires
        ctx matches Some(c) ==> c.wf(),
    ensures
        match ctx {
            None => request == PathRequest::Refused,
            Some(c) => {
                &&& request == path_request(*c, text_of(path), is_char_device)
                &&& final(c).wf()
                &&& *final(c) == (LibinputContext {
                    plugins_loaded: c.plugins_loaded || request == PathRequest::NoDevice || request
                        == PathRequest::Open,
                    ..*c
                })
            },
        },
{
    match ctx {
        None => PathRequest::Refused,
        Some(c) => {
            let path: &str = match path {
                Some(path) => path,
                None => {
                    return PathRequest::Refused;
                },
            };
            let named = match c.backend_kind {
                BackendKind::Path => true,
                BackendKind::Udev => false,
            };
            if !named {
                return PathRequest::Refused;
            }
            if path.as_bytes().len() > PATH_MAX {
                return PathRequest::TooLong;
            }
            c.plugins_loaded = true;
            if is_char_device {
                PathRequest::Open
            } else {
                PathRequest::NoDevice
            }
        },
    }
}

impl LibinputContext {
    /// Ends a request to add a device: if one came to the `known` devices that
    /// were there, its path is remembered and the device is the result.
    pub fn path_added(&mut self, path: &str, known: usize) -> (device: Option<DeviceId>)
        requires
            old(self).wf(),
        ensures
            final(self).wf(),
            device is Some <==> old(self).devices@.len() == known + 1,
            device matches Some(id) ==> {
                let requested = final(self).backend.requested_paths@;
                let before = old(self).backend.requested_paths@;
                &&& id == old(self).devices@[known as int]
                &&& requested.len() == before.len() + 1
                &&& requested.drop_last() == before
                &&& requested.last()@ == path@
                &&& *final(self) == (LibinputContext {
                    backend: BackendState {
                        requested_paths: final(self).backend.requested_paths,
                        ..old(self).backend
                    },
                    ..*old(self)
                })
            },
            device is None ==> *final(self) == *old(self),
    {
        if self.devices.len() >= 1 && self.devices.len() - 1 == known {
            self.backend.remember_path(path.to_owned());
            assert(self.backend.requested_paths@.drop_last()
                =~= old(self).backend.requested_paths@);
            Some(self.devices[known])
        } else {
            None
        }
    }

    /// Whether taking back a request for a path leaves this context behind.
    pub open spec fn path_forgotten(self, path: Seq<char>, after: LibinputContext) -> bool {
        &&& after.backend.requested_paths@ == (match self.backend.request_from(path, 0) {
            Some(i) => self.backend.requested_paths@.remove(i),
            None => self.backend.requested_paths@,
        })
        &&& after.backend == (BackendState {
            requested_paths: after.backend.requested_paths,
            ..self.backend
        })
        &&& after == (LibinputContext { backend: after.backend, ..self })
    }

    /// Removes a device that a client named. Its path is not asked for any
    /// more. The result is to be closed.
    pub fn libinput_path_remove_device(
        &mut self,
        device: DeviceId,
        at: FrameTime,
        out: &mut Vec<LibinputEvent>,
    ) -> (fd: Option<i32>)
        requires
            old(self).wf(),
        ensures
            final(self).wf(),
            ({
                let taken = old(self).backend_kind == BackendKind::Path && device < old(
                    self,
                ).registry@.len();
                &&& !taken ==> fd is None && *final(self) == *old(self) && final(out)@ == old(
                    out,
                )@
                &&& taken ==> exists|middle: LibinputContext| #[trigger]
                    old(self).path_forgotten(
                        old(self).registry@[device as int].devnode@,
                        middle,
                    ) && (match middle.backend.place_from(device, 0) {
                        Some(place) => fd is Some && middle.removed(
                            place,
                            at,
                            old(out)@,
                            *final(self),
                            final(out)@,
                            fd->0,
                        ),
                        None => fd is None && *final(self) == middle && final(out)@ == old(out)@,
                    })
            }),
    {
        let named = match self.backend_kind {
            BackendKind::Path => true,
            BackendKind::Udev => false,
        };
        if !named || device >= self.registry.len() as u64 {
            return None;
        }
        assert(device < self.registry.len());
        let place: usize = device as usize;
        self.backend.forget_path(self.registry[place].devnode.as_str());
        let ghost middle = *self;
        assert(old(self).path_forgotten(old(self).registry@[device as int].devnode@, middle));
        self.remove_device(device, at, out)
    }
}

} // verus!
