//! Devices come and go: attaching, removing, suspending and resuming.
use vstd::prelude::*;
use crate::api::context::LibinputContext;
use crate::backend::arbitration::{arbitration_active, touch_arbitration_active};
use crate::backend::live::TrackedDevice;
use crate::backend::state::BackendState;
use crate::backend::tablet::FrameTime;
use crate::ffi_types::{
    BackendKind, DeviceId, EventPayload, LibinputDevice, LibinputDeviceGroup, LibinputEvent,
    LibinputEventType, LibinputSeat,
};

verus! {

/// The attached devices without one of them.
pub open spec fn without_id(ids: Seq<DeviceId>, id: DeviceId) -> Seq<DeviceId>
    decreases ids.len(),
{
    if ids.len() == 0 {
        ids
    } else if ids.last() == id {
        without_id(ids.drop_last(), id)
    } else {
        without_id(ids.drop_last(), id).push(ids.last())
    }
}

proof fn lemma_without_id(ids: Seq<DeviceId>, id: DeviceId, bound: int)
    requires
        forall|i: int| 0 <= i < ids.len() ==> #[trigger] ids[i] < bound,
    ensures
        forall|i: int|
            0 <= i < without_id(ids, id).len() ==> #[trigger] without_id(ids, id)[i] < bound
                && without_id(ids, id)[i] != id,
    decreases ids.len(),
{
    if ids.len() > 0 {
        let head = ids.drop_last();
        assert forall|i: int| 0 <= i < head.len() implies #[trigger] head[i] < bound by {
            assert(ids[i] < bound);
        }
        lemma_without_id(head, id, bound);
        assert(ids[ids.len() - 1] < bound);
        let rest = without_id(head, id);
        let all = without_id(ids, id);
        assert forall|i: int| 0 <= i < all.len() implies #[trigger] all[i] < bound && all[i]
            != id by {
            if i < rest.len() {
                assert(all[i] == rest[i]);
            }
        }
    }
}

fn remove_id(ids: &mut Vec<DeviceId>, id: DeviceId)
    ensures
        final(ids)@ == without_id(old(ids)@, id),
{
    let mut kept: Vec<DeviceId> = Vec::new();
    let mut i: usize = 0;
    assert(ids@.take(0) =~= Seq::<DeviceId>::empty());
    while i < ids.len()
        invariant
            i <= ids.len(),
            ids@ == old(ids)@,
            kept@ == without_id(ids@.take(i as int), id),
        decreases ids.len() - i,
    {
        proof {
            assert(ids@.take(i + 1).drop_last() =~= ids@.take(i as int));
        }
        if ids[i] != id {
            kept.push(ids[i]);
        }
        i += 1;
    }
    assert(ids@.take(i as int) =~= ids@);
    *ids = kept;
}

pub open spec fn added_event(device: DeviceId) -> LibinputEvent {
    LibinputEvent {
        event_type: LibinputEventType::LIBINPUT_EVENT_DEVICE_ADDED,
        payload: EventPayload::DeviceAdded,
        device,
    }
}

pub open spec fn removed_event(device: DeviceId) -> LibinputEvent {
    LibinputEvent {
        event_type: LibinputEventType::LIBINPUT_EVENT_DEVICE_REMOVED,
        payload: EventPayload::DeviceRemoved,
        device,
    }
}

impl LibinputContext {
    // -----------------------------------------------------------------------
    // Attaching
    // -----------------------------------------------------------------------
    /// Whether a device can be attached: it bears the next free names.
    pub open spec fn fits(self, d: LibinputDevice, t: TrackedDevice) -> bool {
        &&& d.id == self.registry@.len()
        &&& d.seat < self.seats@.len()
        &&& d.group == self.groups@.len()
        &&& t.device == d.id
        &&& t.wf(self.tools.tools@)
        &&& self.seats@[d.seat as int].refcount < i32::MAX
    }

    /// The names that the next device will bear: its own, and that of its
    /// group.
    pub fn next_names(&self) -> (names: (DeviceId, usize))
        ensures
            names.0 == self.registry@.len(),
            names.1 == self.groups@.len(),
    {
        (self.registry.len() as u64, self.groups.len())
    }

    /// Whether attaching a device leaves these behind: it holds on to its seat
    /// and has a group of its own.
    #[verifier::opaque]
    pub open spec fn attached(
        self,
        d: LibinputDevice,
        t: TrackedDevice,
        out: Seq<LibinputEvent>,
        after: LibinputContext,
        reported: Seq<LibinputEvent>,
    ) -> bool {
        &&& after.registry@ == self.registry@.push(d)
        &&& after.devices@ == self.devices@.push(d.id)
        &&& after.groups@ == self.groups@.push(LibinputDeviceGroup { refcount: 1, user_data: 0 })
        &&& after.seats@.len() == self.seats@.len()
        &&& forall|i: int|
            0 <= i < self.seats@.len() ==> #[trigger] after.seats@[i] == (if i == d.seat {
                LibinputSeat {
                    refcount: (self.seats@[i].refcount + 1) as i32,
                    ..self.seats@[i]
                }
            } else {
                self.seats@[i]
            })
        &&& after.backend.devices@ == self.backend.devices@.push(t)
        &&& after.backend == (BackendState { devices: after.backend.devices, ..self.backend })
        &&& after == (LibinputContext {
            registry: after.registry,
            devices: after.devices,
            groups: after.groups,
            seats: after.seats,
            backend: after.backend,
            ..self
        })
        &&& reported == out.push(added_event(d.id))
    }

    /// Attaches a device that was opened.
    pub fn attach(&mut self, d: LibinputDevice, t: TrackedDevice, out: &mut Vec<LibinputEvent>)
        requires
            old(self).wf(),
            old(self).fits(d, t),
        ensures
            final(self).wf(),
            final(self).backend.devices@.len() == old(self).backend.devices@.len() + 1,
            final(self).backend.devices@.last() == t,
            final(self).tools == old(self).tools,
            old(self).attached(d, t, old(out)@, *final(self), final(out)@),
    {
        reveal(LibinputContext::attached);
        let id: DeviceId = d.id;
        let seat: usize = d.seat;
        let count: i32 = self.seats[seat].refcount;
        self.seats[seat].refcount = count + 1;
        self.groups.push(LibinputDeviceGroup::new());
        self.registry.push(d);
        self.devices.push(id);
        self.backend.devices.push(t);
        out.push(
            LibinputEvent {
                event_type: LibinputEventType::LIBINPUT_EVENT_DEVICE_ADDED,
                payload: EventPayload::DeviceAdded,
                device: id,
            },
        );
    }

    // -----------------------------------------------------------------------
    // Removing
    // -----------------------------------------------------------------------
    /// Whether touch of a device yields to a tablet tool altogether.
    pub open spec fn yields(self, device: DeviceId, now: u64) -> bool {
        arbitration_active(
            self.touch_arbitration_until,
            now,
            self.devices@,
            self.registry@,
            device,
            None,
        )
    }

    /// Whether releasing what an open device holds leaves these behind.
    #[verifier::opaque]
    pub open spec fn input_released(
        self,
        place: int,
        at: FrameTime,
        out: Seq<LibinputEvent>,
        after: LibinputContext,
        reported: Seq<LibinputEvent>,
    ) -> bool {
        let t = self.backend.devices@[place];
        let id = t.device as int;
        &&& t.fully_released(
            self.registry@[id],
            self.tools.tools@,
            at.time_usec,
            self.yields(t.device, at.now),
            self.touch_seat_slots@,
            out,
            after.backend.devices@[place],
            after.registry@[id],
            after.tools.tools@,
            after.touch_seat_slots@,
            reported,
        )
        &&& after.backend.devices@ == self.backend.devices@.update(
            place,
            after.backend.devices@[place],
        )
        &&& after.registry@ == self.registry@.update(id, after.registry@[id])
        &&& after.backend == (BackendState { devices: after.backend.devices, ..self.backend })
        &&& after == (LibinputContext {
            backend: after.backend,
            registry: after.registry,
            tools: after.tools,
            touch_seat_slots: after.touch_seat_slots,
            ..self
        })
    }

    /// Releases everything that an open device holds.
    pub fn release_active_inputs(
        &mut self,
        place: usize,
        at: FrameTime,
        out: &mut Vec<LibinputEvent>,
    )
        requires
            old(self).wf(),
            place < old(self).backend.devices@.len(),
        ensures
            final(self).wf(),
            final(self).backend.devices@.len() == old(self).backend.devices@.len(),
            forall|i: int|
                0 <= i < old(self).backend.devices@.len() ==> (
                #[trigger] final(self).backend.devices@[i]).device == old(
                    self,
                ).backend.devices@[i].device && final(self).backend.devices@[i].fd == old(
                    self,
                ).backend.devices@[i].fd,
            old(self).input_released(place as int, at, old(out)@, *final(self), final(out)@),
    {
        reveal(LibinputContext::input_released);
        assert(self.backend.devices@[place as int].wf(self.tools.tools@));
        let id: DeviceId = self.backend.devices[place].device;
        assert(id < self.registry.len());
        let arbitrated = touch_arbitration_active(
            self.touch_arbitration_until,
            at.now,
            &self.devices,
            &self.registry,
            id,
            None,
        );
        let ghost before = *self;
        self.backend.devices[place].release_active_inputs(
            &mut self.registry[id as usize],
            &mut self.tools,
            at.time_usec,
            arbitrated,
            &mut self.touch_seat_slots,
            out,
        );
        proof {
            assert forall|i: int| 0 <= i < self.backend.devices@.len() implies (
            #[trigger] self.backend.devices@[i]).wf(self.tools.tools@)
                && crate::backend::state::is_registered(
                self.registry@,
                self.backend.devices@[i],
            ) by {
                assert(before.backend.devices@[i].wf(before.tools.tools@));
            }
        }
    }
}

impl LibinputContext {
    /// Whether taking a device out of the lists leaves these behind. The
    /// context's reference to the device passes to the event.
    #[verifier::opaque]
    pub open spec fn detached(
        self,
        place: int,
        out: Seq<LibinputEvent>,
        after: LibinputContext,
        reported: Seq<LibinputEvent>,
        fd: i32,
    ) -> bool {
        let t = self.backend.devices@[place];
        &&& fd == t.fd
        &&& after.backend.devices@ == self.backend.devices@.remove(place)
        &&& after.backend == (BackendState { devices: after.backend.devices, ..self.backend })
        &&& after.devices@ == without_id(self.devices@, t.device)
        &&& after == (LibinputContext { backend: after.backend, devices: after.devices, ..self })
        &&& reported == out.push(removed_event(t.device))
    }

    /// Takes an open device out of the lists. The result is to be closed.
    pub fn detach(&mut self, place: usize, out: &mut Vec<LibinputEvent>) -> (fd: i32)
        requires
            old(self).wf(),
            place < old(self).backend.devices@.len(),
        ensures
            final(self).wf(),
            old(self).detached(place as int, old(out)@, *final(self), final(out)@, fd),
            final(self).backend.devices@.len() == old(self).backend.devices@.len() - 1,
            final(self).backend.suspended == old(self).backend.suspended,
    {
        reveal(LibinputContext::detached);
        let ghost before = *self;
        let t = self.backend.devices.remove(place);
        remove_id(&mut self.devices, t.device);
        proof {
            lemma_without_id(before.devices@, t.device, before.registry@.len() as int);
            assert forall|i: int| 0 <= i < self.backend.devices@.len() implies (
            #[trigger] self.backend.devices@[i]).wf(self.tools.tools@)
                && crate::backend::state::is_registered(
                self.registry@,
                self.backend.devices@[i],
            ) by {
                let j = if i < place {
                    i
                } else {
                    i + 1
                };
                assert(self.backend.devices@[i] == before.backend.devices@[j]);
            }
        }
        out.push(
            LibinputEvent {
                event_type: LibinputEventType::LIBINPUT_EVENT_DEVICE_REMOVED,
                payload: EventPayload::DeviceRemoved,
                device: t.device,
            },
        );
        t.fd
    }

    /// Whether removing a device leaves these behind: what it holds is
    /// released, then it is gone.
    pub open spec fn removed(
        self,
        place: int,
        at: FrameTime,
        out: Seq<LibinputEvent>,
        after: LibinputContext,
        reported: Seq<LibinputEvent>,
        fd: i32,
    ) -> bool {
        exists|middle: LibinputContext, between: Seq<LibinputEvent>| #[trigger]
            self.input_released(place, at, out, middle, between) && middle.detached(
                place,
                between,
                after,
                reported,
                fd,
            )
    }

    /// Removes an open device. The result is to be closed.
    pub fn remove_at(&mut self, place: usize, at: FrameTime, out: &mut Vec<LibinputEvent>) -> (fd:
        i32)
        requires
            old(self).wf(),
            place < old(self).backend.devices@.len(),
        ensures
            final(self).wf(),
            final(self).backend.devices@.len() == old(self).backend.devices@.len() - 1,
            old(self).removed(place as int, at, old(out)@, *final(self), final(out)@, fd),
            fd == old(self).backend.devices@[place as int].fd,
    {
        self.release_active_inputs(place, at, out);
        let ghost middle = *self;
        let ghost between = out@;
        let fd = self.detach(place, out);
        proof {
            reveal(LibinputContext::detached);
            assert(old(self).input_released(place as int, at, old(out)@, middle, between));
        }
        fd
    }

    /// Removes a device that is open. The result is to be closed; there is
    /// none if the device is not open.
    pub fn remove_device(
        &mut self,
        device: DeviceId,
        at: FrameTime,
        out: &mut Vec<LibinputEvent>,
    ) -> (fd: Option<i32>)
        requires
            old(self).wf(),
        ensures
            final(self).wf(),
            match old(self).backend.place_from(device, 0) {
                Some(place) => fd is Some && old(self).removed(
                    place,
                    at,
                    old(out)@,
                    *final(self),
                    final(out)@,
                    fd->0,
                ),
                None => fd is None && *final(self) == *old(self) && final(out)@ == old(out)@,
            },
    {
        match self.backend.find_device(device) {
            Some(place) => Some(self.remove_at(place, at, out)),
            None => None,
        }
    }

    // -----------------------------------------------------------------------
    // Suspending and resuming
    // -----------------------------------------------------------------------
    /// Whether releasing the first `n` devices leaves these behind.
    pub open spec fn releases_upto(
        self,
        n: int,
        at: FrameTime,
        out: Seq<LibinputEvent>,
        after: LibinputContext,
        reported: Seq<LibinputEvent>,
    ) -> bool
        decreases n,
    {
        if n <= 0 {
            after == self && reported == out
        } else {
            exists|middle: LibinputContext, between: Seq<LibinputEvent>|
                self.releases_upto(n - 1, at, out, middle, between)
                    && #[trigger] middle.input_released(n - 1, at, between, after, reported)
        }
    }

    fn release_all(&mut self, at: FrameTime, out: &mut Vec<LibinputEvent>)
        requires
            old(self).wf(),
        ensures
            final(self).wf(),
            final(self).backend.devices@.len() == old(self).backend.devices@.len(),
            old(self).releases_upto(
                old(self).backend.devices@.len() as int,
                at,
                old(out)@,
                *final(self),
                final(out)@,
            ),
    {
        let mut i: usize = 0;
        let ghost n = self.backend.devices@.len();
        while i < self.backend.devices.len()
            invariant
                self.wf(),
                n == old(self).backend.devices@.len(),
                i <= self.backend.devices@.len() == n,
                old(self).releases_upto(i as int, at, old(out)@, *self, out@),
            decreases n - i,
        {
            let ghost middle = *self;
            let ghost between = out@;
            self.release_active_inputs(i, at, out);
            i += 1;
            assert(middle.input_released(i - 1, at, between, *self, out@));
        }
    }

    /// The removals of the first `n` devices, in their order.
    pub open spec fn removal_events(
        self,
        n: int,
        out: Seq<LibinputEvent>,
    ) -> Seq<LibinputEvent>
        decreases n,
    {
        if n <= 0 {
            out
        } else {
            self.removal_events(n - 1, out).push(removed_event(self.backend.devices@[n - 1].device))
        }
    }

    /// The attached devices without the first `n` open ones.
    pub open spec fn remaining(self, n: int) -> Seq<DeviceId>
        decreases n,
    {
        if n <= 0 {
            self.devices@
        } else {
            without_id(self.remaining(n - 1), self.backend.devices@[n - 1].device)
        }
    }

    /// Whether taking all open devices out of the lists leaves these behind.
    pub open spec fn all_detached(
        self,
        out: Seq<LibinputEvent>,
        after: LibinputContext,
        reported: Seq<LibinputEvent>,
        fds: Seq<i32>,
    ) -> bool {
        let n = self.backend.devices@.len();
        &&& after.backend.devices@.len() == 0
        &&& after.backend == (BackendState { devices: after.backend.devices, ..self.backend })
        &&& after.devices@ == self.remaining(n as int)
        &&& after == (LibinputContext { backend: after.backend, devices: after.devices, ..self })
        &&& reported == self.removal_events(n as int, out)
        &&& fds == Seq::new(n, |i: int| self.backend.devices@[i].fd)
    }

    fn detach_all(&mut self, out: &mut Vec<LibinputEvent>) -> (fds: Vec<i32>)
        requires
            old(self).wf(),
        ensures
            final(self).wf(),
            old(self).all_detached(old(out)@, *final(self), final(out)@, fds@),
    {
        let ghost before = *self;
        let mut fds: Vec<i32> = Vec::new();
        let mut i: usize = 0;
        while i < self.backend.devices.len()
            invariant
                before == *old(self),
                before.wf(),
                i <= self.backend.devices@.len(),
                self.backend == before.backend,
                *self == (LibinputContext { devices: self.devices, ..before }),
                self.devices@ == before.remaining(i as int),
                forall|j: int| 0 <= j < self.devices@.len() ==> #[trigger] self.devices@[j]
                    < before.registry@.len(),
                out@ == before.removal_events(i as int, old(out)@),
                fds@.len() == i,
                forall|j: int| 0 <= j < i ==> #[trigger] fds@[j] == before.backend.devices@[j].fd,
            decreases self.backend.devices@.len() - i,
        {
            let id: DeviceId = self.backend.devices[i].device;
            let fd: i32 = self.backend.devices[i].fd;
            proof {
                lemma_without_id(self.devices@, id, before.registry@.len() as int);
            }
            remove_id(&mut self.devices, id);
            fds.push(fd);
            out.push(
                LibinputEvent {
                    event_type: LibinputEventType::LIBINPUT_EVENT_DEVICE_REMOVED,
                    payload: EventPayload::DeviceRemoved,
                    device: id,
                },
            );
            i += 1;
        }
        self.backend.devices = Vec::new();
        assert(fds@ =~= Seq::new(
            before.backend.devices@.len(),
            |i: int| before.backend.devices@[i].fd,
        ));
        fds
    }

    fn mark_suspended(&mut self, suspended: bool)
        ensures
            *final(self) == (LibinputContext {
                backend: BackendState { suspended, ..old(self).backend },
                ..*old(self)
            }),
            old(self).wf() ==> final(self).wf(),
    {
        self.backend.suspended = suspended;
    }

    /// The context while it is suspended, before its devices are gone.
    pub open spec fn with_suspended(self, suspended: bool) -> LibinputContext {
        LibinputContext { backend: BackendState { suspended, ..self.backend }, ..self }
    }

    /// Whether suspending leaves these behind.
    pub open spec fn put_to_sleep(
        self,
        at: FrameTime,
        out: Seq<LibinputEvent>,
        after: LibinputContext,
        reported: Seq<LibinputEvent>,
        fds: Seq<i32>,
    ) -> bool {
        exists|middle: LibinputContext, between: Seq<LibinputEvent>| #[trigger]
            self.with_suspended(true).releases_upto(
                self.backend.devices@.len() as int,
                at,
                out,
                middle,
                between,
            ) && middle.all_detached(between, after, reported, fds)
    }

    /// Suspends a context: everything is released and every device is removed.
    /// The result is to be closed. A context that is suspended stays as it is.
    pub fn suspend(&mut self, at: FrameTime, out: &mut Vec<LibinputEvent>) -> (fds: Vec<i32>)
        requires
            old(self).wf(),
        ensures
            final(self).wf(),
            old(self).backend.suspended ==> *final(self) == *old(self) && final(out)@ == old(out)@
                && fds@.len() == 0,
            !old(self).backend.suspended ==> old(self).put_to_sleep(
                at,
                old(out)@,
                *final(self),
                final(out)@,
                fds@,
            ),
    {
        if self.backend.suspended {
            return Vec::new();
        }
        self.mark_suspended(true);
        self.release_all(at, out);
        let ghost middle = *self;
        let ghost between = out@;
        let fds = self.detach_all(out);
        assert(old(self).with_suspended(true).releases_upto(
            old(self).backend.devices@.len() as int,
            at,
            old(out)@,
            middle,
            between,
        ));
        fds
    }

    /// Wakes a context up; the caller then looks for its devices, or opens
    /// those that were asked for.
    pub fn wake(&mut self)
        requires
            old(self).wf(),
        ensures
            final(self).wf(),
            *final(self) == old(self).with_suspended(false),
    {
        self.mark_suspended(false);
    }

    /// Finishes waking up: if a device that was asked for could not be opened,
    /// all of them are removed again.
    pub(crate) fn finish_resume(&mut self, failed: bool, out: &mut Vec<LibinputEvent>) -> (r: (
        i32,
        Vec<i32>,
    ))
        requires
            old(self).wf(),
        ensures
            final(self).wf(),
            ({
                let gives_up = failed && old(self).backend_kind == BackendKind::Path;
                &&& r.0 == (if gives_up {
                    -1int
                } else {
                    0
                })
                &&& gives_up ==> old(self).all_detached(
                    old(out)@,
                    *final(self),
                    final(out)@,
                    r.1@,
                )
                &&& !gives_up ==> *final(self) == *old(self) && final(out)@ == old(out)@
                    && r.1@.len() == 0
            }),
    {
        let named = match self.backend_kind {
            BackendKind::Path => true,
            BackendKind::Udev => false,
        };
        if failed && named {
            let fds = self.detach_all(out);
            (-1, fds)
        } else {
            (0, Vec::new())
        }
    }
}

// ---------------------------------------------------------------------------
// Descriptors
// ---------------------------------------------------------------------------
/// The descriptors that a context has open.
pub open spec fn open_fds(ctx: LibinputContext) -> Seq<i32> {
    Seq::new(ctx.backend.devices@.len(), |i: int| ctx.backend.devices@[i].fd)
}

proof fn lemma_release_keeps_fds(
    ctx: LibinputContext,
    place: int,
    at: FrameTime,
    out: Seq<LibinputEvent>,
    after: LibinputContext,
    reported: Seq<LibinputEvent>,
)
    requires
        0 <= place < ctx.backend.devices@.len(),
        ctx.input_released(place, at, out, after, reported),
    ensures
        open_fds(after) == open_fds(ctx),
{
    reveal(LibinputContext::input_released);
    reveal(TrackedDevice::fully_released);
    assert(open_fds(after) =~= open_fds(ctx));
}

/// A device that is removed gives up its descriptor, and no other one does.
pub proof fn law_removal_closes_one_descriptor(
    ctx: LibinputContext,
    place: int,
    at: FrameTime,
    out: Seq<LibinputEvent>,
    after: LibinputContext,
    reported: Seq<LibinputEvent>,
    fd: i32,
)
    requires
        0 <= place < ctx.backend.devices@.len(),
        ctx.removed(place, at, out, after, reported, fd),
    ensures
        fd == open_fds(ctx)[place],
        open_fds(after) == open_fds(ctx).remove(place),
{
    let (middle, between) = choose|middle: LibinputContext, between: Seq<LibinputEvent>| #[trigger]
        ctx.input_released(place, at, out, middle, between) && middle.detached(
            place,
            between,
            after,
            reported,
            fd,
        );
    lemma_release_keeps_fds(ctx, place, at, out, middle, between);
    assert(open_fds(middle).len() == middle.backend.devices@.len());
    reveal(LibinputContext::detached);
    assert(open_fds(middle)[place] == middle.backend.devices@[place].fd);
    assert(open_fds(after) =~= open_fds(middle).remove(place));
}

proof fn lemma_releases_keep_fds(
    ctx: LibinputContext,
    n: int,
    at: FrameTime,
    out: Seq<LibinputEvent>,
    after: LibinputContext,
    reported: Seq<LibinputEvent>,
)
    requires
        0 <= n <= ctx.backend.devices@.len(),
        ctx.releases_upto(n, at, out, after, reported),
    ensures
        open_fds(after) == open_fds(ctx),
    decreases n,
{
    if n > 0 {
        let (middle, between) = choose|middle: LibinputContext, between: Seq<LibinputEvent>|
            ctx.releases_upto(n - 1, at, out, middle, between) && #[trigger] middle.input_released(
                n - 1,
                at,
                between,
                after,
                reported,
            );
        lemma_releases_keep_fds(ctx, n - 1, at, out, middle, between);
        assert(open_fds(middle).len() == middle.backend.devices@.len());
        assert(open_fds(ctx).len() == ctx.backend.devices@.len());
        lemma_release_keeps_fds(middle, n - 1, at, between, after, reported);
    }
}

/// A context that is suspended gives up every descriptor once, and keeps
/// none. It remembers which paths it was asked for.
pub proof fn law_suspension_closes_every_descriptor_once(
    ctx: LibinputContext,
    at: FrameTime,
    out: Seq<LibinputEvent>,
    after: LibinputContext,
    reported: Seq<LibinputEvent>,
    fds: Seq<i32>,
)
    requires
        ctx.put_to_sleep(at, out, after, reported, fds),
    ensures
        fds == open_fds(ctx),
        open_fds(after).len() == 0,
        after.backend.suspended,
        after.backend.requested_paths == ctx.backend.requested_paths,
{
    let n = ctx.backend.devices@.len() as int;
    let asleep = ctx.with_suspended(true);
    let (middle, between) = choose|middle: LibinputContext, between: Seq<LibinputEvent>| #[trigger]
        asleep.releases_upto(n, at, out, middle, between) && middle.all_detached(
            between,
            after,
            reported,
            fds,
        );
    lemma_releases_keep_fds(asleep, n, at, out, middle, between);
    lemma_releases_keep_suspension(asleep, n, at, out, middle, between);
    assert(open_fds(asleep) =~= open_fds(ctx));
    assert(fds =~= open_fds(middle));
}

proof fn lemma_releases_keep_suspension(
    ctx: LibinputContext,
    n: int,
    at: FrameTime,
    out: Seq<LibinputEvent>,
    after: LibinputContext,
    reported: Seq<LibinputEvent>,
)
    requires
        ctx.releases_upto(n, at, out, after, reported),
    ensures
        after.backend.suspended == ctx.backend.suspended,
        after.backend.requested_paths == ctx.backend.requested_paths,
    decreases n,
{
    if n > 0 {
        let (middle, between) = choose|middle: LibinputContext, between: Seq<LibinputEvent>|
            ctx.releases_upto(n - 1, at, out, middle, between) && #[trigger] middle.input_released(
                n - 1,
                at,
                between,
                after,
                reported,
            );
        lemma_releases_keep_suspension(ctx, n - 1, at, out, middle, between);
        reveal(LibinputContext::input_released);
    }
}

proof fn lemma_absent_id(ids: Seq<DeviceId>, id: DeviceId)
    requires
        forall|i: int| 0 <= i < ids.len() ==> #[trigger] ids[i] != id,
    ensures
        without_id(ids, id) == ids,
    decreases ids.len(),
{
    if ids.len() > 0 {
        let head = ids.drop_last();
        assert forall|i: int| 0 <= i < head.len() implies #[trigger] head[i] != id by {
            assert(ids[i] != id);
        }
        lemma_absent_id(head, id);
        assert(ids.last() == ids[ids.len() - 1]);
        assert(head.push(ids.last()) =~= ids);
    }
}

/// A device that is attached and taken out again leaves the lists as they
/// were, and is reported as added and then as removed.
pub proof fn law_detaching_undoes_attaching(
    ctx: LibinputContext,
    d: LibinputDevice,
    t: TrackedDevice,
    out: Seq<LibinputEvent>,
    with: LibinputContext,
    added: Seq<LibinputEvent>,
    after: LibinputContext,
    reported: Seq<LibinputEvent>,
    fd: i32,
)
    requires
        ctx.wf(),
        ctx.fits(d, t),
        ctx.attached(d, t, out, with, added),
        with.detached(ctx.backend.devices@.len() as int, added, after, reported, fd),
    ensures
        after.devices@ == ctx.devices@,
        after.backend.devices@ == ctx.backend.devices@,
        fd == t.fd,
        reported == out.push(added_event(d.id)).push(removed_event(d.id)),
{
    reveal(LibinputContext::attached);
    reveal(LibinputContext::detached);
    let n = ctx.backend.devices@.len() as int;
    assert(with.backend.devices@[n] == t);
    assert(with.devices@.drop_last() =~= ctx.devices@);
    lemma_absent_id(ctx.devices@, d.id);
    assert(after.backend.devices@ =~= ctx.backend.devices@);
}

} // verus!
