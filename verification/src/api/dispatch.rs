//! What a context does with the events of its devices.
use vstd::prelude::*;
use crate::api::context::LibinputContext;
use crate::backend::arbitration::{
    active_tablet_for_touch, active_tablet_spec, arbitration_active, touch_arbitration_active,
};
use crate::backend::gestures::finger_stops;
use crate::backend::live::{Environment, Progress, TrackedDevice, TYPING_TIMEOUT};
use crate::backend::scroll::stopped;
use crate::backend::state::{
    eraser_losses, is_registered, silence_losses, BackendState, ForcedStep,
};
use crate::backend::tablet::{FrameTime, TabletFacts};
use crate::backend::touchpad::{FrameAction, FrameEnd};
use crate::clock::within;
use crate::codes::InputEvent;
use crate::ffi_types::{DeviceId, LibinputEvent};

verus! {

/// What an event leaves for the caller to do.
#[derive(Clone, Copy, Debug, PartialEq, Eq, Structural)]
pub struct Handled {
    pub progress: Progress,
    pub action: FrameAction,
}

/// What a cycle leaves for the caller to do: tablets whose newly configured
/// area takes effect, descriptors to close, and the time until the next cycle
/// is due.
pub struct CycleEnd {
    pub areas: Vec<DeviceId>,
    pub fds: Vec<i32>,
    pub next: Option<u64>,
}

/// The most seat slots that contacts can have.
pub const SEAT_SLOTS_MAX: usize = 0x4000_0000;

impl LibinputContext {
    // -----------------------------------------------------------------------
    // What an event meets
    // -----------------------------------------------------------------------
    /// The first pointing stick from `from` on.
    pub open spec fn stick_from(self, from: int) -> Option<DeviceId>
        decreases self.backend.devices@.len() - from,
    {
        if from >= self.backend.devices@.len() {
            None
        } else if self.backend.devices@[from].kind.is_pointing_stick {
            Some(self.backend.devices@[from].device)
        } else {
            self.stick_from(from + 1)
        }
    }

    /// The pointing stick that the upper buttons of touchpads belong to.
    pub fn pointing_stick(&self) -> (stick: Option<DeviceId>)
        ensures
            stick == self.stick_from(0),
    {
        let mut i: usize = 0;
        while i < self.backend.devices.len()
            invariant
                i <= self.backend.devices@.len(),
                self.stick_from(0) == self.stick_from(i as int),
            decreases self.backend.devices.len() - i,
        {
            if self.backend.devices[i].kind.is_pointing_stick {
                return Some(self.backend.devices[i].device);
            }
            i += 1;
        }
        None
    }

    /// What is known outside a device when an event comes. `typing` is the
    /// last typing when its events were read.
    pub open spec fn environment(
        self,
        device: DeviceId,
        typing: Option<u64>,
        facts: TabletFacts,
        now: u64,
    ) -> Environment {
        Environment {
            stick: self.stick_from(0),
            typing,
            arbitrated: self.yields(device, now),
            facts,
        }
    }

    /// Whether a tool is near that the touch of a device yields to.
    pub open spec fn tablet_near(self, device: DeviceId) -> bool {
        self.registry@[device as int].has_touch && active_tablet_spec(
            self.devices@,
            self.registry@,
            device,
        ) is Some
    }

    fn sees_tablet(&self, device: DeviceId) -> (near: bool)
        requires
            self.wf(),
            device < self.registry@.len(),
        ensures
            near == self.tablet_near(device),
    {
        assert(device < self.registry.len());
        self.registry[device as usize].has_touch && active_tablet_for_touch(
            &self.devices,
            &self.registry,
            device,
        ).is_some()
    }

    /// For each contact of a device, whether a tool claims its position.
    pub open spec fn claimed(self, t: TrackedDevice, now: u64) -> Seq<bool> {
        Seq::new(
            t.touch.slots@.len(),
            |i: int|
                arbitration_active(
                    self.touch_arbitration_until,
                    now,
                    self.devices@,
                    self.registry@,
                    t.device,
                    Some((t.touch.slots@[i].x, t.touch.slots@[i].y)),
                ),
        )
    }

    fn claims_of(&self, place: usize, now: u64) -> (blocked: Vec<bool>)
        requires
            self.wf(),
            place < self.backend.devices@.len(),
        ensures
            blocked@ == self.claimed(self.backend.devices@[place as int], now),
    {
        let t = &self.backend.devices[place];
        assert(is_registered(self.registry@, *t));
        let mut blocked: Vec<bool> = Vec::new();
        let mut i: usize = 0;
        while i < t.touch.slots.len()
            invariant
                self.wf(),
                t.device < self.registry@.len(),
                i <= t.touch.slots@.len(),
                blocked@ == self.claimed(*t, now).take(i as int),
            decreases t.touch.slots.len() - i,
        {
            let slot = &t.touch.slots[i];
            let claimed = touch_arbitration_active(
                self.touch_arbitration_until,
                now,
                &self.devices,
                &self.registry,
                t.device,
                Some((slot.x, slot.y)),
            );
            blocked.push(claimed);
            i += 1;
            assert(blocked@ =~= self.claimed(*t, now).take(i as int));
        }
        assert(self.claimed(*t, now).take(i as int) =~= self.claimed(*t, now));
        blocked
    }

    // -----------------------------------------------------------------------
    // One event
    // -----------------------------------------------------------------------
    /// Until when touch is blocked after an event.
    pub open spec fn blocked_until(self, progress: Progress) -> Option<u64> {
        match progress {
            Progress::Tablet(outcome) => match outcome.block_touch_until {
                Some(until) => Some(until),
                None => if outcome.unblock_touch {
                    None
                } else {
                    self.touch_arbitration_until
                },
            },
            _ => self.touch_arbitration_until,
        }
    }

    /// Whether reading an event leaves these behind.
    #[verifier::opaque]
    pub open spec fn event_read(
        self,
        place: int,
        ev: InputEvent,
        at: FrameTime,
        env: Environment,
        out: Seq<LibinputEvent>,
        after: LibinputContext,
        reported: Seq<LibinputEvent>,
        progress: Progress,
    ) -> bool {
        let t = self.backend.devices@[place];
        let id = t.device as int;
        &&& t.processed(
            self.registry@[id],
            ev,
            at,
            env,
            self.tools.tools@,
            out,
            after.backend.devices@[place],
            after.registry@[id],
            after.tools.tools@,
            reported,
            progress,
        )
        &&& after.backend.devices@ == self.backend.devices@.update(
            place,
            after.backend.devices@[place],
        )
        &&& after.registry@ == self.registry@.update(id, after.registry@[id])
        &&& after.backend == (BackendState {
            devices: after.backend.devices,
            global_typing_time: if progress == Progress::Typed {
                Some(at.now)
            } else {
                self.backend.global_typing_time
            },
            ..self.backend
        })
        &&& after == (LibinputContext {
            backend: after.backend,
            registry: after.registry,
            tools: after.tools,
            touch_arbitration_until: self.blocked_until(progress),
            ..self
        })
    }

    pub(crate) fn settle(&mut self, progress: Progress, now: u64)
        requires
            old(self).wf(),
        ensures
            final(self).wf(),
            *final(self) == (LibinputContext {
                backend: BackendState {
                    global_typing_time: if progress == Progress::Typed {
                        Some(now)
                    } else {
                        old(self).backend.global_typing_time
                    },
                    ..old(self).backend
                },
                touch_arbitration_until: old(self).blocked_until(progress),
                ..*old(self)
            }),
    {
        match progress {
            Progress::Typed => {
                self.backend.global_typing_time = Some(now);
            },
            Progress::Tablet(outcome) => {
                if outcome.unblock_touch {
                    self.touch_arbitration_until = None;
                }
                if let Some(until) = outcome.block_touch_until {
                    self.touch_arbitration_until = Some(until);
                }
            },
            _ => {},
        }
    }

    fn read_event(
        &mut self,
        place: usize,
        ev: &InputEvent,
        at: FrameTime,
        env: &Environment,
        out: &mut Vec<LibinputEvent>,
    ) -> (progress: Progress)
        requires
            old(self).wf(),
            place < old(self).backend.devices@.len(),
            old(self).takes(place as int, *ev, at.now),
        ensures
            final(self).wf(),
            final(self).backend.devices@.len() == old(self).backend.devices@.len(),
            final(self).backend.devices@[place as int].device == old(
                self,
            ).backend.devices@[place as int].device,
            final(self).touch_seat_slots == old(self).touch_seat_slots,
            old(self).event_read(
                place as int,
                *ev,
                at,
                *env,
                old(out)@,
                *final(self),
                final(out)@,
                progress,
            ),
    {
        reveal(LibinputContext::event_read);
        let ghost before = *self;
        assert(self.backend.devices@[place as int].wf(self.tools.tools@));
        let id: DeviceId = self.backend.devices[place].device;
        assert(id < self.registry.len());
        let progress = self.backend.devices[place].process_event(
            &mut self.registry[id as usize],
            ev,
            at,
            env,
            &mut self.tools,
            out,
        );
        proof {
            assert forall|i: int| 0 <= i < self.backend.devices@.len() implies (
            #[trigger] self.backend.devices@[i]).wf(self.tools.tools@) && is_registered(
                self.registry@,
                self.backend.devices@[i],
            ) by {
                assert(before.backend.devices@[i].wf(before.tools.tools@));
            }
        }
        self.settle(progress, at.now);
        progress
    }

    /// Whether the sums of a device have room for an event.
    pub open spec fn takes(self, place: int, ev: InputEvent, now: u64) -> bool {
        let t = self.backend.devices@[place];
        t.has_room(self.registry@[t.device as int], ev, now)
    }

    pub fn can_take(&self, place: usize, ev: &InputEvent, now: u64) -> (room: bool)
        requires
            self.wf(),
            place < self.backend.devices@.len(),
        ensures
            room == self.takes(place as int, *ev, now),
    {
        let t = &self.backend.devices[place];
        assert(t.wf(self.tools.tools@) && is_registered(self.registry@, *t));
        assert(t.device < self.registry.len());
        t.room_for(&self.registry[t.device as usize], ev, now)
    }

    /// Whether finishing a touchscreen's frame leaves these behind.
    #[verifier::opaque]
    pub open spec fn screen_done(
        self,
        place: int,
        at: FrameTime,
        arbitrated: bool,
        out: Seq<LibinputEvent>,
        after: LibinputContext,
        reported: Seq<LibinputEvent>,
    ) -> bool {
        let t = self.backend.devices@[place];
        &&& t.touch.screen_finished(
            self.registry@[t.device as int].id,
            at.time_usec,
            self.tablet_near(t.device),
            self.claimed(t, at.now),
            arbitrated,
            self.touch_seat_slots@,
            out,
            after.backend.devices@[place].touch,
            after.touch_seat_slots@,
            reported,
        )
        &&& after.backend.devices@ == self.backend.devices@.update(
            place,
            TrackedDevice { touch: after.backend.devices@[place].touch, ..t },
        )
        &&& after.backend == (BackendState { devices: after.backend.devices, ..self.backend })
        &&& after == (LibinputContext {
            backend: after.backend,
            touch_seat_slots: after.touch_seat_slots,
            ..self
        })
    }

    fn finish_screen(
        &mut self,
        place: usize,
        at: FrameTime,
        arbitrated: bool,
        out: &mut Vec<LibinputEvent>,
    )
        requires
            old(self).wf(),
            place < old(self).backend.devices@.len(),
            old(self).touch_seat_slots@.len() < SEAT_SLOTS_MAX,
        ensures
            final(self).wf(),
            final(self).backend.devices@.len() == old(self).backend.devices@.len(),
            old(self).screen_done(
                place as int,
                at,
                arbitrated,
                old(out)@,
                *final(self),
                final(out)@,
            ),
    {
        reveal(LibinputContext::screen_done);
        let ghost before = *self;
        assert(self.backend.devices@[place as int].wf(self.tools.tools@));
        let id: DeviceId = self.backend.devices[place].device;
        assert(id < self.registry.len());
        let near = self.sees_tablet(id);
        let blocked = self.claims_of(place, at.now);
        self.backend.devices[place].touch.finish_touch_frame(
            &self.registry[id as usize],
            at.time_usec,
            near,
            &blocked,
            arbitrated,
            &mut self.touch_seat_slots,
            out,
        );
        proof {
            assert forall|i: int| 0 <= i < self.backend.devices@.len() implies (
            #[trigger] self.backend.devices@[i]).wf(self.tools.tools@) && is_registered(
                self.registry@,
                self.backend.devices@[i],
            ) by {
                assert(before.backend.devices@[i].wf(before.tools.tools@));
            }
        }
    }

    /// Whether finishing a touchpad's frame leaves these behind.
    #[verifier::opaque]
    pub open spec fn pad_done(
        self,
        place: int,
        at: FrameTime,
        env: Environment,
        out: Seq<LibinputEvent>,
        after: LibinputContext,
        reported: Seq<LibinputEvent>,
        action: FrameAction,
    ) -> bool {
        let t = self.backend.devices@[place];
        let dev = self.registry@[t.device as int];
        &&& t.touch.pad_finished(
            dev,
            at,
            TrackedDevice::typing_recently(dev, env, at.now),
            env.arbitrated,
            out,
            after.backend.devices@[place].touch,
            reported,
            action,
        )
        &&& after.backend.devices@ == self.backend.devices@.update(
            place,
            TrackedDevice { touch: after.backend.devices@[place].touch, ..t },
        )
        &&& after.backend == (BackendState { devices: after.backend.devices, ..self.backend })
        &&& after == (LibinputContext { backend: after.backend, ..self })
    }

    fn finish_pad(
        &mut self,
        place: usize,
        at: FrameTime,
        env: &Environment,
        out: &mut Vec<LibinputEvent>,
    ) -> (action: FrameAction)
        requires
            old(self).wf(),
            place < old(self).backend.devices@.len(),
        ensures
            final(self).wf(),
            final(self).backend.devices@.len() == old(self).backend.devices@.len(),
            old(self).pad_done(
                place as int,
                at,
                *env,
                old(out)@,
                *final(self),
                final(out)@,
                action,
            ),
    {
        reveal(LibinputContext::pad_done);
        let ghost before = *self;
        assert(self.backend.devices@[place as int].wf(self.tools.tools@));
        let id: DeviceId = self.backend.devices[place].device;
        assert(id < self.registry.len());
        let typing = self.registry[id as usize].dwt_enabled && within(
            at.now,
            env.typing,
            TYPING_TIMEOUT,
        );
        let action = self.backend.devices[place].touch.finish_touchpad_frame(
            &self.registry[id as usize],
            at,
            typing,
            env.arbitrated,
            out,
        );
        proof {
            assert forall|i: int| 0 <= i < self.backend.devices@.len() implies (
            #[trigger] self.backend.devices@[i]).wf(self.tools.tools@) && is_registered(
                self.registry@,
                self.backend.devices@[i],
            ) by {
                assert(before.backend.devices@[i].wf(before.tools.tools@));
            }
        }
        action
    }

    /// Whether taking in an event leaves these behind. At the end of a frame
    /// the contacts of a touchscreen are reported, and the fingers on a touchpad
    /// are read as gestures.
    pub open spec fn event_taken(
        self,
        place: int,
        ev: InputEvent,
        at: FrameTime,
        typing: Option<u64>,
        facts: TabletFacts,
        out: Seq<LibinputEvent>,
        after: LibinputContext,
        reported: Seq<LibinputEvent>,
        handled: Handled,
    ) -> bool {
        let env = self.environment(self.backend.devices@[place].device, typing, facts, at.now);
        let progress = handled.progress;
        if progress == Progress::Frame(FrameEnd::Touchscreen) {
            &&& handled.action == FrameAction::Nothing
            &&& exists|middle: LibinputContext, between: Seq<LibinputEvent>| #[trigger]
                self.event_read(place, ev, at, env, out, middle, between, progress)
                    && middle.screen_done(place, at, env.arbitrated, between, after, reported)
        } else if progress == Progress::Frame(FrameEnd::Touchpad) {
            exists|middle: LibinputContext, between: Seq<LibinputEvent>| #[trigger]
                self.event_read(place, ev, at, env, out, middle, between, progress)
                    && middle.pad_done(
                    place,
                    at,
                    env,
                    between,
                    after,
                    reported,
                    handled.action,
                )
        } else {
            &&& handled.action == FrameAction::Nothing
            &&& self.event_read(place, ev, at, env, out, after, reported, progress)
        }
    }

    /// Takes in one event of an open device. Scaling what the fingers on a
    /// touchpad moved is left to the caller.
    pub fn take_event(
        &mut self,
        place: usize,
        ev: &InputEvent,
        at: FrameTime,
        typing: Option<u64>,
        facts: TabletFacts,
        out: &mut Vec<LibinputEvent>,
    ) -> (handled: Handled)
        requires
            old(self).wf(),
            place < old(self).backend.devices@.len(),
            old(self).takes(place as int, *ev, at.now),
            old(self).touch_seat_slots@.len() < SEAT_SLOTS_MAX,
        ensures
            final(self).wf(),
            final(self).backend.devices@.len() == old(self).backend.devices@.len(),
            old(self).event_taken(
                place as int,
                *ev,
                at,
                typing,
                facts,
                old(out)@,
                *final(self),
                final(out)@,
                handled,
            ),
    {
        assert(self.backend.devices@[place as int].wf(self.tools.tools@));
        let id: DeviceId = self.backend.devices[place].device;
        let arbitrated = touch_arbitration_active(
            self.touch_arbitration_until,
            at.now,
            &self.devices,
            &self.registry,
            id,
            None,
        );
        let env = Environment { stick: self.pointing_stick(), typing, arbitrated, facts };
        let ghost start = *self;
        let ghost begun = out@;
        let progress = self.read_event(place, ev, at, &env, out);
        let mut action = FrameAction::Nothing;
        if let Progress::Frame(end) = progress {
            let ghost middle = *self;
            let ghost between = out@;
            match end {
                FrameEnd::Touchscreen => self.finish_screen(place, at, arbitrated, out),
                FrameEnd::Touchpad => {
                    action = self.finish_pad(place, at, &env, out);
                },
                FrameEnd::Open => {},
            }
            assert(start.event_read(
                place as int,
                *ev,
                at,
                env,
                begun,
                middle,
                between,
                progress,
            ));
        }
        Handled { progress, action }
    }

    // -----------------------------------------------------------------------
    // Tools over touch
    // -----------------------------------------------------------------------
    /// Whether a device giving way to a tool leaves these behind.
    #[verifier::opaque]
    pub open spec fn one_gave_way(
        self,
        place: int,
        at: FrameTime,
        out: Seq<LibinputEvent>,
        after: LibinputContext,
        reported: Seq<LibinputEvent>,
    ) -> bool {
        let t = self.backend.devices@[place];
        &&& t.touch.gave_way(
            t.device,
            at.time_usec,
            self.tablet_near(t.device),
            self.claimed(t, at.now),
            self.touch_seat_slots@,
            out,
            after.backend.devices@[place].touch,
            after.touch_seat_slots@,
            reported,
        )
        &&& after.backend.devices@ == self.backend.devices@.update(
            place,
            TrackedDevice { touch: after.backend.devices@[place].touch, ..t },
        )
        &&& after.backend == (BackendState { devices: after.backend.devices, ..self.backend })
        &&& after == (LibinputContext {
            backend: after.backend,
            touch_seat_slots: after.touch_seat_slots,
            ..self
        })
    }

    /// Whether the first `n` devices giving way leaves these behind.
    pub open spec fn gave_way_upto(
        self,
        n: int,
        at: FrameTime,
        out: Seq<LibinputEvent>,
        after: LibinputContext,
        reported: Seq<LibinputEvent>,
    ) -> bool
        decreases n,
    {
        if n <= 0 {
            after == self && reported == out
        } else {
            exists|middle: LibinputContext, between: Seq<LibinputEvent>|
                self.gave_way_upto(n - 1, at, out, middle, between)
                    && #[trigger] middle.one_gave_way(n - 1, at, between, after, reported)
        }
    }

    fn give_way(&mut self, place: usize, at: FrameTime, out: &mut Vec<LibinputEvent>)
        requires
            old(self).wf(),
            place < old(self).backend.devices@.len(),
        ensures
            final(self).wf(),
            final(self).backend.devices@.len() == old(self).backend.devices@.len(),
            old(self).one_gave_way(place as int, at, old(out)@, *final(self), final(out)@),
    {
        reveal(LibinputContext::one_gave_way);
        let ghost before = *self;
        assert(self.backend.devices@[place as int].wf(self.tools.tools@));
        let id: DeviceId = self.backend.devices[place].device;
        let near = self.sees_tablet(id);
        let blocked = self.claims_of(place, at.now);
        self.backend.devices[place].touch.yield_to_tablet(
            id,
            at.time_usec,
            near,
            &blocked,
            &mut self.touch_seat_slots,
            out,
        );
        proof {
            assert forall|i: int| 0 <= i < self.backend.devices@.len() implies (
            #[trigger] self.backend.devices@[i]).wf(self.tools.tools@) && is_registered(
                self.registry@,
                self.backend.devices@[i],
            ) by {
                assert(before.backend.devices@[i].wf(before.tools.tools@));
            }
        }
    }

    /// Cancels contacts that a tool came near, on all devices.
    pub fn yield_touches(&mut self, at: FrameTime, out: &mut Vec<LibinputEvent>)
        requires
            old(self).wf(),
        ensures
            final(self).wf(),
            final(self).backend.devices@.len() == old(self).backend.devices@.len(),
            old(self).gave_way_upto(
                old(self).backend.devices@.len() as int,
                at,
                old(out)@,
                *final(self),
                final(out)@,
            ),
    {
        let mut i: usize = 0;
        let ghost n = self.backend.devices@.len();
        while i < self.backend.devices.len()
            invariant
                self.wf(),
                n == old(self).backend.devices@.len(),
                i <= self.backend.devices@.len() == n,
                old(self).gave_way_upto(i as int, at, old(out)@, *self, out@),
            decreases n - i,
        {
            let ghost middle = *self;
            let ghost between = out@;
            self.give_way(i, at, out);
            i += 1;
            assert(middle.one_gave_way(i - 1, at, between, *self, out@));
        }
    }

    /// Whether ending the scrolling of an open device leaves these behind.
    pub open spec fn scrolling_ended(
        self,
        place: int,
        time_usec: u64,
        out: Seq<LibinputEvent>,
        after: LibinputContext,
        reported: Seq<LibinputEvent>,
    ) -> bool {
        let t = self.backend.devices@[place];
        &&& reported == finger_stops(
            t.touch.scroll,
            t.device,
            time_usec,
            stopped(out, t.device, time_usec, t.pointer.scroll),
        )
        &&& after.backend.devices@ == self.backend.devices@.update(place, t.scroll_stopped())
        &&& after.backend == (BackendState { devices: after.backend.devices, ..self.backend })
        &&& after == (LibinputContext { backend: after.backend, ..self })
    }

    /// Ends the scrolling of a device, if it is open.
    pub fn stop_scroll_for_device(
        &mut self,
        device: DeviceId,
        time_usec: u64,
        out: &mut Vec<LibinputEvent>,
    )
        requires
            old(self).wf(),
        ensures
            final(self).wf(),
            match old(self).backend.place_from(device, 0) {
                Some(place) => old(self).scrolling_ended(
                    place,
                    time_usec,
                    old(out)@,
                    *final(self),
                    final(out)@,
                ),
                None => *final(self) == *old(self) && final(out)@ == old(out)@,
            },
    {
        if let Some(place) = self.backend.find_device(device) {
            let ghost before = *self;
            self.backend.devices[place].stop_scroll(time_usec, out);
            proof {
                assert forall|i: int| 0 <= i < self.backend.devices@.len() implies (
                #[trigger] self.backend.devices@[i]).wf(self.tools.tools@) && is_registered(
                    self.registry@,
                    self.backend.devices@[i],
                ) by {
                    assert(before.backend.devices@[i].wf(before.tools.tools@));
                }
            }
        }
    }

    // -----------------------------------------------------------------------
    // Whole cycles
    // -----------------------------------------------------------------------
    /// Whether the steps before new events are read leave these behind: held
    /// keys repeat, and presses and changes that waited long enough are
    /// delivered.
    pub open spec fn cycle_opened(
        self,
        at: FrameTime,
        out: Seq<LibinputEvent>,
        after: LibinputContext,
        reported: Seq<LibinputEvent>,
    ) -> bool {
        &&& self.backend.cycle_begun(self.registry@, at, out, after.backend, reported)
        &&& after == (LibinputContext { backend: after.backend, ..self })
    }

    /// Begins a cycle, before new events are read.
    pub fn open_cycle(&mut self, at: FrameTime, out: &mut Vec<LibinputEvent>)
        requires
            old(self).wf(),
        ensures
            final(self).wf(),
            old(self).cycle_opened(at, old(out)@, *final(self), final(out)@),
    {
        self.backend.begin_cycle(&self.registry, &self.tools, at, out);
    }

    /// Whether the timers of touch devices leave these behind.
    pub open spec fn timers_run(
        self,
        at: FrameTime,
        out: Seq<LibinputEvent>,
        after: LibinputContext,
        reported: Seq<LibinputEvent>,
    ) -> bool {
        &&& self.backend.cycle_ended(self.registry@, at, out, after.backend, reported)
        &&& after == (LibinputContext { backend: after.backend, ..self })
    }

    /// Whether taking silent tools out of proximity leaves these behind.
    /// `areas` lists the tablets whose newly configured area takes effect.
    pub open spec fn tools_dropped(
        self,
        at: FrameTime,
        out: Seq<LibinputEvent>,
        after: LibinputContext,
        reported: Seq<LibinputEvent>,
        areas: Seq<DeviceId>,
    ) -> bool {
        let n = self.backend.devices@.len() as int;
        let waited = self.backend.erasers_given_up(at.now);
        &&& after.backend.devices@ == self.backend.tools_given_up(at.now)
        &&& after.backend == (BackendState { devices: after.backend.devices, ..self.backend })
        &&& areas == eraser_losses(self.backend.devices@, at.now, n) + silence_losses(
            waited,
            at.now,
            n,
        )
        &&& (ForcedStep { registry: after.registry@, tools: after.tools.tools@, out: reported })
            == (ForcedStep { registry: self.registry@, tools: self.tools.tools@, out }).erasers(
            self.backend.devices@,
            at,
            n,
        ).silences(waited, at, n)
        &&& after == (LibinputContext {
            backend: after.backend,
            registry: after.registry,
            tools: after.tools,
            ..self
        })
    }

    fn drop_tools(&mut self, at: FrameTime, out: &mut Vec<LibinputEvent>) -> (areas: Vec<DeviceId>)
        requires
            old(self).wf(),
        ensures
            final(self).wf(),
            old(self).tools_dropped(at, old(out)@, *final(self), final(out)@, areas@),
    {
        let ghost before = self.registry@;
        let areas = self.backend.emit_forced_tablet_proximity_out(
            &mut self.registry,
            &mut self.tools,
            at,
            out,
        );
        proof {
            assert forall|i: int| 0 <= i < self.registry@.len() implies (
            #[trigger] self.registry@[i]).id == i && self.registry@[i].seat < self.seats@.len()
                && self.registry@[i].group < self.groups@.len() by {
                assert(before[i].id == i);
            }
        }
        areas
    }

    /// Whether the steps after new events were read leave these behind: timers
    /// of touch devices run, contacts give way to tools that came near, silent
    /// tools leave, and devices that are gone are removed.
    pub open spec fn cycle_closed(
        self,
        dead: Seq<DeviceId>,
        at: FrameTime,
        out: Seq<LibinputEvent>,
        after: LibinputContext,
        reported: Seq<LibinputEvent>,
        end: CycleEnd,
    ) -> bool {
        exists|
            timed: LibinputContext,
            first: Seq<LibinputEvent>,
            yielded: LibinputContext,
            second: Seq<LibinputEvent>,
            dropped: LibinputContext,
            third: Seq<LibinputEvent>,
        |
            #![trigger self.timers_run(at, out, timed, first), yielded.tools_dropped(at, second, dropped, third, end.areas@)]
            {
                &&& self.timers_run(at, out, timed, first)
                &&& timed.gave_way_upto(
                    timed.backend.devices@.len() as int,
                    at,
                    first,
                    yielded,
                    second,
                )
                &&& yielded.tools_dropped(at, second, dropped, third, end.areas@)
                &&& dropped.devices_removed(
                    dead,
                    dead.len() as int,
                    at,
                    third,
                    after,
                    reported,
                    end.fds@,
                )
                &&& end.next == after.backend.deadline_upto(
                    at.now,
                    after.backend.devices@.len() as int,
                )
            }
    }

    /// Ends a cycle, after new events were read. `dead` lists the devices that
    /// could not be read any more.
    pub fn close_cycle(
        &mut self,
        dead: &Vec<DeviceId>,
        at: FrameTime,
        out: &mut Vec<LibinputEvent>,
    ) -> (end: CycleEnd)
        requires
            old(self).wf(),
        ensures
            final(self).wf(),
            old(self).cycle_closed(dead@, at, old(out)@, *final(self), final(out)@, end),
    {
        self.backend.end_cycle(&self.registry, &self.tools, at, out);
        let ghost timed = *self;
        let ghost first = out@;
        self.yield_touches(at, out);
        let ghost yielded = *self;
        let ghost second = out@;
        let areas = self.drop_tools(at, out);
        let ghost dropped = *self;
        let ghost third = out@;
        let fds = self.remove_devices(dead, at, out);
        let next = self.backend.next_timeout(at.now);
        let end = CycleEnd { areas, fds, next };
        assert(old(self).timers_run(at, old(out)@, timed, first));
        assert(yielded.tools_dropped(at, second, dropped, third, end.areas@));
        end
    }
}

} // verus!
