//! One open device: which of its parts an event belongs to.
use vstd::prelude::*;
use crate::backend::gestures::{finger_stops, FingerScroll};
use crate::backend::keyboard::{
    key_events_after, key_releases, keys_after_event, process_keyboard_event, release_keys, HeldKey,
};
use crate::backend::pad::{groups_after_event, PadState};
use crate::backend::pointer::{AbsolutePointer, PointerState};
use crate::backend::probe::{DeviceClass, KernelDevice};
use crate::backend::scroll::{emit_button_scroll_stops, stopped, ScrollState};
use crate::backend::start::Snapshot;
use crate::backend::tablet::{FrameTime, TabletFacts, TabletOutcome, TabletState};
use crate::backend::timers::{
    button_releases, click_released, drag_released, pad_releases, tap_released,
};
use crate::backend::tools::{tool_left, LibinputTabletTool, ToolSet, TOOL_TOTEM};
use crate::backend::touchpad::{FrameEnd, TouchState};
use crate::backend::wheel::WheelState;
use crate::clock::{within, within_spec, MILLISECOND};
use crate::codes::{
    InputEvent, BTN_LEFT, BTN_MIDDLE, BTN_RIGHT, EV_ABS, EV_KEY, EV_REL, EV_SYN,
    REL_HWHEEL_HI_RES, REL_WHEEL, REL_WHEEL_HI_RES, SYN_REPORT,
};
use crate::evtrans::{contains_code, is_button, is_button_code};
use crate::ffi_types::{
    AxisMix, DeviceId, EventPayload, LibinputDevice, LibinputEvent, TabletToolEvent,
};
use crate::quirks::apply::AppliedQuirks;

verus! {

/// Touchpads are ignored for this long after typing.
pub const TYPING_TIMEOUT: u64 = 500 * MILLISECOND;

/// What sets how a device's events are read.
#[derive(Clone, Copy, Debug, PartialEq, Eq, Structural)]
pub struct DeviceKind {
    pub is_absolute: bool,
    pub is_absolute_pointer: bool,
    pub is_keyboard: bool,
    pub is_pointer: bool,
    pub is_topbuttonpad: bool,
    pub is_pointing_stick: bool,
}

/// An open device. Its parts are those of every kind of device; only those of
/// its own kinds are ever used.
pub struct TrackedDevice {
    pub device: DeviceId,
    pub fd: i32,
    pub path: String,
    pub kind: DeviceKind,
    pub held_keys: Vec<HeldKey>,
    pub pointer: PointerState,
    pub absolute: AbsolutePointer,
    pub touch: TouchState,
    pub tablet: TabletState,
    pub pad: PadState,
    /// What quirks came to when the device was opened.
    pub applied: AppliedQuirks,
}

/// Where an event goes.
#[derive(Clone, Copy, Debug, PartialEq, Eq, Structural)]
pub enum Route {
    /// The device is switched off, or the event means nothing.
    Nowhere,
    /// The upper buttons of a touchpad that is switched off.
    TopButtons,
    Pad,
    Tablet,
    Keyboard,
    AbsolutePointer,
    Relative,
    Absolute,
}

/// What is known outside the device when an event comes: the pointing stick
/// that a touchpad's upper buttons belong to, the last typing, whether a
/// tablet tool has taken touch over, and what a tablet's frame needs.
#[derive(Clone, Copy, Debug, PartialEq, Eq)]
pub struct Environment {
    pub stick: Option<DeviceId>,
    pub typing: Option<u64>,
    pub arbitrated: bool,
    pub facts: TabletFacts,
}

/// What an event leaves for the caller to do.
#[derive(Clone, Copy, Debug, PartialEq, Eq, Structural)]
pub enum Progress {
    Done,
    /// A key was pressed.
    Typed,
    Tablet(TabletOutcome),
    /// The event may have ended a touch frame.
    Frame(FrameEnd),
}

pub open spec fn is_tablet_tool(dev: LibinputDevice) -> bool {
    dev.has_tablet && !dev.has_touch && !dev.has_gesture && !dev.has_tablet_pad
}

impl DeviceKind {
    /// Where an event goes. A device that is both keyboard and pointer has its
    /// keys and its buttons told apart by their codes.
    pub open spec fn route_spec(self, dev: LibinputDevice, ev: InputEvent) -> Route {
        if dev.send_events_mode == 1 {
            if self.is_topbuttonpad {
                Route::TopButtons
            } else {
                Route::Nowhere
            }
        } else if dev.has_tablet_pad {
            Route::Pad
        } else if is_tablet_tool(dev) {
            Route::Tablet
        } else if self.is_keyboard && self.is_pointer && ev.kind == EV_KEY && !is_button(ev.code) {
            Route::Keyboard
        } else if self.is_absolute_pointer {
            Route::AbsolutePointer
        } else if self.is_keyboard && !self.is_absolute && !self.is_pointer {
            Route::Keyboard
        } else if !self.is_absolute && self.is_pointer {
            Route::Relative
        } else if self.is_absolute {
            Route::Absolute
        } else {
            Route::Nowhere
        }
    }

    pub fn route(&self, dev: &LibinputDevice, ev: &InputEvent) -> (route: Route)
        ensures
            route == self.route_spec(*dev, *ev),
    {
        if dev.send_events_mode == 1 {
            if self.is_topbuttonpad {
                Route::TopButtons
            } else {
                Route::Nowhere
            }
        } else if dev.has_tablet_pad {
            Route::Pad
        } else if dev.has_tablet && !dev.has_touch && !dev.has_gesture {
            Route::Tablet
        } else if self.is_keyboard && self.is_pointer && ev.kind == EV_KEY && !is_button_code(
            ev.code,
        ) {
            Route::Keyboard
        } else if self.is_absolute_pointer {
            Route::AbsolutePointer
        } else if self.is_keyboard && !self.is_absolute && !self.is_pointer {
            Route::Keyboard
        } else if !self.is_absolute && self.is_pointer {
            Route::Relative
        } else if self.is_absolute {
            Route::Absolute
        } else {
            Route::Nowhere
        }
    }
}

/// A device that is switched off reports nothing, but for the upper buttons of
/// a touchpad that serve a pointing stick.
pub proof fn law_disabled_devices_are_silent(kind: DeviceKind, dev: LibinputDevice, ev: InputEvent)
    requires
        dev.send_events_mode == 1,
    ensures
        kind.route_spec(dev, ev) == Route::Nowhere || (kind.is_topbuttonpad && kind.route_spec(
            dev,
            ev,
        ) == Route::TopButtons),
{
}

/// On a device that is keyboard and pointer in one, keys never reach the
/// pointer and buttons never reach the keyboard.
pub proof fn law_mixed_devices_keep_keys_and_buttons_apart(
    kind: DeviceKind,
    dev: LibinputDevice,
    ev: InputEvent,
)
    requires
        kind.is_keyboard && kind.is_pointer,
        dev.send_events_mode != 1,
        !dev.has_tablet_pad && !is_tablet_tool(dev),
        ev.kind == EV_KEY,
    ensures
        kind.route_spec(dev, ev) == Route::Keyboard <==> !is_button(ev.code),
{
}

// ---------------------------------------------------------------------------
// Tablets and their devices
// ---------------------------------------------------------------------------
/// The last event of a tablet tool among those after the first `before`.
pub open spec fn tool_seen(
    out: Seq<LibinputEvent>,
    before: int,
    known: Option<TabletToolEvent>,
) -> Option<TabletToolEvent> {
    if out.len() > before {
        match out.last().payload {
            EventPayload::TabletTool(event) => Some(event),
            _ => known,
        }
    } else {
        known
    }
}

/// A device after its tablet reported: whether a tool is near, and how it was
/// last seen.
pub open spec fn seen_tool(
    dev: LibinputDevice,
    tablet: TabletState,
    out: Seq<LibinputEvent>,
    before: int,
) -> LibinputDevice {
    LibinputDevice {
        tablet_in_proximity: tablet.prox.in_proximity,
        tablet_current: tool_seen(out, before, dev.tablet_current),
        ..dev
    }
}

fn last_tool(
    out: &Vec<LibinputEvent>,
    before: usize,
    known: Option<TabletToolEvent>,
) -> (seen: Option<TabletToolEvent>)
    ensures
        seen == tool_seen(out@, before as int, known),
{
    let n: usize = out.len();
    if n > before {
        if let EventPayload::TabletTool(event) = out[n - 1].payload {
            return Some(event);
        }
    }
    known
}

fn set_seen(dev: &mut LibinputDevice, seen: Option<TabletToolEvent>)
    ensures
        *final(dev) == (LibinputDevice { tablet_current: seen, ..*old(dev) }),
{
    dev.tablet_current = seen;
}

pub(crate) fn note_tool(
    dev: &mut LibinputDevice,
    in_proximity: bool,
    out: &Vec<LibinputEvent>,
    before: usize,
)
    ensures
        *final(dev) == (LibinputDevice {
            tablet_in_proximity: in_proximity,
            tablet_current: tool_seen(out@, before as int, old(dev).tablet_current),
            ..*old(dev)
        }),
{
    let seen = last_tool(out, before, dev.tablet_current);
    dev.tablet_in_proximity = in_proximity;
    dev.tablet_current = seen;
}

// ---------------------------------------------------------------------------
// Events
// ---------------------------------------------------------------------------
/// Whether a touchpad's button is left to the emulation of a middle button.
pub open spec fn emulates_on_touchpad(dev: LibinputDevice, ev: InputEvent) -> bool {
    ev.kind == EV_KEY && dev.middle_emulation && dev.scroll_method != 4 && (ev.code == BTN_LEFT
        || ev.code == BTN_RIGHT || ev.code == BTN_MIDDLE)
}

impl TrackedDevice {
    pub open spec fn wf(self, tools: Seq<LibinputTabletTool>) -> bool {
        &&& self.pointer.wf()
        &&& self.touch.wf()
        &&& self.tablet.wf(tools)
    }

    pub open spec fn typing_recently(dev: LibinputDevice, env: Environment, now: u64) -> bool {
        dev.dwt_enabled && within_spec(now, env.typing, TYPING_TIMEOUT)
    }

    /// Whether the sums of the device have room for an event.
    pub open spec fn has_room(self, dev: LibinputDevice, ev: InputEvent, now: u64) -> bool {
        match self.kind.route_spec(dev, ev) {
            Route::Tablet => ev.kind == EV_REL && ev.code == REL_WHEEL ==> ev.value > i32::MIN,
            Route::AbsolutePointer => !self.absolute.takes(ev) ==> self.pointer.has_room(ev),
            Route::Relative => self.pointer.has_room(ev),
            Route::Absolute => if emulates_on_touchpad(dev, ev) {
                self.pointer.has_room(ev)
            } else {
                ev.kind == EV_ABS ==> self.touch.motion.has_room(now, ev.code, ev.value)
            },
            _ => true,
        }
    }

    /// Whether an event of a touchpad or touchscreen leaves these behind.
    #[verifier::opaque]
    pub open spec fn touched(
        self,
        dev: LibinputDevice,
        ev: InputEvent,
        at: FrameTime,
        env: Environment,
        out: Seq<LibinputEvent>,
        after: TrackedDevice,
        reported: Seq<LibinputEvent>,
        progress: Progress,
    ) -> bool {
        let typing = TrackedDevice::typing_recently(dev, env, at.now);
        if emulates_on_touchpad(dev, ev) {
            &&& after == (TrackedDevice {
                pointer: after.pointer,
                touch: self.touch.noticed(typing, env.arbitrated),
                ..self
            })
            &&& self.pointer.processed(
                dev,
                ev,
                at.time_usec,
                at.now,
                out,
                after.pointer,
                reported,
            )
            &&& progress == Progress::Done
        } else {
            &&& after == (TrackedDevice { touch: after.touch, ..self })
            &&& progress is Frame
            &&& self.touch.processed(
                dev,
                ev,
                env.stick,
                at.time_usec,
                at.now,
                dev.tap_enabled,
                typing,
                env.arbitrated,
                out,
                after.touch,
                reported,
                progress->Frame_0,
            )
        }
    }

    /// Whether an event of a pointer with positions leaves these behind.
    #[verifier::opaque]
    pub open spec fn pointed(
        self,
        dev: LibinputDevice,
        ev: InputEvent,
        at: FrameTime,
        out: Seq<LibinputEvent>,
        after: TrackedDevice,
        reported: Seq<LibinputEvent>,
    ) -> bool {
        if self.absolute.takes(ev) {
            &&& after == (TrackedDevice { absolute: self.absolute.after_event(ev), ..self })
            &&& reported == self.absolute.events_after(ev, dev.id, at.time_usec, out)
        } else {
            &&& after == (TrackedDevice { pointer: after.pointer, ..self })
            &&& self.pointer.processed(
                dev,
                ev,
                at.time_usec,
                at.now,
                out,
                after.pointer,
                reported,
            )
        }
    }

    /// Whether an event leaves these behind.
    pub open spec fn processed(
        self,
        dev: LibinputDevice,
        ev: InputEvent,
        at: FrameTime,
        env: Environment,
        tools: Seq<LibinputTabletTool>,
        out: Seq<LibinputEvent>,
        after: TrackedDevice,
        dev_after: LibinputDevice,
        tools_after: Seq<LibinputTabletTool>,
        reported: Seq<LibinputEvent>,
        progress: Progress,
    ) -> bool {
        match self.kind.route_spec(dev, ev) {
            Route::Nowhere => {
                &&& after == self
                &&& dev_after == dev
                &&& tools_after == tools
                &&& reported == out
                &&& progress == Progress::Done
            },
            Route::TopButtons => {
                let click = self.touch.top_click(ev, dev.id, env.stick, at.time_usec, out);
                &&& after == (TrackedDevice {
                    touch: TouchState {
                        motion: self.touch.top_motion(ev),
                        click: click.click,
                        ..self.touch
                    },
                    ..self
                })
                &&& dev_after == dev
                &&& tools_after == tools
                &&& reported == click.out
                &&& progress == Progress::Done
            },
            Route::Pad => {
                &&& after == (TrackedDevice { pad: self.pad.after_event(ev), ..self })
                &&& dev_after.tablet_pad_mode_groups@ == groups_after_event(dev, ev)
                &&& dev_after == (LibinputDevice {
                    tablet_pad_mode_groups: dev_after.tablet_pad_mode_groups,
                    ..dev
                })
                &&& tools_after == tools
                &&& reported == self.pad.events_after(ev, dev, at.time_usec, out)
                &&& progress == Progress::Done
            },
            Route::Tablet => {
                &&& after == (TrackedDevice { tablet: after.tablet, ..self })
                &&& progress is Tablet
                &&& self.tablet.processed(
                    ev,
                    tools,
                    dev,
                    env.facts,
                    at,
                    out,
                    after.tablet,
                    tools_after,
                    reported,
                    progress->Tablet_0,
                )
                &&& dev_after == seen_tool(dev, after.tablet, reported, out.len() as int)
            },
            Route::Keyboard => {
                &&& after.held_keys@ == keys_after_event(
                    self.held_keys@,
                    ev,
                    at.time_usec,
                    at.now,
                )
                &&& after == (TrackedDevice { held_keys: after.held_keys, ..self })
                &&& dev_after == dev
                &&& tools_after == tools
                &&& reported == key_events_after(ev, at.time_usec, dev.id, out)
                &&& progress == (if ev.kind == EV_KEY && ev.value == 1 {
                    Progress::Typed
                } else {
                    Progress::Done
                })
            },
            Route::AbsolutePointer => {
                &&& self.pointed(dev, ev, at, out, after, reported)
                &&& dev_after == dev
                &&& tools_after == tools
                &&& progress == Progress::Done
            },
            Route::Relative => {
                &&& after == (TrackedDevice { pointer: after.pointer, ..self })
                &&& self.pointer.processed(
                    dev,
                    ev,
                    at.time_usec,
                    at.now,
                    out,
                    after.pointer,
                    reported,
                )
                &&& dev_after == dev
                &&& tools_after == tools
                &&& progress == Progress::Done
            },
            Route::Absolute => {
                &&& self.touched(dev, ev, at, env, out, after, reported, progress)
                &&& dev_after == dev
                &&& tools_after == tools
            },
        }
    }

    fn process_touch(
        &mut self,
        dev: &LibinputDevice,
        ev: &InputEvent,
        at: FrameTime,
        env: &Environment,
        tools: Ghost<Seq<LibinputTabletTool>>,
        out: &mut Vec<LibinputEvent>,
    ) -> (progress: Progress)
        requires
            old(self).wf(tools@),
            emulates_on_touchpad(*dev, *ev) ==> old(self).pointer.has_room(*ev),
            !emulates_on_touchpad(*dev, *ev) && ev.kind == EV_ABS ==> old(
                self,
            ).touch.motion.has_room(at.now, ev.code, ev.value),
        ensures
            final(self).wf(tools@),
            final(self).device == old(self).device,
            final(self).fd == old(self).fd,
            old(self).touched(
                *dev,
                *ev,
                at,
                *env,
                old(out)@,
                *final(self),
                final(out)@,
                progress,
            ),
    {
        reveal(TrackedDevice::touched);
        let typing = dev.dwt_enabled && within(at.now, env.typing, TYPING_TIMEOUT);
        if ev.kind == EV_KEY && dev.middle_emulation && dev.scroll_method != 4 && (ev.code
            == BTN_LEFT || ev.code == BTN_RIGHT || ev.code == BTN_MIDDLE) {
            self.touch.notice(typing, env.arbitrated);
            self.pointer.process_relative_event(dev, ev, at.time_usec, at.now, out);
            return Progress::Done;
        }
        let end = self.touch.process_absolute_event(
            dev,
            ev,
            env.stick,
            at.time_usec,
            at.now,
            dev.tap_enabled,
            typing,
            env.arbitrated,
            out,
        );
        Progress::Frame(end)
    }

    fn process_position(
        &mut self,
        dev: &LibinputDevice,
        ev: &InputEvent,
        at: FrameTime,
        tools: Ghost<Seq<LibinputTabletTool>>,
        out: &mut Vec<LibinputEvent>,
    )
        requires
            old(self).wf(tools@),
            !old(self).absolute.takes(*ev) ==> old(self).pointer.has_room(*ev),
        ensures
            final(self).wf(tools@),
            final(self).device == old(self).device,
            final(self).fd == old(self).fd,
            old(self).pointed(*dev, *ev, at, old(out)@, *final(self), final(out)@),
    {
        reveal(TrackedDevice::pointed);
        if !self.absolute.process_absolute_pointer_event(dev.id, ev, at.time_usec, out) {
            self.pointer.process_relative_event(dev, ev, at.time_usec, at.now, out);
        }
    }

    /// Takes in one kernel event.
    pub fn process_event(
        &mut self,
        dev: &mut LibinputDevice,
        ev: &InputEvent,
        at: FrameTime,
        env: &Environment,
        tools: &mut ToolSet,
        out: &mut Vec<LibinputEvent>,
    ) -> (progress: Progress)
        requires
            old(tools).wf(),
            old(self).wf(old(tools).tools@),
            old(self).has_room(*old(dev), *ev, at.now),
        ensures
            final(tools).wf(),
            final(self).wf(final(tools).tools@),
            final(tools).tools@.len() >= old(tools).tools@.len(),
            final(self).device == old(self).device,
            final(self).fd == old(self).fd,
            final(dev).id == old(dev).id,
            final(dev).seat == old(dev).seat,
            final(dev).group == old(dev).group,
            old(self).processed(
                *old(dev),
                *ev,
                at,
                *env,
                old(tools).tools@,
                old(out)@,
                *final(self),
                *final(dev),
                final(tools).tools@,
                final(out)@,
                progress,
            ),
    {
        let route = self.kind.route(dev, ev);
        let ghost known = tools.tools@;
        match route {
            Route::Nowhere => Progress::Done,
            Route::TopButtons => {
                self.touch.process_disabled_topbutton_event(
                    dev.id,
                    ev,
                    env.stick,
                    at.time_usec,
                    out,
                );
                Progress::Done
            },
            Route::Pad => {
                self.pad.process_tablet_pad_event(ev, dev, at.time_usec, out);
                Progress::Done
            },
            Route::Tablet => {
                let before: usize = out.len();
                let outcome = self.tablet.process_tablet_tool_event(
                    ev,
                    tools,
                    dev,
                    env.facts,
                    at,
                    out,
                );
                note_tool(dev, self.tablet.prox.in_proximity, out, before);
                Progress::Tablet(outcome)
            },
            Route::Keyboard => {
                if process_keyboard_event(
                    &mut self.held_keys,
                    ev,
                    at.time_usec,
                    at.now,
                    dev.id,
                    out,
                ) {
                    Progress::Typed
                } else {
                    Progress::Done
                }
            },
            Route::AbsolutePointer => {
                self.process_position(dev, ev, at, Ghost(known), out);
                Progress::Done
            },
            Route::Relative => {
                self.pointer.process_relative_event(dev, ev, at.time_usec, at.now, out);
                Progress::Done
            },
            Route::Absolute => self.process_touch(dev, ev, at, env, Ghost(known), out),
        }
    }
}

// ---------------------------------------------------------------------------
// Releasing
// ---------------------------------------------------------------------------
impl TrackedDevice {
    /// The events that release everything a device holds but its contacts:
    /// keys, buttons, clicks, taps, drags and a tablet's tool.
    #[verifier::opaque]
    pub open spec fn release_events(
        self,
        tools: Seq<LibinputTabletTool>,
        time_usec: u64,
        out: Seq<LibinputEvent>,
    ) -> Seq<LibinputEvent> {
        let id = self.device;
        let out = key_releases(self.held_keys@, time_usec, id, out);
        let out = button_releases(self.pointer.buttons.held_buttons@, id, time_usec, out);
        let out = pad_releases(
            self.touch.click,
            self.touch.tap,
            self.touch.drag,
            id,
            time_usec,
            out,
        );
        self.tablet.release_events(tools, id, time_usec, out)
    }

    /// A touch device once its buttons were released.
    pub open spec fn buttons_released(touch: TouchState) -> TouchState {
        TouchState {
            click: click_released(touch.click),
            tap: tap_released(touch.tap),
            drag: drag_released(touch.drag),
            ..touch
        }
    }

    fn release_held(
        &mut self,
        tools: &mut ToolSet,
        time_usec: u64,
        out: &mut Vec<LibinputEvent>,
    )
        requires
            old(tools).wf(),
            old(self).wf(old(tools).tools@),
        ensures
            final(tools).wf(),
            final(self).wf(final(tools).tools@),
            final(tools).tools.len() == old(tools).tools.len(),
            final(tools).tools@ == (match old(self).tablet.prox.tool {
                Some(tool) => old(tools).tools@.update(
                    tool as int,
                    tool_left(old(tools).tools@[tool as int]),
                ),
                None => old(tools).tools@,
            }),
            final(out)@ == old(self).release_events(old(tools).tools@, time_usec, old(out)@),
            final(self).held_keys@.len() == 0,
            final(self).pointer.buttons.held_buttons@.len() == 0,
            *final(self) == (TrackedDevice {
                held_keys: final(self).held_keys,
                pointer: final(self).pointer,
                touch: TrackedDevice::buttons_released(old(self).touch),
                tablet: old(self).tablet.released(final(self).tablet.held_buttons),
                ..*old(self)
            }),
            old(self).tablet.prox.tool is Some ==> final(self).tablet.held_buttons@.len() == 0,
            final(self).pointer == (PointerState {
                buttons: final(self).pointer.buttons,
                ..old(self).pointer
            }),
            final(self).pointer.buttons.middle == old(self).pointer.buttons.middle,
            final(self).pointer.buttons.left_handed_applied == old(
                self,
            ).pointer.buttons.left_handed_applied,
    {
        reveal(TrackedDevice::release_events);
        let id: DeviceId = self.device;
        release_keys(&mut self.held_keys, time_usec, id, out);
        self.pointer.release_buttons(id, time_usec, out);
        self.touch.release_pad_buttons(id, time_usec, out);
        self.tablet.release(tools, id, time_usec, out);
    }

    /// A device once its tablet's tool, if there was one, was released.
    #[verifier::opaque]
    pub open spec fn tool_released(
        dev: LibinputDevice,
        had_tool: bool,
        released: Seq<LibinputEvent>,
    ) -> LibinputDevice {
        if had_tool {
            LibinputDevice { tablet_current: tool_seen(released, 0, dev.tablet_current), ..dev }
        } else {
            dev
        }
    }

    fn note_release(had_tool: bool, dev: &mut LibinputDevice, out: &Vec<LibinputEvent>)
        ensures
            *final(dev) == TrackedDevice::tool_released(*old(dev), had_tool, out@),
            final(dev).id == old(dev).id,
            final(dev).seat == old(dev).seat,
            final(dev).group == old(dev).group,
    {
        reveal(TrackedDevice::tool_released);
        if had_tool {
            let seen = last_tool(out, 0, dev.tablet_current);
            set_seen(dev, seen);
        }
    }

    /// Whether releasing everything leaves these behind.
    #[verifier::opaque]
    pub open spec fn fully_released(
        self,
        dev: LibinputDevice,
        tools: Seq<LibinputTabletTool>,
        time_usec: u64,
        arbitrated: bool,
        used: Seq<bool>,
        out: Seq<LibinputEvent>,
        after: TrackedDevice,
        dev_after: LibinputDevice,
        tools_after: Seq<LibinputTabletTool>,
        used_after: Seq<bool>,
        reported: Seq<LibinputEvent>,
    ) -> bool {
        let released = self.release_events(tools, time_usec, out);
        let touch = TrackedDevice::buttons_released(self.touch);
        &&& tools_after == (match self.tablet.prox.tool {
            Some(tool) => tools.update(tool as int, tool_left(tools[tool as int])),
            None => tools,
        })
        &&& dev_after == TrackedDevice::tool_released(
            dev,
            self.tablet.prox.tool is Some,
            released,
        )
        &&& touch.contacts_dropped(
            dev_after,
            time_usec,
            arbitrated,
            used,
            released,
            after.touch,
            used_after,
            reported,
        )
        &&& after.held_keys@.len() == 0
        &&& after.pointer.buttons.held_buttons@.len() == 0
        &&& after == (TrackedDevice {
            held_keys: after.held_keys,
            pointer: after.pointer,
            touch: after.touch,
            tablet: self.tablet.released(after.tablet.held_buttons),
            ..self
        })
        &&& self.tablet.prox.tool is Some ==> after.tablet.held_buttons@.len() == 0
        &&& after.pointer == (PointerState { buttons: after.pointer.buttons, ..self.pointer })
        &&& after.pointer.buttons.middle == self.pointer.buttons.middle
        &&& after.pointer.buttons.left_handed_applied == self.pointer.buttons.left_handed_applied
    }

    /// Releases everything that a device holds: keys, buttons, a tablet's tool
    /// and the contacts of a touchscreen.
    pub fn release_active_inputs(
        &mut self,
        dev: &mut LibinputDevice,
        tools: &mut ToolSet,
        time_usec: u64,
        arbitrated: bool,
        used: &mut Vec<bool>,
        out: &mut Vec<LibinputEvent>,
    )
        requires
            old(tools).wf(),
            old(self).wf(old(tools).tools@),
        ensures
            final(tools).wf(),
            final(self).wf(final(tools).tools@),
            final(tools).tools.len() == old(tools).tools.len(),
            final(self).device == old(self).device,
            final(self).fd == old(self).fd,
            final(dev).id == old(dev).id,
            final(dev).seat == old(dev).seat,
            final(dev).group == old(dev).group,
            old(self).fully_released(
                *old(dev),
                old(tools).tools@,
                time_usec,
                arbitrated,
                old(used)@,
                old(out)@,
                *final(self),
                *final(dev),
                final(tools).tools@,
                final(used)@,
                final(out)@,
            ),
    {
        reveal(TrackedDevice::fully_released);
        let had_tool = self.tablet.prox.tool.is_some();
        self.release_held(tools, time_usec, out);
        TrackedDevice::note_release(had_tool, dev, out);
        self.touch.release_contacts(dev, time_usec, arbitrated, used, out);
    }
}

// ---------------------------------------------------------------------------
// Ending scrolling
// ---------------------------------------------------------------------------
impl TrackedDevice {
    /// The device once no scrolling is under way.
    pub open spec fn scroll_stopped(self) -> TrackedDevice {
        TrackedDevice {
            pointer: PointerState { scroll: ScrollState::start_spec(), ..self.pointer },
            touch: TouchState {
                scroll: FingerScroll { vertical: false, horizontal: false },
                ..self.touch
            },
            ..self
        }
    }

    /// Ends the scrolling that is under way, with a button or with fingers.
    pub fn stop_scroll(&mut self, time_usec: u64, out: &mut Vec<LibinputEvent>)
        ensures
            *final(self) == old(self).scroll_stopped(),
            final(out)@ == finger_stops(
                old(self).touch.scroll,
                old(self).device,
                time_usec,
                stopped(old(out)@, old(self).device, time_usec, old(self).pointer.scroll),
            ),
    {
        emit_button_scroll_stops(self.device, time_usec, &self.pointer.scroll, out);
        self.touch.scroll.stop(self.device, time_usec, out);
        self.pointer.scroll = ScrollState::new();
        self.touch.scroll = FingerScroll { vertical: false, horizontal: false };
    }
}

// ---------------------------------------------------------------------------
// Opening
// ---------------------------------------------------------------------------
/// What quirks say of how a device is tracked.
#[derive(Clone, Copy, Debug, PartialEq, Eq, Structural)]
pub struct TrackingQuirks {
    pub no_hi_res_vertical: bool,
    pub no_hi_res_horizontal: bool,
    pub no_tilt: bool,
    pub is_virtual: bool,
    pub lenovo_scrollpoint: bool,
}

/// The fuzz that udev gives for contacts, if any.
#[derive(Clone, Copy, Debug, PartialEq, Eq)]
pub struct ContactFuzz {
    pub x: Option<i32>,
    pub y: Option<i32>,
}

impl DeviceKind {
    /// How a device's events are read. `class` is what it offers after quirks.
    pub open spec fn of(k: KernelDevice, class: DeviceClass, pointing_stick: bool) -> DeviceKind {
        DeviceKind {
            is_absolute: class.is_touchpad || class.has_touch || class.has_tablet || (
            class.is_pointer && k.has_abs_xy()),
            is_absolute_pointer: class.is_pointer && k.has_abs_xy() && !class.is_touchpad,
            is_keyboard: class.is_keyboard,
            is_pointer: class.is_pointer,
            is_topbuttonpad: k.props.topbuttonpad,
            is_pointing_stick: pointing_stick,
        }
    }

    pub fn new(k: &KernelDevice, class: &DeviceClass, pointing_stick: bool) -> (kind: DeviceKind)
        ensures
            kind == DeviceKind::of(*k, *class, pointing_stick),
    {
        let has_abs_xy = k.reports_abs_xy();
        DeviceKind {
            is_absolute: class.is_touchpad || class.has_touch || class.has_tablet || (
            class.is_pointer && has_abs_xy),
            is_absolute_pointer: class.is_pointer && has_abs_xy && !class.is_touchpad,
            is_keyboard: class.is_keyboard,
            is_pointer: class.is_pointer,
            is_topbuttonpad: k.props.topbuttonpad,
            is_pointing_stick: pointing_stick,
        }
    }
}

pub open spec fn hi_res_vertical(k: KernelDevice, quirks: TrackingQuirks) -> bool {
    k.relative@.contains(REL_WHEEL_HI_RES) && !quirks.no_hi_res_vertical
}

pub open spec fn hi_res_horizontal(k: KernelDevice, quirks: TrackingQuirks) -> bool {
    k.relative@.contains(REL_HWHEEL_HI_RES) && !quirks.no_hi_res_horizontal
}

impl TrackedDevice {
    /// Whether this is how a device is tracked that was just opened.
    #[verifier::opaque]
    pub open spec fn is_fresh(
        self,
        k: KernelDevice,
        s: Snapshot,
        class: DeviceClass,
        pointing_stick: bool,
        quirks: TrackingQuirks,
        fuzz: ContactFuzz,
        mix: AxisMix,
    ) -> bool {
        let vertical = hi_res_vertical(k, quirks);
        let horizontal = hi_res_horizontal(k, quirks);
        &&& self.kind == DeviceKind::of(k, class, pointing_stick)
        &&& self.held_keys@.len() == 0
        &&& self.pointer.is_start(
            WheelState {
                is_virtual: quirks.is_virtual,
                ..WheelState::start_spec(vertical, horizontal)
            },
            quirks.lenovo_scrollpoint,
        )
        &&& self.absolute == AbsolutePointer::start_spec(k)
        &&& self.touch.is_start(k, s, k.props.topbuttonpad, fuzz.x, fuzz.y)
        &&& self.tablet.is_start(k, s, class.has_tablet, quirks.no_tilt, mix)
        &&& self.pad == PadState::start_spec(k, vertical, horizontal)
    }

    /// Tracks a device that was just opened.
    pub fn new(
        device: DeviceId,
        fd: i32,
        path: String,
        k: &KernelDevice,
        s: &Snapshot,
        class: &DeviceClass,
        pointing_stick: bool,
        quirks: &TrackingQuirks,
        fuzz: ContactFuzz,
        mix: AxisMix,
        applied: AppliedQuirks,
    ) -> (t: TrackedDevice)
        ensures
            forall|tools: Seq<LibinputTabletTool>| #[trigger] t.wf(tools),
            t.device == device,
            t.fd == fd,
            t.path == path,
            t.applied == applied,
            t.is_fresh(*k, *s, *class, pointing_stick, *quirks, fuzz, mix),
    {
        reveal(TrackedDevice::is_fresh);
        let vertical = contains_code(&k.relative, REL_WHEEL_HI_RES) && !quirks.no_hi_res_vertical;
        let horizontal = contains_code(&k.relative, REL_HWHEEL_HI_RES)
            && !quirks.no_hi_res_horizontal;
        let fresh = PointerState::new(vertical, horizontal);
        let wheel = WheelState { is_virtual: quirks.is_virtual, ..fresh.wheel };
        let pointer = PointerState {
            wheel,
            is_lenovo_scrollpoint: quirks.lenovo_scrollpoint,
            ..fresh
        };
        TrackedDevice {
            device,
            fd,
            path,
            kind: DeviceKind::new(k, class, pointing_stick),
            held_keys: Vec::new(),
            pointer,
            absolute: AbsolutePointer::start(k),
            touch: TouchState::start(k, s, k.props.topbuttonpad, fuzz.x, fuzz.y),
            tablet: TabletState::start(k, s, class.has_tablet, quirks.no_tilt, mix),
            pad: PadState::start(k, vertical, horizontal),
            applied,
        }
    }

    /// Whether a device that was just opened has a totem on it, which is
    /// reported at once.
    pub open spec fn starts_with_totem(self) -> bool {
        self.tablet.identity.tool_type == TOOL_TOTEM && self.tablet.prox.pending == Some(true)
    }

    /// Whether reporting a totem leaves these behind.
    #[verifier::opaque]
    pub open spec fn totem_reported(
        self,
        dev: LibinputDevice,
        at: FrameTime,
        facts: TabletFacts,
        tools: Seq<LibinputTabletTool>,
        out: Seq<LibinputEvent>,
        after: TrackedDevice,
        dev_after: LibinputDevice,
        tools_after: Seq<LibinputTabletTool>,
        reported: Seq<LibinputEvent>,
        outcome: TabletOutcome,
    ) -> bool {
        &&& after == (TrackedDevice { tablet: after.tablet, ..self })
        &&& self.tablet.processed(
            InputEvent { kind: EV_SYN, code: SYN_REPORT, value: 0 },
            tools,
            dev,
            facts,
            at,
            out,
            after.tablet,
            tools_after,
            reported,
            outcome,
        )
        &&& dev_after == seen_tool(dev, after.tablet, reported, out.len() as int)
    }

    /// Reports a totem that was on the device when it was opened.
    pub fn report_totem(
        &mut self,
        dev: &mut LibinputDevice,
        at: FrameTime,
        facts: TabletFacts,
        tools: &mut ToolSet,
        out: &mut Vec<LibinputEvent>,
    ) -> (outcome: TabletOutcome)
        requires
            old(tools).wf(),
            old(self).wf(old(tools).tools@),
        ensures
            final(tools).wf(),
            final(self).wf(final(tools).tools@),
            final(tools).tools@.len() >= old(tools).tools@.len(),
            final(self).device == old(self).device,
            final(dev).id == old(dev).id,
            final(dev).seat == old(dev).seat,
            final(dev).group == old(dev).group,
            old(self).totem_reported(
                *old(dev),
                at,
                facts,
                old(tools).tools@,
                old(out)@,
                *final(self),
                *final(dev),
                final(tools).tools@,
                final(out)@,
                outcome,
            ),
    {
        reveal(TrackedDevice::totem_reported);
        let before: usize = out.len();
        let ev = InputEvent { kind: EV_SYN, code: SYN_REPORT, value: 0 };
        let outcome = self.tablet.process_tablet_tool_event(&ev, tools, dev, facts, at, out);
        note_tool(dev, self.tablet.prox.in_proximity, out, before);
        outcome
    }

    pub fn has_totem(&self) -> (has: bool)
        ensures
            has == self.starts_with_totem(),
    {
        self.tablet.identity.tool_type == TOOL_TOTEM && match self.tablet.prox.pending {
            Some(entering) => entering,
            None => false,
        }
    }
}

} // verus!
