//! Touch devices: contacts, buttons and the frames they make up.
use vstd::prelude::*;
use crate::backend::buttons::button_event_spec;
use crate::backend::gestures::{
    drag_fingers, drag_fingers_spec, finger_stops, hold_end, pinch_begin, pinch_end, push_pinch_end,
    push_swipe_begin, push_swipe_end, swipe_begin, swipe_end, ClickState, ClickStep, DragState,
    FingerScroll, HoldState, PinchState, SwipeState, TapState, TouchMotion,
};
use crate::backend::measure::{span_fits, spread_spec, spreads};
use crate::backend::slots::{
    active_slot_count, active_slots, any_active, any_active_spec, apply_to_slot, centroid_spec,
    classified, classify_gesture_contacts, eligible_slot_count, eligible_slots,
    finger_count_spec, gesture_centroid, gesture_finger_count, primary_span, slot_after,
    span_spec, button_top_spec, Centroid, MtSlot, MAX_SLOTS,
};
use crate::backend::tablet::FrameTime;
use crate::backend::touchscreen::{
    all_given_back, frame_reported, frame_slots, match_contacts, silenced, touch_frame, Arbitration,
    Contact,
};
use crate::clock::{passed, passed_spec, within, MILLISECOND, SECOND};
use crate::codes::{
    InputEvent, ABS_MT_POSITION_X, ABS_MT_POSITION_Y, ABS_MT_SLOT, ABS_MT_TRACKING_ID, ABS_X, ABS_Y,
    BTN_LEFT, BTN_TOOL_DOUBLETAP, BTN_TOOL_QUADTAP, BTN_TOOL_TRIPLETAP, BTN_TOUCH, EV_ABS, EV_KEY,
    EV_SYN, SYN_MT_REPORT, SYN_REPORT,
};
use crate::ffi_types::{
    DeviceId, EventPayload, LibinputDevice, LibinputEvent, LibinputEventType, MotionUnits,
    PinchGeometry, PointerMotionEvent, Span,
};

verus! {

/// How often an axis value out of range is worth a warning.
pub const RANGE_WARNING_INTERVAL: u64 = 300 * SECOND;

/// A finger that rested this long starts a new movement.
pub const MOVEMENT_TIMEOUT: u64 = 50 * MILLISECOND;

/// The contact that a device without slots is just describing.
#[derive(Clone, Copy, Debug, PartialEq, Eq, Structural)]
pub struct ContactReport {
    pub tracking_id: Option<i32>,
    pub x: Option<i32>,
    pub y: Option<i32>,
}

pub struct TouchState {
    pub slots: Vec<MtSlot>,
    pub current_slot: usize,
    pub contacts: Vec<Contact>,
    pub report: ContactReport,
    pub protocol_a: bool,
    pub has_mt: bool,
    pub x_fuzz: i32,
    pub y_fuzz: i32,
    pub is_topbuttonpad: bool,
    pub arbitration: Arbitration,
    pub tap: TapState,
    pub motion: TouchMotion,
    pub click: ClickState,
    pub hold: HoldState,
    pub drag: DragState,
    pub swipe: SwipeState,
    pub pinch: PinchState,
    pub scroll: FingerScroll,
    pub contacts_changed: bool,
    pub centroid: Option<Centroid>,
}

/// What the end of a frame asks the caller to do.
#[derive(Clone, Copy, Debug, PartialEq, Eq, Structural)]
pub enum FrameAction {
    /// Nothing.
    Nothing,
    /// Forget the fractions that earlier movement left over.
    ResetRemainders,
    /// Move the pointer by this many touchpad units.
    Motion { dx: i32, dy: i32 },
    /// Scroll by this many touchpad units.
    Scroll { dx: i32, dy: i32 },
}

impl TouchState {
    pub open spec fn wf(self) -> bool {
        &&& 0 < self.slots.len() <= MAX_SLOTS
        &&& self.current_slot < self.slots.len()
        &&& self.tap.fingers <= MAX_SLOTS
        &&& self.tap.tap_fingers <= 2 * MAX_SLOTS
        &&& self.centroid matches Some(c) ==> c.wf()
        &&& span_fits(self.pinch.base)
    }

    // -----------------------------------------------------------------------
    // Buttons
    // -----------------------------------------------------------------------
    /// The state once typing or a tablet tool was noticed: the touch is no
    /// tap any more, and under a tool it is ignored altogether.
    pub open spec fn noticed(self, dwt_active: bool, arbitrated: bool) -> TouchState {
        TouchState {
            tap: TapState {
                emitted: self.tap.emitted || dwt_active || arbitrated,
                ..self.tap
            },
            arbitration: Arbitration {
                suppressed: self.arbitration.suppressed || arbitrated,
                ..self.arbitration
            },
            ..self
        }
    }

    pub(crate) fn notice(&mut self, dwt_active: bool, arbitrated: bool)
        requires
            old(self).wf(),
        ensures
            final(self).wf(),
            *final(self) == old(self).noticed(dwt_active, arbitrated),
    {
        let tap = self.tap;
        let arbitration = self.arbitration;
        self.tap = TapState { emitted: tap.emitted || dwt_active || arbitrated, ..tap };
        self.arbitration = Arbitration {
            suppressed: arbitration.suppressed || arbitrated,
            ..arbitration
        };
    }

    /// A single-touch screen has its only contact in the first slot.
    pub open spec fn first_slot_touched(slots: Seq<MtSlot>, down: bool) -> Seq<MtSlot> {
        slots.update(
            0,
            MtSlot {
                active: down,
                dirty: true,
                tracking_id: if down {
                    0
                } else {
                    slots[0].tracking_id
                },
                ..slots[0]
            },
        )
    }

    /// The slots after the touch button changed.
    pub open spec fn touched_slots(self, dev: LibinputDevice, down: bool) -> Seq<MtSlot> {
        if dev.has_touch && !self.has_mt {
            TouchState::first_slot_touched(self.slots@, down)
        } else {
            self.slots@
        }
    }

    /// The first finger came down.
    pub open spec fn touch_started(self, now: u64, contacts: nat) -> TouchState {
        TouchState {
            tap: self.tap.touched(now, contacts, self.arbitration.suppressed),
            hold: if self.tap.continues_drag() {
                self.hold.blocked_now()
            } else {
                self.hold
            },
            motion: TouchMotion { last_x: None, last_y: None, ..self.motion },
            ..self
        }
    }

    /// Whether lifting the fingers is a tap that ends a drag.
    pub open spec fn tap_ends_drag(self, now: u64, enabled: bool) -> bool {
        self.drag.active && self.tap.is_tap(now, enabled) && self.tap.tap_fingers <= 3
    }

    /// The last finger came up.
    pub open spec fn touch_ended(self, now: u64, enabled: bool, dwt_active: bool) -> TouchState {
        TouchState {
            tap: self.tap.lifted(now, enabled, dwt_active || self.arbitration.suppressed),
            hold: self.hold.released(),
            pinch: PinchState { active: false, ..self.pinch },
            drag: if self.drag.lifts(self.tap_ends_drag(now, enabled)) {
                DragState { active: false, ..self.drag.dropped() }
            } else {
                self.drag
            },
            motion: TouchMotion { last_x: None, last_y: None, dx: 0, dy: 0, ..self.motion },
            ..self
        }
    }

    /// The events of the last finger coming up: an active hold and an active
    /// pinch end first, then a drag lets go, and a tap comes last.
    pub open spec fn touch_ended_events(
        self,
        device: DeviceId,
        time_usec: u64,
        now: u64,
        enabled: bool,
        dwt_active: bool,
        out: Seq<LibinputEvent>,
    ) -> Seq<LibinputEvent> {
        let out = if self.hold.active {
            out.push(hold_end(device, time_usec, self.hold.fingers, false))
        } else {
            out
        };
        let out = if self.pinch.active {
            out.push(
                pinch_end(
                    device,
                    time_usec,
                    self.pinch.fingers,
                    PinchGeometry { base: self.pinch.base, span: span_spec(self.slots@) },
                ),
            )
        } else {
            out
        };
        let out = if self.drag.lifts(self.tap_ends_drag(now, enabled)) {
            out.push(button_event_spec(device, time_usec, BTN_LEFT, false))
        } else {
            out
        };
        self.tap.lifted_events(
            device,
            time_usec,
            now,
            enabled,
            dwt_active || self.arbitration.suppressed,
            out,
        )
    }

    fn touch_slot(&mut self, dev: &LibinputDevice, down: bool)
        requires
            old(self).wf(),
        ensures
            final(self).wf(),
            final(self).slots@ == old(self).touched_slots(*dev, down),
            *final(self) == (TouchState { slots: final(self).slots, ..*old(self) }),
    {
        if dev.has_touch && !self.has_mt {
            let slot = self.slots[0];
            self.slots.set(
                0,
                MtSlot {
                    active: down,
                    dirty: true,
                    tracking_id: if down {
                        0
                    } else {
                        slot.tracking_id
                    },
                    ..slot
                },
            );
        }
    }

    fn start_touch(&mut self, now: u64)
        requires
            old(self).wf(),
        ensures
            final(self).wf(),
            *final(self) == old(self).touch_started(now, active_slots(old(self).slots@)),
    {
        let contacts: usize = active_slot_count(&self.slots);
        if self.tap.button_down.is_some() && self.tap.release_since.is_some() {
            self.hold = self.hold.block();
        }
        let motion = self.motion;
        self.tap = self.tap.touch(now, contacts, self.arbitration.suppressed);
        self.motion = TouchMotion { last_x: None, last_y: None, ..motion };
    }

    fn end_touch(
        &mut self,
        device: DeviceId,
        time_usec: u64,
        now: u64,
        enabled: bool,
        dwt_active: bool,
        out: &mut Vec<LibinputEvent>,
    )
        requires
            old(self).wf(),
        ensures
            final(self).wf(),
            *final(self) == old(self).touch_ended(now, enabled, dwt_active),
            final(out)@ == old(self).touch_ended_events(
                device,
                time_usec,
                now,
                enabled,
                dwt_active,
                old(out)@,
            ),
    {
        let tap = self.tap;
        let motion = self.motion;
        let pinch = self.pinch;
        self.hold = self.hold.release(device, time_usec, out);
        if pinch.active {
            let span = primary_span(&self.slots);
            push_pinch_end(
                device,
                time_usec,
                pinch.fingers,
                PinchGeometry { base: pinch.base, span },
                out,
            );
        }
        self.pinch = PinchState { active: false, ..pinch };
        let tap_ends_drag = self.drag.active && enabled && !tap.emitted && within(
            now,
            tap.start_time,
            crate::backend::gestures::TAP_TIMEOUT,
        ) && tap.tap_fingers <= 3;
        self.drag = self.drag.lift(tap_ends_drag, device, time_usec, out);
        self.tap = tap.lift(
            device,
            time_usec,
            now,
            enabled,
            dwt_active || self.arbitration.suppressed,
            out,
        );
        self.motion = TouchMotion { last_x: None, last_y: None, dx: 0, dy: 0, ..motion };
    }

    /// How many fingers a tool button announces when it goes down.
    pub open spec fn tool_fingers(code: u16) -> u32 {
        if code == BTN_TOOL_DOUBLETAP {
            2
        } else if code == BTN_TOOL_TRIPLETAP {
            3
        } else if code == BTN_TOOL_QUADTAP {
            4
        } else {
            0
        }
    }

    /// The state after a button of the touch device. Only the touch button
    /// of a single-touch screen changes a slot, which `slots` holds then.
    pub open spec fn keyed(
        self,
        slots: Vec<MtSlot>,
        dev: LibinputDevice,
        stick: Option<DeviceId>,
        time_usec: u64,
        now: u64,
        tap_enabled: bool,
        dwt_active: bool,
        code: u16,
        value: i32,
    ) -> TouchState {
        let s = TouchState { slots, ..self };
        if code == BTN_TOUCH {
            if value != 0 {
                s.touch_started(now, active_slots(slots@))
            } else {
                s.touch_ended(now, tap_enabled, dwt_active)
            }
        } else if TouchState::tool_fingers(code) != 0 {
            TouchState {
                tap: self.tap.sensed(
                    if value != 0 {
                        TouchState::tool_fingers(code)
                    } else {
                        (TouchState::tool_fingers(code) - 1) as u32
                    },
                ),
                contacts_changed: true,
                ..s
            }
        } else {
            TouchState {
                click: self.click.step(Seq::empty()).clicked(
                    self.motion.click_target(
                        self.tap.fingers,
                        self.is_topbuttonpad,
                        dev.id,
                        stick,
                    ),
                    dev.id,
                    time_usec,
                    code,
                    value,
                ).click,
                ..s
            }
        }
    }

    pub open spec fn keyed_events(
        self,
        slots: Vec<MtSlot>,
        dev: LibinputDevice,
        stick: Option<DeviceId>,
        time_usec: u64,
        now: u64,
        tap_enabled: bool,
        dwt_active: bool,
        code: u16,
        value: i32,
        out: Seq<LibinputEvent>,
    ) -> Seq<LibinputEvent> {
        if code == BTN_TOUCH {
            if value != 0 {
                out
            } else {
                (TouchState { slots, ..self }).touch_ended_events(
                    dev.id,
                    time_usec,
                    now,
                    tap_enabled,
                    dwt_active,
                    out,
                )
            }
        } else if TouchState::tool_fingers(code) != 0 {
            out
        } else {
            self.click.step(out).clicked(
                self.motion.click_target(self.tap.fingers, self.is_topbuttonpad, dev.id, stick),
                dev.id,
                time_usec,
                code,
                value,
            ).out
        }
    }

    fn process_key(
        &mut self,
        dev: &LibinputDevice,
        stick: Option<DeviceId>,
        time_usec: u64,
        now: u64,
        tap_enabled: bool,
        dwt_active: bool,
        code: u16,
        value: i32,
        out: &mut Vec<LibinputEvent>,
    )
        requires
            old(self).wf(),
        ensures
            final(self).wf(),
            final(self).slots@ == (if code == BTN_TOUCH {
                old(self).touched_slots(*dev, value != 0)
            } else {
                old(self).slots@
            }),
            *final(self) == old(self).keyed(
                final(self).slots,
                *dev,
                stick,
                time_usec,
                now,
                tap_enabled,
                dwt_active,
                code,
                value,
            ),
            final(out)@ == old(self).keyed_events(
                final(self).slots,
                *dev,
                stick,
                time_usec,
                now,
                tap_enabled,
                dwt_active,
                code,
                value,
                old(out)@,
            ),
    {
        if code == BTN_TOUCH {
            self.touch_slot(dev, value != 0);
            if value != 0 {
                proof {
                    crate::backend::slots::lemma_count_bound(
                        self.slots@,
                        self.slots@.len() as int,
                        |slot: MtSlot| slot.active,
                    );
                }
                self.start_touch(now);
            } else {
                self.end_touch(dev.id, time_usec, now, tap_enabled, dwt_active, out);
            }
            return;
        }
        let sensed: u32 = if code == BTN_TOOL_DOUBLETAP {
            2
        } else if code == BTN_TOOL_TRIPLETAP {
            3
        } else if code == BTN_TOOL_QUADTAP {
            4
        } else {
            0
        };
        if sensed != 0 {
            let fingers: u32 = if value != 0 {
                sensed
            } else {
                sensed - 1
            };
            self.tap = self.tap.sense(fingers);
            self.contacts_changed = true;
            return;
        }
        let motion = self.motion;
        self.click = self.click.press(
            &motion,
            self.tap.fingers,
            self.is_topbuttonpad,
            dev.id,
            stick,
            time_usec,
            code,
            value,
            out,
        );
    }

    // -----------------------------------------------------------------------
    // Axes
    // -----------------------------------------------------------------------
    /// Whether an axis code describes the contact of a device without slots.
    pub open spec fn describes_contact(code: u16) -> bool {
        code == ABS_MT_TRACKING_ID || code == ABS_MT_POSITION_X || code == ABS_MT_POSITION_Y
    }

    pub open spec fn reported(self, code: u16, value: i32) -> ContactReport {
        if code == ABS_MT_TRACKING_ID {
            ContactReport { tracking_id: Some(value), ..self.report }
        } else if code == ABS_MT_POSITION_X {
            ContactReport { x: Some(value), ..self.report }
        } else if code == ABS_MT_POSITION_Y {
            ContactReport { y: Some(value), ..self.report }
        } else {
            self.report
        }
    }

    /// The slots after one axis event: slot axes go to the current slot, and
    /// a single-touch screen keeps its position in the first one.
    pub open spec fn axis_slots(self, dev: LibinputDevice, code: u16, value: i32) -> Seq<MtSlot> {
        if self.protocol_a && TouchState::describes_contact(code) {
            self.slots@
        } else if code == ABS_X && dev.has_touch && !self.has_mt {
            self.slots@.update(0, MtSlot { x: value, dirty: true, ..self.slots@[0] })
        } else if code == ABS_Y && dev.has_touch && !self.has_mt {
            self.slots@.update(0, MtSlot { y: value, dirty: true, ..self.slots@[0] })
        } else {
            let k = self.current_slot as int;
            self.slots@.update(
                k,
                slot_after(
                    self.slots@[k],
                    code,
                    value,
                    self.x_fuzz,
                    self.y_fuzz,
                    self.arbitration.suppressed,
                ),
            )
        }
    }

    /// Everything but the slots after one axis event.
    pub open spec fn axis_moved(
        self,
        slots: Vec<MtSlot>,
        now: u64,
        code: u16,
        value: i32,
    ) -> TouchState {
        let s = TouchState {
            slots,
            report: self.reported(code, value),
            motion: self.motion.checked(now, code, value),
            ..self
        };
        if self.protocol_a && TouchState::describes_contact(code) {
            s
        } else if code == ABS_MT_SLOT {
            TouchState {
                current_slot: if 0 <= value < self.slots.len() {
                    value as usize
                } else {
                    self.current_slot
                },
                ..s
            }
        } else if code == ABS_MT_TRACKING_ID {
            TouchState {
                contacts_changed: self.contacts_changed
                    || self.slots@[self.current_slot as int].active != (value >= 0),
                ..s
            }
        } else {
            TouchState { motion: s.motion.followed(now, code, value), ..s }
        }
    }
}

impl TouchMotion {
    /// The range that a position should lie in.
    pub open spec fn range_of(self, code: u16) -> Option<(i32, i32)> {
        if code == ABS_X {
            self.x_range
        } else if code == ABS_Y {
            self.y_range
        } else {
            None
        }
    }

    /// A position out of its range is noted, now and then.
    pub open spec fn checked(self, now: u64, code: u16, value: i32) -> TouchMotion {
        match self.range_of(code) {
            Some((minimum, maximum)) => if (value < minimum || value > maximum) && (
            self.range_warning_at is None || passed_spec(
                now,
                self.range_warning_at,
                RANGE_WARNING_INTERVAL,
            )) {
                TouchMotion { range_warning_at: Some(now), ..self }
            } else {
                self
            },
            None => self,
        }
    }

    /// Whether the finger rested so long that a new movement begins.
    pub open spec fn stale(self, now: u64) -> bool {
        self.last_movement is Some && crate::clock::elapsed_spec(now, self.last_movement->0)
            > MOVEMENT_TIMEOUT
    }

    /// The distance that a new position adds on its axis.
    pub open spec fn advance(self, now: u64, last: Option<i32>, value: i32) -> int {
        if last is Some && !self.stale(now) {
            value - last->0
        } else {
            0
        }
    }

    /// The movement after a new position on one axis.
    pub open spec fn followed(self, now: u64, code: u16, value: i32) -> TouchMotion {
        if code == ABS_X {
            TouchMotion {
                dx: (self.dx + self.advance(now, self.last_x, value)) as i32,
                last_x: Some(value),
                last_movement: Some(now),
                ..self
            }
        } else if code == ABS_Y {
            TouchMotion {
                dy: (self.dy + self.advance(now, self.last_y, value)) as i32,
                last_y: Some(value),
                last_movement: Some(now),
                ..self
            }
        } else {
            self
        }
    }

    /// Whether the movement still fits its integers.
    pub open spec fn has_room(self, now: u64, code: u16, value: i32) -> bool {
        &&& code == ABS_X ==> i32::MIN <= self.dx + self.advance(now, self.last_x, value)
            <= i32::MAX
        &&& code == ABS_Y ==> i32::MIN <= self.dy + self.advance(now, self.last_y, value)
            <= i32::MAX
    }

    fn check(self, now: u64, code: u16, value: i32) -> (m: TouchMotion)
        ensures
            m == self.checked(now, code, value),
    {
        let range = if code == ABS_X {
            self.x_range
        } else if code == ABS_Y {
            self.y_range
        } else {
            None
        };
        if let Some((minimum, maximum)) = range {
            if (value < minimum || value > maximum) && (self.range_warning_at.is_none() || passed(
                now,
                self.range_warning_at,
                RANGE_WARNING_INTERVAL,
            )) {
                return TouchMotion { range_warning_at: Some(now), ..self };
            }
        }
        self
    }

    fn follow(self, now: u64, code: u16, value: i32) -> (m: TouchMotion)
        requires
            self.has_room(now, code, value),
        ensures
            m == self.followed(now, code, value),
    {
        let stale = match self.last_movement {
            Some(moment) => crate::clock::elapsed(now, moment) > MOVEMENT_TIMEOUT,
            None => false,
        };
        if code == ABS_X {
            let step: i64 = match self.last_x {
                Some(last) => if stale {
                    0
                } else {
                    value as i64 - last as i64
                },
                None => 0,
            };
            TouchMotion {
                dx: (self.dx as i64 + step) as i32,
                last_x: Some(value),
                last_movement: Some(now),
                ..self
            }
        } else if code == ABS_Y {
            let step: i64 = match self.last_y {
                Some(last) => if stale {
                    0
                } else {
                    value as i64 - last as i64
                },
                None => 0,
            };
            TouchMotion {
                dy: (self.dy as i64 + step) as i32,
                last_y: Some(value),
                last_movement: Some(now),
                ..self
            }
        } else {
            self
        }
    }
}

impl TouchState {
    fn describe_contact(&mut self, code: u16, value: i32)
        requires
            old(self).wf(),
        ensures
            final(self).wf(),
            *final(self) == (TouchState {
                report: old(self).reported(code, value),
                ..*old(self)
            }),
    {
        let report = self.report;
        if code == ABS_MT_TRACKING_ID {
            self.report = ContactReport { tracking_id: Some(value), ..report };
        } else if code == ABS_MT_POSITION_X {
            self.report = ContactReport { x: Some(value), ..report };
        } else if code == ABS_MT_POSITION_Y {
            self.report = ContactReport { y: Some(value), ..report };
        }
    }

    fn move_slots(&mut self, dev: &LibinputDevice, code: u16, value: i32)
        requires
            old(self).wf(),
        ensures
            final(self).wf(),
            final(self).slots@ == old(self).axis_slots(*dev, code, value),
            *final(self) == (TouchState { slots: final(self).slots, ..*old(self) }),
    {
        let contact = code == ABS_MT_TRACKING_ID || code == ABS_MT_POSITION_X || code
            == ABS_MT_POSITION_Y;
        if self.protocol_a && contact {
            return;
        }
        if code == ABS_X && dev.has_touch && !self.has_mt {
            let slot = self.slots[0];
            self.slots.set(0, MtSlot { x: value, dirty: true, ..slot });
        } else if code == ABS_Y && dev.has_touch && !self.has_mt {
            let slot = self.slots[0];
            self.slots.set(0, MtSlot { y: value, dirty: true, ..slot });
        } else {
            let slot = self.slots[self.current_slot];
            let moved = apply_to_slot(
                slot,
                code,
                value,
                self.x_fuzz,
                self.y_fuzz,
                self.arbitration.suppressed,
            );
            self.slots.set(self.current_slot, moved);
        }
    }

    fn process_axis(&mut self, dev: &LibinputDevice, now: u64, code: u16, value: i32)
        requires
            old(self).wf(),
            old(self).motion.has_room(now, code, value),
        ensures
            final(self).wf(),
            final(self).slots@ == old(self).axis_slots(*dev, code, value),
            *final(self) == old(self).axis_moved(final(self).slots, now, code, value),
    {
        let before = self.slots[self.current_slot];
        let motion = self.motion.check(now, code, value);
        self.motion = motion;
        self.describe_contact(code, value);
        self.move_slots(dev, code, value);
        if self.protocol_a && (code == ABS_MT_TRACKING_ID || code == ABS_MT_POSITION_X || code
            == ABS_MT_POSITION_Y) {
            return;
        }
        if code == ABS_MT_SLOT {
            if value >= 0 && (value as usize) < self.slots.len() {
                self.current_slot = value as usize;
            }
        } else if code == ABS_MT_TRACKING_ID {
            if before.active != (value >= 0) {
                self.contacts_changed = true;
            }
        } else {
            self.motion = motion.follow(now, code, value);
        }
    }

    /// The end of one contact of a device without slots.
    fn end_contact(&mut self)
        requires
            old(self).wf(),
        ensures
            final(self).wf(),
            final(self).contacts@ == (if old(self).report.x is Some && old(self).report.y is Some {
                old(self).contacts@.push(
                    Contact {
                        tracking_id: match old(self).report.tracking_id {
                            Some(id) => id,
                            None => (-1) as i32,
                        },
                        x: old(self).report.x->0,
                        y: old(self).report.y->0,
                    },
                )
            } else {
                old(self).contacts@
            }),
            *final(self) == (TouchState {
                contacts: final(self).contacts,
                protocol_a: true,
                report: ContactReport { tracking_id: None, x: None, y: None },
                ..*old(self)
            }),
    {
        self.protocol_a = true;
        let tracking_id: i32 = match self.report.tracking_id {
            Some(id) => id,
            None => -1,
        };
        if let (Some(x), Some(y)) = (self.report.x, self.report.y) {
            self.contacts.push(Contact { tracking_id, x, y });
        }
        self.report = ContactReport { tracking_id: None, x: None, y: None };
    }
}

// ---------------------------------------------------------------------------
// Touchpad frames
// ---------------------------------------------------------------------------
/// What a frame's decisions rest on: how far the fingers moved, how many
/// there are and how many a drag takes, how many contacts are active and how
/// many count towards gestures, and the vector between the first two.
#[derive(Clone, Copy, Debug, PartialEq, Eq, Structural)]
pub struct FrameFacts {
    pub dx: i32,
    pub dy: i32,
    pub fingers: i32,
    pub wanted: i32,
    pub active: usize,
    pub eligible: usize,
    pub span: Option<Span>,
}

pub open spec fn slot_ignored(slot: MtSlot) -> MtSlot {
    MtSlot {
        palm_suppressed: slot.active,
        reported: false,
        seat_slot: None,
        dirty: false,
        ..slot
    }
}

/// The event of a multi-finger drag that moved the pointer.
pub open spec fn drag_motion(device: DeviceId, time_usec: u64, dx: i32, dy: i32) -> LibinputEvent {
    LibinputEvent {
        event_type: LibinputEventType::LIBINPUT_EVENT_POINTER_MOTION,
        payload: EventPayload::PointerMotion(
            PointerMotionEvent {
                time_usec,
                dx: dx as i64,
                dy: dy as i64,
                dx_unaccel: dx as i64,
                dy_unaccel: dy as i64,
                units: MotionUnits::TouchpadDrag,
            },
        ),
        device,
    }
}

impl FrameFacts {
    pub open spec fn moved(self) -> bool {
        self.dx != 0 || self.dy != 0
    }
}

impl TouchState {
    /// Whether gestures leave out contacts in the software buttons.
    pub open spec fn button_areas(dev: LibinputDevice) -> bool {
        dev.click_method == 1
    }

    // --- under arbitration --------------------------------------------------
    /// A frame under a tablet tool: everything is dropped.
    pub open spec fn frame_ignored(self, slots: Vec<MtSlot>, arbitrated: bool) -> TouchState {
        TouchState {
            slots,
            tap: TapState { touching: any_active_spec(slots@), ..self.tap },
            motion: TouchMotion { dx: 0, dy: 0, ..self.motion },
            arbitration: self.arbitration.left(any_active_spec(slots@), arbitrated),
            ..self
        }
    }

    fn ignore_frame(&mut self, arbitrated: bool)
        requires
            old(self).wf(),
        ensures
            final(self).wf(),
            final(self).slots@ == Seq::new(
                old(self).slots@.len(),
                |i: int| slot_ignored(old(self).slots@[i]),
            ),
            *final(self) == old(self).frame_ignored(final(self).slots, arbitrated),
    {
        let ghost before = self.slots@;
        let mut i: usize = 0;
        while i < self.slots.len()
            invariant
                i <= self.slots.len(),
                self.slots@.len() == before.len(),
                before == old(self).slots@,
                *self == (TouchState { slots: self.slots, ..*old(self) }),
                forall|j: int| 0 <= j < i ==> #[trigger] self.slots@[j] == slot_ignored(before[j]),
                forall|j: int| i <= j < before.len() ==> #[trigger] self.slots@[j] == before[j],
            decreases self.slots.len() - i,
        {
            let slot = self.slots[i];
            self.slots.set(
                i,
                MtSlot {
                    palm_suppressed: slot.active,
                    reported: false,
                    seat_slot: None,
                    dirty: false,
                    ..slot
                },
            );
            i += 1;
        }
        let touching = any_active(&self.slots);
        let tap = self.tap;
        let motion = self.motion;
        let arbitration = self.arbitration;
        self.tap = TapState { touching, ..tap };
        self.motion = TouchMotion { dx: 0, dy: 0, ..motion };
        self.arbitration = Arbitration {
            suppressed: arbitration.suppressed && (touching || arbitrated),
            ..arbitration
        };
        assert(self.slots@ =~= Seq::new(
            old(self).slots@.len(),
            |j: int| slot_ignored(old(self).slots@[j]),
        ));
    }

    // --- a changed number of fingers ---------------------------------------
    /// Whether the new number of fingers starts a swipe at once: it is the
    /// number that a drag takes, and tapping, which would need a delay, is
    /// off.
    pub open spec fn swipe_starts(self, tap_enabled: bool, n: int, wanted: int) -> bool {
        wanted != 0 && n == wanted && !self.drag.button_down && !tap_enabled && !self.swipe.active
    }

    /// Whether the new number of fingers ends two-finger scrolling.
    pub open spec fn scroll_ends(n: int, eligible: nat) -> bool {
        n == 0 || n > 2 || eligible == 0
    }

    /// The state after the number of fingers changed.
    pub open spec fn fingers_changed(
        self,
        slots: Vec<MtSlot>,
        dev: LibinputDevice,
        time_usec: u64,
        now: u64,
    ) -> TouchState {
        let areas = TouchState::button_areas(dev);
        let n = finger_count_spec(slots@, areas, self.tap.fingers);
        let wanted = drag_fingers_spec(dev.drag_3fg_enabled);
        TouchState {
            slots,
            contacts_changed: false,
            tap: self.tap.recounted(n),
            drag: self.drag.recounted(time_usec, now, n, wanted),
            hold: (if self.drag.button_down {
                self.hold.blocked_now()
            } else {
                self.hold
            }).recounted(now, n),
            swipe: self.swipe.recounted(self.swipe_starts(dev.tap_enabled, n, wanted), n),
            scroll: if TouchState::scroll_ends(n, eligible_slots(slots@, areas)) {
                FingerScroll { vertical: false, horizontal: false }
            } else {
                self.scroll
            },
            motion: TouchMotion { dx: 0, dy: 0, ..self.motion },
            centroid: centroid_spec(slots@, areas),
            pinch: self.pinch.recounted(n, span_spec(slots@)),
            ..self
        }
    }

    pub open spec fn fingers_changed_events(
        self,
        slots: Seq<MtSlot>,
        dev: LibinputDevice,
        time_usec: u64,
        out: Seq<LibinputEvent>,
    ) -> Seq<LibinputEvent> {
        let areas = TouchState::button_areas(dev);
        let n = finger_count_spec(slots, areas, self.tap.fingers);
        let wanted = drag_fingers_spec(dev.drag_3fg_enabled);
        TouchState::recount_events(
            self.swipe,
            self.scroll,
            self.swipe_starts(dev.tap_enabled, n, wanted),
            TouchState::scroll_ends(n, eligible_slots(slots, areas)),
            n,
            dev.id,
            time_usec,
            out,
        )
    }

    /// The events of a changed number of fingers: a swipe begins, scrolling
    /// stops, a swipe ends.
    #[verifier::opaque]
    pub open spec fn recount_events(
        swipe: SwipeState,
        scroll: FingerScroll,
        starts: bool,
        scroll_ends: bool,
        n: int,
        device: DeviceId,
        time_usec: u64,
        out: Seq<LibinputEvent>,
    ) -> Seq<LibinputEvent> {
        let out = if starts {
            out.push(swipe_begin(device, time_usec, n as i32))
        } else {
            out
        };
        let out = if scroll_ends {
            finger_stops(scroll, device, time_usec, out)
        } else {
            out
        };
        if swipe.active && n < 3 {
            out.push(swipe_end(device, time_usec, swipe.fingers, false))
        } else {
            out
        }
    }

    fn push_recount(
        swipe: SwipeState,
        scroll: FingerScroll,
        starts: bool,
        scroll_ends: bool,
        n: i32,
        device: DeviceId,
        time_usec: u64,
        out: &mut Vec<LibinputEvent>,
    )
        ensures
            final(out)@ == TouchState::recount_events(
                swipe,
                scroll,
                starts,
                scroll_ends,
                n as int,
                device,
                time_usec,
                old(out)@,
            ),
    {
        reveal(TouchState::recount_events);
        if starts {
            push_swipe_begin(device, time_usec, n, out);
        }
        if scroll_ends {
            scroll.stop(device, time_usec, out);
        }
        if swipe.active && n < 3 {
            push_swipe_end(device, time_usec, swipe.fingers, false, out);
        }
    }

    fn change_fingers(
        &mut self,
        dev: &LibinputDevice,
        time_usec: u64,
        now: u64,
        out: &mut Vec<LibinputEvent>,
    )
        requires
            old(self).wf(),
        ensures
            final(self).wf(),
            final(self).slots@ == Seq::new(
                old(self).slots@.len(),
                |i: int|
                    classified(
                        old(self).slots@[i],
                        TouchState::button_areas(*dev),
                        button_top_spec(old(self).motion.y_range),
                    ),
            ),
            *final(self) == old(self).fingers_changed(final(self).slots, *dev, time_usec, now),
            final(out)@ == old(self).fingers_changed_events(
                final(self).slots@,
                *dev,
                time_usec,
                old(out)@,
            ),
    {
        let areas = dev.click_method == 1;
        classify_gesture_contacts(&mut self.slots, areas, self.motion.y_range);
        assert(self.slots@ =~= Seq::new(
            old(self).slots@.len(),
            |i: int|
                classified(
                    old(self).slots@[i],
                    TouchState::button_areas(*dev),
                    button_top_spec(old(self).motion.y_range),
                ),
        ));
        proof {
            crate::backend::slots::lemma_eligible_bound(
                self.slots@,
                self.slots@.len() as int,
                areas,
            );
            crate::backend::slots::lemma_count_bound(
                self.slots@,
                self.slots@.len() as int,
                |slot: MtSlot| slot.active,
            );
        }
        let n: i32 = gesture_finger_count(&self.slots, areas, self.tap.fingers) as i32;
        let eligible: usize = eligible_slot_count(&self.slots, areas);
        let wanted: i32 = drag_fingers(dev.drag_3fg_enabled);
        let starts = wanted != 0 && n == wanted && !self.drag.button_down && !dev.tap_enabled
            && !self.swipe.active;
        let scroll_ends = n == 0 || n > 2 || eligible == 0;
        TouchState::push_recount(
            self.swipe,
            self.scroll,
            starts,
            scroll_ends,
            n,
            dev.id,
            time_usec,
            out,
        );
        let tap = self.tap.recount(n);
        let swipe = self.swipe.recount(starts, n);
        let held = if self.drag.button_down {
            self.hold.block()
        } else {
            self.hold
        };
        let hold = held.recount(now, n);
        let drag = self.drag.recount(time_usec, now, n, wanted);
        let pinch = self.pinch.recount(n, primary_span(&self.slots));
        let motion = TouchMotion { dx: 0, dy: 0, ..self.motion };
        let centroid = gesture_centroid(&self.slots, areas);
        self.tap = tap;
        self.swipe = swipe;
        self.hold = hold;
        self.drag = drag;
        self.pinch = pinch;
        self.motion = motion;
        self.centroid = centroid;
        if scroll_ends {
            self.scroll = FingerScroll { vertical: false, horizontal: false };
        }
        self.contacts_changed = false;
    }
}

impl TouchState {
    // --- moving fingers -----------------------------------------------------
    /// How far the fingers moved: the centre of the contacts on devices that
    /// track several, the collected positions on others.
    pub open spec fn frame_distance(self, areas: bool) -> (i32, i32) {
        if !self.has_mt {
            (self.motion.dx, self.motion.dy)
        } else {
            match (centroid_spec(self.slots@, areas), self.centroid) {
                (Some(now), Some(before)) => now.shift_spec(before),
                _ => (0, 0),
            }
        }
    }

    pub open spec fn facts(self, dev: LibinputDevice) -> FrameFacts {
        let areas = TouchState::button_areas(dev);
        let distance = self.frame_distance(areas);
        FrameFacts {
            dx: distance.0,
            dy: distance.1,
            fingers: finger_count_spec(self.slots@, areas, self.tap.fingers) as i32,
            wanted: drag_fingers_spec(dev.drag_3fg_enabled) as i32,
            active: active_slots(self.slots@) as usize,
            eligible: eligible_slots(self.slots@, areas) as usize,
            span: span_spec(self.slots@),
        }
    }

    fn collect_facts(&self, dev: &LibinputDevice) -> (f: FrameFacts)
        requires
            self.wf(),
        ensures
            f == self.facts(*dev),
            f.span matches Some(span) ==> span_fits(span),
    {
        let areas = dev.click_method == 1;
        let moved: (i32, i32) = if !self.has_mt {
            (self.motion.dx, self.motion.dy)
        } else {
            match (gesture_centroid(&self.slots, areas), self.centroid) {
                (Some(now), Some(before)) => now.shift(before),
                _ => (0, 0),
            }
        };
        proof {
            crate::backend::slots::lemma_eligible_bound(
                self.slots@,
                self.slots@.len() as int,
                areas,
            );
            crate::backend::slots::lemma_count_bound(
                self.slots@,
                self.slots@.len() as int,
                |slot: MtSlot| slot.active,
            );
        }
        FrameFacts {
            dx: moved.0,
            dy: moved.1,
            fingers: gesture_finger_count(&self.slots, areas, self.tap.fingers) as i32,
            wanted: drag_fingers(dev.drag_3fg_enabled),
            active: active_slot_count(&self.slots),
            eligible: eligible_slot_count(&self.slots, areas),
            span: primary_span(&self.slots),
        }
    }

    /// Whether the first two contacts moved apart or together clearly more than
    /// along.
    pub open spec fn spread(self, f: FrameFacts) -> bool {
        f.span matches Some(span) && spread_spec(self.pinch.base, span, f.dx, f.dy)
    }

    /// Whether the fingers pinch: two of them are tracked, none is sensed
    /// beyond the tracked ones, and they moved apart or together more than
    /// along.
    pub open spec fn pinch_starts(self, f: FrameFacts, spread: bool) -> bool {
        &&& !self.pinch.active
        &&& !self.swipe.active
        &&& self.drag.candidate_since is None
        &&& f.eligible >= 2
        &&& self.tap.fingers <= f.active
        &&& f.fingers >= 2
        &&& self.pinch.measured()
        &&& f.span is Some
        &&& spread
    }

    /// The drag's part of a frame.
    pub open spec fn drag_carried(self, f: FrameFacts, time_usec: u64, now: u64) -> TouchState {
        let n = f.fingers as int;
        let starts_drag = self.drag.starts(time_usec, now, n, f.wanted as int);
        TouchState {
            drag: self.drag.carried(time_usec, now, n, f.wanted as int, f.moved()),
            swipe: self.swipe.taken_over(starts_drag, n),
            hold: if starts_drag {
                self.hold.blocked_now()
            } else {
                self.hold
            },
            motion: TouchMotion { dx: 0, dy: 0, ..self.motion },
            ..self
        }
    }

    /// The state after a frame in which the fingers could move freely.
    pub open spec fn fingers_moved(
        self,
        f: FrameFacts,
        spread: bool,
        time_usec: u64,
        now: u64,
    ) -> TouchState {
        let n = f.fingers as int;
        let s = self.drag_carried(f, time_usec, now);
        let still_tap = TapState { emitted: true, ..s.tap };
        if s.drag.active {
            TouchState { tap: still_tap, ..s }
        } else if s.pinch_starts(f, spread) {
            TouchState {
                hold: s.hold.moved(true),
                pinch: PinchState { active: true, fingers: f.fingers, ..s.pinch },
                ..s
            }
        } else if !f.moved() {
            s
        } else {
            TouchState {
                hold: s.hold.moved(n >= 2),
                tap: still_tap,
                swipe: s.swipe.swiped(n),
                ..s
            }
        }
    }

    pub open spec fn fingers_moved_events(
        self,
        f: FrameFacts,
        spread: bool,
        device: DeviceId,
        time_usec: u64,
        now: u64,
        out: Seq<LibinputEvent>,
    ) -> Seq<LibinputEvent> {
        let n = f.fingers as int;
        let s = self.drag_carried(f, time_usec, now);
        let out = self.drag.carried_events(
            self.swipe,
            device,
            time_usec,
            now,
            n,
            f.wanted as int,
            f.moved(),
            out,
        );
        if s.drag.active {
            if f.moved() {
                out.push(drag_motion(device, time_usec, f.dx, f.dy))
            } else {
                out
            }
        } else if s.pinch_starts(f, spread) {
            s.hold.moved_events(true, device, time_usec, out).push(
                pinch_begin(device, time_usec, f.fingers),
            )
        } else if !f.moved() {
            out
        } else {
            s.swipe.swiped_events(
                device,
                time_usec,
                n,
                f.dx,
                f.dy,
                s.hold.moved_events(n >= 2, device, time_usec, out),
            )
        }
    }

    /// What is left for the caller after such a frame: one finger moves the
    /// pointer, two scroll.
    pub open spec fn fingers_moved_action(
        self,
        f: FrameFacts,
        spread: bool,
        time_usec: u64,
        now: u64,
    ) -> FrameAction {
        let n = f.fingers as int;
        let s = self.drag_carried(f, time_usec, now);
        if s.drag.active || s.pinch_starts(f, spread) || !f.moved() || n >= 3 {
            FrameAction::Nothing
        } else if n == 2 {
            FrameAction::Scroll { dx: f.dx, dy: f.dy }
        } else {
            FrameAction::Motion { dx: f.dx, dy: f.dy }
        }
    }

    fn start_pinch(&mut self, f: &FrameFacts, device: DeviceId, time_usec: u64, out: &mut Vec<LibinputEvent>)
        requires
            old(self).wf(),
        ensures
            final(self).wf(),
            *final(self) == (TouchState {
                hold: old(self).hold.moved(true),
                pinch: PinchState { active: true, fingers: f.fingers, ..old(self).pinch },
                ..*old(self)
            }),
            final(out)@ == old(self).hold.moved_events(true, device, time_usec, old(out)@).push(
                pinch_begin(device, time_usec, f.fingers),
            ),
    {
        let pinch = self.pinch;
        self.hold = self.hold.after_motion(true, device, time_usec, out);
        self.pinch = PinchState { active: true, fingers: f.fingers, ..pinch };
        PinchState::push_begin(device, time_usec, f.fingers, out);
    }

    fn move_along(&mut self, f: &FrameFacts, device: DeviceId, time_usec: u64, out: &mut Vec<LibinputEvent>)
        requires
            old(self).wf(),
        ensures
            final(self).wf(),
            *final(self) == (TouchState {
                hold: old(self).hold.moved(f.fingers >= 2),
                tap: TapState { emitted: true, ..old(self).tap },
                swipe: old(self).swipe.swiped(f.fingers as int),
                ..*old(self)
            }),
            final(out)@ == old(self).swipe.swiped_events(
                device,
                time_usec,
                f.fingers as int,
                f.dx,
                f.dy,
                old(self).hold.moved_events(f.fingers >= 2, device, time_usec, old(out)@),
            ),
    {
        let tap = self.tap;
        self.hold = self.hold.after_motion(f.fingers >= 2, device, time_usec, out);
        self.swipe = self.swipe.swipe(device, time_usec, f.fingers, f.dx, f.dy, out);
        self.tap = TapState { emitted: true, ..tap };
    }

    fn carry_drag(
        &mut self,
        f: &FrameFacts,
        device: DeviceId,
        time_usec: u64,
        now: u64,
        out: &mut Vec<LibinputEvent>,
    )
        requires
            old(self).wf(),
        ensures
            final(self).wf(),
            *final(self) == old(self).drag_carried(*f, time_usec, now),
            final(out)@ == old(self).drag.carried_events(
                old(self).swipe,
                device,
                time_usec,
                now,
                f.fingers as int,
                f.wanted as int,
                f.moved(),
                old(out)@,
            ),
    {
        let moved = f.dx != 0 || f.dy != 0;
        let (drag, starts) = self.drag.carry(
            self.swipe,
            device,
            time_usec,
            now,
            f.fingers,
            f.wanted,
            moved,
            out,
        );
        let swipe = self.swipe.take_over(starts, f.fingers);
        let motion = TouchMotion { dx: 0, dy: 0, ..self.motion };
        if starts {
            self.hold = self.hold.block();
        }
        self.drag = drag;
        self.swipe = swipe;
        self.motion = motion;
    }

    fn move_fingers(
        &mut self,
        f: &FrameFacts,
        spread: bool,
        device: DeviceId,
        time_usec: u64,
        now: u64,
        out: &mut Vec<LibinputEvent>,
    ) -> (action: FrameAction)
        requires
            old(self).wf(),
        ensures
            final(self).wf(),
            *final(self) == old(self).fingers_moved(*f, spread, time_usec, now),
            final(out)@ == old(self).fingers_moved_events(
                *f,
                spread,
                device,
                time_usec,
                now,
                old(out)@,
            ),
            action == old(self).fingers_moved_action(*f, spread, time_usec, now),
    {
        let moved = f.dx != 0 || f.dy != 0;
        self.carry_drag(f, device, time_usec, now, out);
        if self.drag.active {
            let tap = self.tap;
            self.tap = TapState { emitted: true, ..tap };
            if moved {
                out.push(
                    LibinputEvent {
                        event_type: LibinputEventType::LIBINPUT_EVENT_POINTER_MOTION,
                        payload: EventPayload::PointerMotion(
                            PointerMotionEvent {
                                time_usec,
                                dx: f.dx as i64,
                                dy: f.dy as i64,
                                dx_unaccel: f.dx as i64,
                                dy_unaccel: f.dy as i64,
                                units: MotionUnits::TouchpadDrag,
                            },
                        ),
                        device,
                    },
                );
            }
            return FrameAction::Nothing;
        }
        let pinches = !self.pinch.active && !self.swipe.active
            && self.drag.candidate_since.is_none() && f.eligible >= 2 && self.tap.fingers as usize
            <= f.active && f.fingers >= 2 && (self.pinch.base.dx != 0 || self.pinch.base.dy != 0)
            && f.span.is_some() && spread;
        if pinches {
            self.start_pinch(f, device, time_usec, out);
            return FrameAction::Nothing;
        }
        if !moved {
            return FrameAction::Nothing;
        }
        self.move_along(f, device, time_usec, out);
        if f.fingers >= 3 {
            FrameAction::Nothing
        } else if f.fingers == 2 {
            FrameAction::Scroll { dx: f.dx, dy: f.dy }
        } else {
            FrameAction::Motion { dx: f.dx, dy: f.dy }
        }
    }
}

// ---------------------------------------------------------------------------
// Whole events
// ---------------------------------------------------------------------------
/// Which kind of frame an event ended, so that the caller can measure it and
/// finish it.
#[derive(Clone, Copy, Debug, PartialEq, Eq, Structural)]
pub enum FrameEnd {
    /// The frame goes on.
    Open,
    Touchscreen,
    Touchpad,
}

/// How a touchpad's frame is to be handled.
#[derive(Clone, Copy, Debug, PartialEq, Eq, Structural)]
pub enum FrameKind {
    Ignored,
    FingersChanged,
    Pinching,
    Typing,
    Moving,
}

impl TouchState {
    /// A frame under a tablet tool is ignored; a changed number of fingers
    /// only takes stock; a pinch goes on; typing drops movement; everything
    /// else moves.
    pub open spec fn frame_kind(self, dwt_active: bool) -> FrameKind {
        if self.arbitration.suppressed {
            FrameKind::Ignored
        } else if self.contacts_changed {
            FrameKind::FingersChanged
        } else if self.pinch.active && !dwt_active {
            FrameKind::Pinching
        } else if dwt_active {
            FrameKind::Typing
        } else {
            FrameKind::Moving
        }
    }

    /// The state with the centre of the contacts brought up to date.
    pub open spec fn recentred(self, dev: LibinputDevice) -> TouchState {
        TouchState {
            centroid: if self.has_mt {
                centroid_spec(self.slots@, TouchState::button_areas(dev))
            } else {
                self.centroid
            },
            ..self
        }
    }

    /// The state after a frame whose movement is dropped.
    pub open spec fn halted(self) -> TouchState {
        TouchState { motion: TouchMotion { dx: 0, dy: 0, ..self.motion }, ..self }
    }

    fn recentre(&mut self, dev: &LibinputDevice)
        requires
            old(self).wf(),
        ensures
            final(self).wf(),
            *final(self) == old(self).recentred(*dev),
    {
        if self.has_mt {
            let centroid = gesture_centroid(&self.slots, dev.click_method == 1);
            self.centroid = centroid;
        }
    }

    fn halt(&mut self)
        requires
            old(self).wf(),
        ensures
            final(self).wf(),
            *final(self) == old(self).halted(),
    {
        let motion = TouchMotion { dx: 0, dy: 0, ..self.motion };
        self.motion = motion;
    }

    /// Whether finishing a touchpad's frame leaves these behind.
    #[verifier::opaque]
    pub open spec fn pad_finished(
        self,
        dev: LibinputDevice,
        at: FrameTime,
        dwt_active: bool,
        arbitrated: bool,
        out: Seq<LibinputEvent>,
        after: TouchState,
        reported: Seq<LibinputEvent>,
        action: FrameAction,
    ) -> bool {
        match self.frame_kind(dwt_active) {
            FrameKind::Ignored => {
                &&& after.slots@ == Seq::new(
                    self.slots@.len(),
                    |i: int| slot_ignored(self.slots@[i]),
                )
                &&& after == self.frame_ignored(after.slots, arbitrated)
                &&& reported == out
                &&& action == FrameAction::ResetRemainders
            },
            FrameKind::FingersChanged => {
                &&& after.slots@ == Seq::new(
                    self.slots@.len(),
                    |i: int|
                        classified(
                            self.slots@[i],
                            TouchState::button_areas(dev),
                            button_top_spec(self.motion.y_range),
                        ),
                )
                &&& after == self.fingers_changed(after.slots, dev, at.time_usec, at.now)
                &&& reported == self.fingers_changed_events(
                    after.slots@,
                    dev,
                    at.time_usec,
                    out,
                )
                &&& action == FrameAction::ResetRemainders
            },
            FrameKind::Pinching => {
                &&& after == self.halted()
                &&& reported == self.pinch.updated_events(
                    dev.id,
                    at.time_usec,
                    span_spec(self.slots@),
                    out,
                )
                &&& action == FrameAction::Nothing
            },
            FrameKind::Typing => {
                &&& after == (TouchState {
                    tap: TapState { emitted: true, ..self.tap },
                    ..self.recentred(dev).halted()
                })
                &&& reported == out
                &&& action == FrameAction::ResetRemainders
            },
            FrameKind::Moving => {
                let f = self.facts(dev);
                let s = self.recentred(dev);
                let spread = s.spread(f);
                &&& after == s.fingers_moved(f, spread, at.time_usec, at.now)
                &&& reported == s.fingers_moved_events(
                    f,
                    spread,
                    dev.id,
                    at.time_usec,
                    at.now,
                    out,
                )
                &&& action == s.fingers_moved_action(f, spread, at.time_usec, at.now)
            },
        }
    }

    /// Finishes a touchpad's frame. The result says what is left to be done with
    /// the movement.
    pub fn finish_touchpad_frame(
        &mut self,
        dev: &LibinputDevice,
        at: FrameTime,
        dwt_active: bool,
        arbitrated: bool,
        out: &mut Vec<LibinputEvent>,
    ) -> (action: FrameAction)
        requires
            old(self).wf(),
        ensures
            final(self).wf(),
            old(self).pad_finished(
                *dev,
                at,
                dwt_active,
                arbitrated,
                old(out)@,
                *final(self),
                final(out)@,
                action,
            ),
    {
        reveal(TouchState::pad_finished);
        if self.arbitration.suppressed {
            self.ignore_frame(arbitrated);
            return FrameAction::ResetRemainders;
        }
        if self.contacts_changed {
            self.change_fingers(dev, at.time_usec, at.now, out);
            return FrameAction::ResetRemainders;
        }
        if self.pinch.active && !dwt_active {
            let span = primary_span(&self.slots);
            self.pinch.push_update(dev.id, at.time_usec, span, out);
            self.halt();
            return FrameAction::Nothing;
        }
        if dwt_active {
            self.recentre(dev);
            self.halt();
            let tap = TapState { emitted: true, ..self.tap };
            self.tap = tap;
            return FrameAction::ResetRemainders;
        }
        let f = self.collect_facts(dev);
        self.recentre(dev);
        let spread = match f.span {
            Some(span) => spreads(self.pinch.base, span, f.dx, f.dy),
            None => false,
        };
        self.move_fingers(&f, spread, dev.id, at.time_usec, at.now, out)
    }

    /// Reports the pointer movement that one finger came to: `emit_x` and
    /// `emit_y` whole pixels for `dx` and `dy` touchpad units.
    pub fn finish_motion(
        device: DeviceId,
        time_usec: u64,
        dx: i32,
        dy: i32,
        emit_x: i32,
        emit_y: i32,
        out: &mut Vec<LibinputEvent>,
    )
        ensures
            final(out)@ == (if emit_x != 0 || emit_y != 0 {
                old(out)@.push(
                    LibinputEvent {
                        event_type: LibinputEventType::LIBINPUT_EVENT_POINTER_MOTION,
                        payload: EventPayload::PointerMotion(
                            PointerMotionEvent {
                                time_usec,
                                dx: emit_x as i64,
                                dy: emit_y as i64,
                                dx_unaccel: dx as i64,
                                dy_unaccel: dy as i64,
                                units: MotionUnits::TouchpadFiltered,
                            },
                        ),
                        device,
                    },
                )
            } else {
                old(out)@
            }),
    {
        if emit_x != 0 || emit_y != 0 {
            out.push(
                LibinputEvent {
                    event_type: LibinputEventType::LIBINPUT_EVENT_POINTER_MOTION,
                    payload: EventPayload::PointerMotion(
                        PointerMotionEvent {
                            time_usec,
                            dx: emit_x as i64,
                            dy: emit_y as i64,
                            dx_unaccel: dx as i64,
                            dy_unaccel: dy as i64,
                            units: MotionUnits::TouchpadFiltered,
                        },
                    ),
                    device,
                },
            );
        }
    }

    /// Reports the scrolling that two fingers came to, in whole clicks.
    pub fn finish_scroll(
        &mut self,
        device: DeviceId,
        time_usec: u64,
        natural: bool,
        emit_x: i32,
        emit_y: i32,
        out: &mut Vec<LibinputEvent>,
    )
        requires
            old(self).wf(),
            emit_x > i32::MIN,
            emit_y > i32::MIN,
        ensures
            final(self).wf(),
            *final(self) == (TouchState {
                scroll: old(self).scroll.scrolled(emit_x, emit_y),
                ..*old(self)
            }),
            final(out)@ == FingerScroll::scroll_events(
                emit_x,
                emit_y,
                natural,
                device,
                time_usec,
                old(out)@,
            ),
    {
        self.scroll = self.scroll.scroll(emit_x, emit_y, natural, device, time_usec, out);
    }

    /// Whether finishing a touchscreen's frame leaves these behind.
    #[verifier::opaque]
    pub open spec fn screen_finished(
        self,
        device: DeviceId,
        time_usec: u64,
        tablet_active: bool,
        blocked: Seq<bool>,
        arbitrated: bool,
        used: Seq<bool>,
        out: Seq<LibinputEvent>,
        after: TouchState,
        used_after: Seq<bool>,
        reported: Seq<LibinputEvent>,
    ) -> bool {
        let entered = self.arbitration.entered(self.slots@, blocked, tablet_active);
        let frame = frame_reported(self.slots@, device, time_usec, used, out);
        let touching = any_active_spec(after.slots@);
        &&& after == (TouchState {
            slots: after.slots,
            arbitration: if entered.suppressed {
                entered.left(touching, arbitrated)
            } else {
                entered
            },
            tap: TapState { touching, ..self.tap },
            ..self
        })
        &&& entered.suppressed ==> {
            &&& after.slots@ == silenced(self.slots@)
            &&& used_after == all_given_back(self.slots@, used, self.slots@.len() as int)
            &&& reported == out
        }
        &&& !entered.suppressed ==> {
            &&& after.slots@ == frame.slots
            &&& used_after == frame.used
            &&& reported == frame.out
        }
    }

    /// Finishes a touchscreen's frame. `blocked` says for each slot whether a
    /// tablet tool claims its position.
    pub fn finish_touch_frame(
        &mut self,
        dev: &LibinputDevice,
        time_usec: u64,
        tablet_active: bool,
        blocked: &Vec<bool>,
        arbitrated: bool,
        used: &mut Vec<bool>,
        out: &mut Vec<LibinputEvent>,
    )
        requires
            old(self).wf(),
            blocked.len() == old(self).slots.len(),
            old(used).len() < 0x4000_0000,
        ensures
            final(self).wf(),
            old(self).screen_finished(
                dev.id,
                time_usec,
                tablet_active,
                blocked@,
                arbitrated,
                old(used)@,
                old(out)@,
                *final(self),
                final(used)@,
                final(out)@,
            ),
    {
        reveal(TouchState::screen_finished);
        let arbitration = self.arbitration;
        proof {
            crate::backend::touchscreen::lemma_frame_len(
                self.slots@,
                dev.id,
                time_usec,
                used@,
                out@,
                self.slots@.len() as int,
            );
        }
        let next = touch_frame(
            &mut self.slots,
            arbitration,
            dev.id,
            time_usec,
            tablet_active,
            blocked,
            arbitrated,
            used,
            out,
        );
        let touching = any_active(&self.slots);
        let tap = TapState { touching, ..self.tap };
        self.arbitration = next;
        self.tap = tap;
    }

    fn settle_contacts(&mut self)
        requires
            old(self).wf(),
        ensures
            final(self).wf(),
            final(self).slots@ == (if old(self).protocol_a {
                frame_slots(
                    old(self).slots@,
                    old(self).contacts@,
                    old(self).arbitration.suppressed,
                )
            } else {
                old(self).slots@
            }),
            final(self).contacts@ == (if old(self).protocol_a {
                Seq::empty()
            } else {
                old(self).contacts@
            }),
            *final(self) == (TouchState {
                slots: final(self).slots,
                contacts: final(self).contacts,
                ..*old(self)
            }),
    {
        if self.protocol_a {
            let suppressed = self.arbitration.suppressed;
            match_contacts(&mut self.slots, &self.contacts, suppressed);
            self.contacts = Vec::new();
        }
    }

    /// Whether one event leaves these behind.
    #[verifier::opaque]
    pub open spec fn processed(
        self,
        dev: LibinputDevice,
        ev: InputEvent,
        stick: Option<DeviceId>,
        time_usec: u64,
        now: u64,
        tap_enabled: bool,
        dwt_active: bool,
        arbitrated: bool,
        out: Seq<LibinputEvent>,
        after: TouchState,
        reported: Seq<LibinputEvent>,
        end: FrameEnd,
    ) -> bool {
        &&& (end == (if ev.kind != EV_SYN || ev.code != SYN_REPORT {
            FrameEnd::Open
        } else if dev.has_touch {
            FrameEnd::Touchscreen
        } else {
            FrameEnd::Touchpad
        }))
        &&& (({
            let s = self.noticed(dwt_active, arbitrated);
            &&& ev.kind == EV_KEY ==> {
                &&& after.slots@ == (if ev.code == BTN_TOUCH {
                    s.touched_slots(dev, ev.value != 0)
                } else {
                    s.slots@
                })
                &&& after == s.keyed(
                    after.slots,
                    dev,
                    stick,
                    time_usec,
                    now,
                    tap_enabled,
                    dwt_active,
                    ev.code,
                    ev.value,
                )
                &&& reported == s.keyed_events(
                    after.slots,
                    dev,
                    stick,
                    time_usec,
                    now,
                    tap_enabled,
                    dwt_active,
                    ev.code,
                    ev.value,
                    out,
                )
            }
            &&& ev.kind == EV_ABS ==> {
                &&& after.slots@ == s.axis_slots(dev, ev.code, ev.value)
                &&& after == s.axis_moved(after.slots, now, ev.code, ev.value)
            }
            &&& ev.kind == EV_SYN && ev.code == SYN_MT_REPORT ==> {
                &&& after.contacts@ == (if s.report.x is Some && s.report.y is Some {
                    s.contacts@.push(
                        Contact {
                            tracking_id: match s.report.tracking_id {
                                Some(id) => id,
                                None => (-1) as i32,
                            },
                            x: s.report.x->0,
                            y: s.report.y->0,
                        },
                    )
                } else {
                    s.contacts@
                })
                &&& after == (TouchState {
                    contacts: after.contacts,
                    protocol_a: true,
                    report: ContactReport { tracking_id: None, x: None, y: None },
                    ..s
                })
            }
            &&& end == FrameEnd::Touchscreen ==> {
                &&& after.slots@ == (if s.protocol_a {
                    frame_slots(s.slots@, s.contacts@, s.arbitration.suppressed)
                } else {
                    s.slots@
                })
                &&& after.contacts@ == (if s.protocol_a {
                    Seq::empty()
                } else {
                    s.contacts@
                })
                &&& after == (TouchState {
                    slots: after.slots,
                    contacts: after.contacts,
                    ..s
                })
            }
            &&& end == FrameEnd::Touchpad ==> after == s
            &&& end == FrameEnd::Open && ev.kind != EV_KEY && ev.kind != EV_ABS && !(ev.kind
                == EV_SYN && ev.code == SYN_MT_REPORT) ==> after == s
            &&& ev.kind != EV_KEY ==> reported == out
        }))
    }

    /// Processes one event of a touchpad or touchscreen up to the end of its
    /// frame; the result says which kind of frame is then to be finished. On
    /// a touchscreen the contacts of the frame are in their slots by then.
    pub fn process_absolute_event(
        &mut self,
        dev: &LibinputDevice,
        ev: &InputEvent,
        stick: Option<DeviceId>,
        time_usec: u64,
        now: u64,
        tap_enabled: bool,
        dwt_active: bool,
        arbitrated: bool,
        out: &mut Vec<LibinputEvent>,
    ) -> (end: FrameEnd)
        requires
            old(self).wf(),
            ev.kind == EV_ABS ==> old(self).motion.has_room(now, ev.code, ev.value),
        ensures
            final(self).wf(),
            old(self).processed(
                *dev,
                *ev,
                stick,
                time_usec,
                now,
                tap_enabled,
                dwt_active,
                arbitrated,
                old(out)@,
                *final(self),
                final(out)@,
                end,
            ),
    {
        reveal(TouchState::processed);
        self.notice(dwt_active, arbitrated);
        if ev.kind == EV_KEY {
            self.process_key(
                dev,
                stick,
                time_usec,
                now,
                tap_enabled,
                dwt_active,
                ev.code,
                ev.value,
                out,
            );
            return FrameEnd::Open;
        }
        if ev.kind == EV_ABS {
            self.process_axis(dev, now, ev.code, ev.value);
            return FrameEnd::Open;
        }
        if ev.kind != EV_SYN {
            return FrameEnd::Open;
        }
        if ev.code == SYN_MT_REPORT {
            self.end_contact();
            return FrameEnd::Open;
        }
        if ev.code != SYN_REPORT {
            return FrameEnd::Open;
        }
        if dev.has_touch {
            self.settle_contacts();
            return FrameEnd::Touchscreen;
        }
        FrameEnd::Touchpad
    }

    /// The click that an event of such a touchpad makes.
    pub open spec fn top_click(
        self,
        ev: InputEvent,
        device: DeviceId,
        stick: Option<DeviceId>,
        time_usec: u64,
        out: Seq<LibinputEvent>,
    ) -> ClickStep {
        if ev.kind == EV_KEY && ev.code == BTN_LEFT {
            self.click.step(out).top_clicked(self.motion, device, stick, time_usec, ev.value)
        } else {
            self.click.step(out)
        }
    }

    /// The position that an event of such a touchpad leaves.
    pub open spec fn top_motion(self, ev: InputEvent) -> TouchMotion {
        if ev.kind == EV_ABS && ev.code == ABS_X {
            TouchMotion { last_x: Some(ev.value), ..self.motion }
        } else if ev.kind == EV_ABS && ev.code == ABS_Y {
            TouchMotion { last_y: Some(ev.value), ..self.motion }
        } else {
            self.motion
        }
    }

    /// Processes one event of a touchpad that is switched off while its upper
    /// buttons serve a pointing stick.
    pub fn process_disabled_topbutton_event(
        &mut self,
        device: DeviceId,
        ev: &InputEvent,
        stick: Option<DeviceId>,
        time_usec: u64,
        out: &mut Vec<LibinputEvent>,
    )
        requires
            old(self).wf(),
        ensures
            final(self).wf(),
            *final(self) == (TouchState {
                motion: old(self).top_motion(*ev),
                click: old(self).top_click(*ev, device, stick, time_usec, old(out)@).click,
                ..*old(self)
            }),
            final(out)@ == old(self).top_click(*ev, device, stick, time_usec, old(out)@).out,
    {
        if ev.kind == EV_ABS {
            let motion = self.motion;
            if ev.code == ABS_X {
                self.motion = TouchMotion { last_x: Some(ev.value), ..motion };
            } else if ev.code == ABS_Y {
                self.motion = TouchMotion { last_y: Some(ev.value), ..motion };
            }
            return;
        }
        if ev.kind != EV_KEY || ev.code != BTN_LEFT {
            return;
        }
        let motion = self.motion;
        self.click = self.click.press_top(&motion, device, stick, time_usec, ev.value, out);
    }
}

} // verus!
