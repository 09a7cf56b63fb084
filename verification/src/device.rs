//! The companion's input devices: touchpads that it grabs and keyboards that
//! it only observes.
use vstd::prelude::*;
use crate::clock::{elapsed, elapsed_spec, within, within_spec, MILLISECOND};
use crate::codes::{
    InputEvent, ABS_X, ABS_Y, BTN_LEFT, BTN_MIDDLE, BTN_RIGHT, BTN_TOOL_DOUBLETAP,
    BTN_TOOL_TRIPLETAP, BTN_TOUCH, EV_ABS, EV_KEY, EV_REL, EV_SYN, REL_WHEEL, REL_X, REL_Y,
    SYN_REPORT,
};
use crate::config::InputConfig;
use crate::virtual_device::VirtualDevice;

verus! {

/// Touches that begin this soon after typing are ignored.
pub const DWT_TIMEOUT: u64 = 500 * MILLISECOND;

/// A touch that is shorter than this is a tap.
pub const TAP_TIMEOUT: u64 = 250 * MILLISECOND;

/// After a pause longer than this, movement starts afresh.
pub const STALL_TIMEOUT: u64 = 50 * MILLISECOND;

/// Whether a touch that begins now is ignored because of typing.
pub open spec fn suppresses(disable_while_typing: bool, since_typing: Option<u64>) -> bool {
    disable_while_typing && since_typing is Some && since_typing->0 < DWT_TIMEOUT
}

pub fn should_suppress_new_touch(
    disable_while_typing: bool,
    elapsed_since_typing: Option<u64>,
) -> (suppress: bool)
    ensures
        suppress == suppresses(disable_while_typing, elapsed_since_typing),
{
    match elapsed_since_typing {
        Some(span) => disable_while_typing && span < DWT_TIMEOUT,
        None => false,
    }
}

// ---------------------------------------------------------------------------
// Opening
// ---------------------------------------------------------------------------
/// What is done with a device that was found.
#[derive(Clone, Copy, Debug, PartialEq, Eq, Structural)]
pub enum Adoption {
    /// It is left alone.
    Ignore,
    /// It is a touchpad: it is grabbed, and its events are replaced.
    Grab,
    /// It is a keyboard: it is only observed.
    Observe,
}

/// What a device says of itself.
#[derive(Clone, Copy, Debug, PartialEq, Eq, Structural)]
pub struct Appearance {
    pub is_companion: bool,
    pub has_absolute: bool,
    pub has_keys: bool,
    pub has_touch_button: bool,
    pub has_letter_a: bool,
    pub is_pointer: bool,
    pub is_buttonpad: bool,
}

impl Appearance {
    pub open spec fn is_touchpad(self) -> bool {
        self.has_absolute && self.has_touch_button && (self.is_pointer || self.is_buttonpad)
    }

    pub open spec fn is_keyboard(self) -> bool {
        self.has_keys && self.has_letter_a
    }
}

/// What to do with a device. Nothing is grabbed, and nothing is opened at
/// all, before there is an output to write to.
pub fn adopt(sink_ready: bool, a: &Appearance) -> (adoption: Adoption)
    ensures
        adoption == (if !sink_ready || a.is_companion {
            Adoption::Ignore
        } else if a.is_touchpad() {
            Adoption::Grab
        } else if a.is_keyboard() {
            Adoption::Observe
        } else {
            Adoption::Ignore
        }),
        adoption == Adoption::Grab ==> sink_ready && !a.is_companion,
{
    if !sink_ready || a.is_companion {
        Adoption::Ignore
    } else if a.has_absolute && a.has_touch_button && (a.is_pointer || a.is_buttonpad) {
        Adoption::Grab
    } else if a.has_keys && a.has_letter_a {
        Adoption::Observe
    } else {
        Adoption::Ignore
    }
}

// ---------------------------------------------------------------------------
// State
// ---------------------------------------------------------------------------
#[derive(Clone, Copy, Debug, PartialEq, Eq, Structural)]
pub struct TouchTracking {
    pub active: bool,
    pub fingers: u32,
    pub start_time: Option<u64>,
    pub tap_emitted: bool,
    pub suppressed: bool,
}

#[derive(Clone, Copy, Debug, PartialEq, Eq, Structural)]
pub struct MotionTracking {
    pub last_x: Option<i32>,
    pub last_y: Option<i32>,
    pub dx: i32,
    pub dy: i32,
    pub last_movement: Option<u64>,
}

#[derive(Clone, Copy, Debug, PartialEq, Eq, Structural)]
pub struct DeviceWrapper {
    pub is_absolute: bool,
    pub is_keyboard: bool,
    pub touch: TouchTracking,
    pub motion: MotionTracking,
    pub active_click_button: Option<u16>,
    pub last_typing_time: Option<u64>,
}

/// What is left to be done at the end of a frame, once its movement has been
/// scaled.
#[derive(Clone, Copy, Debug, PartialEq, Eq, Structural)]
pub enum FrameWork {
    /// Nothing.
    Done,
    /// Forget the fractions that earlier movement left over.
    Forget,
    /// Scale `dx` and `dy` to pointer movement and call `finish_motion`.
    Move { dx: i32, dy: i32 },
    /// Scale `dy` to wheel clicks and call `finish_scroll`.
    Scroll { dy: i32 },
}

impl TouchTracking {
    pub open spec fn came_down(self, now: u64, dwt: bool) -> TouchTracking {
        TouchTracking {
            active: true,
            fingers: 1,
            start_time: Some(now),
            tap_emitted: dwt,
            suppressed: dwt,
        }
    }

    pub open spec fn went_up(self) -> TouchTracking {
        TouchTracking {
            active: false,
            fingers: 0,
            start_time: None,
            suppressed: false,
            ..self
        }
    }

    /// Whether lifting the finger now is a tap.
    pub open spec fn is_tap(self, tap_to_click: bool, now: u64) -> bool {
        tap_to_click && !self.tap_emitted && !self.suppressed && within_spec(
            now,
            self.start_time,
            TAP_TIMEOUT,
        )
    }

    /// How many fingers a key reports, or as many as before.
    pub open spec fn counted(self, code: u16, down: bool) -> TouchTracking {
        TouchTracking {
            fingers: if code == BTN_TOOL_DOUBLETAP {
                if down {
                    2
                } else {
                    1
                }
            } else if code == BTN_TOOL_TRIPLETAP {
                if down {
                    3
                } else {
                    2
                }
            } else {
                self.fingers
            },
            ..self
        }
    }
}

impl MotionTracking {
    pub open spec fn stopped(self) -> MotionTracking {
        MotionTracking { last_x: None, last_y: None, dx: 0, dy: 0, ..self }
    }

    pub open spec fn unplaced(self) -> MotionTracking {
        MotionTracking { last_x: None, last_y: None, ..self }
    }

    pub open spec fn is_position(code: u16) -> bool {
        code == ABS_X || code == ABS_Y
    }

    /// The state before a new position is taken in: after a pause the last
    /// one counts no more.
    pub open spec fn resumed(self, now: u64) -> MotionTracking {
        if self.last_movement is Some && elapsed_spec(now, self.last_movement->0) > STALL_TIMEOUT {
            MotionTracking { last_x: None, last_y: None, last_movement: Some(now), ..self }
        } else {
            MotionTracking { last_movement: Some(now), ..self }
        }
    }

    pub open spec fn step(last: Option<i32>, value: i32) -> int {
        match last {
            Some(last) => value - last,
            None => 0,
        }
    }

    pub open spec fn moved(self, now: u64, code: u16, value: i32) -> MotionTracking {
        let m = self.resumed(now);
        if code == ABS_X {
            MotionTracking {
                last_x: Some(value),
                dx: (m.dx + MotionTracking::step(m.last_x, value)) as i32,
                ..m
            }
        } else if code == ABS_Y {
            MotionTracking {
                last_y: Some(value),
                dy: (m.dy + MotionTracking::step(m.last_y, value)) as i32,
                ..m
            }
        } else {
            self
        }
    }

    /// Whether the sums have room for one more position.
    pub open spec fn has_room(self, now: u64, code: u16, value: i32) -> bool {
        let m = self.resumed(now);
        let step = MotionTracking::step(
            if code == ABS_X {
                m.last_x
            } else {
                m.last_y
            },
            value,
        );
        MotionTracking::is_position(code) ==> {
            &&& i32::MIN <= step <= i32::MAX
            &&& code == ABS_X ==> i32::MIN <= m.dx + step <= i32::MAX
            &&& code == ABS_Y ==> i32::MIN <= m.dy + step <= i32::MAX
        }
    }

    fn resume(self, now: u64) -> (m: MotionTracking)
        ensures
            m == self.resumed(now),
    {
        let stalled = match self.last_movement {
            Some(last) => elapsed(now, last) > STALL_TIMEOUT,
            None => false,
        };
        if stalled {
            MotionTracking { last_x: None, last_y: None, last_movement: Some(now), ..self }
        } else {
            MotionTracking { last_movement: Some(now), ..self }
        }
    }

    /// Whether there is room for a position.
    pub fn room_for(&self, now: u64, code: u16, value: i32) -> (room: bool)
        ensures
            room == self.has_room(now, code, value),
    {
        if code != ABS_X && code != ABS_Y {
            return true;
        }
        let m = self.resume(now);
        let (last, sum): (Option<i32>, i32) = if code == ABS_X {
            (m.last_x, m.dx)
        } else {
            (m.last_y, m.dy)
        };
        let step: i64 = match last {
            Some(last) => value as i64 - last as i64,
            None => 0,
        };
        let next: i64 = sum as i64 + step;
        i32::MIN as i64 <= step && step <= i32::MAX as i64 && i32::MIN as i64 <= next && next
            <= i32::MAX as i64
    }

    fn follow(self, now: u64, code: u16, value: i32) -> (m: MotionTracking)
        requires
            self.has_room(now, code, value),
        ensures
            m == self.moved(now, code, value),
    {
        if code == ABS_X {
            let m = self.resume(now);
            let step: i32 = match m.last_x {
                Some(last) => value - last,
                None => 0,
            };
            MotionTracking { last_x: Some(value), dx: m.dx + step, ..m }
        } else if code == ABS_Y {
            let m = self.resume(now);
            let step: i32 = match m.last_y {
                Some(last) => value - last,
                None => 0,
            };
            MotionTracking { last_y: Some(value), dy: m.dy + step, ..m }
        } else {
            self
        }
    }
}

// ---------------------------------------------------------------------------
// Events
// ---------------------------------------------------------------------------
pub open spec fn tap_events(out: Seq<InputEvent>) -> Seq<InputEvent> {
    out.push(InputEvent { kind: EV_KEY, code: BTN_LEFT, value: 1 }).push(
        InputEvent { kind: EV_SYN, code: SYN_REPORT, value: 0 },
    ).push(InputEvent { kind: EV_KEY, code: BTN_LEFT, value: 0 })
}

impl DeviceWrapper {
    pub fn new(is_absolute: bool, is_keyboard: bool) -> (d: DeviceWrapper)
        ensures
            d.is_absolute == is_absolute,
            d.is_keyboard == is_keyboard,
            !d.touch.active && d.touch.fingers == 0 && d.touch.start_time is None,
            !d.touch.tap_emitted && !d.touch.suppressed,
            d.motion == (MotionTracking {
                last_x: None,
                last_y: None,
                dx: 0,
                dy: 0,
                last_movement: None,
            }),
            d.active_click_button is None,
            d.last_typing_time is None,
    {
        DeviceWrapper {
            is_absolute,
            is_keyboard,
            touch: TouchTracking {
                active: false,
                fingers: 0,
                start_time: None,
                tap_emitted: false,
                suppressed: false,
            },
            motion: MotionTracking {
                last_x: None,
                last_y: None,
                dx: 0,
                dy: 0,
                last_movement: None,
            },
            active_click_button: None,
            last_typing_time: None,
        }
    }

    /// The state once typing was noticed: a touch that goes on is no tap any
    /// more.
    pub open spec fn noticed(self, dwt: bool) -> DeviceWrapper {
        if dwt && self.touch.active {
            DeviceWrapper { touch: TouchTracking { tap_emitted: true, ..self.touch }, ..self }
        } else {
            self
        }
    }

    /// What a physical click is reported as: one finger clicks left, two
    /// right, three middle, and a release releases what was pressed.
    pub open spec fn click_code(self, code: u16, value: i32) -> u16 {
        if code != BTN_LEFT {
            code
        } else if value != 0 {
            if self.touch.fingers == 2 {
                BTN_RIGHT
            } else if self.touch.fingers == 3 {
                BTN_MIDDLE
            } else {
                BTN_LEFT
            }
        } else {
            match self.active_click_button {
                Some(active) => active,
                None => BTN_LEFT,
            }
        }
    }

    pub open spec fn keyed(self, now: u64, dwt: bool, code: u16, value: i32) -> DeviceWrapper {
        if code == BTN_TOUCH {
            if value != 0 {
                DeviceWrapper {
                    touch: self.touch.came_down(now, dwt),
                    motion: self.motion.unplaced(),
                    ..self
                }
            } else {
                DeviceWrapper {
                    touch: self.touch.went_up(),
                    motion: self.motion.stopped(),
                    ..self
                }
            }
        } else if code == BTN_LEFT {
            DeviceWrapper {
                active_click_button: if value != 0 {
                    Some(self.click_code(code, value))
                } else {
                    None
                },
                ..self
            }
        } else {
            DeviceWrapper { touch: self.touch.counted(code, value != 0), ..self }
        }
    }

    pub open spec fn is_plain_button(code: u16) -> bool {
        code == BTN_LEFT || code == BTN_RIGHT || code == BTN_MIDDLE
    }

    pub open spec fn keyed_events(
        self,
        now: u64,
        tap_to_click: bool,
        code: u16,
        value: i32,
        out: Seq<InputEvent>,
    ) -> Seq<InputEvent> {
        let click = self.click_code(code, value);
        if code == BTN_TOUCH && value == 0 && self.touch.is_tap(tap_to_click, now) {
            tap_events(out)
        } else if DeviceWrapper::is_plain_button(click) {
            out.push(InputEvent { kind: EV_KEY, code: click, value })
        } else {
            out
        }
    }

    fn process_key(
        &mut self,
        now: u64,
        tap_to_click: bool,
        dwt: bool,
        code: u16,
        value: i32,
        out: &mut VirtualDevice,
    )
        ensures
            *final(self) == old(self).keyed(now, dwt, code, value),
            final(out).pending@ == old(self).keyed_events(
                now,
                tap_to_click,
                code,
                value,
                old(out).pending@,
            ),
            *final(out) == (VirtualDevice { pending: final(out).pending, ..*old(out) }),
    {
        let touch = self.touch;
        let motion = self.motion;
        if code == BTN_TOUCH {
            if value != 0 {
                self.touch = TouchTracking {
                    active: true,
                    fingers: 1,
                    start_time: Some(now),
                    tap_emitted: dwt,
                    suppressed: dwt,
                };
                self.motion = MotionTracking { last_x: None, last_y: None, ..motion };
            } else {
                if tap_to_click && !touch.tap_emitted && !touch.suppressed && within(
                    now,
                    touch.start_time,
                    TAP_TIMEOUT,
                ) {
                    out.emit_raw(InputEvent { kind: EV_KEY, code: BTN_LEFT, value: 1 });
                    out.emit_raw(InputEvent { kind: EV_SYN, code: SYN_REPORT, value: 0 });
                    out.emit_raw(InputEvent { kind: EV_KEY, code: BTN_LEFT, value: 0 });
                }
                self.touch = TouchTracking {
                    active: false,
                    fingers: 0,
                    start_time: None,
                    suppressed: false,
                    ..touch
                };
                self.motion = MotionTracking {
                    last_x: None,
                    last_y: None,
                    dx: 0,
                    dy: 0,
                    ..motion
                };
            }
            return;
        }
        let mut click: u16 = code;
        if code == BTN_LEFT {
            if value != 0 {
                if touch.fingers == 2 {
                    click = BTN_RIGHT;
                } else if touch.fingers == 3 {
                    click = BTN_MIDDLE;
                }
                self.active_click_button = Some(click);
            } else {
                if let Some(active) = self.active_click_button {
                    click = active;
                }
                self.active_click_button = None;
            }
        } else if code == BTN_TOOL_DOUBLETAP {
            let fingers: u32 = if value != 0 {
                2
            } else {
                1
            };
            self.touch = TouchTracking { fingers, ..touch };
        } else if code == BTN_TOOL_TRIPLETAP {
            let fingers: u32 = if value != 0 {
                3
            } else {
                2
            };
            self.touch = TouchTracking { fingers, ..touch };
        }
        if click == BTN_LEFT || click == BTN_RIGHT || click == BTN_MIDDLE {
            out.emit_raw(InputEvent { kind: EV_KEY, code: click, value });
        }
    }

    pub open spec fn has_movement(self) -> bool {
        self.motion.dx != 0 || self.motion.dy != 0
    }

    /// The state after a frame.
    pub open spec fn framed(self) -> DeviceWrapper {
        DeviceWrapper {
            touch: TouchTracking {
                tap_emitted: self.touch.tap_emitted || self.touch.suppressed
                    || self.has_movement(),
                ..self.touch
            },
            motion: MotionTracking { dx: 0, dy: 0, ..self.motion },
            ..self
        }
    }

    /// What is left to do with a frame: the movement of one finger is pointer
    /// movement, that of two fingers scrolling, and that of a touch which is
    /// ignored is dropped.
    pub open spec fn frame_work(self) -> FrameWork {
        if self.touch.suppressed {
            FrameWork::Forget
        } else if !self.has_movement() {
            FrameWork::Done
        } else if self.touch.fingers <= 1 {
            FrameWork::Move { dx: self.motion.dx, dy: self.motion.dy }
        } else if self.touch.fingers == 2 {
            FrameWork::Scroll { dy: self.motion.dy }
        } else {
            FrameWork::Done
        }
    }

    /// The frame is closed at once unless movement is still to be added. The
    /// frame of an ignored touch is closed only if it moved.
    pub open spec fn frame_closes(self) -> bool {
        match self.frame_work() {
            FrameWork::Done => true,
            FrameWork::Forget => self.has_movement(),
            _ => false,
        }
    }

    fn process_frame(&mut self, ev: &InputEvent, out: &mut VirtualDevice) -> (work: FrameWork)
        ensures
            *final(self) == old(self).framed(),
            work == old(self).frame_work(),
            final(out).pending@ == (if old(self).frame_closes() {
                old(out).pending@.push(*ev)
            } else {
                old(out).pending@
            }),
            *final(out) == (VirtualDevice { pending: final(out).pending, ..*old(out) }),
    {
        let touch = self.touch;
        let motion = self.motion;
        let moved = motion.dx != 0 || motion.dy != 0;
        self.touch = TouchTracking {
            tap_emitted: touch.tap_emitted || touch.suppressed || moved,
            ..touch
        };
        self.motion = MotionTracking { dx: 0, dy: 0, ..motion };
        if touch.suppressed {
            if moved {
                out.emit_raw(*ev);
            }
            return FrameWork::Forget;
        }
        if moved && touch.fingers <= 1 {
            return FrameWork::Move { dx: motion.dx, dy: motion.dy };
        }
        if moved && touch.fingers == 2 {
            return FrameWork::Scroll { dy: motion.dy };
        }
        out.emit_raw(*ev);
        FrameWork::Done
    }

    /// Takes in one event. Keyboards are only observed, and nothing of theirs
    /// is ever passed on; relative devices are passed on; touchpads become a
    /// pointer.
    pub fn process_event(
        &mut self,
        ev: &InputEvent,
        config: &InputConfig,
        last_global_typing_time: Option<u64>,
        now: u64,
        out: &mut VirtualDevice,
    ) -> (work: FrameWork)
        requires
            !old(self).is_keyboard && old(self).is_absolute && ev.kind == EV_ABS ==> old(
                self,
            ).motion.has_room(now, ev.code, ev.value),
        ensures
            *final(out) == (VirtualDevice { pending: final(out).pending, ..*old(out) }),
            ({
                let dwt = suppresses(
                    config.disable_while_typing,
                    match last_global_typing_time {
                        Some(since) => Some(elapsed_spec(now, since) as u64),
                        None => None,
                    },
                );
                let s = old(self).noticed(dwt);
                if old(self).is_keyboard {
                    &&& *final(self) == (DeviceWrapper {
                        last_typing_time: if ev.kind == EV_KEY && ev.value != 0 {
                            Some(now)
                        } else {
                            old(self).last_typing_time
                        },
                        ..*old(self)
                    })
                    &&& final(out).pending@ == old(out).pending@
                    &&& work == FrameWork::Done
                } else if !old(self).is_absolute {
                    &&& *final(self) == *old(self)
                    &&& final(out).pending@ == old(out).pending@.push(*ev)
                    &&& work == FrameWork::Done
                } else if ev.kind == EV_KEY {
                    &&& *final(self) == s.keyed(now, dwt, ev.code, ev.value)
                    &&& final(out).pending@ == s.keyed_events(
                        now,
                        config.tap_to_click,
                        ev.code,
                        ev.value,
                        old(out).pending@,
                    )
                    &&& work == FrameWork::Done
                } else if ev.kind == EV_ABS {
                    &&& *final(self) == (DeviceWrapper {
                        motion: s.motion.moved(now, ev.code, ev.value),
                        ..s
                    })
                    &&& final(out).pending@ == old(out).pending@
                    &&& work == FrameWork::Done
                } else if ev.kind == EV_SYN && ev.code == SYN_REPORT {
                    &&& *final(self) == s.framed()
                    &&& work == s.frame_work()
                    &&& final(out).pending@ == (if s.frame_closes() {
                        old(out).pending@.push(*ev)
                    } else {
                        old(out).pending@
                    })
                } else {
                    &&& *final(self) == s
                    &&& final(out).pending@ == (if ev.kind == EV_SYN {
                        old(out).pending@.push(*ev)
                    } else {
                        old(out).pending@
                    })
                    &&& work == FrameWork::Done
                }
            }),
    {
        if self.is_keyboard {
            if ev.kind == EV_KEY && ev.value != 0 {
                self.last_typing_time = Some(now);
            }
            return FrameWork::Done;
        }
        if !self.is_absolute {
            out.emit_raw(*ev);
            return FrameWork::Done;
        }
        let since: Option<u64> = match last_global_typing_time {
            Some(typed) => Some(elapsed(now, typed)),
            None => None,
        };
        let dwt = should_suppress_new_touch(config.disable_while_typing, since);
        let touch = self.touch;
        if dwt && touch.active {
            self.touch = TouchTracking { tap_emitted: true, ..touch };
        }
        if ev.kind == EV_KEY {
            self.process_key(now, config.tap_to_click, dwt, ev.code, ev.value, out);
            return FrameWork::Done;
        }
        if ev.kind == EV_ABS {
            let motion = self.motion;
            self.motion = motion.follow(now, ev.code, ev.value);
            return FrameWork::Done;
        }
        if ev.kind == EV_SYN {
            if ev.code == SYN_REPORT {
                return self.process_frame(ev, out);
            }
            out.emit_raw(*ev);
        }
        FrameWork::Done
    }
}

pub open spec fn relative_event(code: u16, value: i32, out: Seq<InputEvent>) -> Seq<InputEvent> {
    if value != 0 {
        out.push(InputEvent { kind: EV_REL, code, value })
    } else {
        out
    }
}

fn emit_relative(code: u16, value: i32, out: &mut VirtualDevice)
    ensures
        final(out).pending@ == relative_event(code, value, old(out).pending@),
        *final(out) == (VirtualDevice { pending: final(out).pending, ..*old(out) }),
{
    if value != 0 {
        out.emit_raw(InputEvent { kind: EV_REL, code, value });
    }
}

/// What is written at the end of a frame that came to movement.
pub open spec fn motion_finished(
    ev: InputEvent,
    emit_x: i32,
    emit_y: i32,
    out: Seq<InputEvent>,
) -> Seq<InputEvent> {
    relative_event(REL_Y, emit_y, relative_event(REL_X, emit_x, out)).push(ev)
}

/// Ends a frame that came to whole units of pointer movement.
pub fn finish_motion(ev: &InputEvent, emit_x: i32, emit_y: i32, out: &mut VirtualDevice)
    ensures
        final(out).pending@ == motion_finished(*ev, emit_x, emit_y, old(out).pending@),
        *final(out) == (VirtualDevice { pending: final(out).pending, ..*old(out) }),
{
    emit_relative(REL_X, emit_x, out);
    emit_relative(REL_Y, emit_y, out);
    out.emit_raw(*ev);
}

/// What is written at the end of a frame that came to wheel clicks.
pub open spec fn scroll_finished(
    ev: InputEvent,
    natural: bool,
    clicks: i32,
    out: Seq<InputEvent>,
) -> Seq<InputEvent> {
    relative_event(
        REL_WHEEL,
        if natural {
            (-clicks) as i32
        } else {
            clicks
        },
        out,
    ).push(ev)
}

/// Ends a frame that came to whole wheel clicks. Natural scrolling turns them
/// round.
pub fn finish_scroll(ev: &InputEvent, natural: bool, clicks: i32, out: &mut VirtualDevice)
    requires
        clicks > i32::MIN,
    ensures
        final(out).pending@ == scroll_finished(*ev, natural, clicks, old(out).pending@),
        *final(out) == (VirtualDevice { pending: final(out).pending, ..*old(out) }),
{
    let wheel: i32 = if natural {
        -clicks
    } else {
        clicks
    };
    emit_relative(REL_WHEEL, wheel, out);
    out.emit_raw(*ev);
}

/// Typing suppresses only touches that begin within the time limit: a touch
/// that is under way keeps moving the pointer, though it is no tap any more.
pub proof fn law_typing_does_not_freeze_a_touch(d: DeviceWrapper)
    requires
        d.touch.active,
    ensures
        d.noticed(true).frame_work() == d.frame_work(),
        forall|now: u64, tap: bool| !#[trigger] d.noticed(true).touch.is_tap(tap, now),
{
}

/// A click releases the button that it pressed, however many fingers are on
/// the touchpad by then.
pub proof fn law_click_releases_what_it_pressed(
    d: DeviceWrapper,
    now: u64,
    dwt: bool,
    fingers: u32,
    value: i32,
)
    requires
        value != 0,
    ensures
        ({
            let down = d.keyed(now, dwt, BTN_LEFT, value);
            let later = DeviceWrapper {
                touch: TouchTracking { fingers, ..down.touch },
                ..down
            };
            &&& later.click_code(BTN_LEFT, 0) == d.click_code(BTN_LEFT, value)
            &&& later.keyed(now, dwt, BTN_LEFT, 0).active_click_button is None
        }),
{
}

} // verus!
