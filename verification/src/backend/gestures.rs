//! The pieces of touchpad handling: tapping, software buttons, holding,
//! dragging, swiping, pinching and finger scrolling.
use vstd::prelude::*;
use crate::backend::measure::span_fits;
use crate::backend::buttons::{button_event, button_event_spec};
use crate::backend::pointer::truncated;
use crate::backend::scroll::{axis_pair, push_axis_pair};
use crate::clock::{passed, passed_spec, within, within_spec, MILLISECOND};
use crate::codes::{BTN_LEFT, BTN_MIDDLE, BTN_RIGHT};
use crate::ffi_types::{
    DeviceId, EventPayload, GestureEvent, LibinputEvent, LibinputEventType, PinchGeometry,
    PointerAxisEvent, PointerButtonEvent, Span, AXIS_SOURCE_FINGER,
};

verus! {

/// The longest touch that still is a tap.
pub const TAP_TIMEOUT: u64 = 250 * MILLISECOND;

/// How long fingers must rest before a multi-finger drag starts.
pub const DRAG_DELAY: u64 = 80 * MILLISECOND;

/// The same delay on the time stamps of events.
pub const DRAG_DELAY_USEC: u64 = 80_000;

// ---------------------------------------------------------------------------
// Event shapes
// ---------------------------------------------------------------------------
pub open spec fn gesture_spec(
    time_usec: u64,
    fingers: i32,
    dx: i32,
    dy: i32,
    pinch: Option<PinchGeometry>,
    cancelled: bool,
) -> GestureEvent {
    GestureEvent { time_usec, finger_count: fingers, dx, dy, pinch, cancelled }
}

pub open spec fn swipe_begin(device: DeviceId, time_usec: u64, fingers: i32) -> LibinputEvent {
    LibinputEvent {
        event_type: LibinputEventType::LIBINPUT_EVENT_GESTURE_SWIPE_BEGIN,
        payload: EventPayload::GestureSwipeBegin(
            gesture_spec(time_usec, fingers, 0, 0, None, false),
        ),
        device,
    }
}

pub open spec fn swipe_update(
    device: DeviceId,
    time_usec: u64,
    fingers: i32,
    dx: i32,
    dy: i32,
) -> LibinputEvent {
    LibinputEvent {
        event_type: LibinputEventType::LIBINPUT_EVENT_GESTURE_SWIPE_UPDATE,
        payload: EventPayload::GestureSwipeUpdate(
            gesture_spec(time_usec, fingers, dx, dy, None, false),
        ),
        device,
    }
}

pub open spec fn swipe_end(
    device: DeviceId,
    time_usec: u64,
    fingers: i32,
    cancelled: bool,
) -> LibinputEvent {
    LibinputEvent {
        event_type: LibinputEventType::LIBINPUT_EVENT_GESTURE_SWIPE_END,
        payload: EventPayload::GestureSwipeEnd(
            gesture_spec(time_usec, fingers, 0, 0, None, cancelled),
        ),
        device,
    }
}

pub open spec fn pinch_begin(device: DeviceId, time_usec: u64, fingers: i32) -> LibinputEvent {
    LibinputEvent {
        event_type: LibinputEventType::LIBINPUT_EVENT_GESTURE_PINCH_BEGIN,
        payload: EventPayload::GesturePinchBegin(
            gesture_spec(time_usec, fingers, 0, 0, None, false),
        ),
        device,
    }
}

pub open spec fn pinch_update(
    device: DeviceId,
    time_usec: u64,
    fingers: i32,
    geometry: PinchGeometry,
) -> LibinputEvent {
    LibinputEvent {
        event_type: LibinputEventType::LIBINPUT_EVENT_GESTURE_PINCH_UPDATE,
        payload: EventPayload::GesturePinchUpdate(
            gesture_spec(time_usec, fingers, 0, 0, Some(geometry), false),
        ),
        device,
    }
}

pub open spec fn pinch_end(
    device: DeviceId,
    time_usec: u64,
    fingers: i32,
    geometry: PinchGeometry,
) -> LibinputEvent {
    LibinputEvent {
        event_type: LibinputEventType::LIBINPUT_EVENT_GESTURE_PINCH_END,
        payload: EventPayload::GesturePinchEnd(
            gesture_spec(time_usec, fingers, 0, 0, Some(geometry), false),
        ),
        device,
    }
}

pub open spec fn hold_begin(device: DeviceId, time_usec: u64, fingers: i32) -> LibinputEvent {
    LibinputEvent {
        event_type: LibinputEventType::LIBINPUT_EVENT_GESTURE_HOLD_BEGIN,
        payload: EventPayload::GestureHoldBegin(
            gesture_spec(time_usec, fingers, 0, 0, None, false),
        ),
        device,
    }
}

pub open spec fn hold_end(
    device: DeviceId,
    time_usec: u64,
    fingers: i32,
    cancelled: bool,
) -> LibinputEvent {
    LibinputEvent {
        event_type: LibinputEventType::LIBINPUT_EVENT_GESTURE_HOLD_END,
        payload: EventPayload::GestureHoldEnd(
            gesture_spec(time_usec, fingers, 0, 0, None, cancelled),
        ),
        device,
    }
}

fn gesture(
    time_usec: u64,
    fingers: i32,
    dx: i32,
    dy: i32,
    pinch: Option<PinchGeometry>,
    cancelled: bool,
) -> (g: GestureEvent)
    ensures
        g == gesture_spec(time_usec, fingers, dx, dy, pinch, cancelled),
{
    GestureEvent { time_usec, finger_count: fingers, dx, dy, pinch, cancelled }
}

pub fn push_swipe_begin(device: DeviceId, time_usec: u64, fingers: i32, out: &mut Vec<LibinputEvent>)
    ensures
        final(out)@ == old(out)@.push(swipe_begin(device, time_usec, fingers)),
{
    out.push(
        LibinputEvent {
            event_type: LibinputEventType::LIBINPUT_EVENT_GESTURE_SWIPE_BEGIN,
            payload: EventPayload::GestureSwipeBegin(gesture(time_usec, fingers, 0, 0, None, false)),
            device,
        },
    );
}

pub fn push_swipe_end(
    device: DeviceId,
    time_usec: u64,
    fingers: i32,
    cancelled: bool,
    out: &mut Vec<LibinputEvent>,
)
    ensures
        final(out)@ == old(out)@.push(swipe_end(device, time_usec, fingers, cancelled)),
{
    out.push(
        LibinputEvent {
            event_type: LibinputEventType::LIBINPUT_EVENT_GESTURE_SWIPE_END,
            payload: EventPayload::GestureSwipeEnd(
                gesture(time_usec, fingers, 0, 0, None, cancelled),
            ),
            device,
        },
    );
}

pub fn push_hold_begin(device: DeviceId, time_usec: u64, fingers: i32, out: &mut Vec<LibinputEvent>)
    ensures
        final(out)@ == old(out)@.push(hold_begin(device, time_usec, fingers)),
{
    out.push(
        LibinputEvent {
            event_type: LibinputEventType::LIBINPUT_EVENT_GESTURE_HOLD_BEGIN,
            payload: EventPayload::GestureHoldBegin(gesture(time_usec, fingers, 0, 0, None, false)),
            device,
        },
    );
}

pub fn push_hold_end(
    device: DeviceId,
    time_usec: u64,
    fingers: i32,
    cancelled: bool,
    out: &mut Vec<LibinputEvent>,
)
    ensures
        final(out)@ == old(out)@.push(hold_end(device, time_usec, fingers, cancelled)),
{
    out.push(
        LibinputEvent {
            event_type: LibinputEventType::LIBINPUT_EVENT_GESTURE_HOLD_END,
            payload: EventPayload::GestureHoldEnd(
                gesture(time_usec, fingers, 0, 0, None, cancelled),
            ),
            device,
        },
    );
}

pub fn push_pinch_end(
    device: DeviceId,
    time_usec: u64,
    fingers: i32,
    geometry: PinchGeometry,
    out: &mut Vec<LibinputEvent>,
)
    ensures
        final(out)@ == old(out)@.push(pinch_end(device, time_usec, fingers, geometry)),
{
    out.push(
        LibinputEvent {
            event_type: LibinputEventType::LIBINPUT_EVENT_GESTURE_PINCH_END,
            payload: EventPayload::GesturePinchEnd(
                gesture(time_usec, fingers, 0, 0, Some(geometry), false),
            ),
            device,
        },
    );
}

// ---------------------------------------------------------------------------
// Tapping
// ---------------------------------------------------------------------------
#[derive(Clone, Copy, Debug, PartialEq, Eq, Structural)]
pub struct TapState {
    pub touching: bool,
    pub fingers: u32,
    pub tap_fingers: u32,
    pub emitted: bool,
    pub button_down: Option<u16>,
    pub release_since: Option<u64>,
    pub drag_active: bool,
    pub start_time: Option<u64>,
}

/// The button that a tap with so many fingers presses.
pub open spec fn tap_button_spec(fingers: u32) -> Option<u16> {
    if fingers == 1 {
        Some(BTN_LEFT)
    } else if fingers == 2 {
        Some(BTN_RIGHT)
    } else if fingers == 3 {
        Some(BTN_MIDDLE)
    } else {
        None
    }
}

fn tap_button(fingers: u32) -> (button: Option<u16>)
    ensures
        button == tap_button_spec(fingers),
{
    if fingers == 1 {
        Some(BTN_LEFT)
    } else if fingers == 2 {
        Some(BTN_RIGHT)
    } else if fingers == 3 {
        Some(BTN_MIDDLE)
    } else {
        None
    }
}

impl TapState {
    /// A touch that follows a tap before its button is released drags with
    /// that button.
    pub open spec fn continues_drag(self) -> bool {
        self.button_down is Some && self.release_since is Some
    }

    /// The first finger comes down, with `contacts` contacts tracked.
    pub open spec fn touched(self, now: u64, contacts: nat, suppressed: bool) -> TapState {
        let fingers = (if contacts > 1 {
            contacts
        } else {
            1
        }) as u32;
        TapState {
            touching: true,
            fingers,
            tap_fingers: fingers,
            emitted: suppressed || self.continues_drag(),
            release_since: if self.button_down is Some {
                None
            } else {
                self.release_since
            },
            drag_active: self.continues_drag(),
            start_time: Some(now),
            ..self
        }
    }

    /// Whether the touch that just ended was short and still.
    pub open spec fn is_tap(self, now: u64, enabled: bool) -> bool {
        enabled && !self.emitted && within_spec(now, self.start_time, TAP_TIMEOUT)
    }

    /// The last finger comes up: a drag lets go of its button, a tap presses
    /// one. A timer releases it.
    pub open spec fn lifted(self, now: u64, enabled: bool, blocked: bool) -> TapState {
        let s = if self.drag_active {
            TapState { button_down: None, release_since: None, drag_active: false, ..self }
        } else if self.is_tap(now, enabled) && !blocked && tap_button_spec(self.tap_fingers)
            is Some {
            TapState {
                button_down: tap_button_spec(self.tap_fingers),
                release_since: Some(now),
                ..self
            }
        } else {
            self
        };
        TapState { touching: false, start_time: None, fingers: 0, tap_fingers: 0, ..s }
    }

    pub open spec fn lifted_events(
        self,
        device: DeviceId,
        time_usec: u64,
        now: u64,
        enabled: bool,
        blocked: bool,
        out: Seq<LibinputEvent>,
    ) -> Seq<LibinputEvent> {
        if self.drag_active {
            match self.button_down {
                Some(button) => out.push(button_event_spec(device, time_usec, button, false)),
                None => out,
            }
        } else if self.is_tap(now, enabled) && !blocked && tap_button_spec(self.tap_fingers)
            is Some {
            out.push(
                button_event_spec(device, time_usec, tap_button_spec(self.tap_fingers)->0, true),
            )
        } else {
            out
        }
    }

    /// The device senses `fingers` fingers.
    pub open spec fn sensed(self, fingers: u32) -> TapState {
        TapState {
            fingers,
            tap_fingers: if fingers > self.tap_fingers {
                fingers
            } else {
                self.tap_fingers
            },
            ..self
        }
    }

    /// While touching, a tap counts the most fingers seen.
    #[verifier::opaque]
    pub open spec fn recounted(self, n: int) -> TapState {
        if self.touching && n > self.tap_fingers {
            TapState { tap_fingers: n as u32, ..self }
        } else {
            self
        }
    }

    pub fn recount(self, n: i32) -> (s: TapState)
        requires
            n >= 0,
        ensures
            s == self.recounted(n as int),
            s.fingers == self.fingers,
            s.tap_fingers <= self.tap_fingers || s.tap_fingers == n,
    {
        reveal(TapState::recounted);
        if self.touching && n as u32 > self.tap_fingers {
            TapState { tap_fingers: n as u32, ..self }
        } else {
            self
        }
    }

    pub fn touch(self, now: u64, contacts: usize, suppressed: bool) -> (s: TapState)
        requires
            contacts <= u32::MAX,
        ensures
            s == self.touched(now, contacts as nat, suppressed),
    {
        let continues = self.button_down.is_some() && self.release_since.is_some();
        let fingers: u32 = if contacts > 1 {
            contacts as u32
        } else {
            1
        };
        TapState {
            touching: true,
            fingers,
            tap_fingers: fingers,
            emitted: suppressed || continues,
            release_since: if self.button_down.is_some() {
                None
            } else {
                self.release_since
            },
            drag_active: continues,
            start_time: Some(now),
            ..self
        }
    }

    pub fn lift(
        self,
        device: DeviceId,
        time_usec: u64,
        now: u64,
        enabled: bool,
        blocked: bool,
        out: &mut Vec<LibinputEvent>,
    ) -> (s: TapState)
        ensures
            s == self.lifted(now, enabled, blocked),
            final(out)@ == self.lifted_events(
                device,
                time_usec,
                now,
                enabled,
                blocked,
                old(out)@,
            ),
    {
        let mut button_down: Option<u16> = self.button_down;
        let mut release_since: Option<u64> = self.release_since;
        if self.drag_active {
            if let Some(button) = self.button_down {
                out.push(button_event(device, time_usec, button, false));
            }
            button_down = None;
            release_since = None;
        } else if enabled && !self.emitted && within(now, self.start_time, TAP_TIMEOUT)
            && !blocked {
            if let Some(button) = tap_button(self.tap_fingers) {
                out.push(button_event(device, time_usec, button, true));
                button_down = Some(button);
                release_since = Some(now);
            }
        }
        TapState {
            touching: false,
            fingers: 0,
            tap_fingers: 0,
            emitted: self.emitted,
            button_down,
            release_since,
            drag_active: false,
            start_time: None,
        }
    }

    pub fn sense(self, fingers: u32) -> (s: TapState)
        ensures
            s == self.sensed(fingers),
    {
        TapState {
            fingers,
            tap_fingers: if fingers > self.tap_fingers {
                fingers
            } else {
                self.tap_fingers
            },
            ..self
        }
    }
}

// ---------------------------------------------------------------------------
// Positions and software buttons
// ---------------------------------------------------------------------------
/// Where the finger is, and how far it moved since the last frame.
#[derive(Clone, Copy, Debug, PartialEq, Eq)]
pub struct TouchMotion {
    pub last_x: Option<i32>,
    pub last_y: Option<i32>,
    pub dx: i32,
    pub dy: i32,
    pub last_movement: Option<u64>,
    pub x_range: Option<(i32, i32)>,
    pub y_range: Option<(i32, i32)>,
    pub range_warning_at: Option<u64>,
}

#[derive(Clone, Copy, Debug, PartialEq, Eq, Structural)]
pub struct ClickState {
    pub button: Option<u16>,
    pub device: Option<DeviceId>,
}

/// The distance of a share of a range from its start, without fractions.
pub open spec fn share(range: (i32, i32), numerator: int, denominator: int) -> int {
    range.0 + truncated((range.1 - range.0) * numerator, denominator)
}

fn part_of(range: (i32, i32), numerator: i64, denominator: i64) -> (edge: i64)
    requires
        1 <= numerator <= 10,
        1 <= denominator <= 10,
    ensures
        edge == share(range, numerator as int, denominator as int),
{
    let span: i64 = range.1 as i64 - range.0 as i64;
    proof {
        assert(-0x1_0000_0000 * 10 <= span * numerator <= 0x1_0000_0000 * 10) by (nonlinear_arith)
            requires
                -0x1_0000_0000 <= span <= 0x1_0000_0000,
                1 <= numerator <= 10,
        ;
    }
    let scaled: i64 = span * numerator;
    let positive: i64 = if scaled >= 0 {
        scaled
    } else {
        -scaled
    };
    let whole: i64 = positive / denominator;
    proof {
        assert(0 <= whole <= positive) by (nonlinear_arith)
            requires
                whole == positive / denominator,
                0 <= positive,
                1 <= denominator,
        ;
    }
    if scaled >= 0 {
        range.0 as i64 + whole
    } else {
        range.0 as i64 - whole
    }
}

/// The button under a position in the upper button row: its thirds are left,
/// middle and right.
pub open spec fn top_button(x: i32, range: (i32, i32)) -> u16 {
    let third = truncated(range.1 - range.0, 3);
    if x >= range.0 + third * 2 {
        BTN_RIGHT
    } else if x >= range.0 + third {
        BTN_MIDDLE
    } else {
        BTN_LEFT
    }
}

fn top_button_at(x: i32, range: (i32, i32)) -> (button: u16)
    ensures
        button == top_button(x, range),
{
    let span: i64 = range.1 as i64 - range.0 as i64;
    let third: i64 = if span >= 0 {
        span / 3
    } else {
        -((-span) / 3)
    };
    if x as i64 >= range.0 as i64 + third * 2 {
        BTN_RIGHT
    } else if x as i64 >= range.0 as i64 + third {
        BTN_MIDDLE
    } else {
        BTN_LEFT
    }
}

impl TouchMotion {
    pub open spec fn located(self) -> bool {
        self.last_x is Some && self.last_y is Some && self.x_range is Some && self.y_range is Some
    }

    /// Whether the finger is in the upper fifth, where some touchpads have
    /// the buttons of the pointing stick.
    pub open spec fn in_top_area(self) -> bool {
        self.located() && self.last_y->0 <= share(self.y_range->0, 1, 5)
    }

    /// Whether the finger is in the lower right corner.
    pub open spec fn in_right_area(self) -> bool {
        self.located() && self.last_x->0 >= share(self.x_range->0, 2, 3) && self.last_y->0
            >= share(self.y_range->0, 4, 5)
    }

    /// The button that a physical click is, and the device it belongs to.
    pub open spec fn click_target(
        self,
        fingers: u32,
        topbuttonpad: bool,
        device: DeviceId,
        stick: Option<DeviceId>,
    ) -> (u16, DeviceId) {
        if topbuttonpad && self.in_top_area() {
            (
                top_button(self.last_x->0, self.x_range->0),
                match stick {
                    Some(pointing_stick) => pointing_stick,
                    None => device,
                },
            )
        } else if self.in_right_area() || fingers == 2 {
            (BTN_RIGHT, device)
        } else if fingers >= 3 {
            (BTN_MIDDLE, device)
        } else {
            (BTN_LEFT, device)
        }
    }

    fn target_of_click(
        &self,
        fingers: u32,
        topbuttonpad: bool,
        device: DeviceId,
        stick: Option<DeviceId>,
    ) -> (target: (u16, DeviceId))
        ensures
            target == self.click_target(fingers, topbuttonpad, device, stick),
    {
        if let (Some(x), Some(y), Some(x_range), Some(y_range)) = (
            self.last_x,
            self.last_y,
            self.x_range,
            self.y_range,
        ) {
            if topbuttonpad && y as i64 <= part_of(y_range, 1, 5) {
                let owner = match stick {
                    Some(pointing_stick) => pointing_stick,
                    None => device,
                };
                return (top_button_at(x, x_range), owner);
            }
            if x as i64 >= part_of(x_range, 2, 3) && y as i64 >= part_of(y_range, 4, 5) {
                return (BTN_RIGHT, device);
            }
        }
        if fingers == 2 {
            (BTN_RIGHT, device)
        } else if fingers >= 3 {
            (BTN_MIDDLE, device)
        } else {
            (BTN_LEFT, device)
        }
    }
}

/// A button event that passes the kernel's own value on.
pub open spec fn raw_button_spec(
    device: DeviceId,
    time_usec: u64,
    code: u16,
    value: i32,
) -> LibinputEvent {
    LibinputEvent {
        event_type: LibinputEventType::LIBINPUT_EVENT_POINTER_BUTTON,
        payload: EventPayload::PointerButton(
            PointerButtonEvent {
                time_usec,
                button: code as u32,
                state: value as u32,
                seat_button_count: 0,
            },
        ),
        device,
    }
}

fn push_raw_button(
    device: DeviceId,
    time_usec: u64,
    code: u16,
    value: i32,
    out: &mut Vec<LibinputEvent>,
)
    ensures
        final(out)@ == old(out)@.push(raw_button_spec(device, time_usec, code, value)),
{
    out.push(
        LibinputEvent {
            event_type: LibinputEventType::LIBINPUT_EVENT_POINTER_BUTTON,
            payload: EventPayload::PointerButton(
                PointerButtonEvent {
                    time_usec,
                    button: code as u32,
                    state: value as u32,
                    seat_button_count: 0,
                },
            ),
            device,
        },
    );
}

/// A click state together with the events queued so far.
#[verifier::ext_equal]
pub struct ClickStep {
    pub click: ClickState,
    pub out: Seq<LibinputEvent>,
}

impl ClickStep {
    /// A physical button of the touchpad. The left one becomes whatever lies
    /// under the finger when it goes down, and stays that until it comes up;
    /// a press without a release in between is dropped, and so is a release
    /// without a press. Buttons other than the first three are not reported.
    pub open spec fn clicked(
        self,
        target: (u16, DeviceId),
        device: DeviceId,
        time_usec: u64,
        code: u16,
        value: i32,
    ) -> ClickStep {
        if code == BTN_LEFT && value != 0 {
            if self.click.button is Some {
                self
            } else {
                ClickStep {
                    click: ClickState { button: Some(target.0), device: Some(target.1) },
                    out: self.out.push(raw_button_spec(target.1, time_usec, target.0, value)),
                }
            }
        } else if code == BTN_LEFT {
            match self.click.button {
                None => self,
                Some(button) => {
                    let owner = match self.click.device {
                        Some(known) => known,
                        None => device,
                    };
                    ClickStep {
                        click: ClickState { button: None, device: None },
                        out: if button == BTN_LEFT || button == BTN_RIGHT || button == BTN_MIDDLE {
                            self.out.push(raw_button_spec(owner, time_usec, button, value))
                        } else {
                            self.out
                        },
                    }
                },
            }
        } else if code == BTN_RIGHT || code == BTN_MIDDLE {
            ClickStep { out: self.out.push(raw_button_spec(device, time_usec, code, value)), ..self }
        } else {
            self
        }
    }

    /// A click on a touchpad that is switched off but whose upper buttons
    /// still serve the pointing stick: only they work.
    pub open spec fn top_clicked(
        self,
        motion: TouchMotion,
        device: DeviceId,
        stick: Option<DeviceId>,
        time_usec: u64,
        value: i32,
    ) -> ClickStep {
        if value != 0 {
            if stick is Some && motion.in_top_area() {
                let button = top_button(motion.last_x->0, motion.x_range->0);
                ClickStep {
                    click: ClickState { button: Some(button), device: stick },
                    out: self.out.push(raw_button_spec(stick->0, time_usec, button, value)),
                }
            } else {
                self
            }
        } else {
            match self.click.button {
                None => self,
                Some(button) => {
                    let owner = match self.click.device {
                        Some(known) => known,
                        None => device,
                    };
                    ClickStep {
                        click: ClickState { button: None, device: None },
                        out: self.out.push(raw_button_spec(owner, time_usec, button, value)),
                    }
                },
            }
        }
    }
}

impl ClickState {
    pub open spec fn step(self, out: Seq<LibinputEvent>) -> ClickStep {
        ClickStep { click: self, out }
    }

    pub fn press(
        self,
        motion: &TouchMotion,
        fingers: u32,
        topbuttonpad: bool,
        device: DeviceId,
        stick: Option<DeviceId>,
        time_usec: u64,
        code: u16,
        value: i32,
        out: &mut Vec<LibinputEvent>,
    ) -> (next: ClickState)
        ensures
            next.step(final(out)@) == self.step(old(out)@).clicked(
                motion.click_target(fingers, topbuttonpad, device, stick),
                device,
                time_usec,
                code,
                value,
            ),
    {
        if code == BTN_LEFT && value != 0 {
            if self.button.is_some() {
                return self;
            }
            let target = motion.target_of_click(fingers, topbuttonpad, device, stick);
            push_raw_button(target.1, time_usec, target.0, value, out);
            return ClickState { button: Some(target.0), device: Some(target.1) };
        }
        if code == BTN_LEFT {
            if let Some(button) = self.button {
                let owner = match self.device {
                    Some(known) => known,
                    None => device,
                };
                if button == BTN_LEFT || button == BTN_RIGHT || button == BTN_MIDDLE {
                    push_raw_button(owner, time_usec, button, value, out);
                }
                return ClickState { button: None, device: None };
            }
            return self;
        }
        if code == BTN_RIGHT || code == BTN_MIDDLE {
            push_raw_button(device, time_usec, code, value, out);
        }
        self
    }

    pub fn press_top(
        self,
        motion: &TouchMotion,
        device: DeviceId,
        stick: Option<DeviceId>,
        time_usec: u64,
        value: i32,
        out: &mut Vec<LibinputEvent>,
    ) -> (next: ClickState)
        ensures
            next.step(final(out)@) == self.step(old(out)@).top_clicked(
                *motion,
                device,
                stick,
                time_usec,
                value,
            ),
    {
        if value != 0 {
            if let Some(owner) = stick {
                if let (Some(x), Some(y), Some(x_range), Some(y_range)) = (
                    motion.last_x,
                    motion.last_y,
                    motion.x_range,
                    motion.y_range,
                ) {
                    if y as i64 <= part_of(y_range, 1, 5) {
                        let button: u16 = top_button_at(x, x_range);
                        push_raw_button(owner, time_usec, button, value, out);
                        return ClickState { button: Some(button), device: stick };
                    }
                }
            }
            return self;
        }
        if let Some(button) = self.button {
            let owner = match self.device {
                Some(known) => known,
                None => device,
            };
            push_raw_button(owner, time_usec, button, value, out);
            return ClickState { button: None, device: None };
        }
        self
    }
}

// ---------------------------------------------------------------------------
// Holding, dragging, swiping, pinching
// ---------------------------------------------------------------------------
#[derive(Clone, Copy, Debug, PartialEq, Eq, Structural)]
pub struct HoldState {
    pub started_at: Option<u64>,
    pub active: bool,
    pub fingers: i32,
    pub blocked: bool,
    pub contact_changed: bool,
}

/// Dragging with three or four fingers.
#[derive(Clone, Copy, Debug, PartialEq, Eq, Structural)]
pub struct DragState {
    pub candidate_since: Option<u64>,
    pub candidate_time_usec: u64,
    pub active: bool,
    pub button_down: bool,
    pub release_since: Option<u64>,
}

#[derive(Clone, Copy, Debug, PartialEq, Eq, Structural)]
pub struct SwipeState {
    pub active: bool,
    pub fingers: i32,
}

#[derive(Clone, Copy, Debug, PartialEq, Eq, Structural)]
pub struct PinchState {
    pub active: bool,
    pub base: Span,
    pub fingers: i32,
}

/// The axes that two fingers scroll.
#[derive(Clone, Copy, Debug, PartialEq, Eq, Structural)]
pub struct FingerScroll {
    pub vertical: bool,
    pub horizontal: bool,
}

impl HoldState {
    /// Nothing to hold any more until all fingers are up.
    pub open spec fn blocked_now(self) -> HoldState {
        HoldState { started_at: None, blocked: true, ..self }
    }

    /// All fingers came up.
    pub open spec fn released(self) -> HoldState {
        if self.active {
            HoldState { active: false, started_at: None, blocked: false, ..self }
        } else {
            self
        }
    }

    /// The number of fingers changed to `n`.
    #[verifier::opaque]
    pub open spec fn recounted(self, now: u64, n: int) -> HoldState {
        let s = HoldState { contact_changed: true, ..self };
        if s.active {
            s
        } else if n == 0 {
            HoldState { started_at: None, blocked: false, fingers: 0, ..s }
        } else if s.blocked {
            s
        } else {
            HoldState {
                started_at: if s.started_at is None {
                    Some(now)
                } else {
                    s.started_at
                },
                fingers: if n > s.fingers {
                    n as i32
                } else {
                    s.fingers
                },
                ..s
            }
        }
    }

    /// The fingers moved in a way that is no holding.
    #[verifier::opaque]
    pub open spec fn moved(self, ends: bool) -> HoldState {
        if ends && self.active {
            HoldState { active: false, blocked: true, started_at: None, ..self }
        } else if ends && self.started_at is Some {
            self.blocked_now()
        } else {
            self
        }
    }

    #[verifier::opaque]
    pub open spec fn moved_events(
        self,
        ends: bool,
        device: DeviceId,
        time_usec: u64,
        out: Seq<LibinputEvent>,
    ) -> Seq<LibinputEvent> {
        if ends && self.active {
            out.push(hold_end(device, time_usec, self.fingers, true))
        } else {
            out
        }
    }

    pub fn block(self) -> (h: HoldState)
        ensures
            h == self.blocked_now(),
    {
        HoldState { started_at: None, blocked: true, ..self }
    }

    pub fn release(self, device: DeviceId, time_usec: u64, out: &mut Vec<LibinputEvent>) -> (h:
        HoldState)
        ensures
            h == self.released(),
            final(out)@ == (if self.active {
                old(out)@.push(hold_end(device, time_usec, self.fingers, false))
            } else {
                old(out)@
            }),
    {
        if self.active {
            push_hold_end(device, time_usec, self.fingers, false, out);
            HoldState { active: false, started_at: None, blocked: false, ..self }
        } else {
            self
        }
    }

    pub fn recount(self, now: u64, n: i32) -> (h: HoldState)
        ensures
            h == self.recounted(now, n as int),
    {
        reveal(HoldState::recounted);
        let s = HoldState { contact_changed: true, ..self };
        if s.active {
            s
        } else if n == 0 {
            HoldState { started_at: None, blocked: false, fingers: 0, ..s }
        } else if s.blocked {
            s
        } else {
            HoldState {
                started_at: if s.started_at.is_none() {
                    Some(now)
                } else {
                    s.started_at
                },
                fingers: if n > s.fingers {
                    n
                } else {
                    s.fingers
                },
                ..s
            }
        }
    }

    pub fn after_motion(
        self,
        ends: bool,
        device: DeviceId,
        time_usec: u64,
        out: &mut Vec<LibinputEvent>,
    ) -> (h: HoldState)
        ensures
            h == self.moved(ends),
            final(out)@ == self.moved_events(ends, device, time_usec, old(out)@),
    {
        reveal(HoldState::moved);
        reveal(HoldState::moved_events);
        if ends && self.active {
            push_hold_end(device, time_usec, self.fingers, true, out);
            HoldState { active: false, blocked: true, started_at: None, ..self }
        } else if ends && self.started_at.is_some() {
            HoldState { started_at: None, blocked: true, ..self }
        } else {
            self
        }
    }
}

impl SwipeState {
    /// The number of fingers changed to `n`: a swipe may start, and one with
    /// fewer than three fingers ends.
    #[verifier::opaque]
    pub open spec fn recounted(self, starts: bool, n: int) -> SwipeState {
        if starts {
            SwipeState { active: n >= 3, fingers: n as i32 }
        } else {
            SwipeState { active: self.active && n >= 3, ..self }
        }
    }

    pub fn recount(self, starts: bool, n: i32) -> (s: SwipeState)
        ensures
            s == self.recounted(starts, n as int),
    {
        reveal(SwipeState::recounted);
        if starts {
            SwipeState { active: n >= 3, fingers: n }
        } else {
            SwipeState { active: self.active && n >= 3, ..self }
        }
    }
}

impl PinchState {
    /// The number of fingers changed to `n`: a pinch will be measured from
    /// where the first two are now.
    #[verifier::opaque]
    pub open spec fn recounted(self, n: int, span: Option<Span>) -> PinchState {
        if !self.active && n >= 2 && span is Some {
            PinchState { base: span->0, fingers: n as i32, ..self }
        } else {
            self
        }
    }

    pub fn recount(self, n: i32, span: Option<Span>) -> (s: PinchState)
        ensures
            s == self.recounted(n as int, span),
            span_fits(self.base) && (span matches Some(base) ==> span_fits(base)) ==> span_fits(
                s.base,
            ),
    {
        reveal(PinchState::recounted);
        if !self.active && n >= 2 {
            if let Some(base) = span {
                return PinchState { base, fingers: n, ..self };
            }
        }
        self
    }
}

/// How many fingers a drag takes, by its configuration; 0 if none is
/// configured.
pub open spec fn drag_fingers_spec(enabled: u32) -> int {
    if enabled == 1 {
        3
    } else if enabled == 2 {
        4
    } else {
        0
    }
}

pub fn drag_fingers(enabled: u32) -> (fingers: i32)
    ensures
        fingers == drag_fingers_spec(enabled),
{
    if enabled == 1 {
        3
    } else if enabled == 2 {
        4
    } else {
        0
    }
}

impl DragState {
    pub open spec fn no_candidate(self) -> DragState {
        DragState { candidate_since: None, candidate_time_usec: 0, ..self }
    }

    /// Fingers return to a drag that was let go a moment ago.
    pub open spec fn resumes(self, n: int, wanted: int) -> bool {
        wanted != 0 && n == wanted && self.button_down && self.release_since is Some
    }

    /// The number of fingers changed to `n`, of which a drag takes `wanted`.
    #[verifier::opaque]
    pub open spec fn recounted(self, time_usec: u64, now: u64, n: int, wanted: int) -> DragState {
        if self.resumes(n, wanted) {
            DragState { release_since: None, active: true, ..self.no_candidate() }
        } else if wanted != 0 && n == wanted {
            if !self.button_down && self.candidate_since is None {
                DragState {
                    candidate_since: Some(now),
                    candidate_time_usec: time_usec,
                    ..self
                }
            } else {
                self
            }
        } else if n == 0 {
            if self.active && self.button_down {
                DragState { active: false, release_since: Some(now), ..self.no_candidate() }
            } else {
                self.no_candidate()
            }
        } else if !self.button_down {
            self.no_candidate()
        } else {
            self
        }
    }

    /// A drag that was let go ends when other fingers move.
    pub open spec fn abandoned(self, n: int, wanted: int, moved: bool) -> bool {
        self.button_down && !self.active && self.release_since is Some && n != wanted && moved
    }

    /// A candidate has rested long enough to become a drag.
    pub open spec fn starts(self, time_usec: u64, now: u64, n: int, wanted: int) -> bool {
        wanted != 0 && n == wanted && !self.button_down && self.candidate_since is Some && (
        passed_spec(now, self.candidate_since, DRAG_DELAY) || (time_usec
            >= self.candidate_time_usec && time_usec - self.candidate_time_usec
            >= DRAG_DELAY_USEC))
    }

    pub open spec fn started(self) -> DragState {
        DragState { active: true, button_down: true, ..self.no_candidate() }
    }

    pub open spec fn dropped(self) -> DragState {
        DragState { release_since: None, button_down: false, ..self }
    }

    /// All fingers came up: a drag that is not waiting for its fingers to
    /// return, or that a tap ends, lets go of its button.
    pub open spec fn lifts(self, tap: bool) -> bool {
        self.button_down && (!self.active || tap)
    }

    pub fn lift(
        self,
        tap: bool,
        device: DeviceId,
        time_usec: u64,
        out: &mut Vec<LibinputEvent>,
    ) -> (d: DragState)
        ensures
            d == (if self.lifts(tap) {
                DragState { active: false, ..self.dropped() }
            } else {
                self
            }),
            final(out)@ == (if self.lifts(tap) {
                old(out)@.push(button_event_spec(device, time_usec, BTN_LEFT, false))
            } else {
                old(out)@
            }),
    {
        if self.button_down && (!self.active || tap) {
            out.push(button_event(device, time_usec, BTN_LEFT, false));
            DragState { active: false, button_down: false, release_since: None, ..self }
        } else {
            self
        }
    }

    pub fn recount(self, time_usec: u64, now: u64, n: i32, wanted: i32) -> (d: DragState)
        ensures
            d == self.recounted(time_usec, now, n as int, wanted as int),
    {
        reveal(DragState::recounted);
        if wanted != 0 && n == wanted {
            if self.button_down && self.release_since.is_some() {
                DragState {
                    release_since: None,
                    active: true,
                    candidate_since: None,
                    candidate_time_usec: 0,
                    ..self
                }
            } else if !self.button_down && self.candidate_since.is_none() {
                DragState { candidate_since: Some(now), candidate_time_usec: time_usec, ..self }
            } else {
                self
            }
        } else if n == 0 {
            if self.active && self.button_down {
                DragState {
                    active: false,
                    release_since: Some(now),
                    candidate_since: None,
                    candidate_time_usec: 0,
                    ..self
                }
            } else {
                DragState { candidate_since: None, candidate_time_usec: 0, ..self }
            }
        } else if !self.button_down {
            DragState { candidate_since: None, candidate_time_usec: 0, ..self }
        } else {
            self
        }
    }

    pub fn can_start(&self, time_usec: u64, now: u64, n: i32, wanted: i32) -> (starts: bool)
        ensures
            starts == self.starts(time_usec, now, n as int, wanted as int),
    {
        wanted != 0 && n == wanted && !self.button_down && self.candidate_since.is_some() && (passed(
            now,
            self.candidate_since,
            DRAG_DELAY,
        ) || (time_usec >= self.candidate_time_usec && time_usec - self.candidate_time_usec
            >= DRAG_DELAY_USEC))
    }
}

/// The finger scroll axes end.
pub open spec fn finger_stops(
    scroll: FingerScroll,
    device: DeviceId,
    time_usec: u64,
    out: Seq<LibinputEvent>,
) -> Seq<LibinputEvent> {
    let out = if scroll.vertical {
        finger_axis(out, device, time_usec, 0, 0)
    } else {
        out
    };
    if scroll.horizontal {
        finger_axis(out, device, time_usec, 1, 0)
    } else {
        out
    }
}

/// One step of two-finger scrolling: `clicks` wheel clicks, 15 units each.
#[verifier::opaque]
pub open spec fn finger_axis(
    out: Seq<LibinputEvent>,
    device: DeviceId,
    time_usec: u64,
    axis: u32,
    clicks: int,
) -> Seq<LibinputEvent> {
    axis_pair(
        out,
        device,
        LibinputEventType::LIBINPUT_EVENT_POINTER_SCROLL_FINGER,
        PointerAxisEvent {
            time_usec,
            axis,
            value: (clicks * 15) as i64,
            value_discrete: clicks as i32,
            value_v120: (clicks * 120) as i64,
            source: AXIS_SOURCE_FINGER,
        },
    )
}

pub fn push_finger_axis(
    device: DeviceId,
    time_usec: u64,
    axis: u32,
    clicks: i32,
    out: &mut Vec<LibinputEvent>,
)
    ensures
        final(out)@ == finger_axis(old(out)@, device, time_usec, axis, clicks as int),
{
    reveal(finger_axis);
    push_axis_pair(
        device,
        LibinputEventType::LIBINPUT_EVENT_POINTER_SCROLL_FINGER,
        PointerAxisEvent {
            time_usec,
            axis,
            value: clicks as i64 * 15,
            value_discrete: clicks,
            value_v120: clicks as i64 * 120,
            source: AXIS_SOURCE_FINGER,
        },
        out,
    );
}

impl FingerScroll {
    pub fn stop(self, device: DeviceId, time_usec: u64, out: &mut Vec<LibinputEvent>)
        ensures
            final(out)@ == finger_stops(self, device, time_usec, old(out)@),
    {
        if self.vertical {
            push_finger_axis(device, time_usec, 0, 0, out);
        }
        if self.horizontal {
            push_finger_axis(device, time_usec, 1, 0, out);
        }
    }

    /// The axes in use after a movement of so many clicks.
    pub open spec fn scrolled(self, x: i32, y: i32) -> FingerScroll {
        FingerScroll {
            vertical: self.vertical || y != 0,
            horizontal: self.horizontal || x != 0,
        }
    }

    /// The clicks as the user wants them: natural scrolling turns them
    /// around.
    pub open spec fn turned(clicks: i32, natural: bool) -> int {
        if natural {
            -clicks
        } else {
            clicks as int
        }
    }

    pub open spec fn scroll_events(
        x: i32,
        y: i32,
        natural: bool,
        device: DeviceId,
        time_usec: u64,
        out: Seq<LibinputEvent>,
    ) -> Seq<LibinputEvent> {
        let out = if y != 0 {
            finger_axis(out, device, time_usec, 0, FingerScroll::turned(y, natural))
        } else {
            out
        };
        if x != 0 {
            finger_axis(out, device, time_usec, 1, FingerScroll::turned(x, natural))
        } else {
            out
        }
    }

    /// Reports two-finger scrolling by `x` and `y` clicks, vertical first.
    pub fn scroll(
        self,
        x: i32,
        y: i32,
        natural: bool,
        device: DeviceId,
        time_usec: u64,
        out: &mut Vec<LibinputEvent>,
    ) -> (s: FingerScroll)
        requires
            x > i32::MIN,
            y > i32::MIN,
        ensures
            s == self.scrolled(x, y),
            final(out)@ == FingerScroll::scroll_events(
                x,
                y,
                natural,
                device,
                time_usec,
                old(out)@,
            ),
    {
        if y != 0 {
            let clicks: i32 = if natural {
                -y
            } else {
                y
            };
            push_finger_axis(device, time_usec, 0, clicks, out);
        }
        if x != 0 {
            let clicks: i32 = if natural {
                -x
            } else {
                x
            };
            push_finger_axis(device, time_usec, 1, clicks, out);
        }
        FingerScroll { vertical: self.vertical || y != 0, horizontal: self.horizontal || x != 0 }
    }
}

impl DragState {
    /// The drag after a frame in which the fingers did or did not move.
    #[verifier::opaque]
    pub open spec fn carried(
        self,
        time_usec: u64,
        now: u64,
        n: int,
        wanted: int,
        moved: bool,
    ) -> DragState {
        if self.abandoned(n, wanted, moved) {
            self.dropped()
        } else if self.starts(time_usec, now, n, wanted) {
            self.started()
        } else {
            self
        }
    }

    /// The events of such a frame. A drag that starts takes over from a
    /// swipe, which is cancelled.
    #[verifier::opaque]
    pub open spec fn carried_events(
        self,
        swipe: SwipeState,
        device: DeviceId,
        time_usec: u64,
        now: u64,
        n: int,
        wanted: int,
        moved: bool,
        out: Seq<LibinputEvent>,
    ) -> Seq<LibinputEvent> {
        if self.abandoned(n, wanted, moved) {
            out.push(button_event_spec(device, time_usec, BTN_LEFT, false))
        } else if self.starts(time_usec, now, n, wanted) {
            let out = if swipe.active {
                out
            } else {
                out.push(swipe_begin(device, time_usec, n as i32))
            };
            out.push(swipe_end(device, time_usec, swipe.taken_over(true, n).fingers, true)).push(
                button_event_spec(device, time_usec, BTN_LEFT, true),
            )
        } else {
            out
        }
    }

    pub fn carry(
        self,
        swipe: SwipeState,
        device: DeviceId,
        time_usec: u64,
        now: u64,
        n: i32,
        wanted: i32,
        moved: bool,
        out: &mut Vec<LibinputEvent>,
    ) -> (r: (DragState, bool))
        ensures
            r.0 == self.carried(time_usec, now, n as int, wanted as int, moved),
            r.1 == self.starts(time_usec, now, n as int, wanted as int),
            final(out)@ == self.carried_events(
                swipe,
                device,
                time_usec,
                now,
                n as int,
                wanted as int,
                moved,
                old(out)@,
            ),
    {
        reveal(DragState::carried);
        reveal(DragState::carried_events);
        reveal(SwipeState::taken_over);
        if self.button_down && !self.active && self.release_since.is_some() && n != wanted
            && moved {
            out.push(button_event(device, time_usec, BTN_LEFT, false));
            return (DragState { release_since: None, button_down: false, ..self }, false);
        }
        if self.can_start(time_usec, now, n, wanted) {
            let fingers: i32 = if swipe.active {
                swipe.fingers
            } else {
                n
            };
            if !swipe.active {
                push_swipe_begin(device, time_usec, n, out);
            }
            push_swipe_end(device, time_usec, fingers, true, out);
            out.push(button_event(device, time_usec, BTN_LEFT, true));
            let next = DragState {
                active: true,
                button_down: true,
                candidate_since: None,
                candidate_time_usec: 0,
                ..self
            };
            return (next, true);
        }
        (self, false)
    }
}

impl SwipeState {
    /// A drag that starts ends the swipe.
    #[verifier::opaque]
    pub open spec fn taken_over(self, starts_drag: bool, n: int) -> SwipeState {
        if starts_drag {
            SwipeState {
                active: false,
                fingers: if self.active {
                    self.fingers
                } else {
                    n as i32
                },
            }
        } else {
            self
        }
    }

    pub fn take_over(self, starts_drag: bool, n: i32) -> (s: SwipeState)
        ensures
            s == self.taken_over(starts_drag, n as int),
    {
        reveal(SwipeState::taken_over);
        if starts_drag {
            SwipeState {
                active: false,
                fingers: if self.active {
                    self.fingers
                } else {
                    n
                },
            }
        } else {
            self
        }
    }

    /// Three or more fingers swipe.
    #[verifier::opaque]
    pub open spec fn swiped(self, n: int) -> SwipeState {
        if n >= 3 && !self.active {
            SwipeState { active: true, fingers: n as i32 }
        } else {
            self
        }
    }

    /// The first movement begins the swipe, every further one updates it.
    #[verifier::opaque]
    pub open spec fn swiped_events(
        self,
        device: DeviceId,
        time_usec: u64,
        n: int,
        dx: i32,
        dy: i32,
        out: Seq<LibinputEvent>,
    ) -> Seq<LibinputEvent> {
        if n < 3 {
            out
        } else if self.active {
            out.push(swipe_update(device, time_usec, self.fingers, dx, dy))
        } else {
            out.push(swipe_begin(device, time_usec, n as i32))
        }
    }

    pub fn swipe(
        self,
        device: DeviceId,
        time_usec: u64,
        n: i32,
        dx: i32,
        dy: i32,
        out: &mut Vec<LibinputEvent>,
    ) -> (s: SwipeState)
        ensures
            s == self.swiped(n as int),
            final(out)@ == self.swiped_events(device, time_usec, n as int, dx, dy, old(out)@),
    {
        reveal(SwipeState::swiped);
        reveal(SwipeState::swiped_events);
        if n < 3 {
            return self;
        }
        if self.active {
            out.push(
                LibinputEvent {
                    event_type: LibinputEventType::LIBINPUT_EVENT_GESTURE_SWIPE_UPDATE,
                    payload: EventPayload::GestureSwipeUpdate(
                        gesture(time_usec, self.fingers, dx, dy, None, false),
                    ),
                    device,
                },
            );
            return self;
        }
        push_swipe_begin(device, time_usec, n, out);
        SwipeState { active: true, fingers: n }
    }
}

impl PinchState {
    pub open spec fn measured(self) -> bool {
        self.base.dx != 0 || self.base.dy != 0
    }

    pub fn push_begin(
        device: DeviceId,
        time_usec: u64,
        fingers: i32,
        out: &mut Vec<LibinputEvent>,
    )
        ensures
            final(out)@ == old(out)@.push(pinch_begin(device, time_usec, fingers)),
    {
        out.push(
            LibinputEvent {
                event_type: LibinputEventType::LIBINPUT_EVENT_GESTURE_PINCH_BEGIN,
                payload: EventPayload::GesturePinchBegin(
                    gesture(time_usec, fingers, 0, 0, None, false),
                ),
                device,
            },
        );
    }

    /// A pinch reports its geometry while two contacts are tracked.
    pub open spec fn updated_events(
        self,
        device: DeviceId,
        time_usec: u64,
        span: Option<Span>,
        out: Seq<LibinputEvent>,
    ) -> Seq<LibinputEvent> {
        if span is Some {
            out.push(
                pinch_update(
                    device,
                    time_usec,
                    self.fingers,
                    PinchGeometry { base: self.base, span },
                ),
            )
        } else {
            out
        }
    }

    pub fn push_update(
        self,
        device: DeviceId,
        time_usec: u64,
        span: Option<Span>,
        out: &mut Vec<LibinputEvent>,
    )
        ensures
            final(out)@ == self.updated_events(device, time_usec, span, old(out)@),
    {
        if span.is_some() {
            out.push(
                LibinputEvent {
                    event_type: LibinputEventType::LIBINPUT_EVENT_GESTURE_PINCH_UPDATE,
                    payload: EventPayload::GesturePinchUpdate(
                        gesture(
                            time_usec,
                            self.fingers,
                            0,
                            0,
                            Some(PinchGeometry { base: self.base, span }),
                            false,
                        ),
                    ),
                    device,
                },
            );
        }
    }
}

} // verus!
