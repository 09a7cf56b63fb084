//! Mice and pointing sticks: frames of relative movement, wheels, and the
//! way a button takes through emulation, scrolling and debouncing.
use vstd::prelude::*;
use crate::backend::buttons::{
    button_event, button_event_spec, ButtonState, ButtonStep, DebounceStep, Debouncer, MiddleState,
};
use crate::backend::debounce::DebounceButton;
use crate::backend::scroll::{
    clicked, continuous, push_click, push_continuous, ScrollState, ScrollStep,
    SCROLL_ON_BUTTON_DOWN,
};
use crate::backend::wheel::{WheelState, FRAME_LIMIT};
use crate::codes::{
    InputEvent, ABS_X, ABS_Y, BTN_0, BTN_9, BTN_LEFT, BTN_MIDDLE, BTN_RIGHT, BTN_TASK, EV_ABS,
    EV_KEY, EV_REL, EV_SYN, REL_HWHEEL, REL_HWHEEL_HI_RES, REL_WHEEL, REL_WHEEL_HI_RES, REL_X,
    REL_Y, SYN_REPORT,
};
use crate::ffi_types::{
    DeviceId, EventPayload, LibinputDevice, LibinputEvent, LibinputEventType, MotionUnits,
    PointerAxisEvent, PointerMotionAbsoluteEvent, PointerMotionEvent, AXIS_SOURCE_WHEEL,
};

verus! {

/// Relative movement collected since the last frame.
#[derive(Clone, Copy, Debug, PartialEq, Eq, Structural)]
pub struct RelState {
    pub x: i64,
    pub y: i64,
    pub wheel_vertical: i64,
    pub wheel_horizontal: i64,
    pub hi_res_vertical: i64,
    pub hi_res_horizontal: i64,
}

pub open spec fn in_frame(x: int) -> bool {
    -FRAME_LIMIT <= x <= FRAME_LIMIT
}

impl RelState {
    pub open spec fn wf(self) -> bool {
        &&& in_frame(self.x as int)
        &&& in_frame(self.y as int)
        &&& in_frame(self.wheel_vertical as int)
        &&& in_frame(self.wheel_horizontal as int)
        &&& in_frame(self.hi_res_vertical as int)
        &&& in_frame(self.hi_res_horizontal as int)
    }

    /// Whether one more event of `value` still fits into the frame.
    pub open spec fn has_room(self, value: i32) -> bool {
        &&& in_frame(self.x + value)
        &&& in_frame(self.y + value)
        &&& in_frame(self.wheel_vertical + value)
        &&& in_frame(self.wheel_horizontal + value)
        &&& in_frame(self.hi_res_vertical + value)
        &&& in_frame(self.hi_res_horizontal + value)
    }

    /// The sums after one relative event. Codes that nothing reads are
    /// ignored, and so are high-resolution steps that the device does not
    /// support.
    #[verifier::opaque]
    pub open spec fn moved(self, wheel: WheelState, code: u16, value: i32) -> RelState {
        if code == REL_X {
            RelState { x: (self.x + value) as i64, ..self }
        } else if code == REL_Y {
            RelState { y: (self.y + value) as i64, ..self }
        } else if code == REL_WHEEL {
            RelState { wheel_vertical: (self.wheel_vertical + value) as i64, ..self }
        } else if code == REL_HWHEEL {
            RelState { wheel_horizontal: (self.wheel_horizontal + value) as i64, ..self }
        } else if code == REL_WHEEL_HI_RES && wheel.supports_hi_res_vertical {
            RelState { hi_res_vertical: (self.hi_res_vertical + value) as i64, ..self }
        } else if code == REL_HWHEEL_HI_RES && wheel.supports_hi_res_horizontal {
            RelState { hi_res_horizontal: (self.hi_res_horizontal + value) as i64, ..self }
        } else {
            self
        }
    }

    pub open spec fn empty() -> RelState {
        RelState {
            x: 0,
            y: 0,
            wheel_vertical: 0,
            wheel_horizontal: 0,
            hi_res_vertical: 0,
            hi_res_horizontal: 0,
        }
    }

    pub fn new() -> (r: RelState)
        ensures
            r.wf(),
            r == RelState::empty(),
    {
        RelState {
            x: 0,
            y: 0,
            wheel_vertical: 0,
            wheel_horizontal: 0,
            hi_res_vertical: 0,
            hi_res_horizontal: 0,
        }
    }

    fn collect(self, wheel: &WheelState, code: u16, value: i32) -> (r: RelState)
        requires
            self.wf(),
            self.has_room(value),
        ensures
            r.wf(),
            r == self.moved(*wheel, code, value),
    {
        reveal(RelState::moved);
        let step: i64 = value as i64;
        if code == REL_X {
            RelState { x: self.x + step, ..self }
        } else if code == REL_Y {
            RelState { y: self.y + step, ..self }
        } else if code == REL_WHEEL {
            RelState { wheel_vertical: self.wheel_vertical + step, ..self }
        } else if code == REL_HWHEEL {
            RelState { wheel_horizontal: self.wheel_horizontal + step, ..self }
        } else if code == REL_WHEEL_HI_RES && wheel.supports_hi_res_vertical {
            RelState { hi_res_vertical: self.hi_res_vertical + step, ..self }
        } else if code == REL_HWHEEL_HI_RES && wheel.supports_hi_res_horizontal {
            RelState { hi_res_horizontal: self.hi_res_horizontal + step, ..self }
        } else {
            self
        }
    }
}

// ---------------------------------------------------------------------------
// Wheels
// ---------------------------------------------------------------------------
/// Division that drops the fraction, whatever the sign.
pub open spec fn truncated(value: int, by: int) -> int {
    if value >= 0 {
        value / by
    } else {
        -((-value) / by)
    }
}

/// The nearest 32-bit number.
pub open spec fn clamped(value: int) -> int {
    if value > i32::MAX {
        i32::MAX as int
    } else if value < i32::MIN {
        i32::MIN as int
    } else {
        value
    }
}

fn clamp_to_i32(value: i64) -> (c: i32)
    ensures
        c == clamped(value as int),
{
    if value > i32::MAX as i64 {
        i32::MAX
    } else if value < i32::MIN as i64 {
        i32::MIN
    } else {
        value as i32
    }
}

fn clicks_of(v120: i64) -> (clicks: i32)
    requires
        v120 > i64::MIN,
    ensures
        clicks == clamped(truncated(v120 as int, 120)),
{
    let whole: i64 = if v120 >= 0 {
        v120 / 120
    } else {
        -((-v120) / 120)
    };
    clamp_to_i32(whole)
}

/// Which way a wheel axis scrolls: wheels turn against the vertical axis,
/// and natural scrolling turns both around.
pub open spec fn wheel_turn(axis: u32, natural: bool, amount: int) -> int {
    if (axis == 0) != natural {
        -amount
    } else {
        amount
    }
}

pub open spec fn wheel_axis_spec(time_usec: u64, axis: u32, clicks: int, v120: int) -> PointerAxisEvent {
    PointerAxisEvent {
        time_usec,
        axis,
        value: 0,
        value_discrete: clamped(clicks) as i32,
        value_v120: v120 as i64,
        source: AXIS_SOURCE_WHEEL,
    }
}

/// The events of one wheel axis in a frame: `low` full clicks, `high`
/// hundred-and-twentieths of a click, of which the filter let `passed`
/// through. Clicks stand in for high-resolution steps that never came.
#[verifier::opaque]
pub open spec fn wheel_axis_events(
    out: Seq<LibinputEvent>,
    device: DeviceId,
    time_usec: u64,
    axis: u32,
    natural: bool,
    low: i64,
    high: i64,
    passed: Option<i64>,
) -> Seq<LibinputEvent> {
    let fine = wheel_turn(
        axis,
        natural,
        match passed {
            Some(amount) => amount as int,
            None => low * 120,
        },
    );
    let clicks = wheel_turn(axis, natural, low as int);
    let out = if passed is Some || (high == 0 && low != 0) {
        out.push(
            LibinputEvent {
                event_type: LibinputEventType::LIBINPUT_EVENT_POINTER_SCROLL_WHEEL,
                payload: EventPayload::PointerAxis(
                    wheel_axis_spec(time_usec, axis, truncated(fine, 120), fine),
                ),
                device,
            },
        )
    } else {
        out
    };
    if low != 0 {
        out.push(
            LibinputEvent {
                event_type: LibinputEventType::LIBINPUT_EVENT_POINTER_AXIS,
                payload: EventPayload::PointerAxis(
                    wheel_axis_spec(time_usec, axis, clicks, clamped(clicks) * 120),
                ),
                device,
            },
        )
    } else {
        out
    }
}

fn push_wheel_axis(
    device: DeviceId,
    time_usec: u64,
    axis: u32,
    natural: bool,
    low: i64,
    high: i64,
    passed: Option<i64>,
    out: &mut Vec<LibinputEvent>,
)
    requires
        in_frame(low as int),
        passed matches Some(a) ==> -FRAME_LIMIT - 47 <= a <= FRAME_LIMIT + 47,
    ensures
        final(out)@ == wheel_axis_events(
            old(out)@,
            device,
            time_usec,
            axis,
            natural,
            low,
            high,
            passed,
        ),
{
    reveal(wheel_axis_events);
    let negative = (axis == 0) != natural;
    if passed.is_some() || (high == 0 && low != 0) {
        let fine: i64 = match passed {
            Some(amount) => amount,
            None => low * 120,
        };
        let v120: i64 = if negative {
            -fine
        } else {
            fine
        };
        out.push(
            LibinputEvent {
                event_type: LibinputEventType::LIBINPUT_EVENT_POINTER_SCROLL_WHEEL,
                payload: EventPayload::PointerAxis(
                    PointerAxisEvent {
                        time_usec,
                        axis,
                        value: 0,
                        value_discrete: clicks_of(v120),
                        value_v120: v120,
                        source: AXIS_SOURCE_WHEEL,
                    },
                ),
                device,
            },
        );
    }
    if low != 0 {
        let clicks: i64 = if negative {
            -low
        } else {
            low
        };
        let discrete: i32 = clamp_to_i32(clicks);
        out.push(
            LibinputEvent {
                event_type: LibinputEventType::LIBINPUT_EVENT_POINTER_AXIS,
                payload: EventPayload::PointerAxis(
                    PointerAxisEvent {
                        time_usec,
                        axis,
                        value: 0,
                        value_discrete: discrete,
                        value_v120: (discrete as i64) * 120,
                        source: AXIS_SOURCE_WHEEL,
                    },
                ),
                device,
            },
        );
    }
}

/// A wheel together with the events queued so far.
#[verifier::ext_equal]
pub struct WheelStep {
    pub wheel: WheelState,
    pub out: Seq<LibinputEvent>,
}

impl WheelState {
    /// Clicks without high-resolution steps on hardware that announces them
    /// are worth one warning per axis.
    pub open spec fn warned(self, axis: u32, low: i64, high: i64) -> WheelState {
        if axis == 0 {
            WheelState {
                warned_missing_hi_res_vertical: self.warned_missing_hi_res_vertical || (low != 0
                    && high == 0 && self.supports_hi_res_vertical),
                ..self
            }
        } else {
            WheelState {
                warned_missing_hi_res_horizontal: self.warned_missing_hi_res_horizontal || (low != 0
                    && high == 0 && self.supports_hi_res_horizontal),
                ..self
            }
        }
    }
}

impl WheelStep {
    /// What one axis of a frame does.
    #[verifier::opaque]
    pub open spec fn axis(
        self,
        device: DeviceId,
        time_usec: u64,
        now: u64,
        axis: u32,
        natural: bool,
        low: i64,
        high: i64,
    ) -> WheelStep {
        let (wheel, passed) = self.wheel.filtered(axis, high, now);
        WheelStep {
            wheel: wheel.warned(axis, low, high),
            out: wheel_axis_events(self.out, device, time_usec, axis, natural, low, high, passed),
        }
    }
}

fn wheel_axis(
    wheel: &mut WheelState,
    device: DeviceId,
    time_usec: u64,
    now: u64,
    axis: u32,
    natural: bool,
    low: i64,
    high: i64,
    out: &mut Vec<LibinputEvent>,
)
    requires
        old(wheel).wf(),
        in_frame(low as int),
        in_frame(high as int),
    ensures
        final(wheel).wf(),
        (WheelStep { wheel: *final(wheel), out: final(out)@ }) == (WheelStep {
            wheel: *old(wheel),
            out: old(out)@,
        }).axis(device, time_usec, now, axis, natural, low, high),
{
    reveal(WheelStep::axis);
    let passed = wheel.filter_hi_res_wheel(axis, high, now);
    let missing = low != 0 && high == 0;
    let w = *wheel;
    *wheel = if axis == 0 {
        WheelState {
            warned_missing_hi_res_vertical: w.warned_missing_hi_res_vertical || (missing
                && w.supports_hi_res_vertical),
            ..w
        }
    } else {
        WheelState {
            warned_missing_hi_res_horizontal: w.warned_missing_hi_res_horizontal || (missing
                && w.supports_hi_res_horizontal),
            ..w
        }
    };
    push_wheel_axis(device, time_usec, axis, natural, low, high, passed, out);
}

// ---------------------------------------------------------------------------
// Frames
// ---------------------------------------------------------------------------
pub struct PointerState {
    pub buttons: ButtonState,
    pub debouncer: Debouncer,
    pub scroll: ScrollState,
    pub rel: RelState,
    pub wheel: WheelState,
    pub is_lenovo_scrollpoint: bool,
}

impl PointerState {
    pub open spec fn wf(self) -> bool {
        &&& self.buttons.wf()
        &&& self.debouncer.wf()
        &&& self.scroll.wf()
        &&& self.rel.wf()
        &&& self.wheel.wf()
    }

    /// Whether this is the state of a pointer on which nothing has happened yet.
    pub open spec fn is_start(self, wheel: WheelState, is_lenovo_scrollpoint: bool) -> bool {
        &&& self.buttons.step(Seq::empty()) == ButtonState::start_step()
        &&& self.debouncer.known@ == Seq::<DebounceButton>::empty()
        &&& !self.debouncer.spurious && !self.debouncer.bypass
        &&& self.scroll == ScrollState::start_spec()
        &&& self.rel == RelState::empty()
        &&& self.wheel == wheel
        &&& self.is_lenovo_scrollpoint == is_lenovo_scrollpoint
    }

    pub fn new(supports_hi_res_vertical: bool, supports_hi_res_horizontal: bool) -> (p:
        PointerState)
        ensures
            p.wf(),
            p.is_start(
                WheelState::start_spec(supports_hi_res_vertical, supports_hi_res_horizontal),
                false,
            ),
    {
        PointerState {
            buttons: ButtonState::new(),
            debouncer: Debouncer::new(),
            scroll: ScrollState::new(),
            rel: RelState::new(),
            wheel: WheelState::new(supports_hi_res_vertical, supports_hi_res_horizontal),
            is_lenovo_scrollpoint: false,
        }
    }
}

/// The motion event of a frame that moved the pointer.
#[verifier::opaque]
pub open spec fn motion_events(
    out: Seq<LibinputEvent>,
    device: DeviceId,
    time_usec: u64,
    dx: i64,
    dy: i64,
) -> Seq<LibinputEvent> {
    if dx == 0 && dy == 0 {
        out
    } else {
        out.push(
            LibinputEvent {
                event_type: LibinputEventType::LIBINPUT_EVENT_POINTER_MOTION,
                payload: EventPayload::PointerMotion(
                    PointerMotionEvent {
                        time_usec,
                        dx,
                        dy,
                        dx_unaccel: dx,
                        dy_unaccel: dy,
                        units: MotionUnits::Device,
                    },
                ),
                device,
            },
        )
    }
}

fn push_motion(device: DeviceId, time_usec: u64, dx: i64, dy: i64, out: &mut Vec<LibinputEvent>)
    ensures
        final(out)@ == motion_events(old(out)@, device, time_usec, dx, dy),
{
    reveal(motion_events);
    if dx != 0 || dy != 0 {
        out.push(
            LibinputEvent {
                event_type: LibinputEventType::LIBINPUT_EVENT_POINTER_MOTION,
                payload: EventPayload::PointerMotion(
                    PointerMotionEvent {
                        time_usec,
                        dx,
                        dy,
                        dx_unaccel: dx,
                        dy_unaccel: dy,
                        units: MotionUnits::Device,
                    },
                ),
                device,
            },
        );
    }
}

/// A scroll point reports its wheel movement as continuous scrolling.
#[verifier::opaque]
pub open spec fn scrollpoint_events(
    out: Seq<LibinputEvent>,
    device: DeviceId,
    time_usec: u64,
    rel: RelState,
) -> Seq<LibinputEvent> {
    let out = if rel.wheel_vertical != 0 {
        continuous(out, device, time_usec, 0, (-rel.wheel_vertical) as i64)
    } else {
        out
    };
    if rel.wheel_horizontal != 0 {
        continuous(out, device, time_usec, 1, rel.wheel_horizontal)
    } else {
        out
    }
}

fn push_scrollpoint(
    device: DeviceId,
    time_usec: u64,
    rel: &RelState,
    out: &mut Vec<LibinputEvent>,
)
    requires
        rel.wf(),
    ensures
        final(out)@ == scrollpoint_events(old(out)@, device, time_usec, *rel),
{
    reveal(scrollpoint_events);
    if rel.wheel_vertical != 0 {
        push_continuous(device, time_usec, 0, -rel.wheel_vertical, out);
    }
    if rel.wheel_horizontal != 0 {
        push_continuous(device, time_usec, 1, rel.wheel_horizontal, out);
    }
}

impl PointerState {
    /// The wheel after a frame without button scrolling, and all events of
    /// that frame: motion first, then the vertical and the horizontal wheel.
    pub open spec fn wheel_frame(
        self,
        dev: LibinputDevice,
        time_usec: u64,
        now: u64,
        out: Seq<LibinputEvent>,
    ) -> WheelStep {
        let out = motion_events(out, dev.id, time_usec, self.rel.x, self.rel.y);
        if self.is_lenovo_scrollpoint {
            WheelStep {
                wheel: self.wheel,
                out: scrollpoint_events(out, dev.id, time_usec, self.rel),
            }
        } else {
            (WheelStep { wheel: self.wheel, out }).axis(
                dev.id,
                time_usec,
                now,
                0,
                dev.natural_scroll,
                self.rel.wheel_vertical,
                self.rel.hi_res_vertical,
            ).axis(
                dev.id,
                time_usec,
                now,
                1,
                dev.natural_scroll,
                self.rel.wheel_horizontal,
                self.rel.hi_res_horizontal,
            )
        }
    }

    /// Ends a frame of relative events. While the scroll button is held or
    /// locked, movement scrolls and wheel steps wait for a later frame.
    fn end_frame(
        &mut self,
        dev: &LibinputDevice,
        time_usec: u64,
        now: u64,
        out: &mut Vec<LibinputEvent>,
    )
        requires
            old(self).wf(),
            old(self).scroll.active() ==> old(self).scroll.has_room(
                old(self).rel.x,
                old(self).rel.y,
            ),
        ensures
            final(self).wf(),
            final(self).buttons == old(self).buttons,
            final(self).debouncer == old(self).debouncer,
            final(self).is_lenovo_scrollpoint == old(self).is_lenovo_scrollpoint,
            old(self).scroll.active() ==> {
                &&& final(self).scroll.step(final(out)@) == old(self).scroll.step(old(out)@).framed(
                    dev.id,
                    time_usec,
                    now,
                    old(self).rel.x,
                    old(self).rel.y,
                )
                &&& final(self).rel == (RelState { x: 0, y: 0, ..old(self).rel })
                &&& final(self).wheel == old(self).wheel
            },
            !old(self).scroll.active() ==> {
                &&& final(self).scroll == old(self).scroll
                &&& final(self).rel == RelState::empty()
                &&& (WheelStep { wheel: final(self).wheel, out: final(out)@ }) == old(
                    self,
                ).wheel_frame(*dev, time_usec, now, old(out)@)
            },
    {
        let rel = self.rel;
        if self.scroll.button_down || self.scroll.lock_active {
            self.rel = RelState { x: 0, y: 0, ..rel };
            self.scroll.scroll_frame(dev.id, time_usec, now, rel.x, rel.y, out);
            return;
        }
        self.rel = RelState::new();
        push_motion(dev.id, time_usec, rel.x, rel.y, out);
        if self.is_lenovo_scrollpoint {
            push_scrollpoint(dev.id, time_usec, &rel, out);
            return;
        }
        wheel_axis(
            &mut self.wheel,
            dev.id,
            time_usec,
            now,
            0,
            dev.natural_scroll,
            rel.wheel_vertical,
            rel.hi_res_vertical,
            out,
        );
        wheel_axis(
            &mut self.wheel,
            dev.id,
            time_usec,
            now,
            1,
            dev.natural_scroll,
            rel.wheel_horizontal,
            rel.hi_res_horizontal,
            out,
        );
    }
}

// ---------------------------------------------------------------------------
// Keys
// ---------------------------------------------------------------------------
/// The parts of a pointer that buttons change, with the events queued so far
/// inside `debounce.step`.
#[verifier::ext_equal]
pub struct KeyStep {
    pub debounce: DebounceStep,
    pub scroll: ScrollState,
}

/// Left and right together make a middle button, unless scrolling claims a
/// button of its own.
pub open spec fn emulates_middle(dev: LibinputDevice) -> bool {
    dev.middle_emulation && dev.scroll_method != SCROLL_ON_BUTTON_DOWN
}

pub open spec fn is_left_or_right(code: u16) -> bool {
    code == BTN_LEFT || code == BTN_RIGHT
}

/// Emulation beside a scroll button `button`.
pub open spec fn chord_with(dev: LibinputDevice, button: u16, code: u16) -> bool {
    dev.middle_emulation && dev.scroll_method == SCROLL_ON_BUTTON_DOWN && dev.scroll_button
        == button as u32 && is_left_or_right(code)
}

/// What a chord of left and right changes.
#[verifier::ext_equal]
pub struct ChordStep {
    pub middle: MiddleState,
    pub scroll: ScrollState,
    pub out: Seq<LibinputEvent>,
}

/// Whether a chord with a left scroll button uses up the transition that
/// brought the buttons to `m`.
pub open spec fn left_chord_takes(m: MiddleState, code: u16, down: bool) -> bool {
    (down && m.left_down && m.right_down) || m.chord_active || code == BTN_RIGHT
}

impl ChordStep {
    /// The chord ends scrolling and is a middle button until both are up. A
    /// lone right press waits for its release, in case left follows.
    pub open spec fn left_chord(
        self,
        device: DeviceId,
        time_usec: u64,
        code: u16,
        down: bool,
    ) -> ChordStep {
        let m = self.middle.with_down(code == BTN_LEFT, down);
        if down && m.left_down && m.right_down {
            ChordStep {
                middle: MiddleState { chord_active: true, ..m },
                scroll: if self.scroll.button_down {
                    ScrollState {
                        button_down: false,
                        lock_press: false,
                        press_time: None,
                        ..self.scroll
                    }
                } else {
                    self.scroll
                },
                out: if m.chord_active {
                    self.out
                } else {
                    self.out.push(button_event_spec(device, time_usec, BTN_MIDDLE, true))
                },
            }
        } else if m.chord_active {
            if !m.left_down && !m.right_down {
                ChordStep {
                    middle: MiddleState { chord_active: false, ..m },
                    out: self.out.push(button_event_spec(device, time_usec, BTN_MIDDLE, false)),
                    ..self
                }
            } else {
                ChordStep { middle: m, ..self }
            }
        } else if code == BTN_RIGHT && !down {
            ChordStep { middle: m, out: clicked(self.out, device, time_usec, code), ..self }
        } else {
            ChordStep { middle: m, ..self }
        }
    }
}

fn chord_beside_left(
    middle: MiddleState,
    scroll: ScrollState,
    device: DeviceId,
    time_usec: u64,
    code: u16,
    down: bool,
    out: &mut Vec<LibinputEvent>,
) -> (r: (MiddleState, ScrollState))
    requires
        scroll.wf(),
    ensures
        r.1.wf(),
        (ChordStep { middle: r.0, scroll: r.1, out: final(out)@ }) == (ChordStep {
            middle,
            scroll,
            out: old(out)@,
        }).left_chord(device, time_usec, code, down),
{
    let m = middle.set_down(code == BTN_LEFT, down);
    if down && m.left_down && m.right_down {
        if !m.chord_active {
            out.push(button_event(device, time_usec, BTN_MIDDLE, true));
        }
        let ended = if scroll.button_down {
            ScrollState { button_down: false, lock_press: false, press_time: None, ..scroll }
        } else {
            scroll
        };
        return (MiddleState { chord_active: true, ..m }, ended);
    }
    if m.chord_active {
        if !m.left_down && !m.right_down {
            out.push(button_event(device, time_usec, BTN_MIDDLE, false));
            return (MiddleState { chord_active: false, ..m }, scroll);
        }
        return (m, scroll);
    }
    if code == BTN_RIGHT && !down {
        push_click(device, time_usec, code, out);
    }
    (m, scroll)
}

impl KeyStep {
    pub open spec fn with_step(self, step: ButtonStep) -> KeyStep {
        KeyStep { debounce: DebounceStep { step, ..self.debounce }, ..self }
    }

    pub open spec fn with_scroll(self, s: ScrollStep) -> KeyStep {
        KeyStep {
            debounce: DebounceStep {
                step: ButtonStep { out: s.out, ..self.debounce.step },
                ..self.debounce
            },
            scroll: s.scroll,
        }
    }

    pub open spec fn scroll_step(self) -> ScrollStep {
        ScrollStep { scroll: self.scroll, out: self.debounce.step.out }
    }

    /// Emulation beside a left scroll button.
    #[verifier::opaque]
    pub open spec fn left_chord(
        self,
        device: DeviceId,
        time_usec: u64,
        code: u16,
        down: bool,
    ) -> KeyStep {
        let s = self.debounce.step;
        let c = (ChordStep { middle: s.middle, scroll: self.scroll, out: s.out }).left_chord(
            device,
            time_usec,
            code,
            down,
        );
        KeyStep {
            scroll: c.scroll,
            ..self.with_step(ButtonStep { middle: c.middle, out: c.out, ..s })
        }
    }

    /// Emulation beside a middle scroll button: the chord scrolls.
    #[verifier::opaque]
    pub open spec fn middle_chord(
        self,
        device: DeviceId,
        time_usec: u64,
        now: u64,
        code: u16,
        down: bool,
    ) -> KeyStep {
        let s = self.debounce.step;
        let m = s.middle.with_down(code == BTN_LEFT, down);
        self.with_step(s.with_middle(m)).with_scroll(
            self.scroll_step().chorded(
                device,
                time_usec,
                now,
                m.left_down && m.right_down,
                down,
            ),
        )
    }

    /// The ordinary way of a button, after emulation had its say: the scroll
    /// button scrolls, mouse and numbered buttons are debounced, and
    /// everything else is dropped.
    #[verifier::opaque]
    pub open spec fn plain(
        self,
        dev: LibinputDevice,
        time_usec: u64,
        now: u64,
        spurious: bool,
        code: u16,
        down: bool,
    ) -> KeyStep {
        let lock = dev.scroll_button_lock == 1;
        if dev.scroll_method == SCROLL_ON_BUTTON_DOWN && code as u32 == dev.scroll_button
            && self.scroll_step().takes_key(lock, self.debounce.step.held.len() > 0, down) {
            self.with_scroll(self.scroll_step().keyed(dev.id, time_usec, now, lock, code, down))
        } else if BTN_0 <= code <= BTN_9 || BTN_LEFT <= code <= BTN_TASK {
            KeyStep {
                debounce: self.debounce.delivered(dev, time_usec, now, spurious, code, down),
                ..self
            }
        } else {
            self
        }
    }

    /// One transition of any button.
    pub open spec fn key(
        self,
        dev: LibinputDevice,
        time_usec: u64,
        now: u64,
        spurious: bool,
        code: u16,
        down: bool,
    ) -> KeyStep {
        let s = self.debounce.step;
        if emulates_middle(dev) && is_left_or_right(code) {
            self.with_step(s.emulated(dev, time_usec, now, code, down))
        } else if emulates_middle(dev) && code == BTN_MIDDLE {
            self.with_step(s.real_middle(dev, time_usec, down)).plain(
                dev,
                time_usec,
                now,
                spurious,
                code,
                down,
            )
        } else if chord_with(dev, BTN_LEFT, code) {
            if left_chord_takes(s.middle.with_down(code == BTN_LEFT, down), code, down) {
                self.left_chord(dev.id, time_usec, code, down)
            } else {
                self.left_chord(dev.id, time_usec, code, down).plain(
                    dev,
                    time_usec,
                    now,
                    spurious,
                    code,
                    down,
                )
            }
        } else if chord_with(dev, BTN_MIDDLE, code) {
            self.middle_chord(dev.id, time_usec, now, code, down)
        } else {
            self.plain(dev, time_usec, now, spurious, code, down)
        }
    }
}

impl PointerState {
    pub open spec fn key_step(self, out: Seq<LibinputEvent>) -> KeyStep {
        KeyStep { debounce: self.debouncer.step(self.buttons.step(out)), scroll: self.scroll }
    }

    /// What button transitions leave alone.
    pub open spec fn same_motion(self, other: PointerState) -> bool {
        &&& self.rel == other.rel
        &&& self.wheel == other.wheel
        &&& self.is_lenovo_scrollpoint == other.is_lenovo_scrollpoint
        &&& self.debouncer.spurious == other.debouncer.spurious
    }
}

impl PointerState {
    fn left_scroll_chord(
        &mut self,
        device: DeviceId,
        time_usec: u64,
        code: u16,
        down: bool,
        out: &mut Vec<LibinputEvent>,
    )
        requires
            old(self).wf(),
        ensures
            final(self).wf(),
            final(self).same_motion(*old(self)),
            final(self).key_step(final(out)@) == old(self).key_step(old(out)@).left_chord(
                device,
                time_usec,
                code,
                down,
            ),
    {
        reveal(KeyStep::left_chord);
        let (middle, scroll) = chord_beside_left(
            self.buttons.middle,
            self.scroll,
            device,
            time_usec,
            code,
            down,
            out,
        );
        self.buttons.middle = middle;
        self.scroll = scroll;
    }

    fn chord_beside_middle(
        &mut self,
        device: DeviceId,
        time_usec: u64,
        now: u64,
        code: u16,
        down: bool,
        out: &mut Vec<LibinputEvent>,
    )
        requires
            old(self).wf(),
        ensures
            final(self).wf(),
            final(self).same_motion(*old(self)),
            final(self).key_step(final(out)@) == old(self).key_step(old(out)@).middle_chord(
                device,
                time_usec,
                now,
                code,
                down,
            ),
    {
        reveal(KeyStep::middle_chord);
        let m = self.buttons.middle.set_down(code == BTN_LEFT, down);
        self.buttons.middle = m;
        self.scroll.scroll_chord(device, time_usec, now, m.left_down && m.right_down, down, out);
    }

    fn plain_key(
        &mut self,
        dev: &LibinputDevice,
        time_usec: u64,
        now: u64,
        code: u16,
        down: bool,
        out: &mut Vec<LibinputEvent>,
    )
        requires
            old(self).wf(),
        ensures
            final(self).wf(),
            final(self).same_motion(*old(self)),
            final(self).key_step(final(out)@) == old(self).key_step(old(out)@).plain(
                *dev,
                time_usec,
                now,
                old(self).debouncer.spurious,
                code,
                down,
            ),
    {
        reveal(KeyStep::plain);
        if dev.scroll_method == SCROLL_ON_BUTTON_DOWN && code as u32 == dev.scroll_button {
            let others_held = self.buttons.held_buttons.len() > 0;
            if self.scroll.scroll_key(dev, time_usec, now, others_held, code, down, out) {
                return;
            }
        }
        if (BTN_0 <= code && code <= BTN_9) || (BTN_LEFT <= code && code <= BTN_TASK) {
            self.debouncer.emit_debounced_pointer_button(
                &mut self.buttons,
                dev,
                time_usec,
                now,
                code,
                down,
                out,
            );
        }
    }

    fn process_key(
        &mut self,
        dev: &LibinputDevice,
        time_usec: u64,
        now: u64,
        code: u16,
        down: bool,
        out: &mut Vec<LibinputEvent>,
    )
        requires
            old(self).wf(),
        ensures
            final(self).wf(),
            final(self).same_motion(*old(self)),
            final(self).key_step(final(out)@) == old(self).key_step(old(out)@).key(
                *dev,
                time_usec,
                now,
                old(self).debouncer.spurious,
                code,
                down,
            ),
    {
        let left_or_right = code == BTN_LEFT || code == BTN_RIGHT;
        if dev.middle_emulation && dev.scroll_method != SCROLL_ON_BUTTON_DOWN {
            if left_or_right {
                self.buttons.emulate_middle(dev, time_usec, now, code, down, out);
                return;
            }
            if code == BTN_MIDDLE {
                self.buttons.press_real_middle(dev, time_usec, down, out);
            }
        } else if dev.middle_emulation && left_or_right {
            if dev.scroll_button == BTN_LEFT as u32 {
                let m = self.buttons.middle.set_down(code == BTN_LEFT, down);
                self.left_scroll_chord(dev.id, time_usec, code, down, out);
                if (down && m.left_down && m.right_down) || m.chord_active || code == BTN_RIGHT {
                    return;
                }
            } else if dev.scroll_button == BTN_MIDDLE as u32 {
                self.chord_beside_middle(dev.id, time_usec, now, code, down, out);
                return;
            }
        }
        self.plain_key(dev, time_usec, now, code, down, out);
    }

    /// Whether the state has room for one more event: sums of movement are
    /// limited by the width of their integers.
    pub open spec fn has_room(self, ev: InputEvent) -> bool {
        &&& ev.kind == EV_REL ==> self.rel.has_room(ev.value)
        &&& ev.kind == EV_SYN && ev.code == SYN_REPORT && self.scroll.active()
            ==> self.scroll.has_room(self.rel.x, self.rel.y)
    }

    /// Whether one event leaves these behind.
    #[verifier::opaque]
    pub open spec fn processed(
        self,
        dev: LibinputDevice,
        ev: InputEvent,
        time_usec: u64,
        now: u64,
        out: Seq<LibinputEvent>,
        after: PointerState,
        reported: Seq<LibinputEvent>,
    ) -> bool {
        &&& (after.is_lenovo_scrollpoint == self.is_lenovo_scrollpoint)
        &&& (after.debouncer.spurious == self.debouncer.spurious)
        &&& (ev.kind == EV_REL ==> {
            &&& after.rel == self.rel.moved(self.wheel, ev.code, ev.value)
            &&& after.wheel == self.wheel
            &&& after.key_step(reported) == self.key_step(out)
        })
        &&& (ev.kind == EV_SYN && ev.code == SYN_REPORT ==> {
            &&& after.buttons == self.buttons
            &&& after.debouncer == self.debouncer
            &&& self.scroll.active() ==> {
                &&& after.scroll.step(reported) == self.scroll.step(
                    out,
                ).framed(dev.id, time_usec, now, self.rel.x, self.rel.y)
                &&& after.rel == (RelState { x: 0, y: 0, ..self.rel })
                &&& after.wheel == self.wheel
            }
            &&& !self.scroll.active() ==> {
                &&& after.scroll == self.scroll
                &&& after.rel == RelState::empty()
                &&& (WheelStep { wheel: after.wheel, out: reported }) == self.wheel_frame(dev, time_usec, now, out)
            }
        })
        &&& (ev.kind == EV_KEY ==> {
            &&& after.same_motion(self)
            &&& after.key_step(reported) == self.key_step(out).key(
                dev,
                time_usec,
                now,
                self.debouncer.spurious,
                ev.code,
                ev.value != 0,
            )
        })
        &&& (ev.kind != EV_REL && ev.kind != EV_KEY && !(ev.kind == EV_SYN && ev.code == SYN_REPORT)
            ==> after == self && reported == out)
    }

    /// Processes one event of a relative device: movement is collected until
    /// the frame ends, buttons are handled as they come.
    pub fn process_relative_event(
        &mut self,
        dev: &LibinputDevice,
        ev: &InputEvent,
        time_usec: u64,
        now: u64,
        out: &mut Vec<LibinputEvent>,
    )
        requires
            old(self).wf(),
            old(self).has_room(*ev),
        ensures
            final(self).wf(),
            old(self).processed(
                *dev,
                *ev,
                time_usec,
                now,
                old(out)@,
                *final(self),
                final(out)@,
            ),
    {
        reveal(PointerState::processed);
        if ev.kind == EV_REL {
            let rel = self.rel.collect(&self.wheel, ev.code, ev.value);
            self.rel = rel;
        } else if ev.kind == EV_SYN {
            if ev.code == SYN_REPORT {
                self.end_frame(dev, time_usec, now, out);
            }
        } else if ev.kind == EV_KEY {
            self.process_key(dev, time_usec, now, ev.code, ev.value != 0, out);
        }
    }
}

// ---------------------------------------------------------------------------
// Absolute pointers
// ---------------------------------------------------------------------------
/// A pointer that reports positions instead of movements, as virtual
/// machines offer.
#[derive(Clone, Copy, Debug, PartialEq, Eq)]
pub struct AbsolutePointer {
    pub x: Option<i32>,
    pub y: Option<i32>,
    pub changed: bool,
    pub x_range: Option<(i32, i32)>,
    pub y_range: Option<(i32, i32)>,
}

impl AbsolutePointer {
    /// The position event of a frame, if both axes and their ranges are
    /// known.
    pub open spec fn motion(self, time_usec: u64) -> Option<PointerMotionAbsoluteEvent> {
        if self.x is Some && self.y is Some && self.x_range is Some && self.y_range is Some {
            Some(
                PointerMotionAbsoluteEvent {
                    time_usec,
                    abs_x: self.x->0,
                    abs_y: self.y->0,
                    x_min: (self.x_range->0).0,
                    x_max: (self.x_range->0).1,
                    y_min: (self.y_range->0).0,
                    y_max: (self.y_range->0).1,
                },
            )
        } else {
            None
        }
    }

    /// Whether an event is used up by the positions.
    pub open spec fn takes(self, ev: InputEvent) -> bool {
        ev.kind == EV_ABS || (ev.kind == EV_SYN && ev.code == SYN_REPORT && self.changed)
    }

    pub open spec fn after_event(self, ev: InputEvent) -> AbsolutePointer {
        if !self.takes(ev) {
            self
        } else if ev.kind != EV_ABS {
            AbsolutePointer { changed: false, ..self }
        } else if ev.code == ABS_X {
            AbsolutePointer { x: Some(ev.value), changed: true, ..self }
        } else if ev.code == ABS_Y {
            AbsolutePointer { y: Some(ev.value), changed: true, ..self }
        } else {
            self
        }
    }

    pub open spec fn events_after(
        self,
        ev: InputEvent,
        device: DeviceId,
        time_usec: u64,
        out: Seq<LibinputEvent>,
    ) -> Seq<LibinputEvent> {
        if self.takes(ev) && ev.kind != EV_ABS && self.motion(time_usec) is Some {
            out.push(
                LibinputEvent {
                    event_type: LibinputEventType::LIBINPUT_EVENT_POINTER_MOTION_ABSOLUTE,
                    payload: EventPayload::PointerMotionAbsolute(self.motion(time_usec)->0),
                    device,
                },
            )
        } else {
            out
        }
    }

    /// Collects positions and reports them when the frame ends. The result
    /// says whether the event is used up; all others belong to the relative
    /// part of the device.
    pub fn process_absolute_pointer_event(
        &mut self,
        device: DeviceId,
        ev: &InputEvent,
        time_usec: u64,
        out: &mut Vec<LibinputEvent>,
    ) -> (taken: bool)
        ensures
            taken == old(self).takes(*ev),
            *final(self) == old(self).after_event(*ev),
            final(out)@ == old(self).events_after(*ev, device, time_usec, old(out)@),
    {
        let p = *self;
        if ev.kind == EV_ABS {
            if ev.code == ABS_X {
                *self = AbsolutePointer { x: Some(ev.value), changed: true, ..p };
            } else if ev.code == ABS_Y {
                *self = AbsolutePointer { y: Some(ev.value), changed: true, ..p };
            }
            return true;
        }
        if ev.kind != EV_SYN || ev.code != SYN_REPORT || !p.changed {
            return false;
        }
        *self = AbsolutePointer { changed: false, ..p };
        if let (Some(x), Some(y), Some(x_range), Some(y_range)) = (p.x, p.y, p.x_range, p.y_range) {
            out.push(
                LibinputEvent {
                    event_type: LibinputEventType::LIBINPUT_EVENT_POINTER_MOTION_ABSOLUTE,
                    payload: EventPayload::PointerMotionAbsolute(
                        PointerMotionAbsoluteEvent {
                            time_usec,
                            abs_x: x,
                            abs_y: y,
                            x_min: x_range.0,
                            x_max: x_range.1,
                            y_min: y_range.0,
                            y_max: y_range.1,
                        },
                    ),
                    device,
                },
            );
        }
        true
    }
}

} // verus!
