//! Scrolling by moving the pointer while a button is held or locked.
use vstd::prelude::*;
use crate::backend::buttons::{button_event, button_event_spec};
use crate::backend::wheel::abs_spec;
use crate::clock::{passed, passed_spec, MILLISECOND};
use crate::ffi_types::{
    DeviceId, EventPayload, LibinputDevice, LibinputEvent, LibinputEventType, PointerAxisEvent,
    AXIS_SOURCE_CONTINUOUS,
};

verus! {

/// How long a scroll button must be held before motion scrolls.
pub const SCROLL_BUTTON_TIMEOUT: u64 = 200 * MILLISECOND;

/// The scroll method "move the pointer while a button is held".
pub const SCROLL_ON_BUTTON_DOWN: u32 = 4;

/// The largest distance that scrolling with a held button adds up.
pub const SCROLL_LIMIT: i64 = 0x4000_0000_0000_0000;

#[derive(Clone, Copy, Debug, PartialEq, Eq, Structural)]
pub struct ScrollState {
    pub button_down: bool,
    pub lock_active: bool,
    pub lock_press: bool,
    pub press_time: Option<u64>,
    pub moved: bool,
    pub vertical: bool,
    pub horizontal: bool,
    pub accum_x: i64,
    pub accum_y: i64,
}

/// A scroll state together with the events queued so far.
#[verifier::ext_equal]
pub struct ScrollStep {
    pub scroll: ScrollState,
    pub out: Seq<LibinputEvent>,
}

pub open spec fn axis_event_spec(
    device: DeviceId,
    event_type: LibinputEventType,
    axis: PointerAxisEvent,
) -> LibinputEvent {
    LibinputEvent { event_type, payload: EventPayload::PointerAxis(axis), device }
}

/// Scroll events come twice: once in their own type, and once in the type
/// that older clients read.
pub open spec fn axis_pair(
    out: Seq<LibinputEvent>,
    device: DeviceId,
    event_type: LibinputEventType,
    axis: PointerAxisEvent,
) -> Seq<LibinputEvent> {
    out.push(axis_event_spec(device, event_type, axis)).push(
        axis_event_spec(device, LibinputEventType::LIBINPUT_EVENT_POINTER_AXIS, axis),
    )
}

pub fn push_axis_pair(
    device: DeviceId,
    event_type: LibinputEventType,
    axis: PointerAxisEvent,
    out: &mut Vec<LibinputEvent>,
)
    ensures
        final(out)@ == axis_pair(old(out)@, device, event_type, axis),
{
    out.push(LibinputEvent { event_type, payload: EventPayload::PointerAxis(axis), device });
    out.push(
        LibinputEvent {
            event_type: LibinputEventType::LIBINPUT_EVENT_POINTER_AXIS,
            payload: EventPayload::PointerAxis(axis),
            device,
        },
    );
}

pub open spec fn continuous_axis(time_usec: u64, axis: u32, value: i64) -> PointerAxisEvent {
    PointerAxisEvent {
        time_usec,
        axis,
        value,
        value_discrete: 0,
        value_v120: 0,
        source: AXIS_SOURCE_CONTINUOUS,
    }
}

/// One continuous scroll movement.
#[verifier::opaque]
pub open spec fn continuous(
    out: Seq<LibinputEvent>,
    device: DeviceId,
    time_usec: u64,
    axis: u32,
    value: i64,
) -> Seq<LibinputEvent> {
    axis_pair(
        out,
        device,
        LibinputEventType::LIBINPUT_EVENT_POINTER_SCROLL_CONTINUOUS,
        continuous_axis(time_usec, axis, value),
    )
}

pub fn push_continuous(
    device: DeviceId,
    time_usec: u64,
    axis: u32,
    value: i64,
    out: &mut Vec<LibinputEvent>,
)
    ensures
        final(out)@ == continuous(old(out)@, device, time_usec, axis, value),
{
    reveal(continuous);
    push_axis_pair(
        device,
        LibinputEventType::LIBINPUT_EVENT_POINTER_SCROLL_CONTINUOUS,
        PointerAxisEvent {
            time_usec,
            axis,
            value,
            value_discrete: 0,
            value_v120: 0,
            source: AXIS_SOURCE_CONTINUOUS,
        },
        out,
    );
}

/// A press and its release, reported at once.
#[verifier::opaque]
pub open spec fn clicked(
    out: Seq<LibinputEvent>,
    device: DeviceId,
    time_usec: u64,
    code: u16,
) -> Seq<LibinputEvent> {
    out.push(button_event_spec(device, time_usec, code, true)).push(
        button_event_spec(device, time_usec, code, false),
    )
}

pub fn push_click(device: DeviceId, time_usec: u64, code: u16, out: &mut Vec<LibinputEvent>)
    ensures
        final(out)@ == clicked(old(out)@, device, time_usec, code),
{
    reveal(clicked);
    out.push(button_event(device, time_usec, code, true));
    out.push(button_event(device, time_usec, code, false));
}

impl ScrollState {
    pub open spec fn wf(self) -> bool {
        &&& -SCROLL_LIMIT <= self.accum_x <= SCROLL_LIMIT
        &&& -SCROLL_LIMIT <= self.accum_y <= SCROLL_LIMIT
    }

    /// Whether a movement still fits into the distances.
    pub open spec fn has_room(self, dx: i64, dy: i64) -> bool {
        &&& -SCROLL_LIMIT <= self.accum_x + dx <= SCROLL_LIMIT
        &&& -SCROLL_LIMIT <= self.accum_y + dy <= SCROLL_LIMIT
    }

    pub open spec fn active(self) -> bool {
        self.button_down || self.lock_active
    }

    /// No axis chosen and no distance covered.
    pub open spec fn cleared(self) -> ScrollState {
        ScrollState { vertical: false, horizontal: false, accum_x: 0, accum_y: 0, ..self }
    }

    /// The distances after a movement, and the axis that it chooses: the one
    /// with the longer distance, once either is long enough.
    pub open spec fn moved_by(self, dx: i64, dy: i64) -> ScrollState {
        let x = self.accum_x + dx;
        let y = self.accum_y + dy;
        let far = abs_spec(x) > 1 || abs_spec(y) > 1;
        let choose_axis = !self.vertical && !self.horizontal && far;
        ScrollState {
            moved: true,
            accum_x: x as i64,
            accum_y: y as i64,
            vertical: self.vertical || (choose_axis && abs_spec(y) >= abs_spec(x)),
            horizontal: self.horizontal || (choose_axis && abs_spec(y) < abs_spec(x)),
            ..self
        }
    }

    /// Whether the vertical distance is long enough to report.
    pub open spec fn reports_vertical(self) -> bool {
        self.vertical && abs_spec(self.accum_y as int) > 1
    }

    pub open spec fn reports_horizontal(self) -> bool {
        self.horizontal && abs_spec(self.accum_x as int) > 1
    }

    pub open spec fn reported(self) -> ScrollState {
        ScrollState {
            accum_y: if self.reports_vertical() {
                0
            } else {
                self.accum_y
            },
            accum_x: if self.reports_horizontal() {
                0
            } else {
                self.accum_x
            },
            ..self
        }
    }

    /// A press of the scroll button. Under a lock that is already active the
    /// chosen axis and the distances stay.
    pub open spec fn pressed(self, lock: bool, now: u64) -> ScrollState {
        let s = ScrollState {
            button_down: true,
            lock_press: lock,
            press_time: Some(now),
            moved: false,
            ..self
        };
        if self.lock_active {
            s
        } else {
            s.cleared()
        }
    }

    pub open spec fn start_spec() -> ScrollState {
        ScrollState {
            button_down: false,
            lock_active: false,
            lock_press: false,
            press_time: None,
            moved: false,
            vertical: false,
            horizontal: false,
            accum_x: 0,
            accum_y: 0,
        }
    }

    pub fn new() -> (s: ScrollState)
        ensures
            s.wf(),
            s == ScrollState::start_spec(),
    {
        ScrollState {
            button_down: false,
            lock_active: false,
            lock_press: false,
            press_time: None,
            moved: false,
            vertical: false,
            horizontal: false,
            accum_x: 0,
            accum_y: 0,
        }
    }
}

/// The events that end scrolling on the axes in use.
#[verifier::opaque]
pub open spec fn stopped(
    out: Seq<LibinputEvent>,
    device: DeviceId,
    time_usec: u64,
    scroll: ScrollState,
) -> Seq<LibinputEvent> {
    let out = if scroll.vertical {
        continuous(out, device, time_usec, 0, 0)
    } else {
        out
    };
    if scroll.horizontal {
        continuous(out, device, time_usec, 1, 0)
    } else {
        out
    }
}

/// Ends scrolling on the axes in use.
pub fn emit_button_scroll_stops(
    device: DeviceId,
    time_usec: u64,
    scroll: &ScrollState,
    out: &mut Vec<LibinputEvent>,
)
    ensures
        final(out)@ == stopped(old(out)@, device, time_usec, *scroll),
{
    reveal(stopped);
    if scroll.vertical {
        push_continuous(device, time_usec, 0, 0, out);
    }
    if scroll.horizontal {
        push_continuous(device, time_usec, 1, 0, out);
    }
}

impl ScrollStep {
    /// One frame of movement while the scroll button is held or locked.
    /// Movement before the button has been held for a while is dropped.
    pub open spec fn framed(
        self,
        device: DeviceId,
        time_usec: u64,
        now: u64,
        dx: i64,
        dy: i64,
    ) -> ScrollStep {
        if (dx == 0 && dy == 0) || !passed_spec(now, self.scroll.press_time, SCROLL_BUTTON_TIMEOUT) {
            self
        } else {
            let s = self.scroll.moved_by(dx, dy);
            let out = if s.reports_vertical() {
                continuous(self.out, device, time_usec, 0, s.accum_y)
            } else {
                self.out
            };
            let out = if s.reports_horizontal() {
                continuous(out, device, time_usec, 1, s.accum_x)
            } else {
                out
            };
            ScrollStep { scroll: s.reported(), out }
        }
    }

    /// Whether the configured scroll button's transition belongs to
    /// scrolling. A lock that was configured while other buttons are held
    /// only starts once all are up; a release without a press that scrolling
    /// saw stays an ordinary release.
    pub open spec fn takes_key(self, lock: bool, others_held: bool, down: bool) -> bool {
        if down {
            self.scroll.button_down || !(lock && others_held)
        } else {
            self.scroll.button_down
        }
    }

    /// The release of a button that was pressed to lock or unlock scrolling:
    /// the first one locks, the second one unlocks. Unlocking without having
    /// scrolled is an ordinary click.
    pub open spec fn lock_released(self, device: DeviceId, time_usec: u64, code: u16) -> ScrollStep {
        let s = ScrollState { button_down: false, lock_press: false, ..self.scroll };
        if !s.lock_active {
            ScrollStep { scroll: ScrollState { lock_active: true, ..s }, ..self }
        } else {
            let s = ScrollState { lock_active: false, press_time: None, ..s };
            ScrollStep {
                out: if s.moved || s.vertical || s.horizontal {
                    stopped(self.out, device, time_usec, s)
                } else {
                    clicked(self.out, device, time_usec, code)
                },
                scroll: ScrollState { moved: false, ..s.cleared() },
            }
        }
    }

    /// The release of a held scroll button: it ends scrolling, or it was a
    /// click after all.
    pub open spec fn hold_released(self, device: DeviceId, time_usec: u64, code: u16) -> ScrollStep {
        let s = ScrollState { button_down: false, press_time: None, ..self.scroll };
        ScrollStep {
            out: if s.moved {
                stopped(self.out, device, time_usec, s)
            } else {
                clicked(self.out, device, time_usec, code)
            },
            scroll: ScrollState { moved: false, vertical: false, horizontal: false, ..s },
        }
    }

    /// A transition of the configured scroll button.
    pub open spec fn keyed(
        self,
        device: DeviceId,
        time_usec: u64,
        now: u64,
        lock: bool,
        code: u16,
        down: bool,
    ) -> ScrollStep {
        if down {
            if self.scroll.button_down {
                self
            } else {
                ScrollStep { scroll: self.scroll.pressed(lock, now), ..self }
            }
        } else if self.scroll.lock_press {
            self.lock_released(device, time_usec, code)
        } else {
            self.hold_released(device, time_usec, code)
        }
    }

    /// Left and right pressed together stand in for a middle scroll button.
    pub open spec fn chorded(
        self,
        device: DeviceId,
        time_usec: u64,
        now: u64,
        both: bool,
        down: bool,
    ) -> ScrollStep {
        if both && !self.scroll.button_down {
            ScrollStep {
                scroll: (ScrollState {
                    button_down: true,
                    press_time: Some(now),
                    moved: false,
                    ..self.scroll
                }).cleared(),
                ..self
            }
        } else if !down && self.scroll.button_down {
            ScrollStep {
                scroll: (ScrollState {
                    button_down: false,
                    press_time: None,
                    moved: false,
                    ..self.scroll
                }).cleared(),
                out: stopped(self.out, device, time_usec, self.scroll),
            }
        } else {
            self
        }
    }
}

impl ScrollState {
    pub open spec fn step(self, out: Seq<LibinputEvent>) -> ScrollStep {
        ScrollStep { scroll: self, out }
    }

    fn clear(self) -> (s: ScrollState)
        ensures
            s == self.cleared(),
    {
        ScrollState { vertical: false, horizontal: false, accum_x: 0, accum_y: 0, ..self }
    }

    fn advance(self, dx: i64, dy: i64) -> (s: ScrollState)
        requires
            self.wf(),
            self.has_room(dx, dy),
        ensures
            s.wf(),
            s == self.moved_by(dx, dy),
    {
        let x: i64 = self.accum_x + dx;
        let y: i64 = self.accum_y + dy;
        let abs_x: i64 = if x < 0 {
            -x
        } else {
            x
        };
        let abs_y: i64 = if y < 0 {
            -y
        } else {
            y
        };
        let choose_axis = !self.vertical && !self.horizontal && (abs_x > 1 || abs_y > 1);
        ScrollState {
            moved: true,
            accum_x: x,
            accum_y: y,
            vertical: self.vertical || (choose_axis && abs_y >= abs_x),
            horizontal: self.horizontal || (choose_axis && abs_y < abs_x),
            ..self
        }
    }

    /// Turns one frame of movement into scrolling.
    pub fn scroll_frame(
        &mut self,
        device: DeviceId,
        time_usec: u64,
        now: u64,
        dx: i64,
        dy: i64,
        out: &mut Vec<LibinputEvent>,
    )
        requires
            old(self).wf(),
            old(self).has_room(dx, dy),
        ensures
            final(self).wf(),
            final(self).step(final(out)@) == old(self).step(old(out)@).framed(
                device,
                time_usec,
                now,
                dx,
                dy,
            ),
    {
        if (dx == 0 && dy == 0) || !passed(now, self.press_time, SCROLL_BUTTON_TIMEOUT) {
            return;
        }
        let s = self.advance(dx, dy);
        let tall = s.vertical && (s.accum_y > 1 || s.accum_y < -1);
        let wide = s.horizontal && (s.accum_x > 1 || s.accum_x < -1);
        if tall {
            push_continuous(device, time_usec, 0, s.accum_y, out);
        }
        if wide {
            push_continuous(device, time_usec, 1, s.accum_x, out);
        }
        *self = ScrollState {
            accum_y: if tall {
                0
            } else {
                s.accum_y
            },
            accum_x: if wide {
                0
            } else {
                s.accum_x
            },
            ..s
        };
    }

    fn release_lock(
        &mut self,
        device: DeviceId,
        time_usec: u64,
        code: u16,
        out: &mut Vec<LibinputEvent>,
    )
        requires
            old(self).wf(),
        ensures
            final(self).wf(),
            final(self).step(final(out)@) == old(self).step(old(out)@).lock_released(
                device,
                time_usec,
                code,
            ),
    {
        let s = ScrollState { button_down: false, lock_press: false, ..*self };
        if !s.lock_active {
            *self = ScrollState { lock_active: true, ..s };
            return;
        }
        let s = ScrollState { lock_active: false, press_time: None, ..s };
        if s.moved || s.vertical || s.horizontal {
            emit_button_scroll_stops(device, time_usec, &s, out);
        } else {
            push_click(device, time_usec, code, out);
        }
        let rest = s.clear();
        *self = ScrollState { moved: false, ..rest };
    }

    fn release_hold(
        &mut self,
        device: DeviceId,
        time_usec: u64,
        code: u16,
        out: &mut Vec<LibinputEvent>,
    )
        requires
            old(self).wf(),
        ensures
            final(self).wf(),
            final(self).step(final(out)@) == old(self).step(old(out)@).hold_released(
                device,
                time_usec,
                code,
            ),
    {
        let s = ScrollState { button_down: false, press_time: None, ..*self };
        if s.moved {
            emit_button_scroll_stops(device, time_usec, &s, out);
        } else {
            push_click(device, time_usec, code, out);
        }
        *self = ScrollState { moved: false, vertical: false, horizontal: false, ..s };
    }

    /// Handles a transition of the configured scroll button. The result says
    /// whether scrolling took it; otherwise it is an ordinary button.
    pub fn scroll_key(
        &mut self,
        dev: &LibinputDevice,
        time_usec: u64,
        now: u64,
        others_held: bool,
        code: u16,
        down: bool,
        out: &mut Vec<LibinputEvent>,
    ) -> (taken: bool)
        requires
            old(self).wf(),
        ensures
            final(self).wf(),
            taken == old(self).step(old(out)@).takes_key(
                dev.scroll_button_lock == 1,
                others_held,
                down,
            ),
            final(self).step(final(out)@) == (if taken {
                old(self).step(old(out)@).keyed(
                    dev.id,
                    time_usec,
                    now,
                    dev.scroll_button_lock == 1,
                    code,
                    down,
                )
            } else {
                old(self).step(old(out)@)
            }),
    {
        let lock = dev.scroll_button_lock == 1;
        if down {
            if self.button_down {
                return true;
            }
            if lock && others_held {
                return false;
            }
            let s = ScrollState {
                button_down: true,
                lock_press: lock,
                press_time: Some(now),
                moved: false,
                ..*self
            };
            *self = if s.lock_active {
                s
            } else {
                s.clear()
            };
            return true;
        }
        if !self.button_down {
            return false;
        }
        if self.lock_press {
            self.release_lock(dev.id, time_usec, code, out);
        } else {
            self.release_hold(dev.id, time_usec, code, out);
        }
        true
    }

    /// Scrolls while left and right are held together.
    pub fn scroll_chord(
        &mut self,
        device: DeviceId,
        time_usec: u64,
        now: u64,
        both: bool,
        down: bool,
        out: &mut Vec<LibinputEvent>,
    )
        requires
            old(self).wf(),
        ensures
            final(self).wf(),
            final(self).step(final(out)@) == old(self).step(old(out)@).chorded(
                device,
                time_usec,
                now,
                both,
                down,
            ),
    {
        if both && !self.button_down {
            let s = ScrollState {
                button_down: true,
                press_time: Some(now),
                moved: false,
                ..*self
            };
            *self = s.clear();
        } else if !down && self.button_down {
            emit_button_scroll_stops(device, time_usec, &*self, out);
            let s = ScrollState { button_down: false, press_time: None, moved: false, ..*self };
            *self = s.clear();
        }
    }
}

} // verus!
