//! Whether the sums that a device keeps have room for one more event.
use vstd::prelude::*;
use crate::backend::gestures::TouchMotion;
use crate::backend::live::{Route, TrackedDevice};
use crate::backend::pointer::{PointerState, RelState};
use crate::backend::scroll::{ScrollState, SCROLL_LIMIT};
use crate::backend::touchpad::MOVEMENT_TIMEOUT;
use crate::backend::wheel::FRAME_LIMIT;
use crate::clock::elapsed;
use crate::codes::{
    InputEvent, ABS_X, ABS_Y, BTN_LEFT, BTN_MIDDLE, BTN_RIGHT, EV_ABS, EV_KEY, EV_REL, EV_SYN,
    REL_WHEEL, SYN_REPORT,
};
use crate::ffi_types::LibinputDevice;

verus! {

fn fits_frame(sum: i64, value: i32) -> (fits: bool)
    requires
        -FRAME_LIMIT <= sum <= FRAME_LIMIT,
    ensures
        fits == (-FRAME_LIMIT <= sum + value <= FRAME_LIMIT),
{
    let next: i64 = sum + value as i64;
    -FRAME_LIMIT <= next && next <= FRAME_LIMIT
}

impl RelState {
    fn room_for(&self, value: i32) -> (room: bool)
        requires
            self.wf(),
        ensures
            room == self.has_room(value),
    {
        fits_frame(self.x, value) && fits_frame(self.y, value) && fits_frame(
            self.wheel_vertical,
            value,
        ) && fits_frame(self.wheel_horizontal, value) && fits_frame(self.hi_res_vertical, value)
            && fits_frame(self.hi_res_horizontal, value)
    }
}

impl ScrollState {
    fn room_for(&self, dx: i64, dy: i64) -> (room: bool)
        requires
            self.wf(),
            -FRAME_LIMIT <= dx <= FRAME_LIMIT,
            -FRAME_LIMIT <= dy <= FRAME_LIMIT,
        ensures
            room == self.has_room(dx, dy),
    {
        let x: i64 = self.accum_x + dx;
        let y: i64 = self.accum_y + dy;
        -SCROLL_LIMIT <= x && x <= SCROLL_LIMIT && -SCROLL_LIMIT <= y && y <= SCROLL_LIMIT
    }
}

impl PointerState {
    pub fn room_for(&self, ev: &InputEvent) -> (room: bool)
        requires
            self.wf(),
        ensures
            room == self.has_room(*ev),
    {
        if ev.kind == EV_REL {
            self.rel.room_for(ev.value)
        } else if ev.kind == EV_SYN && ev.code == SYN_REPORT && (self.scroll.button_down
            || self.scroll.lock_active) {
            self.scroll.room_for(self.rel.x, self.rel.y)
        } else {
            true
        }
    }
}

impl TouchMotion {
    fn step(&self, now: u64, last: Option<i32>, value: i32) -> (step: i64)
        ensures
            step == self.advance(now, last, value),
            -0x1_0000_0000 < step < 0x1_0000_0000,
    {
        match last {
            Some(last) => {
                let stale = match self.last_movement {
                    Some(moved) => elapsed(now, moved) > MOVEMENT_TIMEOUT,
                    None => false,
                };
                if stale {
                    0
                } else {
                    value as i64 - last as i64
                }
            },
            None => 0,
        }
    }

    pub fn room_for(&self, now: u64, code: u16, value: i32) -> (room: bool)
        ensures
            room == self.has_room(now, code, value),
    {
        if code == ABS_X {
            let next: i64 = self.dx as i64 + self.step(now, self.last_x, value);
            i32::MIN as i64 <= next && next <= i32::MAX as i64
        } else if code == ABS_Y {
            let next: i64 = self.dy as i64 + self.step(now, self.last_y, value);
            i32::MIN as i64 <= next && next <= i32::MAX as i64
        } else {
            true
        }
    }
}

impl TrackedDevice {
    /// Whether the sums of the device have room for an event.
    pub fn room_for(&self, dev: &LibinputDevice, ev: &InputEvent, now: u64) -> (room: bool)
        requires
            self.pointer.wf(),
        ensures
            room == self.has_room(*dev, *ev, now),
    {
        match self.kind.route(dev, ev) {
            Route::Tablet => !(ev.kind == EV_REL && ev.code == REL_WHEEL) || ev.value > i32::MIN,
            Route::AbsolutePointer => {
                let taken = ev.kind == EV_ABS || (ev.kind == EV_SYN && ev.code == SYN_REPORT
                    && self.absolute.changed);
                taken || self.pointer.room_for(ev)
            },
            Route::Relative => self.pointer.room_for(ev),
            Route::Absolute => {
                if ev.kind == EV_KEY && dev.middle_emulation && dev.scroll_method != 4 && (ev.code
                    == BTN_LEFT || ev.code == BTN_RIGHT || ev.code == BTN_MIDDLE) {
                    self.pointer.room_for(ev)
                } else {
                    ev.kind != EV_ABS || self.touch.motion.room_for(now, ev.code, ev.value)
                }
            },
            _ => true,
        }
    }
}

} // verus!
