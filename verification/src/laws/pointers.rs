//! Pointers: where they go, and how moving them scrolls.
use vstd::prelude::*;
use crate::backend::pointer::{
    motion_events, wheel_axis_events, AbsolutePointer, PointerState, WheelStep,
};
use crate::backend::scroll::{clicked, continuous, stopped, ScrollState, ScrollStep};
use crate::codes::InputEvent;
use crate::ffi_types::{DeviceId, LibinputDevice, LibinputEvent, LibinputEventType, MotionUnits};
use crate::laws::taps::tells_button;
use crate::laws::wheels::tells_continuous;

verus! {

/// A frame in which a mouse moved is one event: what it moved across in `dx`
/// and what it moved down in `dy`, both with and without acceleration still to
/// be applied.
pub proof fn law_mice_move_where_they_are_moved(
    p: PointerState,
    dev: LibinputDevice,
    time_usec: u64,
    now: u64,
    out: Seq<LibinputEvent>,
    after: PointerState,
    reported: Seq<LibinputEvent>,
)
    requires
        !p.scroll.active(),
        p.rel.wheel_vertical == 0 && p.rel.wheel_horizontal == 0,
        p.rel.hi_res_vertical == 0 && p.rel.hi_res_horizontal == 0,
        p.processed(
            dev,
            InputEvent { kind: 0, code: 0, value: 0 },
            time_usec,
            now,
            out,
            after,
            reported,
        ),
    ensures
        p.rel.x == 0 && p.rel.y == 0 ==> reported == out,
        p.rel.x != 0 || p.rel.y != 0 ==> {
            let e = reported.last();
            &&& reported.len() == out.len() + 1
            &&& reported.drop_last() == out
            &&& e.device == dev.id
            &&& e.event_type == LibinputEventType::LIBINPUT_EVENT_POINTER_MOTION
            &&& e.payload is PointerMotion
            &&& e.payload->PointerMotion_0.time_usec == time_usec
            &&& e.payload->PointerMotion_0.dx == p.rel.x
            &&& e.payload->PointerMotion_0.dy == p.rel.y
            &&& e.payload->PointerMotion_0.dx_unaccel == p.rel.x
            &&& e.payload->PointerMotion_0.dy_unaccel == p.rel.y
            &&& e.payload->PointerMotion_0.units == MotionUnits::Device
        },
        after.rel.x == 0 && after.rel.y == 0,
        after.buttons == p.buttons && after.scroll == p.scroll,
{
    reveal(PointerState::processed);
    reveal(WheelStep::axis);
    reveal(wheel_axis_events);
    reveal(motion_events);
    reveal(crate::backend::pointer::scrollpoint_events);
    if reported.len() == out.len() + 1 {
        assert(reported.drop_last() =~= out);
    }
}

/// A pointer with positions is where the kernel says: 0 is across and 1 is
/// down. The position of a frame is told once, with the ranges of the axes.
pub proof fn law_positions_are_told_as_they_are(
    p: AbsolutePointer,
    ev: InputEvent,
    device: DeviceId,
    time_usec: u64,
    out: Seq<LibinputEvent>,
)
    ensures
        ({
            let after = p.after_event(ev);
            let reported = p.events_after(ev, device, time_usec, out);
            let told = ev.kind == 0 && ev.code == 0 && p.changed && p.x is Some && p.y is Some
                && p.x_range is Some && p.y_range is Some;
            let e = reported.last();
            &&& after.x == (if ev.kind == 3 && ev.code == 0 {
                Some(ev.value)
            } else {
                p.x
            })
            &&& after.y == (if ev.kind == 3 && ev.code == 1 {
                Some(ev.value)
            } else {
                p.y
            })
            &&& ev.kind == 3 && ev.code <= 1 ==> after.changed
            &&& ev.kind == 0 && ev.code == 0 ==> !after.changed
            &&& after.x_range == p.x_range && after.y_range == p.y_range
            &&& !told ==> reported == out
            &&& told ==> {
                &&& reported.len() == out.len() + 1
                &&& reported.drop_last() == out
                &&& e.device == device
                &&& e.event_type == LibinputEventType::LIBINPUT_EVENT_POINTER_MOTION_ABSOLUTE
                &&& e.payload is PointerMotionAbsolute
                &&& e.payload->PointerMotionAbsolute_0.time_usec == time_usec
                &&& e.payload->PointerMotionAbsolute_0.abs_x == p.x->0
                &&& e.payload->PointerMotionAbsolute_0.abs_y == p.y->0
                &&& e.payload->PointerMotionAbsolute_0.x_min == (p.x_range->0).0
                &&& e.payload->PointerMotionAbsolute_0.x_max == (p.x_range->0).1
                &&& e.payload->PointerMotionAbsolute_0.y_min == (p.y_range->0).0
                &&& e.payload->PointerMotionAbsolute_0.y_max == (p.y_range->0).1
            }
        }),
{
    let reported = p.events_after(ev, device, time_usec, out);
    if reported.len() == out.len() + 1 {
        assert(reported.drop_last() =~= out);
    }
}

// ---------------------------------------------------------------------------
// Scrolling with a button held
// ---------------------------------------------------------------------------
/// Movement while the scroll button is held scrolls instead of moving the
/// pointer, once the button has been held for 200 milliseconds: down for down
/// and to the right for to the right. What is reported and what is kept back
/// add up to what was moved.
pub proof fn law_moving_with_the_button_held_scrolls(
    s: ScrollStep,
    device: DeviceId,
    time_usec: u64,
    now: u64,
    dx: i64,
    dy: i64,
    since: u64,
)
    requires
        s.scroll.wf() && s.scroll.has_room(dx, dy),
        s.scroll.press_time == Some(since) && since <= now,
        !(s.scroll.vertical && s.scroll.horizontal),
    ensures
        ({
            let after = s.framed(device, time_usec, now, dx, dy);
            let n = s.out.len() as int;
            let early = now - since < 200_000_000 || (dx == 0 && dy == 0);
            let x = s.scroll.accum_x + dx;
            let y = s.scroll.accum_y + dy;
            &&& early ==> after == s
            &&& !early ==> {
                &&& after.scroll.moved
                &&& after.out.len() == n || after.out.len() == n + 2
                &&& forall|i: int| 0 <= i < n ==> #[trigger] after.out[i] == s.out[i]
                &&& after.out.len() == n ==> after.scroll.accum_x == x && after.scroll.accum_y == y
                &&& after.out.len() == n + 2 && after.scroll.vertical ==> tells_continuous(
                    after.out,
                    n,
                    device,
                    time_usec,
                    0,
                    y,
                ) && after.scroll.accum_y == 0 && after.scroll.accum_x == x
                &&& after.out.len() == n + 2 && after.scroll.horizontal ==> tells_continuous(
                    after.out,
                    n,
                    device,
                    time_usec,
                    1,
                    x,
                ) && after.scroll.accum_x == 0 && after.scroll.accum_y == y
                &&& s.scroll.vertical ==> after.scroll.vertical && !after.scroll.horizontal
                &&& s.scroll.horizontal ==> after.scroll.horizontal && !after.scroll.vertical
                &&& s.scroll.vertical && (y > 1 || y < -1) ==> after.out.len() == n + 2
                &&& s.scroll.horizontal && (x > 1 || x < -1) ==> after.out.len() == n + 2
            }
        }),
{
    reveal(continuous);
}

/// The first movement that is long enough chooses the axis: the one that it
/// goes along farther.
pub proof fn law_the_longer_way_chooses_the_axis(s: ScrollState, dx: i64, dy: i64)
    requires
        s.wf() && s.has_room(dx, dy),
        !s.vertical && !s.horizontal,
        s.accum_x == 0 && s.accum_y == 0,
    ensures
        ({
            let after = s.moved_by(dx, dy);
            let wide = if dx < 0 {
                -dx
            } else {
                dx as int
            };
            let tall = if dy < 0 {
                -dy
            } else {
                dy as int
            };
            &&& after.vertical <==> (wide > 1 || tall > 1) && tall >= wide
            &&& after.horizontal <==> (wide > 1 || tall > 1) && wide > tall
            &&& after.accum_x == dx && after.accum_y == dy
        }),
{
}

/// A scroll button that is pressed and released without a movement was a
/// click of that button; after a movement it ends the scrolling on the axis
/// that it went along.
pub proof fn law_scroll_buttons_click_or_scroll(
    s: ScrollStep,
    device: DeviceId,
    time_usec: u64,
    now: u64,
    code: u16,
)
    requires
        !s.scroll.button_down && !s.scroll.lock_active,
    ensures
        ({
            let pressed = s.keyed(device, time_usec, now, false, code, true);
            let released = pressed.keyed(device, time_usec, now, false, code, false);
            &&& pressed.out == s.out
            &&& pressed.scroll.button_down && pressed.scroll.press_time == Some(now)
                && !pressed.scroll.moved && !pressed.scroll.vertical && !pressed.scroll.horizontal
            &&& released.out.len() == s.out.len() + 2
            &&& tells_button(released.out[s.out.len() as int], device, time_usec, code as int, true)
            &&& tells_button(released.out.last(), device, time_usec, code as int, false)
            &&& !released.scroll.button_down && released.scroll.press_time is None
        }),
{
    reveal(clicked);
}

/// Letting go of the scroll button ends the scrolling with a movement by
/// nothing, on the axes that scrolled.
pub proof fn law_letting_go_ends_scrolling(
    s: ScrollStep,
    device: DeviceId,
    time_usec: u64,
    now: u64,
    code: u16,
)
    requires
        s.scroll.button_down && !s.scroll.lock_press && s.scroll.moved,
    ensures
        ({
            let after = s.keyed(device, time_usec, now, false, code, false);
            let n = s.out.len() as int;
            let v: int = if s.scroll.vertical {
                2
            } else {
                0
            };
            let h: int = if s.scroll.horizontal {
                2
            } else {
                0
            };
            &&& after.out.len() == n + v + h
            &&& forall|i: int| 0 <= i < n ==> #[trigger] after.out[i] == s.out[i]
            &&& v == 2 ==> tells_continuous(after.out, n, device, time_usec, 0, 0)
            &&& h == 2 ==> tells_continuous(after.out, n + v, device, time_usec, 1, 0)
            &&& !after.scroll.button_down && !after.scroll.moved && !after.scroll.vertical
                && !after.scroll.horizontal
        }),
{
    reveal(continuous);
    reveal(stopped);
}

/// Where the scroll button locks, its first click locks scrolling and its
/// second one unlocks it; an unlocking click without any scrolling in between
/// is a click after all.
pub proof fn law_locks_take_two_clicks(
    s: ScrollStep,
    device: DeviceId,
    time_usec: u64,
    now: u64,
    code: u16,
)
    requires
        !s.scroll.button_down && !s.scroll.lock_active,
    ensures
        ({
            let a = s.keyed(device, time_usec, now, true, code, true);
            let b = a.keyed(device, time_usec, now, true, code, false);
            let c = b.keyed(device, time_usec, now, true, code, true);
            let d = c.keyed(device, time_usec, now, true, code, false);
            &&& b.scroll.lock_active && !b.scroll.button_down && b.out == s.out
            &&& b.scroll.active()
            &&& c.out == s.out && c.scroll.lock_active
            &&& !d.scroll.lock_active && !d.scroll.button_down && !d.scroll.active()
            &&& d.out.len() == s.out.len() + 2
            &&& tells_button(d.out[s.out.len() as int], device, time_usec, code as int, true)
            &&& tells_button(d.out.last(), device, time_usec, code as int, false)
        }),
{
    reveal(clicked);
}

/// While scrolling is on, no movement of the pointer is reported: the frame
/// goes into scrolling whole, and wheel steps wait.
pub proof fn law_scrolling_holds_the_pointer(
    p: PointerState,
    dev: LibinputDevice,
    time_usec: u64,
    now: u64,
    out: Seq<LibinputEvent>,
    after: PointerState,
    reported: Seq<LibinputEvent>,
)
    requires
        p.scroll.button_down || p.scroll.lock_active,
        p.processed(
            dev,
            InputEvent { kind: 0, code: 0, value: 0 },
            time_usec,
            now,
            out,
            after,
            reported,
        ),
    ensures
        reported == p.scroll.step(out).framed(dev.id, time_usec, now, p.rel.x, p.rel.y).out,
        after.rel.x == 0 && after.rel.y == 0,
        after.rel.wheel_vertical == p.rel.wheel_vertical,
        after.rel.wheel_horizontal == p.rel.wheel_horizontal,
        after.buttons == p.buttons,
        forall|i: int|
            out.len() <= i < reported.len() ==> (#[trigger] reported[i]).payload is PointerAxis,
{
    reveal(PointerState::processed);
    reveal(continuous);
    assert(reported == after.scroll.step(reported).out);
}

} // verus!
