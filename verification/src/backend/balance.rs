//! Gestures begin and end in turn.
use vstd::prelude::*;
use crate::backend::buttons::button_event_spec;
use crate::backend::gestures::{
    drag_fingers_spec, finger_axis, finger_stops, hold_end, pinch_begin, pinch_end, swipe_begin,
    swipe_end, swipe_update, tap_button_spec, DragState, FingerScroll, HoldState, PinchState,
    SwipeState, TapState,
};
use crate::backend::slots::{eligible_slots, finger_count_spec, span_spec, MtSlot};
use crate::backend::touchpad::{drag_motion, FrameFacts, TouchState};
use crate::codes::BTN_LEFT;
use crate::ffi_types::{
    DeviceId, LibinputDevice, LibinputEvent, LibinputEventType, PinchGeometry,
};

verus! {

/// How many more gestures of a kind begin than end among these events.
pub open spec fn balance(
    events: Seq<LibinputEvent>,
    begin: LibinputEventType,
    end: LibinputEventType,
) -> int
    decreases events.len(),
{
    if events.len() == 0 {
        0
    } else {
        balance(events.drop_last(), begin, end) + weight(events.last(), begin, end)
    }
}

pub open spec fn weight(
    event: LibinputEvent,
    begin: LibinputEventType,
    end: LibinputEventType,
) -> int {
    if event.event_type == begin {
        1
    } else if event.event_type == end {
        -1
    } else {
        0
    }
}

/// How many more swipes begin than end.
pub open spec fn swipes(events: Seq<LibinputEvent>) -> int {
    balance(
        events,
        LibinputEventType::LIBINPUT_EVENT_GESTURE_SWIPE_BEGIN,
        LibinputEventType::LIBINPUT_EVENT_GESTURE_SWIPE_END,
    )
}

/// How many more pinches begin than end.
pub open spec fn pinches(events: Seq<LibinputEvent>) -> int {
    balance(
        events,
        LibinputEventType::LIBINPUT_EVENT_GESTURE_PINCH_BEGIN,
        LibinputEventType::LIBINPUT_EVENT_GESTURE_PINCH_END,
    )
}

/// How many more holds begin than end.
pub open spec fn holds(events: Seq<LibinputEvent>) -> int {
    balance(
        events,
        LibinputEventType::LIBINPUT_EVENT_GESTURE_HOLD_BEGIN,
        LibinputEventType::LIBINPUT_EVENT_GESTURE_HOLD_END,
    )
}

pub open spec fn one_if(b: bool) -> int {
    if b {
        1
    } else {
        0
    }
}

/// Whether what was reported between two states is what began and what ended:
/// a gesture that is under way afterwards and was not before has begun once
/// more than it ended, and the other way round.
pub open spec fn in_step(
    before: TouchState,
    out: Seq<LibinputEvent>,
    after: TouchState,
    reported: Seq<LibinputEvent>,
) -> bool {
    &&& swipes(reported) - swipes(out) == one_if(after.swipe.active) - one_if(before.swipe.active)
    &&& pinches(reported) - pinches(out) == one_if(after.pinch.active) - one_if(before.pinch.active)
    &&& holds(reported) - holds(out) == one_if(after.hold.active) - one_if(before.hold.active)
}

proof fn lemma_push(events: Seq<LibinputEvent>, event: LibinputEvent)
    ensures
        forall|begin: LibinputEventType, end: LibinputEventType| #[trigger]
            balance(events.push(event), begin, end) == balance(events, begin, end) + weight(
                event,
                begin,
                end,
            ),
{
    assert(events.push(event).drop_last() =~= events);
}

proof fn lemma_stops(
    scroll: FingerScroll,
    device: DeviceId,
    time_usec: u64,
    out: Seq<LibinputEvent>,
)
    ensures
        swipes(finger_stops(scroll, device, time_usec, out)) == swipes(out),
        pinches(finger_stops(scroll, device, time_usec, out)) == pinches(out),
        holds(finger_stops(scroll, device, time_usec, out)) == holds(out),
{
    lemma_axis(out, device, time_usec, 0);
    lemma_axis(out, device, time_usec, 1);
    lemma_axis(finger_axis(out, device, time_usec, 0, 0), device, time_usec, 1);
}

proof fn lemma_axis(out: Seq<LibinputEvent>, device: DeviceId, time_usec: u64, axis: u32)
    ensures
        swipes(finger_axis(out, device, time_usec, axis, 0)) == swipes(out),
        pinches(finger_axis(out, device, time_usec, axis, 0)) == pinches(out),
        holds(finger_axis(out, device, time_usec, axis, 0)) == holds(out),
{
    reveal(finger_axis);
    let after = finger_axis(out, device, time_usec, axis, 0);
    let middle = after.drop_last();
    assert(middle.push(after.last()) =~= after);
    assert(out.push(middle.last()) =~= middle);
    lemma_push(out, middle.last());
    lemma_push(middle, after.last());
}

/// When the number of fingers changes, swipes begin and end in turn.
pub proof fn law_gestures_are_balanced_as_fingers_change(
    s: TouchState,
    slots: Vec<MtSlot>,
    dev: LibinputDevice,
    time_usec: u64,
    now: u64,
    out: Seq<LibinputEvent>,
)
    ensures
        in_step(
            s,
            out,
            s.fingers_changed(slots, dev, time_usec, now),
            s.fingers_changed_events(slots@, dev, time_usec, out),
        ),
{
    reveal(TouchState::recount_events);
    reveal(SwipeState::recounted);
    reveal(HoldState::recounted);
    reveal(PinchState::recounted);
    let areas = TouchState::button_areas(dev);
    let n = finger_count_spec(slots@, areas, s.tap.fingers);
    let wanted = drag_fingers_spec(dev.drag_3fg_enabled);
    let begun = swipe_begin(dev.id, time_usec, n as i32);
    let ended = swipe_end(dev.id, time_usec, s.swipe.fingers, false);
    let a = if s.swipe_starts(dev.tap_enabled, n, wanted) {
        out.push(begun)
    } else {
        out
    };
    lemma_push(out, begun);
    lemma_stops(s.scroll, dev.id, time_usec, a);
    let b = if TouchState::scroll_ends(
        n,
        eligible_slots(slots@, areas),
    ) {
        finger_stops(s.scroll, dev.id, time_usec, a)
    } else {
        a
    };
    lemma_push(b, ended);
}

/// When fingers move, gestures begin and end in turn. A drag that takes over
/// from a swipe ends it.
pub proof fn law_gestures_are_balanced_as_fingers_move(
    s: TouchState,
    f: FrameFacts,
    spread: bool,
    device: DeviceId,
    time_usec: u64,
    now: u64,
    out: Seq<LibinputEvent>,
)
    ensures
        in_step(
            s,
            out,
            s.fingers_moved(f, spread, time_usec, now),
            s.fingers_moved_events(f, spread, device, time_usec, now, out),
        ),
{
    reveal(DragState::carried);
    reveal(DragState::carried_events);
    reveal(SwipeState::taken_over);
    reveal(SwipeState::swiped);
    reveal(SwipeState::swiped_events);
    reveal(HoldState::moved);
    reveal(HoldState::moved_events);
    let n = f.fingers as int;
    let s2 = s.drag_carried(f, time_usec, now);
    let carried = s.drag.carried_events(
        s.swipe,
        device,
        time_usec,
        now,
        n,
        f.wanted as int,
        f.moved(),
        out,
    );
    assert(swipes(carried) - swipes(out) == one_if(s2.swipe.active) - one_if(s.swipe.active)
        && pinches(carried) == pinches(out) && holds(carried) == holds(out)) by {
        let up = button_event_spec(device, time_usec, BTN_LEFT, false);
        let down = button_event_spec(device, time_usec, BTN_LEFT, true);
        let begun = swipe_begin(device, time_usec, n as i32);
        let ended = swipe_end(
            device,
            time_usec,
            s.swipe.taken_over(true, n).fingers,
            true,
        );
        lemma_push(out, up);
        lemma_push(out, begun);
        let a = if s.swipe.active {
            out
        } else {
            out.push(begun)
        };
        lemma_push(a, ended);
        lemma_push(a.push(ended), down);
    }
    lemma_push(carried, drag_motion(device, time_usec, f.dx, f.dy));
    let let_go = hold_end(device, time_usec, s2.hold.fingers, true);
    lemma_push(carried, let_go);
    let ends = s2.pinch_starts(f, spread) || n >= 2;
    let held = s2.hold.moved_events(ends, device, time_usec, carried);
    lemma_push(held, pinch_begin(device, time_usec, f.fingers));
    lemma_push(held, swipe_begin(device, time_usec, n as i32));
    lemma_push(
        held,
        swipe_update(device, time_usec, s2.swipe.fingers, f.dx, f.dy),
    );
}

proof fn lemma_taps(
    tap: TapState,
    device: DeviceId,
    time_usec: u64,
    now: u64,
    enabled: bool,
    blocked: bool,
    out: Seq<LibinputEvent>,
)
    ensures
        ({
            let after = tap.lifted_events(device, time_usec, now, enabled, blocked, out);
            swipes(after) == swipes(out) && pinches(after) == pinches(out) && holds(after) == holds(
                out,
            )
        }),
{
    if let Some(button) = tap.button_down {
        lemma_push(out, button_event_spec(device, time_usec, button, false));
    }
    if let Some(button) = tap_button_spec(tap.tap_fingers) {
        lemma_push(out, button_event_spec(device, time_usec, button, true));
    }
}

/// When the last finger comes up, holds and pinches end.
pub proof fn law_gestures_are_balanced_as_fingers_lift(
    s: TouchState,
    device: DeviceId,
    time_usec: u64,
    now: u64,
    enabled: bool,
    dwt_active: bool,
    out: Seq<LibinputEvent>,
)
    ensures
        in_step(
            s,
            out,
            s.touch_ended(now, enabled, dwt_active),
            s.touch_ended_events(device, time_usec, now, enabled, dwt_active, out),
        ),
        !s.touch_ended(now, enabled, dwt_active).hold.active,
        !s.touch_ended(now, enabled, dwt_active).pinch.active,
{
    let let_go = hold_end(device, time_usec, s.hold.fingers, false);
    let pinched = pinch_end(
        device,
        time_usec,
        s.pinch.fingers,
        PinchGeometry {
            base: s.pinch.base,
            span: span_spec(s.slots@),
        },
    );
    let up = button_event_spec(device, time_usec, BTN_LEFT, false);
    lemma_push(out, let_go);
    let a = if s.hold.active {
        out.push(let_go)
    } else {
        out
    };
    lemma_push(a, pinched);
    let b = if s.pinch.active {
        a.push(pinched)
    } else {
        a
    };
    lemma_push(b, up);
    let c = if s.drag.lifts(s.tap_ends_drag(now, enabled)) {
        b.push(up)
    } else {
        b
    };
    lemma_taps(
        s.tap,
        device,
        time_usec,
        now,
        enabled,
        dwt_active || s.arbitration.suppressed,
        c,
    );
}

} // verus!
