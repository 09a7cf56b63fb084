//! Touchpads: taps, clicks and drags, and which buttons they are.
use vstd::prelude::*;
use crate::backend::gestures::{
    drag_fingers_spec, finger_axis, DragState, PinchState, SwipeState, TapState, TouchMotion,
};
use crate::backend::slots::{
    button_top_spec, centroid_spec, classified, eligible_slots, finger_count_spec, span_spec,
    MtSlot,
};
use crate::backend::tablet::FrameTime;
use crate::backend::touchpad::{FrameAction, FrameEnd, TouchState};
use crate::codes::InputEvent;
use crate::ffi_types::{DeviceId, LibinputDevice, LibinputEvent, LibinputEventType, MotionUnits};
use crate::laws::fingers::{fingers, number, tells_gesture};

verus! {

/// Whether an event tells that a button went down or came up.
pub open spec fn tells_button(
    event: LibinputEvent,
    device: DeviceId,
    time_usec: u64,
    button: int,
    pressed: bool,
) -> bool {
    &&& event.device == device
    &&& event.event_type == LibinputEventType::LIBINPUT_EVENT_POINTER_BUTTON
    &&& event.payload is PointerButton
    &&& event.payload->PointerButton_0.time_usec == time_usec
    &&& event.payload->PointerButton_0.button == button
    &&& event.payload->PointerButton_0.state == (if pressed {
        1u32
    } else {
        0u32
    })
}

/// The button of a tap: left for one finger, right for two, middle for three.
pub open spec fn button_of_tap(fingers: u32) -> Option<int> {
    match fingers {
        1u32 => Some(0x110),
        2u32 => Some(0x111),
        3u32 => Some(0x112),
        _ => None,
    }
}

/// A touch that is short and still is a tap: when the last finger comes up, the
/// button that belongs to the number of fingers goes down, and stays down for
/// a while. Where tapping is off, while typing, under a tablet tool and after
/// 250 milliseconds there is none.
pub proof fn law_taps_are_buttons(
    s: TouchState,
    dev: LibinputDevice,
    stick: Option<DeviceId>,
    time_usec: u64,
    now: u64,
    tap_enabled: bool,
    dwt_active: bool,
    arbitrated: bool,
    out: Seq<LibinputEvent>,
    after: TouchState,
    reported: Seq<LibinputEvent>,
    end: FrameEnd,
    since: u64,
)
    requires
        s.wf(),
        !s.hold.active && !s.pinch.active && !s.drag.button_down && !s.tap.drag_active,
        s.tap.start_time == Some(since) && since <= now,
        s.processed(
            dev,
            InputEvent { kind: 1, code: 0x14a, value: 0 },
            stick,
            time_usec,
            now,
            tap_enabled,
            dwt_active,
            arbitrated,
            out,
            after,
            reported,
            end,
        ),
    ensures
        ({
            let tap = tap_enabled && !s.tap.emitted && !dwt_active && !arbitrated
                && !s.arbitration.suppressed && now - since < 250_000_000;
            let button = button_of_tap(s.tap.tap_fingers);
            &&& tap && button is Some ==> {
                &&& reported.len() == out.len() + 1
                &&& reported.drop_last() == out
                &&& tells_button(reported.last(), dev.id, time_usec, button->0, true)
                &&& after.tap.button_down is Some && after.tap.button_down->0 == button->0
                &&& after.tap.release_since == Some(now)
            }
            &&& !(tap && button is Some) ==> reported == out && after.tap.button_down
                == s.tap.button_down
            &&& !after.tap.touching && after.tap.fingers == 0 && after.tap.tap_fingers == 0
            &&& after.tap.start_time is None
            &&& after.motion.last_x is None && after.motion.last_y is None && after.motion.dx == 0
                && after.motion.dy == 0
        }),
{
    reveal(TouchState::processed);
    if reported.len() == out.len() + 1 {
        assert(reported.drop_last() =~= out);
    }
}

/// The button of a tap comes up 180 milliseconds later, if no touch makes it a
/// drag: the same button.
pub proof fn law_taps_let_go(
    tap: TapState,
    device: DeviceId,
    at: FrameTime,
    out: Seq<LibinputEvent>,
    since: u64,
    button: u16,
)
    requires
        tap.button_down == Some(button),
        tap.release_since == Some(since) && since <= at.now,
    ensures
        ({
            let over = at.now - since >= 180_000_000;
            let after = tap.expired(at.now);
            let reported = tap.expired_events(device, at, out);
            &&& over ==> {
                &&& reported.len() == out.len() + 1
                &&& reported.drop_last() == out
                &&& tells_button(reported.last(), device, at.time_usec, button as int, false)
                &&& after.button_down is None && after.release_since is None
            }
            &&& !over ==> reported == out && after == tap
        }),
{
    if at.now - since >= 180_000_000 {
        assert(tap.expired_events(device, at, out).drop_last() =~= out);
    }
}

/// A touch that follows a tap before its button came up drags with that
/// button: the button stays down, and comes up with the touch.
pub proof fn law_touches_after_taps_drag(
    s: TouchState,
    dev: LibinputDevice,
    stick: Option<DeviceId>,
    time_usec: u64,
    now: u64,
    tap_enabled: bool,
    dwt_active: bool,
    arbitrated: bool,
    out: Seq<LibinputEvent>,
    after: TouchState,
    reported: Seq<LibinputEvent>,
    end: FrameEnd,
    value: i32,
)
    requires
        s.wf(),
        s.processed(
            dev,
            InputEvent { kind: 1, code: 0x14a, value },
            stick,
            time_usec,
            now,
            tap_enabled,
            dwt_active,
            arbitrated,
            out,
            after,
            reported,
            end,
        ),
    ensures
        value != 0 ==> {
            &&& reported == out
            &&& after.tap.touching && after.tap.start_time == Some(now)
            &&& after.tap.button_down == s.tap.button_down
            &&& after.tap.drag_active <==> s.tap.button_down is Some && s.tap.release_since is Some
            &&& s.tap.button_down is Some ==> after.tap.release_since is None
            &&& after.tap.emitted <==> after.tap.drag_active || s.arbitration.suppressed
                || arbitrated
            &&& after.motion.last_x is None && after.motion.last_y is None
        },
        value == 0 && s.tap.drag_active && s.tap.button_down is Some && !s.hold.active
            && !s.pinch.active && !s.drag.button_down ==> {
            &&& reported.len() == out.len() + 1
            &&& reported.drop_last() == out
            &&& tells_button(
                reported.last(),
                dev.id,
                time_usec,
                s.tap.button_down->0 as int,
                false,
            )
            &&& after.tap.button_down is None && !after.tap.drag_active
        },
{
    reveal(TouchState::processed);
    if reported.len() == out.len() + 1 {
        assert(reported.drop_last() =~= out);
    }
}

/// The finger keys say how many fingers there are: 0x14d two, 0x14e three,
/// 0x14f four; one fewer when they come up. A tap counts the most.
pub proof fn law_finger_keys_count_fingers(
    s: TouchState,
    dev: LibinputDevice,
    ev: InputEvent,
    stick: Option<DeviceId>,
    time_usec: u64,
    now: u64,
    tap_enabled: bool,
    dwt_active: bool,
    arbitrated: bool,
    out: Seq<LibinputEvent>,
    after: TouchState,
    reported: Seq<LibinputEvent>,
    end: FrameEnd,
)
    requires
        s.wf(),
        ev.kind == 1 && 0x14d <= ev.code <= 0x14f,
        s.processed(
            dev,
            ev,
            stick,
            time_usec,
            now,
            tap_enabled,
            dwt_active,
            arbitrated,
            out,
            after,
            reported,
            end,
        ),
    ensures
        ({
            let n = ev.code - 0x14d + if ev.value != 0 {
                2int
            } else {
                1
            };
            &&& reported == out
            &&& after.tap.fingers == n
            &&& after.tap.tap_fingers == (if n > s.tap.tap_fingers {
                n
            } else {
                s.tap.tap_fingers as int
            })
            &&& after.contacts_changed
            &&& after.slots@ == s.slots@
        }),
{
    reveal(TouchState::processed);
}

// ---------------------------------------------------------------------------
// Clicks
// ---------------------------------------------------------------------------
/// A physical click with no finger in a software button is the left button for
/// one finger, the right one for two and the middle one for more. Where it was
/// clicked is forgotten only when the button comes up, which it does as the
/// same button of the same device.
pub proof fn law_clicks_count_fingers(
    s: TouchState,
    dev: LibinputDevice,
    stick: Option<DeviceId>,
    time_usec: u64,
    now: u64,
    tap_enabled: bool,
    dwt_active: bool,
    arbitrated: bool,
    out: Seq<LibinputEvent>,
    after: TouchState,
    reported: Seq<LibinputEvent>,
    end: FrameEnd,
    value: i32,
)
    requires
        s.wf(),
        0 <= value <= 1,
        s.processed(
            dev,
            InputEvent { kind: 1, code: 0x110, value },
            stick,
            time_usec,
            now,
            tap_enabled,
            dwt_active,
            arbitrated,
            out,
            after,
            reported,
            end,
        ),
    ensures
        value == 1 && s.click.button is Some ==> reported == out && after.click == s.click,
        value == 0 && s.click.button is None ==> reported == out && after.click == s.click,
        value == 1 && s.click.button is None && (s.motion.last_x is None || s.motion.last_y is None)
            ==> {
            let button: int = if s.tap.fingers == 2 {
                0x111
            } else if s.tap.fingers >= 3 {
                0x112
            } else {
                0x110
            };
            &&& reported.len() == out.len() + 1
            &&& reported.drop_last() == out
            &&& tells_button(reported.last(), dev.id, time_usec, button, true)
            &&& after.click.button is Some && after.click.button->0 == button
            &&& after.click.device == Some(dev.id)
        },
        value == 0 && s.click.button is Some && (s.click.button->0 == 0x110
            || s.click.button->0 == 0x111 || s.click.button->0 == 0x112) ==> {
            &&& reported.len() == out.len() + 1
            &&& reported.drop_last() == out
            &&& tells_button(
                reported.last(),
                match s.click.device {
                    Some(owner) => owner,
                    None => dev.id,
                },
                time_usec,
                s.click.button->0 as int,
                false,
            )
            &&& after.click.button is None && after.click.device is None
        },
        after.tap.fingers == s.tap.fingers && after.slots@ == s.slots@,
{
    reveal(TouchState::processed);
    if reported.len() == out.len() + 1 {
        assert(reported.drop_last() =~= out);
    }
}

/// Software buttons: a click in the lower right corner is the right button,
/// however many fingers there are; on pads with buttons along the upper edge a
/// click there is left, middle or right by its third, and belongs to the
/// pointing stick.
pub proof fn law_clicks_have_places(
    m: TouchMotion,
    fingers: u32,
    topbuttonpad: bool,
    device: DeviceId,
    stick: Option<DeviceId>,
    x: i32,
    y: i32,
    width: i32,
    height: i32,
)
    requires
        m.last_x == Some(x) && m.last_y == Some(y),
        m.x_range == Some((0i32, width)) && m.y_range == Some((0i32, height)),
        0 < width < 0x1000_0000 && 0 < height < 0x1000_0000,
        0 <= x <= width && 0 <= y <= height,
    ensures
        ({
            let target = m.click_target(fingers, topbuttonpad, device, stick);
            let top = topbuttonpad && 5 * y <= height;
            &&& top ==> target.1 == (match stick {
                Some(owner) => owner,
                None => device,
            })
            &&& top && x < width / 3 ==> target.0 == 0x110
            &&& top && width / 3 <= x < (width / 3) * 2 ==> target.0 == 0x112
            &&& top && x >= (width / 3) * 2 ==> target.0 == 0x111
            &&& !(topbuttonpad && y <= height / 5) ==> target.1 == device
            &&& !(topbuttonpad && y <= height / 5) && x >= width * 2 / 3 && y >= height * 4 / 5
                ==> target.0 == 0x111
            &&& !(topbuttonpad && y <= height / 5) && !(x >= width * 2 / 3 && y >= height * 4 / 5)
                ==> target.0 == (if fingers == 2 {
                0x111int
            } else if fingers >= 3 {
                0x112
            } else {
                0x110
            })
        }),
{
}

/// A touchpad that is switched off clicks only along its upper edge and only
/// for the pointing stick; a button that went down there comes up there.
pub proof fn law_upper_buttons_serve_the_stick(
    s: TouchState,
    ev: InputEvent,
    device: DeviceId,
    stick: Option<DeviceId>,
    time_usec: u64,
    out: Seq<LibinputEvent>,
)
    requires
        0 <= ev.value <= 1,
    ensures
        ({
            let step = s.top_click(ev, device, stick, time_usec, out);
            let is_left = ev.kind == 1 && ev.code == 0x110;
            &&& !is_left || (ev.value == 1 && stick is None) ==> step.out == out && step.click
                == s.click
            &&& step.out != out ==> step.out.len() == out.len() + 1 && step.out.drop_last() == out
                && step.out.last().payload is PointerButton
            &&& is_left && ev.value == 1 && step.out != out ==> {
                &&& step.click.button is Some && step.click.device == stick
                &&& tells_button(
                    step.out.last(),
                    stick->0,
                    time_usec,
                    step.click.button->0 as int,
                    true,
                )
            }
            &&& is_left && ev.value == 0 && s.click.button is Some ==> {
                &&& step.click.button is None
                &&& tells_button(
                    step.out.last(),
                    match s.click.device {
                        Some(owner) => owner,
                        None => device,
                    },
                    time_usec,
                    s.click.button->0 as int,
                    false,
                )
            }
        }),
{
    let step = s.top_click(ev, device, stick, time_usec, out);
    if step.out.len() == out.len() + 1 {
        assert(step.out.drop_last() =~= out);
    }
}

// ---------------------------------------------------------------------------
// Drags with several fingers
// ---------------------------------------------------------------------------
/// Dragging takes three fingers where it is set to 1 and four where it is set
/// to 2. They have to rest for 80 milliseconds; then the swipe that they might
/// have been is cancelled, and the left button goes down.
pub proof fn law_drags_press_the_left_button(
    d: DragState,
    swipe: SwipeState,
    device: DeviceId,
    time_usec: u64,
    now: u64,
    n: int,
    enabled: u32,
    moved: bool,
    out: Seq<LibinputEvent>,
    since: u64,
)
    requires
        d.candidate_since == Some(since),
        since <= now,
        d.candidate_time_usec <= time_usec,
        !d.button_down,
        0 <= n <= 512,
    ensures
        ({
            let wanted = drag_fingers_spec(enabled);
            let takes = (enabled == 1 && n == 3) || (enabled == 2 && n == 4);
            let starts = takes && (now - since >= 80_000_000 || time_usec - d.candidate_time_usec
                >= 80_000);
            let after = d.carried(time_usec, now, n, wanted, moved);
            let reported = d.carried_events(
                swipe,
                device,
                time_usec,
                now,
                n,
                wanted,
                moved,
                out,
            );
            let k: int = if swipe.active {
                0
            } else {
                1
            };
            &&& !starts ==> after == d && reported == out
            &&& starts ==> {
                &&& after.active && after.button_down && after.candidate_since is None
                &&& reported.len() == out.len() + k + 2
                &&& forall|i: int| 0 <= i < out.len() ==> #[trigger] reported[i] == out[i]
                &&& k == 1 ==> reported[out.len() as int].payload is GestureSwipeBegin
                    && tells_gesture(
                    reported[out.len() as int],
                    LibinputEventType::LIBINPUT_EVENT_GESTURE_SWIPE_BEGIN,
                    reported[out.len() as int].payload->GestureSwipeBegin_0,
                    device,
                    time_usec,
                    n,
                )
                &&& reported[out.len() + k].payload is GestureSwipeEnd
                &&& tells_gesture(
                    reported[out.len() + k],
                    LibinputEventType::LIBINPUT_EVENT_GESTURE_SWIPE_END,
                    reported[out.len() + k].payload->GestureSwipeEnd_0,
                    device,
                    time_usec,
                    if swipe.active {
                        swipe.fingers as int
                    } else {
                        n
                    },
                )
                &&& reported[out.len() + k].payload->GestureSwipeEnd_0.cancelled
                &&& tells_button(reported.last(), device, time_usec, 0x110, true)
            }
        }),
{
    reveal(DragState::carried);
    reveal(DragState::carried_events);
    reveal(SwipeState::taken_over);
}

/// While fingers drag, their movement moves the pointer: across in `dx`, down
/// in `dy`, and nothing else is made of it.
pub proof fn law_drags_move_the_pointer(
    s: TouchState,
    dev: LibinputDevice,
    at: FrameTime,
    arbitrated: bool,
    out: Seq<LibinputEvent>,
    after: TouchState,
    reported: Seq<LibinputEvent>,
    action: FrameAction,
)
    requires
        s.wf(),
        !s.arbitration.suppressed && !s.contacts_changed && !s.pinch.active,
        s.drag.active && s.drag.button_down,
        s.pad_finished(dev, at, false, arbitrated, out, after, reported, action),
    ensures
        ({
            let f = s.facts(dev);
            let e = reported.last();
            &&& f.dx == 0 && f.dy == 0 ==> reported == out
            &&& f.dx != 0 || f.dy != 0 ==> {
                &&& reported.len() == out.len() + 1
                &&& reported.drop_last() == out
                &&& e.device == dev.id
                &&& e.event_type == LibinputEventType::LIBINPUT_EVENT_POINTER_MOTION
                &&& e.payload is PointerMotion
                &&& e.payload->PointerMotion_0.time_usec == at.time_usec
                &&& e.payload->PointerMotion_0.dx == f.dx
                &&& e.payload->PointerMotion_0.dy == f.dy
                &&& e.payload->PointerMotion_0.dx_unaccel == f.dx
                &&& e.payload->PointerMotion_0.dy_unaccel == f.dy
                &&& e.payload->PointerMotion_0.units == MotionUnits::TouchpadDrag
            }
            &&& action == FrameAction::Nothing
            &&& after.drag == s.drag
            &&& after.tap.emitted
        }),
{
    reveal(TouchState::pad_finished);
    reveal(DragState::carried);
    reveal(DragState::carried_events);
    reveal(SwipeState::taken_over);
    if reported.len() == out.len() + 1 {
        assert(reported.drop_last() =~= out);
    }
}

/// A drag whose fingers are up lets go of the button after 700 milliseconds,
/// or when other fingers move; if as many fingers come back before, it goes
/// on.
pub proof fn law_drags_let_go(
    d: DragState,
    swipe: SwipeState,
    device: DeviceId,
    at: FrameTime,
    n: int,
    wanted: int,
    out: Seq<LibinputEvent>,
    since: u64,
)
    requires
        d.button_down && !d.active,
        d.release_since == Some(since) && since <= at.now,
        3 <= wanted <= 4,
        0 <= n <= 512,
    ensures
        ({
            let over = at.now - since >= 700_000_000;
            let expired = d.expired(at.now);
            let told = d.expired_events(device, at, out);
            &&& over ==> !expired.button_down && told.len() == out.len() + 1 && told.drop_last()
                == out && tells_button(told.last(), device, at.time_usec, 0x110, false)
            &&& !over ==> expired == d && told == out
        }),
        n != wanted ==> {
            let after = d.carried(at.time_usec, at.now, n, wanted, true);
            let told = d.carried_events(
                swipe,
                device,
                at.time_usec,
                at.now,
                n,
                wanted,
                true,
                out,
            );
            !after.button_down && told.len() == out.len() + 1 && told.drop_last() == out
                && tells_button(told.last(), device, at.time_usec, 0x110, false)
        },
        n == wanted ==> {
            let after = d.recounted(at.time_usec, at.now, n, wanted);
            after.active && after.button_down && after.release_since is None
        },
{
    reveal(DragState::carried);
    reveal(DragState::carried_events);
    reveal(DragState::recounted);
    let told = d.expired_events(device, at, out);
    if told.len() == out.len() + 1 {
        assert(told.drop_last() =~= out);
    }
    let other = d.carried_events(swipe, device, at.time_usec, at.now, n, wanted, true, out);
    if other.len() == out.len() + 1 {
        assert(other.drop_last() =~= out);
    }
}

/// The fingers of a drag that all come up leave the button down for the time
/// being; a drag that is waited for begins to wait.
pub proof fn law_drags_wait_for_their_fingers(
    d: DragState,
    time_usec: u64,
    now: u64,
    wanted: int,
)
    requires
        3 <= wanted <= 4,
    ensures
        d.active && d.button_down ==> {
            let after = d.recounted(time_usec, now, 0, wanted);
            !after.active && after.button_down && after.release_since == Some(now)
        },
        !d.button_down && d.candidate_since is None ==> {
            let after = d.recounted(time_usec, now, wanted, wanted);
            after.candidate_since == Some(now) && after.candidate_time_usec == time_usec
                && !after.button_down && after.active == d.active
        },
        !d.button_down ==> d.recounted(time_usec, now, 0, wanted).candidate_since is None,
{
    reveal(DragState::recounted);
}

// ---------------------------------------------------------------------------
// Fingers that come and leave
// ---------------------------------------------------------------------------
/// When fingers come or leave, movement starts over: what is measured from is
/// where they are now. Scrolling ends unless one or two fingers that count
/// stay, a swipe ends with fewer than three, and a pinch is measured from here
/// if there are two.
pub proof fn law_new_fingers_start_over(
    s: TouchState,
    dev: LibinputDevice,
    at: FrameTime,
    arbitrated: bool,
    dwt_active: bool,
    out: Seq<LibinputEvent>,
    after: TouchState,
    reported: Seq<LibinputEvent>,
    action: FrameAction,
)
    requires
        s.wf(),
        s.contacts_changed && !s.arbitration.suppressed,
        dev.drag_3fg_enabled == 0,
        s.pad_finished(dev, at, dwt_active, arbitrated, out, after, reported, action),
    ensures
        ({
            let areas = dev.click_method == 1;
            let n = finger_count_spec(after.slots@, areas, s.tap.fingers);
            let ends = n == 0 || n > 2 || eligible_slots(after.slots@, areas) == 0;
            let stops: int = if !ends {
                0
            } else {
                (if s.scroll.vertical {
                    2int
                } else {
                    0
                }) + (if s.scroll.horizontal {
                    2int
                } else {
                    0
                })
            };
            let swipe_ends = s.swipe.active && n < 3;
            &&& action == FrameAction::ResetRemainders
            &&& !after.contacts_changed
            &&& after.motion.dx == 0 && after.motion.dy == 0
            &&& after.centroid == centroid_spec(after.slots@, areas)
            &&& ends ==> !after.scroll.vertical && !after.scroll.horizontal
            &&& !ends ==> after.scroll == s.scroll
            &&& after.swipe.active == (s.swipe.active && n >= 3)
            &&& reported.len() == out.len() + stops + if swipe_ends {
                1int
            } else {
                0
            }
            &&& swipe_ends ==> reported.last().payload is GestureSwipeEnd && tells_gesture(
                reported.last(),
                LibinputEventType::LIBINPUT_EVENT_GESTURE_SWIPE_END,
                reported.last().payload->GestureSwipeEnd_0,
                dev.id,
                at.time_usec,
                s.swipe.fingers as int,
            ) && !reported.last().payload->GestureSwipeEnd_0.cancelled
            &&& !s.pinch.active && n >= 2 && span_spec(after.slots@) is Some ==> after.pinch.base
                == span_spec(after.slots@)->0
            &&& s.pinch.active ==> after.pinch == s.pinch
            &&& after.slots@.len() == s.slots@.len()
            &&& forall|i: int|
                0 <= i < s.slots@.len() ==> (#[trigger] after.slots@[i]).x == s.slots@[i].x
                    && after.slots@[i].y == s.slots@[i].y && after.slots@[i].active
                    == s.slots@[i].active
        }),
{
    reveal(TouchState::pad_finished);
    reveal(TouchState::recount_events);
    reveal(SwipeState::recounted);
    reveal(PinchState::recounted);
    reveal(finger_axis);
    crate::laws::fingers::law_finger_scrolling_ends(s.scroll, dev.id, at.time_usec, out);
}

/// Fingers that come down in the lowest tenth of a pad with software buttons
/// do not count towards gestures; where they come down decides, once.
pub proof fn law_button_areas_are_left_out(slot: MtSlot, areas: bool, height: i32)
    requires
        0 < height < 0x1000_0000,
    ensures
        ({
            let after = classified(slot, areas, button_top_spec(Some((0i32, height))));
            &&& slot.active && slot.classification_pending ==> {
                &&& !after.classification_pending
                &&& after.excluded == (areas && slot.y >= height * 9 / 10)
            }
            &&& !(slot.active && slot.classification_pending) ==> after == slot
            &&& after.x == slot.x && after.y == slot.y && after.active == slot.active
        }),
{
}

/// While someone types, a touchpad moves, scrolls and swipes nothing, and its
/// touch is no tap any more.
pub proof fn law_typing_stills_the_touchpad(
    s: TouchState,
    dev: LibinputDevice,
    at: FrameTime,
    arbitrated: bool,
    out: Seq<LibinputEvent>,
    after: TouchState,
    reported: Seq<LibinputEvent>,
    action: FrameAction,
)
    requires
        s.wf(),
        !s.contacts_changed,
        s.pad_finished(dev, at, true, arbitrated, out, after, reported, action),
    ensures
        reported == out,
        action == FrameAction::ResetRemainders,
        after.motion.dx == 0 && after.motion.dy == 0,
        !s.arbitration.suppressed ==> after.tap.emitted,
        after.swipe == s.swipe && after.pinch == s.pinch && after.drag == s.drag,
{
    reveal(TouchState::pad_finished);
}

/// Pads that follow one finger move by what its coordinates changed: 0 is
/// across and 1 is down. After 50 milliseconds of rest a movement starts over.
pub proof fn law_coordinates_add_up_to_movement(
    m: TouchMotion,
    now: u64,
    value: i32,
    last: i32,
    since: u64,
)
    requires
        m.last_movement == Some(since) && since <= now,
    ensures
        m.last_x == Some(last) && now - since <= 50_000_000 && i32::MIN <= m.dx + value - last
            <= i32::MAX ==> m.followed(now, 0, value).dx == m.dx + value - last,
        m.last_y == Some(last) && now - since <= 50_000_000 && i32::MIN <= m.dy + value - last
            <= i32::MAX ==> m.followed(now, 1, value).dy == m.dy + value - last,
        now - since > 50_000_000 ==> m.followed(now, 0, value).dx == m.dx && m.followed(
            now,
            1,
            value,
        ).dy == m.dy,
        m.followed(now, 0, value).dy == m.dy && m.followed(now, 0, value).last_y == m.last_y,
        m.followed(now, 1, value).dx == m.dx && m.followed(now, 1, value).last_x == m.last_x,
        m.followed(now, 0, value).last_x == Some(value) && m.followed(now, 1, value).last_y == Some(
            value,
        ),
{
}

/// The areas of the software buttons are the lowest tenth of a touchpad.
pub proof fn law_buttons_are_in_the_lowest_tenth(minimum: i32, maximum: i32)
    requires
        minimum <= maximum,
    ensures
        ({
            let top = crate::backend::slots::button_top_spec(Some((minimum, maximum)));
            &&& top is Some
            &&& 10 * (top->0 - minimum) <= 9 * (maximum - minimum) < 10 * (top->0 - minimum) + 10
        }),
        crate::backend::slots::button_top_spec(None) is None,
{
}

} // verus!
