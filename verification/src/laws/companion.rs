//! The companion's touchpads: how touches become a pointer, a wheel and
//! clicks.
use vstd::prelude::*;
use crate::codes::InputEvent;
use crate::device::{
    motion_finished, scroll_finished, suppresses, DeviceWrapper, FrameWork, MotionTracking,
};

verus! {

/// Positions that follow each other without a pause add up to movement: across
/// under code 0, down under code 1, each on its own. The first position after
/// a pause of more than 50 milliseconds only says where the finger is.
pub proof fn law_positions_add_up(m: MotionTracking, now: u64, code: u16, value: i32)
    requires
        m.has_room(now, code, value),
    ensures
        ({
            let after = m.moved(now, code, value);
            let stalled = m.last_movement is Some && now > m.last_movement->0 && now
                - m.last_movement->0 > 50_000_000;
            &&& code == 0 ==> {
                &&& after.last_x == Some(value)
                &&& after.dy == m.dy
                &&& !stalled && m.last_x is Some ==> after.dx - m.dx == value - m.last_x->0
                &&& stalled || m.last_x is None ==> after.dx == m.dx
                &&& !stalled ==> after.last_y == m.last_y
                &&& stalled ==> after.last_y is None
                &&& after.last_movement == Some(now)
            }
            &&& code == 1 ==> {
                &&& after.last_y == Some(value)
                &&& after.dx == m.dx
                &&& !stalled && m.last_y is Some ==> after.dy - m.dy == value - m.last_y->0
                &&& stalled || m.last_y is None ==> after.dy == m.dy
                &&& !stalled ==> after.last_x == m.last_x
                &&& stalled ==> after.last_x is None
                &&& after.last_movement == Some(now)
            }
            &&& code > 1 ==> after == m
        }),
{
}

/// The movement of one finger moves the pointer as it is, that of two fingers
/// scrolls by how far they moved down, that of more fingers does nothing; that
/// of an ignored touch is forgotten. A frame leaves nothing over.
pub proof fn law_one_finger_points_two_scroll(d: DeviceWrapper)
    ensures
        ({
            let moved = d.motion.dx != 0 || d.motion.dy != 0;
            let work = d.frame_work();
            let after = d.framed();
            &&& d.touch.suppressed ==> work == FrameWork::Forget
            &&& !d.touch.suppressed && !moved ==> work == FrameWork::Done
            &&& !d.touch.suppressed && moved && d.touch.fingers <= 1 ==> work is Move
                && work->Move_dx == d.motion.dx && work->Move_dy == d.motion.dy
            &&& !d.touch.suppressed && moved && d.touch.fingers == 2 ==> work is Scroll
                && work->Scroll_dy == d.motion.dy
            &&& d.touch.fingers > 2 && !d.touch.suppressed ==> work == FrameWork::Done
            &&& after.motion.dx == 0 && after.motion.dy == 0
            &&& after.motion.last_x == d.motion.last_x && after.motion.last_y == d.motion.last_y
            &&& after.touch.fingers == d.touch.fingers && after.touch.active == d.touch.active
            &&& moved ==> after.touch.tap_emitted
            &&& !moved && !d.touch.suppressed ==> after.touch.tap_emitted == d.touch.tap_emitted
            &&& d.frame_closes() == (if d.touch.suppressed {
                moved
            } else {
                !moved || d.touch.fingers > 2
            })
        }),
{
}

/// Movement is written across (0) before down (1), each as it is, nothing of
/// what is zero, and then the end of the frame.
pub proof fn law_movement_is_written_as_it_is(
    ev: InputEvent,
    x: i32,
    y: i32,
    out: Seq<InputEvent>,
)
    ensures
        ({
            let written = motion_finished(ev, x, y, out);
            let first = written[out.len() as int];
            let second = written[out.len() + 1int];
            &&& written.last() == ev
            &&& forall|i: int| 0 <= i < out.len() ==> #[trigger] written[i] == out[i]
            &&& x != 0 && y != 0 ==> {
                &&& written.len() == out.len() + 3
                &&& first.kind == 2 && first.code == 0 && first.value == x
                &&& second.kind == 2 && second.code == 1 && second.value == y
            }
            &&& x != 0 && y == 0 ==> {
                &&& written.len() == out.len() + 2
                &&& first.kind == 2 && first.code == 0 && first.value == x
            }
            &&& x == 0 && y != 0 ==> {
                &&& written.len() == out.len() + 2
                &&& first.kind == 2 && first.code == 1 && first.value == y
            }
            &&& x == 0 && y == 0 ==> written.len() == out.len() + 1
        }),
{
}

/// Scrolling is written as clicks of the vertical wheel (8), turned round by
/// natural scrolling, and then the end of the frame.
pub proof fn law_scrolling_is_written_as_clicks(
    ev: InputEvent,
    clicks: i32,
    out: Seq<InputEvent>,
)
    requires
        clicks > i32::MIN,
    ensures
        ({
            let plain = scroll_finished(ev, false, clicks, out);
            let natural = scroll_finished(ev, true, clicks, out);
            let at = out.len() as int;
            &&& plain.last() == ev && natural.last() == ev
            &&& clicks == 0 ==> plain == out.push(ev) && natural == out.push(ev)
            &&& clicks != 0 ==> {
                &&& plain.len() == at + 2 && natural.len() == at + 2
                &&& plain[at].kind == 2 && plain[at].code == 8 && plain[at].value == clicks
                &&& natural[at].kind == 2 && natural[at].code == 8 && natural[at].value == -clicks
            }
        }),
{
}

/// A touch begins with one finger and no movement; it is ignored if it begins
/// while typing. It ends with none.
pub proof fn law_touches_begin_and_end(d: DeviceWrapper, now: u64, typing: bool, value: i32)
    ensures
        ({
            let after = d.keyed(now, typing, 0x14a, value);
            &&& value != 0 ==> {
                &&& after.touch.active && after.touch.fingers == 1 && after.touch.start_time == Some(
                    now,
                )
                &&& after.touch.suppressed == typing && after.touch.tap_emitted == typing
                &&& after.motion.last_x is None && after.motion.last_y is None
            }
            &&& value == 0 ==> {
                &&& !after.touch.active && after.touch.fingers == 0 && after.touch.start_time is None
                &&& !after.touch.suppressed
                &&& after.motion.last_x is None && after.motion.last_y is None && after.motion.dx
                    == 0 && after.motion.dy == 0
            }
            &&& after.active_click_button == d.active_click_button
        }),
{
}

/// A touch that ends within 250 milliseconds, moved nowhere and was not
/// ignored is a tap: the left button (0x110) goes down and comes up, with the
/// end of a frame between. Any other touch clicks nothing as it ends.
pub proof fn law_short_touches_tap(d: DeviceWrapper, now: u64, enabled: bool, out: Seq<InputEvent>)
    requires
        d.touch.start_time is Some,
    ensures
        ({
            let written = d.keyed_events(now, enabled, 0x14a, 0, out);
            let start = d.touch.start_time->0;
            let short = now <= start || now - start < 250_000_000;
            let at = out.len() as int;
            &&& enabled && short && !d.touch.tap_emitted && !d.touch.suppressed ==> {
                &&& written.len() == at + 3
                &&& written.take(at) == out
                &&& written[at].kind == 1 && written[at].code == 0x110 && written[at].value == 1
                &&& written[at + 1].kind == 0 && written[at + 1].code == 0 && written[at + 1].value
                    == 0
                &&& written[at + 2].kind == 1 && written[at + 2].code == 0x110 && written[at
                    + 2].value == 0
            }
            &&& !(enabled && short && !d.touch.tap_emitted && !d.touch.suppressed) ==> written
                == out
            &&& forall|value: i32|
                value != 0 ==> #[trigger] d.keyed_events(now, enabled, 0x14a, value, out) == out
        }),
{
    let at = out.len() as int;
    assert(d.keyed_events(now, enabled, 0x14a, 0, out).take(at) =~= out);
}

/// A click is the left (0x110), right (0x111) or middle button (0x112) for one,
/// two or three fingers; what went down is what comes up. The other buttons
/// are themselves.
pub proof fn law_clicks_are_buttons_by_fingers(
    d: DeviceWrapper,
    now: u64,
    enabled: bool,
    typing: bool,
    out: Seq<InputEvent>,
)
    ensures
        ({
            let pressed = d.keyed_events(now, enabled, 0x110, 1, out);
            let down = d.keyed(now, typing, 0x110, 1);
            let released = down.keyed_events(now, enabled, 0x110, 0, out);
            let code = if d.touch.fingers == 2 {
                0x111u16
            } else if d.touch.fingers == 3 {
                0x112u16
            } else {
                0x110u16
            };
            &&& pressed.len() == out.len() + 1 && pressed.last().kind == 1 && pressed.last().value
                == 1 && pressed.last().code == code
            &&& down.active_click_button == Some(code)
            &&& released.len() == out.len() + 1 && released.last().kind == 1
                && released.last().value == 0 && released.last().code == code
            &&& down.keyed(now, typing, 0x110, 0).active_click_button is None
        }),
        forall|code: u16, value: i32|
            (code == 0x111 || code == 0x112) ==> (#[trigger] d.keyed_events(
                now,
                enabled,
                code,
                value,
                out,
            )) == out.push(InputEvent { kind: 1, code, value }),
        forall|code: u16, value: i32|
            code != 0x110 && code != 0x111 && code != 0x112 && code != 0x14a
                ==> (#[trigger] d.keyed_events(now, enabled, code, value, out)) == out,
{
}

/// The keys for two (0x14d) and three (0x14e) fingers say how many there are.
pub proof fn law_finger_keys_count(d: DeviceWrapper, now: u64, typing: bool, value: i32)
    ensures
        d.keyed(now, typing, 0x14d, value).touch.fingers == (if value != 0 {
            2u32
        } else {
            1u32
        }),
        d.keyed(now, typing, 0x14e, value).touch.fingers == (if value != 0 {
            3u32
        } else {
            2u32
        }),
        forall|code: u16|
            code != 0x14a && code != 0x14d && code != 0x14e ==> (#[trigger] d.keyed(
                now,
                typing,
                code,
                value,
            )).touch == d.touch,
{
}

/// Typing less than half a second ago makes a new touch ignored, where that is
/// wanted; nothing else does.
pub proof fn law_typing_ignores_touches(wanted: bool, since: Option<u64>)
    ensures
        suppresses(wanted, since) <==> wanted && since is Some && since->0 < 500_000_000,
{
}

} // verus!
