//! Touchpads: where fingers go, and what their movement is made into.
use vstd::prelude::*;
use crate::backend::gestures::{
    finger_axis, finger_stops, DragState, FingerScroll, HoldState, SwipeState,
};
use crate::backend::measure::{differ_by_more, law_squares_compare_lengths, spread_spec, square};
use crate::backend::slots::{
    centroid_spec, count_slots, eligible, finger_count_spec, position_sum, rounded, span_spec,
    MtSlot,
};
use crate::backend::tablet::FrameTime;
use crate::backend::touchpad::{FrameAction, TouchState};
use crate::ffi_types::{
    DeviceId, GestureEvent, LibinputDevice, LibinputEvent, LibinputEventType, Span,
};

verus! {

// ---------------------------------------------------------------------------
// The centre of the fingers
// ---------------------------------------------------------------------------
/// Whether a contact counts: it is there, and not in a software button that is
/// left out.
pub open spec fn counts(slot: MtSlot, areas: bool) -> bool {
    slot.active && !(areas && slot.excluded)
}

/// How many of the first `n` contacts count.
pub open spec fn number(slots: Seq<MtSlot>, n: int, areas: bool) -> int
    decreases n,
{
    if n <= 0 {
        0
    } else {
        number(slots, n - 1, areas) + if counts(slots[n - 1], areas) {
            1int
        } else {
            0
        }
    }
}

/// How far across the first `n` contacts are, all together.
pub open spec fn across(slots: Seq<MtSlot>, n: int, areas: bool) -> int
    decreases n,
{
    if n <= 0 {
        0
    } else {
        across(slots, n - 1, areas) + if counts(slots[n - 1], areas) {
            slots[n - 1].x as int
        } else {
            0
        }
    }
}

/// How far down the first `n` contacts are, all together.
pub open spec fn down(slots: Seq<MtSlot>, n: int, areas: bool) -> int
    decreases n,
{
    if n <= 0 {
        0
    } else {
        down(slots, n - 1, areas) + if counts(slots[n - 1], areas) {
            slots[n - 1].y as int
        } else {
            0
        }
    }
}

proof fn lemma_sums(slots: Seq<MtSlot>, n: int, areas: bool)
    requires
        0 <= n <= slots.len(),
    ensures
        position_sum(slots, n, areas) == (across(slots, n, areas), down(slots, n, areas)),
        count_slots(slots, n, |slot: MtSlot| eligible(slot, areas)) == number(slots, n, areas),
        0 <= number(slots, n, areas) <= n,
        -0x8000_0000 * number(slots, n, areas) <= across(slots, n, areas) <= 0x8000_0000 * number(
            slots,
            n,
            areas,
        ),
        -0x8000_0000 * number(slots, n, areas) <= down(slots, n, areas) <= 0x8000_0000 * number(
            slots,
            n,
            areas,
        ),
    decreases n,
{
    if n > 0 {
        lemma_sums(slots, n - 1, areas);
    }
}

proof fn lemma_rounding(total: int, n: int)
    requires
        n > 0,
    ensures
        -n <= 2 * (n * rounded(total * n, n * n) - total) <= n,
{
    let size = if total >= 0 {
        total
    } else {
        -total
    };
    let unit = n * n;
    let r = (2 * (size * n) + unit) / (2 * unit);
    assert(unit > 0) by (nonlinear_arith)
        requires
            n > 0,
            unit == n * n,
    ;
    assert(size * n >= 0) by (nonlinear_arith)
        requires
            n > 0,
            size >= 0,
    ;
    assert(total * n == if total >= 0 {
        size * n
    } else {
        -(size * n)
    }) by (nonlinear_arith)
        requires
            size == if total >= 0 {
                total
            } else {
                -total
            },
    ;
    assert(total * n >= 0 <==> total >= 0) by (nonlinear_arith)
        requires
            n > 0,
    ;
    assert(2 * unit * r <= 2 * (size * n) + unit < 2 * unit * r + 2 * unit) by (nonlinear_arith)
        requires
            unit > 0,
            r == (2 * (size * n) + unit) / (2 * unit),
    ;
    assert(2 * (n * r) <= 2 * size + n && 2 * size + n < 2 * (n * r) + 2 * n) by (nonlinear_arith)
        requires
            n > 0,
            unit == n * n,
            2 * unit * r <= 2 * (size * n) + unit,
            2 * (size * n) + unit < 2 * unit * r + 2 * unit,
    ;
    assert(n * (-r) == -(n * r)) by (nonlinear_arith);
    if total >= 0 {
        assert(rounded(total * n, n * n) == r);
    } else {
        assert(rounded(total * n, n * n) == -r);
    }
}

proof fn lemma_exact(n: int, h: int, r: int)
    requires
        n > 0,
        -n <= 2 * (n * r - n * h) <= n,
    ensures
        r == h,
{
    assert(n * r - n * h == n * (r - h)) by (nonlinear_arith);
    assert(r == h) by (nonlinear_arith)
        requires
            n > 0,
            -n <= 2 * (n * (r - h)) <= n,
    ;
}

/// The centre of the fingers moves by the mean of their movements, to the
/// nearest whole unit: across by what they moved across, down by what they
/// moved down.
pub proof fn law_the_centre_moves_by_the_mean(
    earlier: Seq<MtSlot>,
    now: Seq<MtSlot>,
    areas: bool,
)
    requires
        earlier.len() == now.len() <= 256,
        forall|i: int|
            0 <= i < now.len() ==> counts(#[trigger] now[i], areas) == counts(earlier[i], areas),
        number(now, now.len() as int, areas) > 0,
        ({
            let n = number(now, now.len() as int, areas);
            let h = across(now, now.len() as int, areas) - across(
                earlier,
                now.len() as int,
                areas,
            );
            let v = down(now, now.len() as int, areas) - down(earlier, now.len() as int, areas);
            &&& -0x7fff_fffe * n <= h <= 0x7fff_fffe * n
            &&& -0x7fff_fffe * n <= v <= 0x7fff_fffe * n
        }),
    ensures
        ({
            let n = number(now, now.len() as int, areas);
            let h = across(now, now.len() as int, areas) - across(
                earlier,
                now.len() as int,
                areas,
            );
            let v = down(now, now.len() as int, areas) - down(earlier, now.len() as int, areas);
            let moved = centroid_spec(now, areas)->0.shift_spec(centroid_spec(earlier, areas)->0);
            &&& centroid_spec(now, areas) is Some && centroid_spec(earlier, areas) is Some
            &&& -n <= 2 * (n * moved.0 - h) <= n
            &&& -n <= 2 * (n * moved.1 - v) <= n
        }),
{
    let len = now.len() as int;
    lemma_sums(now, len, areas);
    lemma_sums(earlier, len, areas);
    lemma_same_number(earlier, now, len, areas);
    let n = number(now, len, areas);
    let x = across(now, len, areas);
    let x0 = across(earlier, len, areas);
    let y = down(now, len, areas);
    let y0 = down(earlier, len, areas);
    assert(x * n - x0 * n == (x - x0) * n) by (nonlinear_arith);
    assert(y * n - y0 * n == (y - y0) * n) by (nonlinear_arith);
    lemma_rounding(x - x0, n);
    lemma_rounding(y - y0, n);
    lemma_within(x - x0, n, rounded((x - x0) * n, n * n));
    lemma_within(y - y0, n, rounded((y - y0) * n, n * n));
}

proof fn lemma_within(total: int, n: int, r: int)
    requires
        n > 0,
        -0x7fff_fffe * n <= total <= 0x7fff_fffe * n,
        -n <= 2 * (n * r - total) <= n,
    ensures
        -0x7fff_ffff <= r <= 0x7fff_ffff,
{
    assert(-0x7fff_ffff <= r <= 0x7fff_ffff) by (nonlinear_arith)
        requires
            n > 0,
            -0x7fff_fffe * n <= total <= 0x7fff_fffe * n,
            -n <= 2 * (n * r - total) <= n,
    ;
}

proof fn lemma_same_number(earlier: Seq<MtSlot>, now: Seq<MtSlot>, n: int, areas: bool)
    requires
        0 <= n <= now.len() == earlier.len(),
        forall|i: int|
            0 <= i < now.len() ==> counts(#[trigger] now[i], areas) == counts(earlier[i], areas),
    ensures
        number(earlier, n, areas) == number(now, n, areas),
    decreases n,
{
    if n > 0 {
        assert(counts(now[n - 1], areas) == counts(earlier[n - 1], areas));
        lemma_same_number(earlier, now, n - 1, areas);
    }
}

/// Whether all contacts that count moved together: `h` units to the right and
/// `v` units down.
pub open spec fn moved_together(
    earlier: Seq<MtSlot>,
    now: Seq<MtSlot>,
    areas: bool,
    h: int,
    v: int,
) -> bool {
    &&& earlier.len() == now.len()
    &&& forall|i: int|
        0 <= i < now.len() ==> counts(#[trigger] now[i], areas) == counts(earlier[i], areas) && (
        counts(now[i], areas) ==> now[i].x == earlier[i].x + h && now[i].y == earlier[i].y + v)
}

proof fn lemma_together(
    earlier: Seq<MtSlot>,
    now: Seq<MtSlot>,
    areas: bool,
    h: int,
    v: int,
    n: int,
)
    requires
        moved_together(earlier, now, areas, h, v),
        0 <= n <= now.len(),
    ensures
        across(now, n, areas) == across(earlier, n, areas) + number(now, n, areas) * h,
        down(now, n, areas) == down(earlier, n, areas) + number(now, n, areas) * v,
    decreases n,
{
    if n > 0 {
        lemma_together(earlier, now, areas, h, v, n - 1);
        assert(counts(now[n - 1], areas) == counts(earlier[n - 1], areas));
        let k = number(now, n - 1, areas);
        assert((k + 1) * h == k * h + h) by (nonlinear_arith);
        assert((k + 1) * v == k * v + v) by (nonlinear_arith);
    }
}

/// Fingers that move together move their centre as far, and the same way.
pub proof fn law_the_centre_moves_with_the_fingers(
    earlier: Seq<MtSlot>,
    now: Seq<MtSlot>,
    areas: bool,
    h: int,
    v: int,
)
    requires
        now.len() <= 256,
        moved_together(earlier, now, areas, h, v),
        number(now, now.len() as int, areas) > 0,
        -0x7fff_fffe <= h <= 0x7fff_fffe && -0x7fff_fffe <= v <= 0x7fff_fffe,
    ensures
        centroid_spec(now, areas) is Some,
        centroid_spec(earlier, areas) is Some,
        centroid_spec(now, areas)->0.shift_spec(centroid_spec(earlier, areas)->0) == (
            h as i32,
            v as i32,
        ),
{
    let len = now.len() as int;
    let n = number(now, len, areas);
    lemma_together(earlier, now, areas, h, v, len);
    assert(-0x7fff_fffe * n <= n * h <= 0x7fff_fffe * n) by (nonlinear_arith)
        requires
            n > 0,
            -0x7fff_fffe <= h <= 0x7fff_fffe,
    ;
    assert(-0x7fff_fffe * n <= n * v <= 0x7fff_fffe * n) by (nonlinear_arith)
        requires
            n > 0,
            -0x7fff_fffe <= v <= 0x7fff_fffe,
    ;
    law_the_centre_moves_by_the_mean(earlier, now, areas);
    let moved = centroid_spec(now, areas)->0.shift_spec(centroid_spec(earlier, areas)->0);
    lemma_exact(n, h, moved.0 as int);
    lemma_exact(n, v, moved.1 as int);
}

// ---------------------------------------------------------------------------
// Movement
// ---------------------------------------------------------------------------
/// A touchpad on which fingers rest or move: none came or left, nothing is
/// ignored, and neither a pinch nor a drag is under way.
pub open spec fn only_moves(s: TouchState) -> bool {
    &&& s.wf()
    &&& s.has_mt
    &&& !s.arbitration.suppressed
    &&& !s.contacts_changed
    &&& !s.pinch.active
    &&& !s.drag.active && !s.drag.button_down && s.drag.candidate_since is None
}

/// How many fingers there are: the contacts that count, and those that are
/// felt but not followed.
pub open spec fn fingers(s: TouchState, dev: LibinputDevice) -> int {
    let all = number(s.slots@, s.slots@.len() as int, false);
    number(s.slots@, s.slots@.len() as int, dev.click_method == 1) + if s.tap.fingers > all {
        s.tap.fingers - all
    } else {
        0
    }
}

proof fn lemma_fingers(s: TouchState, dev: LibinputDevice)
    requires
        s.wf(),
    ensures
        finger_count_spec(s.slots@, TouchState::button_areas(dev), s.tap.fingers) == fingers(
            s,
            dev,
        ),
        0 <= fingers(s, dev) <= 512,
{
    let n = s.slots@.len() as int;
    lemma_sums(s.slots@, n, dev.click_method == 1);
    lemma_sums(s.slots@, n, false);
    lemma_active(s.slots@, n);
}

proof fn lemma_active(slots: Seq<MtSlot>, n: int)
    requires
        0 <= n <= slots.len(),
    ensures
        count_slots(slots, n, |slot: MtSlot| slot.active) == number(slots, n, false),
    decreases n,
{
    if n > 0 {
        lemma_active(slots, n - 1);
    }
}

/// Whether an event is a gesture of a kind, with so many fingers.
pub open spec fn tells_gesture(
    event: LibinputEvent,
    event_type: LibinputEventType,
    g: GestureEvent,
    device: DeviceId,
    time_usec: u64,
    fingers: int,
) -> bool {
    &&& event.device == device
    &&& event.event_type == event_type
    &&& g.time_usec == time_usec
    &&& g.finger_count == fingers
}

proof fn lemma_frame(
    s: TouchState,
    earlier: Seq<MtSlot>,
    dev: LibinputDevice,
    h: int,
    v: int,
)
    requires
        only_moves(s),
        s.centroid == centroid_spec(earlier, dev.click_method == 1),
        moved_together(earlier, s.slots@, dev.click_method == 1, h, v),
        number(s.slots@, s.slots@.len() as int, dev.click_method == 1) > 0,
        -0x7fff_fffe <= h <= 0x7fff_fffe && -0x7fff_fffe <= v <= 0x7fff_fffe,
    ensures
        s.facts(dev).dx == h,
        s.facts(dev).dy == v,
        s.facts(dev).fingers == fingers(s, dev),
{
    law_the_centre_moves_with_the_fingers(earlier, s.slots@, dev.click_method == 1, h, v);
    lemma_fingers(s, dev);
}

/// While a swipe is under way, fingers that move to the right swipe to the
/// right and fingers that move down swipe down, as far as they moved: one
/// update, with the movement across in `dx` and the movement down in `dy`.
pub proof fn law_swipes_go_where_the_fingers_go(
    s: TouchState,
    earlier: Seq<MtSlot>,
    dev: LibinputDevice,
    at: FrameTime,
    arbitrated: bool,
    out: Seq<LibinputEvent>,
    after: TouchState,
    reported: Seq<LibinputEvent>,
    action: FrameAction,
    h: int,
    v: int,
)
    requires
        only_moves(s),
        s.swipe.active,
        !s.hold.active,
        fingers(s, dev) >= 3,
        s.centroid == centroid_spec(earlier, dev.click_method == 1),
        moved_together(earlier, s.slots@, dev.click_method == 1, h, v),
        number(s.slots@, s.slots@.len() as int, dev.click_method == 1) > 0,
        -0x7fff_fffe <= h <= 0x7fff_fffe && -0x7fff_fffe <= v <= 0x7fff_fffe,
        h != 0 || v != 0,
        s.pad_finished(dev, at, false, arbitrated, out, after, reported, action),
    ensures
        reported.len() == out.len() + 1,
        reported.drop_last() == out,
        reported.last().payload is GestureSwipeUpdate,
        ({
            let g = reported.last().payload->GestureSwipeUpdate_0;
            &&& tells_gesture(
                reported.last(),
                LibinputEventType::LIBINPUT_EVENT_GESTURE_SWIPE_UPDATE,
                g,
                dev.id,
                at.time_usec,
                s.swipe.fingers as int,
            )
            &&& g.dx == h
            &&& g.dy == v
            &&& g.pinch is None && !g.cancelled
        }),
        after.swipe == s.swipe,
        action == FrameAction::Nothing,
{
    reveal(TouchState::pad_finished);
    reveal(DragState::carried);
    reveal(DragState::carried_events);
    reveal(SwipeState::taken_over);
    reveal(SwipeState::swiped);
    reveal(SwipeState::swiped_events);
    reveal(HoldState::moved);
    reveal(HoldState::moved_events);
    lemma_frame(s, earlier, dev, h, v);
    assert(reported.drop_last() =~= out);
}

/// What the first two contacts are apart is what they were apart when the
/// fingers came down.
pub open spec fn keeps_its_span(s: TouchState) -> bool {
    span_spec(s.slots@) matches Some(span) ==> span == s.pinch.base
}

proof fn lemma_no_spread(base: Span, dx: i32, dy: i32)
    ensures
        !spread_spec(base, base, dx, dy),
{
    let a = square(base.dx as int, base.dy as int);
    assert(a >= 0) by (nonlinear_arith)
        requires
            a == base.dx * base.dx + base.dy * base.dy,
    ;
    assert(!differ_by_more(4 * a, 4 * a, 1)) by (nonlinear_arith)
        requires
            a >= 0,
            differ_by_more(4 * a, 4 * a, 1) == (4 * a + 4 * a > 1 && (4 * a + 4 * a - 1) * (4 * a
                + 4 * a - 1) > 4 * (4 * a) * (4 * a)),
    ;
}

/// Three or more fingers that start to move begin a swipe; two scroll by as
/// much as they moved; one moves the pointer by as much.
pub proof fn law_fingers_point_scroll_or_swipe(
    s: TouchState,
    earlier: Seq<MtSlot>,
    dev: LibinputDevice,
    at: FrameTime,
    arbitrated: bool,
    out: Seq<LibinputEvent>,
    after: TouchState,
    reported: Seq<LibinputEvent>,
    action: FrameAction,
    h: int,
    v: int,
)
    requires
        only_moves(s),
        !s.swipe.active,
        !s.hold.active,
        keeps_its_span(s),
        s.centroid == centroid_spec(earlier, dev.click_method == 1),
        moved_together(earlier, s.slots@, dev.click_method == 1, h, v),
        number(s.slots@, s.slots@.len() as int, dev.click_method == 1) > 0,
        -0x7fff_fffe <= h <= 0x7fff_fffe && -0x7fff_fffe <= v <= 0x7fff_fffe,
        h != 0 || v != 0,
        s.pad_finished(dev, at, false, arbitrated, out, after, reported, action),
    ensures
        fingers(s, dev) <= 2 ==> reported == out && !after.swipe.active,
        fingers(s, dev) <= 1 ==> action == (FrameAction::Motion { dx: h as i32, dy: v as i32 }),
        fingers(s, dev) == 2 ==> action == (FrameAction::Scroll { dx: h as i32, dy: v as i32 }),
        fingers(s, dev) >= 3 ==> {
            &&& action == FrameAction::Nothing
            &&& reported.len() == out.len() + 1
            &&& reported.drop_last() == out
            &&& reported.last().payload is GestureSwipeBegin
            &&& tells_gesture(
                reported.last(),
                LibinputEventType::LIBINPUT_EVENT_GESTURE_SWIPE_BEGIN,
                reported.last().payload->GestureSwipeBegin_0,
                dev.id,
                at.time_usec,
                fingers(s, dev),
            )
            &&& after.swipe.active && after.swipe.fingers == fingers(s, dev)
        },
        after.tap.emitted,
        !after.pinch.active,
{
    reveal(TouchState::pad_finished);
    reveal(DragState::carried);
    reveal(DragState::carried_events);
    reveal(SwipeState::taken_over);
    reveal(SwipeState::swiped);
    reveal(SwipeState::swiped_events);
    reveal(HoldState::moved);
    reveal(HoldState::moved_events);
    lemma_frame(s, earlier, dev, h, v);
    lemma_no_spread(s.pinch.base, h as i32, v as i32);
    if fingers(s, dev) >= 3 {
        assert(reported.drop_last() =~= out);
    }
}

/// Fingers that move end a hold before anything else is told of them: as
/// cancelled, and with the fingers that held. One finger may go on holding.
pub proof fn law_movement_ends_holds(
    h: HoldState,
    ends: bool,
    device: DeviceId,
    time_usec: u64,
    out: Seq<LibinputEvent>,
)
    ensures
        ({
            let after = h.moved(ends);
            let reported = h.moved_events(ends, device, time_usec, out);
            &&& h.active && ends ==> {
                &&& !after.active && after.blocked && after.started_at is None
                &&& reported.len() == out.len() + 1
                &&& reported.drop_last() == out
                &&& reported.last().payload is GestureHoldEnd
                &&& tells_gesture(
                    reported.last(),
                    LibinputEventType::LIBINPUT_EVENT_GESTURE_HOLD_END,
                    reported.last().payload->GestureHoldEnd_0,
                    device,
                    time_usec,
                    h.fingers as int,
                )
                &&& reported.last().payload->GestureHoldEnd_0.cancelled
            }
            &&& !(h.active && ends) ==> reported == out && after.active == h.active
            &&& ends && h.started_at is Some ==> after.started_at is None && after.blocked
            &&& !ends ==> after == h
        }),
{
    reveal(HoldState::moved);
    reveal(HoldState::moved_events);
    if h.active && ends {
        assert(h.moved_events(ends, device, time_usec, out).drop_last() =~= out);
    }
}

// ---------------------------------------------------------------------------
// Holding
// ---------------------------------------------------------------------------
/// Fingers hold once they have rested long enough: one or two for 40
/// milliseconds, more for 180. The hold begins with as many fingers as there
/// ever were, and while none moved.
pub proof fn law_resting_fingers_hold(
    h: HoldState,
    fingers: i32,
    device: DeviceId,
    at: FrameTime,
    out: Seq<LibinputEvent>,
    since: u64,
)
    requires
        h.started_at == Some(since),
        since <= at.now,
        fingers > 0,
    ensures
        ({
            let long = at.now - since >= if h.fingers <= 2 {
                40_000_000int
            } else {
                180_000_000int
            };
            let begins = long && !h.active && !h.blocked;
            let after = h.ripened(at.now, fingers);
            let reported = h.ripened_events(fingers, device, at, out);
            let most = if h.fingers > fingers {
                h.fingers
            } else {
                fingers
            };
            &&& begins ==> {
                &&& after.active && after.fingers == most && after.started_at is None
                &&& reported.len() == out.len() + 1
                &&& reported.drop_last() == out
                &&& reported.last().payload is GestureHoldBegin
                &&& tells_gesture(
                    reported.last(),
                    LibinputEventType::LIBINPUT_EVENT_GESTURE_HOLD_BEGIN,
                    reported.last().payload->GestureHoldBegin_0,
                    device,
                    at.time_usec,
                    most as int,
                )
            }
            &&& !begins ==> after == h && reported == out
        }),
{
    if h.is_ripe(at.now) {
        assert(h.ripened_events(fingers, device, at, out).drop_last() =~= out);
    }
}

/// A hold ends when its fingers change: as completed when all are up, as
/// cancelled when some stay.
pub proof fn law_lifting_ends_holds(
    h: HoldState,
    fingers: i32,
    device: DeviceId,
    time_usec: u64,
    out: Seq<LibinputEvent>,
)
    requires
        h.active,
        h.contact_changed,
        fingers >= 0,
    ensures
        ({
            let after = h.resolved(fingers);
            let reported = h.resolved_events(fingers, device, time_usec, out);
            let ends = fingers == 0 || fingers != h.fingers;
            &&& after.active == !ends
            &&& !ends ==> reported == out
            &&& ends ==> {
                &&& reported.len() == out.len() + 1
                &&& reported.drop_last() == out
                &&& reported.last().payload is GestureHoldEnd
                &&& tells_gesture(
                    reported.last(),
                    LibinputEventType::LIBINPUT_EVENT_GESTURE_HOLD_END,
                    reported.last().payload->GestureHoldEnd_0,
                    device,
                    time_usec,
                    h.fingers as int,
                )
                &&& reported.last().payload->GestureHoldEnd_0.cancelled == (fingers > 0)
                &&& after.blocked == (fingers > 0)
            }
        }),
{
    if h.breaks(fingers) {
        assert(h.resolved_events(fingers, device, time_usec, out).drop_last() =~= out);
    }
}

// ---------------------------------------------------------------------------
// Scrolling with two fingers
// ---------------------------------------------------------------------------
/// Whether two events from a place on tell of scrolling with fingers by so
/// many clicks: one for clients that know its type, one for those that do not.
/// A click is 15 units, and the source of fingers is 2.
pub open spec fn tells_finger_scroll(
    reported: Seq<LibinputEvent>,
    place: int,
    device: DeviceId,
    time_usec: u64,
    axis: u32,
    clicks: int,
) -> bool {
    let e = reported[place];
    &&& e.event_type == LibinputEventType::LIBINPUT_EVENT_POINTER_SCROLL_FINGER
    &&& reported[place + 1].event_type == LibinputEventType::LIBINPUT_EVENT_POINTER_AXIS
    &&& reported[place + 1].payload == e.payload
    &&& e.device == device && reported[place + 1].device == device
    &&& e.payload is PointerAxis
    &&& e.payload->PointerAxis_0.time_usec == time_usec
    &&& e.payload->PointerAxis_0.axis == axis
    &&& e.payload->PointerAxis_0.value == 15 * clicks
    &&& e.payload->PointerAxis_0.value_discrete == clicks
    &&& e.payload->PointerAxis_0.value_v120 == 120 * clicks
    &&& e.payload->PointerAxis_0.source == 2
}

/// Two fingers that come to `x` clicks to the right and `y` clicks down scroll
/// down and to the right by as many, or the other way round with natural
/// scrolling; vertically first. The axes that scrolled are remembered.
pub proof fn law_two_fingers_scroll_both_axes(
    scroll: FingerScroll,
    x: i32,
    y: i32,
    natural: bool,
    device: DeviceId,
    time_usec: u64,
    out: Seq<LibinputEvent>,
)
    requires
        x > i32::MIN && y > i32::MIN,
    ensures
        ({
            let reported = FingerScroll::scroll_events(x, y, natural, device, time_usec, out);
            let after = scroll.scrolled(x, y);
            let n = out.len() as int;
            let v: int = if y != 0 {
                2
            } else {
                0
            };
            let h: int = if x != 0 {
                2
            } else {
                0
            };
            let right = if natural {
                -x
            } else {
                x as int
            };
            let below = if natural {
                -y
            } else {
                y as int
            };
            &&& reported.len() == n + v + h
            &&& forall|i: int| 0 <= i < n ==> #[trigger] reported[i] == out[i]
            &&& y != 0 ==> tells_finger_scroll(reported, n, device, time_usec, 0, below)
            &&& x != 0 ==> tells_finger_scroll(reported, n + v, device, time_usec, 1, right)
            &&& after.vertical == (scroll.vertical || y != 0)
            &&& after.horizontal == (scroll.horizontal || x != 0)
        }),
{
    reveal(finger_axis);
}

/// Scrolling with fingers ends on every axis that scrolled, with a movement by
/// nothing.
pub proof fn law_finger_scrolling_ends(
    scroll: FingerScroll,
    device: DeviceId,
    time_usec: u64,
    out: Seq<LibinputEvent>,
)
    ensures
        ({
            let reported = finger_stops(scroll, device, time_usec, out);
            let n = out.len() as int;
            let v: int = if scroll.vertical {
                2
            } else {
                0
            };
            let h: int = if scroll.horizontal {
                2
            } else {
                0
            };
            &&& reported.len() == n + v + h
            &&& forall|i: int| 0 <= i < n ==> #[trigger] reported[i] == out[i]
            &&& scroll.vertical ==> tells_finger_scroll(reported, n, device, time_usec, 0, 0)
            &&& scroll.horizontal ==> tells_finger_scroll(reported, n + v, device, time_usec, 1, 0)
        }),
{
    reveal(finger_axis);
}

// ---------------------------------------------------------------------------
// Pinching
// ---------------------------------------------------------------------------
/// Fingers side by side pinch when they move apart or together by a unit or
/// more, and by more than twice what they move along.
pub proof fn law_spreading_fingers_pinch(before: int, now: int, dx: i32)
    requires
        0 <= before <= 0x7fff_ffff,
        0 <= now <= 0x7fff_ffff,
    ensures
        ({
            let apart = if now >= before {
                now - before
            } else {
                before - now
            };
            let along = if dx < 0 {
                -dx
            } else {
                dx as int
            };
            spread_spec(
                Span { dx: before as i64, dy: 0 },
                Span { dx: now as i64, dy: 0 },
                dx,
                0,
            ) <==> apart >= 1 && (along == 0 || apart > 2 * along)
        }),
{
    let along: int = if dx < 0 {
        -dx
    } else {
        dx as int
    };
    assert(square(before, 0) == before * before);
    assert(square(now, 0) == now * now);
    assert(square(dx as int, 0) == along * along) by (nonlinear_arith)
        requires
            along == dx || along == -dx,
            square(dx as int, 0) == dx * dx + 0 * 0,
    ;
    assert(4 * (now * now) == (2 * now) * (2 * now)) by (nonlinear_arith);
    assert(4 * (before * before) == (2 * before) * (2 * before)) by (nonlinear_arith);
    assert(4 * (along * along) == (2 * along) * (2 * along)) by (nonlinear_arith);
    assert(along * along == 0 <==> along == 0) by (nonlinear_arith)
        requires
            along >= 0,
    ;
    law_squares_compare_lengths(2 * now, 2 * before, 1);
    law_squares_compare_lengths(now, before, 2 * along);
}

/// Whether fingers pinch does not depend on which way they lie: turning or
/// mirroring everything changes nothing.
pub proof fn law_pinching_knows_no_direction(base: Span, now: Span, dx: i32, dy: i32)
    requires
        base.dx > i64::MIN && base.dy > i64::MIN && now.dx > i64::MIN && now.dy > i64::MIN,
        dx > i32::MIN && dy > i32::MIN,
    ensures
        spread_spec(base, now, dx, dy) == spread_spec(
            Span { dx: base.dy, dy: base.dx },
            Span { dx: now.dy, dy: now.dx },
            dy,
            dx,
        ),
        spread_spec(base, now, dx, dy) == spread_spec(
            Span { dx: (-base.dx) as i64, dy: base.dy },
            Span { dx: (-now.dx) as i64, dy: now.dy },
            (-dx) as i32,
            dy,
        ),
        spread_spec(base, now, dx, dy) == spread_spec(now, base, dx, dy),
{
    let a = base.dx as int;
    let b = now.dx as int;
    let c = dx as int;
    assert((-a) * (-a) == a * a) by (nonlinear_arith);
    assert((-b) * (-b) == b * b) by (nonlinear_arith);
    assert((-c) * (-c) == c * c) by (nonlinear_arith);
    let p = square(base.dx as int, base.dy as int);
    let q = square(now.dx as int, now.dy as int);
    assert(4 * (4 * p) * (4 * q) == 4 * (4 * q) * (4 * p)) by (nonlinear_arith);
    assert(4 * p * q == 4 * q * p) by (nonlinear_arith);
}

/// The contacts that a pinch is measured between are the first two that are
/// there: it is how far the second is to the right of and below the first.
pub proof fn law_pinches_are_measured_between_the_first_two(
    slots: Seq<MtSlot>,
    a: int,
    b: int,
)
    requires
        0 <= a < b < slots.len(),
        slots[a].active && slots[b].active,
        forall|i: int| 0 <= i < b && i != a ==> !(#[trigger] slots[i]).active,
    ensures
        span_spec(slots) == Some(
            Span {
                dx: (slots[b].x - slots[a].x) as i64,
                dy: (slots[b].y - slots[a].y) as i64,
            },
        ),
{
    lemma_first(slots, 0, a);
    lemma_first(slots, a + 1, b);
}

proof fn lemma_first(slots: Seq<MtSlot>, from: int, k: int)
    requires
        0 <= from <= k < slots.len(),
        slots[k].active,
        forall|i: int| from <= i < k ==> !(#[trigger] slots[i]).active,
    ensures
        crate::backend::slots::first_active(slots, from) == Some(k),
    decreases k - from,
{
    if from < k {
        assert(!slots[from].active);
        lemma_first(slots, from + 1, k);
    }
}

/// A pinch is told of with the distance of the fingers when they came down and
/// their distance now, as long as two of them are there.
pub proof fn law_pinches_tell_both_distances(
    s: TouchState,
    dev: LibinputDevice,
    at: FrameTime,
    arbitrated: bool,
    out: Seq<LibinputEvent>,
    after: TouchState,
    reported: Seq<LibinputEvent>,
    action: FrameAction,
    a: int,
    b: int,
)
    requires
        s.wf(),
        s.pinch.active && !s.arbitration.suppressed && !s.contacts_changed,
        0 <= a < b < s.slots@.len(),
        s.slots@[a].active && s.slots@[b].active,
        forall|i: int| 0 <= i < b && i != a ==> !(#[trigger] s.slots@[i]).active,
        s.pad_finished(dev, at, false, arbitrated, out, after, reported, action),
    ensures
        reported.len() == out.len() + 1,
        reported.drop_last() == out,
        reported.last().payload is GesturePinchUpdate,
        ({
            let g = reported.last().payload->GesturePinchUpdate_0;
            &&& tells_gesture(
                reported.last(),
                LibinputEventType::LIBINPUT_EVENT_GESTURE_PINCH_UPDATE,
                g,
                dev.id,
                at.time_usec,
                s.pinch.fingers as int,
            )
            &&& g.dx == 0 && g.dy == 0 && !g.cancelled
            &&& g.pinch is Some
            &&& g.pinch->0.base == s.pinch.base
            &&& g.pinch->0.span is Some
            &&& g.pinch->0.span->0.dx == s.slots@[b].x - s.slots@[a].x
            &&& g.pinch->0.span->0.dy == s.slots@[b].y - s.slots@[a].y
        }),
        after.pinch == s.pinch,
{
    reveal(TouchState::pad_finished);
    law_pinches_are_measured_between_the_first_two(s.slots@, a, b);
    assert(reported.drop_last() =~= out);
}

/// A pinch begins in a frame in which the fingers spread; with the fingers
/// that are there, and measured from where they came down.
pub proof fn law_pinches_begin_with_their_fingers(
    s: TouchState,
    dev: LibinputDevice,
    at: FrameTime,
    arbitrated: bool,
    out: Seq<LibinputEvent>,
    after: TouchState,
    reported: Seq<LibinputEvent>,
    action: FrameAction,
)
    requires
        only_moves(s),
        !s.swipe.active && !s.hold.active,
        s.pad_finished(dev, at, false, arbitrated, out, after, reported, action),
    ensures
        after.pinch.active <==> {
            let f = s.facts(dev);
            &&& number(s.slots@, s.slots@.len() as int, dev.click_method == 1) >= 2
            &&& s.tap.fingers <= number(s.slots@, s.slots@.len() as int, false)
            &&& s.pinch.base.dx != 0 || s.pinch.base.dy != 0
            &&& f.span is Some
            &&& spread_spec(s.pinch.base, f.span->0, f.dx, f.dy)
        },
        after.pinch.active ==> {
            &&& reported.len() == out.len() + 1
            &&& reported.drop_last() == out
            &&& reported.last().payload is GesturePinchBegin
            &&& tells_gesture(
                reported.last(),
                LibinputEventType::LIBINPUT_EVENT_GESTURE_PINCH_BEGIN,
                reported.last().payload->GesturePinchBegin_0,
                dev.id,
                at.time_usec,
                fingers(s, dev),
            )
            &&& after.pinch.fingers == fingers(s, dev)
            &&& after.pinch.base == s.pinch.base
            &&& action == FrameAction::Nothing
        },
{
    reveal(TouchState::pad_finished);
    reveal(DragState::carried);
    reveal(DragState::carried_events);
    reveal(SwipeState::taken_over);
    reveal(SwipeState::swiped);
    reveal(SwipeState::swiped_events);
    reveal(HoldState::moved);
    reveal(HoldState::moved_events);
    lemma_fingers(s, dev);
    let n = s.slots@.len() as int;
    lemma_sums(s.slots@, n, dev.click_method == 1);
    lemma_sums(s.slots@, n, false);
    lemma_active(s.slots@, n);
    lemma_fewer(s.slots@, n, dev.click_method == 1);
    if after.pinch.active {
        assert(reported.drop_last() =~= out);
    }
}

proof fn lemma_fewer(slots: Seq<MtSlot>, n: int, areas: bool)
    ensures
        number(slots, n, areas) <= number(slots, n, false),
    decreases n,
{
    if n > 0 {
        lemma_fewer(slots, n - 1, areas);
    }
}

/// Gestures are not cancelled as they begin or go on, have not moved as they
/// begin, and tell of their fingers; only their end says whether they were
/// cancelled.
pub proof fn law_gestures_are_cancelled_at_their_end(
    device: DeviceId,
    time_usec: u64,
    fingers: i32,
    dx: i32,
    dy: i32,
    cancelled: bool,
)
    ensures
        ({
            let swipe = crate::backend::gestures::swipe_begin(device, time_usec, fingers);
            let pinch = crate::backend::gestures::pinch_begin(device, time_usec, fingers);
            let hold = crate::backend::gestures::hold_begin(device, time_usec, fingers);
            let ended = crate::backend::gestures::hold_end(device, time_usec, fingers, cancelled);
            let s = swipe.payload->GestureSwipeBegin_0;
            let p = pinch.payload->GesturePinchBegin_0;
            let h = hold.payload->GestureHoldBegin_0;
            let e = ended.payload->GestureHoldEnd_0;
            &&& swipe.payload is GestureSwipeBegin && !s.cancelled && s.dx == 0 && s.dy == 0
                && s.finger_count == fingers && s.time_usec == time_usec
            &&& pinch.payload is GesturePinchBegin && !p.cancelled && p.dx == 0 && p.dy == 0
                && p.finger_count == fingers && p.time_usec == time_usec
            &&& hold.payload is GestureHoldBegin && !h.cancelled && h.finger_count == fingers
                && h.time_usec == time_usec
            &&& ended.payload is GestureHoldEnd && e.cancelled == cancelled && e.finger_count
                == fingers && e.time_usec == time_usec
            &&& swipe.device == device && pinch.device == device && hold.device == device
                && ended.device == device
        }),
{
}

/// A drag takes over from a swipe, which is over then.
pub proof fn law_drags_take_over(s: SwipeState, n: int)
    ensures
        !s.taken_over(true, n).active,
        s.active ==> s.taken_over(true, n).fingers == s.fingers,
        s.taken_over(false, n) == s,
{
    reveal(SwipeState::taken_over);
}

} // verus!
