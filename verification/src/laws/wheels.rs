//! Wheels: which way they scroll, how far, and that nothing gets lost.
use vstd::prelude::*;
use crate::backend::pointer::{wheel_axis_events, PointerState, RelState, WheelStep};
use crate::backend::scroll::continuous;
use crate::backend::wheel::{WheelPhase, WheelState};
use crate::codes::InputEvent;
use crate::ffi_types::{DeviceId, LibinputDevice, LibinputEvent, LibinputEventType};

verus! {

/// Which way an axis scrolls when its wheel turns forward: the page goes up
/// and to the right, or the other way round with natural scrolling. Axis 0 is
/// vertical and grows downwards.
pub open spec fn sign(axis: u32, natural: bool) -> int {
    if axis == 0 {
        if natural {
            1
        } else {
            -1
        }
    } else {
        if natural {
            -1
        } else {
            1
        }
    }
}

/// Whether an event tells of so many clicks and hundred-and-twentieths of a
/// click on an axis. The source of a wheel is 1.
pub open spec fn tells_wheel(
    event: LibinputEvent,
    event_type: LibinputEventType,
    device: DeviceId,
    time_usec: u64,
    axis: u32,
    clicks: int,
    v120: int,
) -> bool {
    &&& event.device == device
    &&& event.event_type == event_type
    &&& event.payload is PointerAxis
    &&& event.payload->PointerAxis_0.time_usec == time_usec
    &&& event.payload->PointerAxis_0.axis == axis
    &&& event.payload->PointerAxis_0.value_discrete == clicks
    &&& event.payload->PointerAxis_0.value_v120 == v120
    &&& event.payload->PointerAxis_0.source == 1
}

pub open spec fn turned_round(amount: Option<i64>) -> Option<i64> {
    match amount {
        Some(a) => Some((-a) as i64),
        None => None,
    }
}

/// Turning a wheel the other way turns its scrolling around: there are as
/// many events, of the same types and on the same axis, and their clicks and
/// amounts are the negated ones.
pub proof fn law_wheels_turn_both_ways(
    out: Seq<LibinputEvent>,
    device: DeviceId,
    time_usec: u64,
    axis: u32,
    natural: bool,
    low: i64,
    high: i64,
    passed: Option<i64>,
)
    requires
        -0x7fff_ffff <= low <= 0x7fff_ffff,
        high > i64::MIN,
        passed matches Some(a) ==> -0x7fff_ffff <= a <= 0x7fff_ffff,
    ensures
        ({
            let one = wheel_axis_events(
                out,
                device,
                time_usec,
                axis,
                natural,
                low,
                high,
                passed,
            );
            let other = wheel_axis_events(
                out,
                device,
                time_usec,
                axis,
                natural,
                (-low) as i64,
                (-high) as i64,
                turned_round(passed),
            );
            &&& one.len() == other.len()
            &&& forall|i: int|
                #![trigger one[i]]
                #![trigger other[i]]
                out.len() <= i < one.len() ==> {
                    let a = one[i].payload;
                    let b = other[i].payload;
                    &&& one[i].event_type == other[i].event_type
                    &&& a is PointerAxis && b is PointerAxis
                    &&& a->PointerAxis_0.axis == b->PointerAxis_0.axis
                    &&& a->PointerAxis_0.value_v120 == -b->PointerAxis_0.value_v120
                    &&& a->PointerAxis_0.value_discrete == -b->PointerAxis_0.value_discrete
                }
        }),
{
    reveal(wheel_axis_events);
}

/// Natural scrolling turns every wheel axis around, and nothing else.
pub proof fn law_natural_scrolling_turns_wheels_around(
    out: Seq<LibinputEvent>,
    device: DeviceId,
    time_usec: u64,
    axis: u32,
    low: i64,
    high: i64,
    passed: Option<i64>,
)
    requires
        -0x7fff_ffff <= low <= 0x7fff_ffff,
        passed matches Some(a) ==> -0x7fff_ffff <= a <= 0x7fff_ffff,
    ensures
        ({
            let one = wheel_axis_events(out, device, time_usec, axis, false, low, high, passed);
            let other = wheel_axis_events(out, device, time_usec, axis, true, low, high, passed);
            &&& one.len() == other.len()
            &&& forall|i: int|
                #![trigger one[i]]
                #![trigger other[i]]
                out.len() <= i < one.len() ==> {
                    let a = one[i].payload;
                    let b = other[i].payload;
                    &&& one[i].event_type == other[i].event_type
                    &&& a is PointerAxis && b is PointerAxis
                    &&& a->PointerAxis_0.axis == b->PointerAxis_0.axis
                    &&& a->PointerAxis_0.value_v120 == -b->PointerAxis_0.value_v120
                    &&& a->PointerAxis_0.value_discrete == -b->PointerAxis_0.value_discrete
                }
        }),
{
    reveal(wheel_axis_events);
}

/// What a wheel axis reports in a frame: what the filter let through, or full
/// clicks where there are no finer steps; and, for clients that know only
/// clicks, every full click. A click is 120 parts.
pub proof fn law_wheels_report_what_they_turned(
    out: Seq<LibinputEvent>,
    device: DeviceId,
    time_usec: u64,
    axis: u32,
    natural: bool,
    low: i64,
    high: i64,
    passed: Option<i64>,
)
    requires
        -0x7fff_ffff <= low <= 0x7fff_ffff,
        passed matches Some(a) ==> -0x7fff_ffff <= a <= 0x7fff_ffff,
    ensures
        ({
            let reported = wheel_axis_events(
                out,
                device,
                time_usec,
                axis,
                natural,
                low,
                high,
                passed,
            );
            let s = sign(axis, natural);
            let fine = passed is Some || (high == 0 && low != 0);
            let old = low != 0;
            let n = out.len() as int;
            &&& reported.len() == n + (if fine {
                1int
            } else {
                0
            }) + (if old {
                1int
            } else {
                0
            })
            &&& forall|i: int| 0 <= i < n ==> #[trigger] reported[i] == out[i]
            &&& fine && passed is None ==> tells_wheel(
                reported[n],
                LibinputEventType::LIBINPUT_EVENT_POINTER_SCROLL_WHEEL,
                device,
                time_usec,
                axis,
                s * low,
                s * 120 * low,
            )
            &&& passed matches Some(a) ==> {
                let clicks = reported[n].payload->PointerAxis_0.value_discrete;
                &&& tells_wheel(
                    reported[n],
                    LibinputEventType::LIBINPUT_EVENT_POINTER_SCROLL_WHEEL,
                    device,
                    time_usec,
                    axis,
                    clicks as int,
                    s * a,
                )
                &&& -120 < s * a - 120 * clicks < 120
                &&& s * a >= 0 ==> 0 <= clicks && 120 * clicks <= s * a
                &&& s * a <= 0 ==> clicks <= 0 && 120 * clicks >= s * a
            }
            &&& old ==> tells_wheel(
                reported.last(),
                LibinputEventType::LIBINPUT_EVENT_POINTER_AXIS,
                device,
                time_usec,
                axis,
                s * low,
                s * 120 * low,
            )
        }),
{
    reveal(wheel_axis_events);
    let s = sign(axis, natural);
    assert(s == 1 || s == -1);
    assert(s * low == if s == 1 {
        low as int
    } else {
        -low
    });
    assert(s * 120 * low == if s == 1 {
        120 * low
    } else {
        -120 * low
    });
    if let Some(a) = passed {
        assert(s * a == if s == 1 {
            a as int
        } else {
            -a
        });
    }
}

/// Relative events add up on the axis that they are of, and on no other:
/// 0 and 1 are movement, 8 and 6 are the vertical and the horizontal wheel,
/// 11 and 12 are their finer steps. Nothing is reported before the frame ends.
pub proof fn law_relative_events_add_up(
    p: PointerState,
    dev: LibinputDevice,
    ev: InputEvent,
    time_usec: u64,
    now: u64,
    out: Seq<LibinputEvent>,
    after: PointerState,
    reported: Seq<LibinputEvent>,
)
    requires
        p.wf(),
        ev.kind == 2,
        p.has_room(ev),
        p.processed(dev, ev, time_usec, now, out, after, reported),
    ensures
        reported == out,
        after.rel.x - p.rel.x == (if ev.code == 0 {
            ev.value as int
        } else {
            0
        }),
        after.rel.y - p.rel.y == (if ev.code == 1 {
            ev.value as int
        } else {
            0
        }),
        after.rel.wheel_vertical - p.rel.wheel_vertical == (if ev.code == 8 {
            ev.value as int
        } else {
            0
        }),
        after.rel.wheel_horizontal - p.rel.wheel_horizontal == (if ev.code == 6 {
            ev.value as int
        } else {
            0
        }),
        after.rel.hi_res_vertical - p.rel.hi_res_vertical == (if ev.code == 11
            && p.wheel.supports_hi_res_vertical {
            ev.value as int
        } else {
            0
        }),
        after.rel.hi_res_horizontal - p.rel.hi_res_horizontal == (if ev.code == 12
            && p.wheel.supports_hi_res_horizontal {
            ev.value as int
        } else {
            0
        }),
        after.scroll == p.scroll,
        after.buttons.held_buttons@ == p.buttons.held_buttons@,
{
    reveal(PointerState::processed);
    reveal(RelState::moved);
    assert(after.key_step(reported).debounce.step.out == p.key_step(out).debounce.step.out);
    assert(after.key_step(reported).debounce.step.held == p.key_step(out).debounce.step.held);
}

/// A frame in which only the vertical wheel clicked scrolls vertically, by as
/// many clicks; up is negative unless natural scrolling is on.
pub proof fn law_vertical_clicks_scroll_vertically(
    p: PointerState,
    dev: LibinputDevice,
    time_usec: u64,
    now: u64,
    out: Seq<LibinputEvent>,
    after: PointerState,
    reported: Seq<LibinputEvent>,
)
    requires
        !p.scroll.active() && !p.is_lenovo_scrollpoint,
        p.rel.x == 0 && p.rel.y == 0 && p.rel.wheel_horizontal == 0,
        p.rel.hi_res_vertical == 0 && p.rel.hi_res_horizontal == 0,
        p.rel.wheel_vertical != 0 && -0x7fff_ffff <= p.rel.wheel_vertical <= 0x7fff_ffff,
        p.processed(
            dev,
            InputEvent { kind: 0, code: 0, value: 0 },
            time_usec,
            now,
            out,
            after,
            reported,
        ),
    ensures
        ({
            let clicks = if dev.natural_scroll {
                p.rel.wheel_vertical as int
            } else {
                -p.rel.wheel_vertical
            };
            let n = out.len() as int;
            &&& reported.len() == n + 2
            &&& forall|i: int| 0 <= i < n ==> #[trigger] reported[i] == out[i]
            &&& tells_wheel(
                reported[n],
                LibinputEventType::LIBINPUT_EVENT_POINTER_SCROLL_WHEEL,
                dev.id,
                time_usec,
                0,
                clicks,
                120 * clicks,
            )
            &&& tells_wheel(
                reported[n + 1],
                LibinputEventType::LIBINPUT_EVENT_POINTER_AXIS,
                dev.id,
                time_usec,
                0,
                clicks,
                120 * clicks,
            )
            &&& after.rel == RelState::empty()
        }),
{
    reveal(PointerState::processed);
    reveal(WheelStep::axis);
    reveal(wheel_axis_events);
    reveal(crate::backend::pointer::motion_events);
}

/// A frame in which only the horizontal wheel clicked scrolls horizontally; to
/// the right is positive unless natural scrolling is on.
pub proof fn law_horizontal_clicks_scroll_horizontally(
    p: PointerState,
    dev: LibinputDevice,
    time_usec: u64,
    now: u64,
    out: Seq<LibinputEvent>,
    after: PointerState,
    reported: Seq<LibinputEvent>,
)
    requires
        !p.scroll.active() && !p.is_lenovo_scrollpoint,
        p.rel.x == 0 && p.rel.y == 0 && p.rel.wheel_vertical == 0,
        p.rel.hi_res_vertical == 0 && p.rel.hi_res_horizontal == 0,
        p.rel.wheel_horizontal != 0 && -0x7fff_ffff <= p.rel.wheel_horizontal <= 0x7fff_ffff,
        p.processed(
            dev,
            InputEvent { kind: 0, code: 0, value: 0 },
            time_usec,
            now,
            out,
            after,
            reported,
        ),
    ensures
        ({
            let clicks = if dev.natural_scroll {
                -p.rel.wheel_horizontal
            } else {
                p.rel.wheel_horizontal as int
            };
            let n = out.len() as int;
            &&& reported.len() == n + 2
            &&& forall|i: int| 0 <= i < n ==> #[trigger] reported[i] == out[i]
            &&& tells_wheel(
                reported[n],
                LibinputEventType::LIBINPUT_EVENT_POINTER_SCROLL_WHEEL,
                dev.id,
                time_usec,
                1,
                clicks,
                120 * clicks,
            )
            &&& tells_wheel(
                reported[n + 1],
                LibinputEventType::LIBINPUT_EVENT_POINTER_AXIS,
                dev.id,
                time_usec,
                1,
                clicks,
                120 * clicks,
            )
            &&& after.rel == RelState::empty()
        }),
{
    reveal(PointerState::processed);
    reveal(WheelStep::axis);
    reveal(wheel_axis_events);
    reveal(crate::backend::pointer::motion_events);
}

pub open spec fn amount_of(amount: Option<i64>) -> int {
    match amount {
        Some(a) => a as int,
        None => 0,
    }
}

/// Fine steps that go through are reported with their own amount: those of a
/// virtual device and of a wheel that is already scrolling or only knows
/// coarse steps at once, those of other wheels when they add up to more than
/// the smallest step that was seen.
pub proof fn law_fine_steps_are_let_through(w: WheelState, axis: u32, value: i64, now: u64)
    requires
        w.wf(),
        axis <= 1,
        value != 0,
        -0x7fff_ffff <= value <= 0x7fff_ffff,
    ensures
        ({
            let (after, amount) = w.filtered(axis, value, now);
            let size = if value < 0 {
                -value
            } else {
                value as int
            };
            &&& w.is_virtual ==> amount == Some(value) && after == w
            &&& amount is Some && !w.is_virtual ==> after.phase == WheelPhase::Scrolling
                && after.last_emit == Some(now)
            &&& amount is None ==> after.phase == WheelPhase::Accumulating
            &&& w.min_movement >= 30 && size >= 30 ==> amount == Some(value)
            &&& size >= 95 ==> amount is Some
            &&& after.is_virtual == w.is_virtual
        }),
{
}

/// A wheel that goes on turning the same way within half a second keeps
/// scrolling: every further step is reported as it is.
pub proof fn law_scrolling_goes_on(
    w: WheelState,
    axis: u32,
    first: i64,
    second: i64,
    now: u64,
    later: u64,
)
    requires
        w.wf(),
        axis <= 1,
        -0x7fff_ffff <= first <= 0x7fff_ffff && -0x7fff_ffff <= second <= 0x7fff_ffff,
        (first > 0 && second > 0) || (first < 0 && second < 0),
        w.filtered(axis, first, now).1 is Some,
        now <= later < now + 500_000_000,
    ensures
        w.filtered(axis, first, now).0.filtered(axis, second, later).1 == Some(second),
{
}

/// A wheel that turns around or changes its axis starts over: what was kept
/// back the other way is forgotten, and what is reported and kept is what came
/// in.
pub proof fn law_turning_around_starts_over(
    w: WheelState,
    axis: u32,
    first: i64,
    other: u32,
    second: i64,
    now: u64,
    later: u64,
)
    requires
        w.wf(),
        !w.is_virtual,
        axis <= 1 && other <= 1,
        -0x7fff_ffff <= first <= 0x7fff_ffff && -0x7fff_ffff <= second <= 0x7fff_ffff,
        first != 0 && second != 0,
        axis != other || (first > 0) != (second > 0),
    ensures
        ({
            let middle = w.filtered(axis, first, now).0;
            let (after, amount) = middle.filtered(other, second, later);
            let kept = if other == 0 {
                after.accum_vertical
            } else {
                after.accum_horizontal
            };
            let elsewhere = if other == 0 {
                after.accum_horizontal
            } else {
                after.accum_vertical
            };
            amount_of(amount) + kept == second && elsewhere == 0
        }),
{
}

/// A filter treats both directions alike: a wheel that has been turned and is
/// turned the other way round all along lets through the negated amounts.
pub proof fn law_filters_know_no_direction(
    hi_res_vertical: bool,
    hi_res_horizontal: bool,
    axis: u32,
    first: i64,
    second: i64,
    now: u64,
    later: u64,
)
    requires
        axis <= 1,
        -0x7fff_ffff <= first <= 0x7fff_ffff && -0x7fff_ffff <= second <= 0x7fff_ffff,
    ensures
        ({
            let w = WheelState::start_spec(hi_res_vertical, hi_res_horizontal);
            let (one, a) = w.filtered(axis, first, now);
            let (two, b) = w.filtered(axis, (-first) as i64, now);
            let (_, c) = one.filtered(axis, second, later);
            let (_, d) = two.filtered(axis, (-second) as i64, later);
            amount_of(a) == -amount_of(b) && amount_of(c) == -amount_of(d)
        }),
{
}

/// A scroll point scrolls continuously: forward is up, and no clicks are
/// made up.
pub proof fn law_scroll_points_scroll_continuously(
    p: PointerState,
    dev: LibinputDevice,
    time_usec: u64,
    now: u64,
    out: Seq<LibinputEvent>,
    after: PointerState,
    reported: Seq<LibinputEvent>,
)
    requires
        !p.scroll.active() && p.is_lenovo_scrollpoint,
        p.rel.x == 0 && p.rel.y == 0,
        p.rel.wheel_vertical > i64::MIN,
        p.processed(
            dev,
            InputEvent { kind: 0, code: 0, value: 0 },
            time_usec,
            now,
            out,
            after,
            reported,
        ),
    ensures
        ({
            let n = out.len() as int;
            let v: int = if p.rel.wheel_vertical != 0 {
                2
            } else {
                0
            };
            let h: int = if p.rel.wheel_horizontal != 0 {
                2
            } else {
                0
            };
            &&& reported.len() == n + v + h
            &&& forall|i: int| 0 <= i < n ==> #[trigger] reported[i] == out[i]
            &&& v == 2 ==> tells_continuous(
                reported,
                n,
                dev.id,
                time_usec,
                0,
                -p.rel.wheel_vertical,
            )
            &&& h == 2 ==> tells_continuous(
                reported,
                n + v,
                dev.id,
                time_usec,
                1,
                p.rel.wheel_horizontal as int,
            )
        }),
{
    reveal(PointerState::processed);
    reveal(crate::backend::pointer::motion_events);
    reveal(crate::backend::pointer::scrollpoint_events);
    reveal(continuous);
}

/// Whether two events from a place on tell of continuous scrolling by an
/// amount: one for clients that know its type, one for those that do not. The
/// source of such scrolling is 3.
pub open spec fn tells_continuous(
    reported: Seq<LibinputEvent>,
    place: int,
    device: DeviceId,
    time_usec: u64,
    axis: u32,
    value: int,
) -> bool {
    &&& reported[place].event_type
        == LibinputEventType::LIBINPUT_EVENT_POINTER_SCROLL_CONTINUOUS
    &&& reported[place + 1].event_type == LibinputEventType::LIBINPUT_EVENT_POINTER_AXIS
    &&& reported[place].payload == reported[place + 1].payload
    &&& reported[place].device == device && reported[place + 1].device == device
    &&& reported[place].payload is PointerAxis
    &&& reported[place].payload->PointerAxis_0.time_usec == time_usec
    &&& reported[place].payload->PointerAxis_0.axis == axis
    &&& reported[place].payload->PointerAxis_0.value == value
    &&& reported[place].payload->PointerAxis_0.value_discrete == 0
    &&& reported[place].payload->PointerAxis_0.value_v120 == 0
    &&& reported[place].payload->PointerAxis_0.source == 3
}

/// The parts of a frame are reported one after the other: the movement, the
/// vertical wheel, the horizontal wheel; each as if it were alone.
pub proof fn law_frames_report_their_parts_in_turn(
    p: PointerState,
    dev: LibinputDevice,
    time_usec: u64,
    now: u64,
    out: Seq<LibinputEvent>,
)
    requires
        p.rel.hi_res_vertical == 0 && p.rel.hi_res_horizontal == 0,
    ensures
        ({
            let none = RelState {
                x: 0,
                y: 0,
                wheel_vertical: 0,
                wheel_horizontal: 0,
                hi_res_vertical: 0,
                hi_res_horizontal: 0,
            };
            let moving = PointerState { rel: RelState { x: p.rel.x, y: p.rel.y, ..none }, ..p };
            let vertical = PointerState {
                rel: RelState { wheel_vertical: p.rel.wheel_vertical, ..none },
                ..p
            };
            let horizontal = PointerState {
                rel: RelState { wheel_horizontal: p.rel.wheel_horizontal, ..none },
                ..p
            };
            p.wheel_frame(dev, time_usec, now, out).out == horizontal.wheel_frame(
                dev,
                time_usec,
                now,
                vertical.wheel_frame(
                    dev,
                    time_usec,
                    now,
                    moving.wheel_frame(dev, time_usec, now, out).out,
                ).out,
            ).out
        }),
{
    reveal(WheelStep::axis);
    reveal(wheel_axis_events);
    reveal(crate::backend::pointer::motion_events);
    reveal(crate::backend::pointer::scrollpoint_events);
}

/// Before a wheel scrolls, fine steps are told only when they add up to more
/// than the least movement.
pub proof fn law_small_steps_are_held_back(w: WheelState, axis: u32, value: i64, now: u64)
    requires
        !w.is_virtual && w.phase != WheelPhase::Scrolling,
        -0x1_0000_0000 < value < 0x1_0000_0000,
        -0x1_0000_0000 < w.accum_vertical < 0x1_0000_0000,
        -0x1_0000_0000 < w.accum_horizontal < 0x1_0000_0000,
    ensures
        ({
            let (after, told) = w.filtered(axis, value, now);
            told is Some && after.min_movement < 30 ==> told->0 > after.min_movement || told->0
                < -after.min_movement
        }),
{
}

} // verus!
