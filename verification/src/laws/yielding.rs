//! Touch that gives way to tablet tools: to which, and where.
use vstd::prelude::*;
use crate::backend::arbitration::{
    active_tablet_spec, arbitration_active, claims, last_candidate, paired_from, tilt_spec, Place,
};
use crate::backend::probe::{axis, AxisInfo};
use crate::backend::timers::cancelled_upto;
use crate::backend::slots::MtSlot;
use crate::backend::touchpad::TouchState;
use crate::backend::touchscreen::tells_slot;
use crate::ffi_types::{DeviceId, LibinputDevice, LibinputEvent, LibinputEventType};

verus! {

// ---------------------------------------------------------------------------
// Which tablet
// ---------------------------------------------------------------------------
/// Whether a tablet has a tool near it.
pub open spec fn has_tool_near(registry: Seq<LibinputDevice>, touch: DeviceId, id: DeviceId) -> bool {
    let d = registry[id as int];
    &&& id != touch
    &&& d.has_tablet && d.tablet_in_proximity
    &&& !d.has_gesture && !d.has_tablet_pad
}

/// Whether udev says that two devices are one piece of hardware.
pub open spec fn same_hardware(a: LibinputDevice, b: LibinputDevice) -> bool {
    a.udev_group is Some && b.udev_group is Some && a.udev_group->0@ == b.udev_group->0@
}

proof fn lemma_paired(
    devices: Seq<DeviceId>,
    registry: Seq<LibinputDevice>,
    touch: DeviceId,
    from: int,
)
    requires
        0 <= from <= devices.len(),
    ensures
        paired_from(devices, registry, touch, from) matches Some(id) ==> {
            &&& devices.contains(id)
            &&& has_tool_near(registry, touch, id)
            &&& same_hardware(registry[touch as int], registry[id as int])
        },
        paired_from(devices, registry, touch, from) is None ==> forall|i: int|
            from <= i < devices.len() ==> !(has_tool_near(registry, touch, #[trigger] devices[i])
                && same_hardware(registry[touch as int], registry[devices[i] as int])),
    decreases devices.len() - from,
{
    if from < devices.len() {
        lemma_paired(devices, registry, touch, from + 1);
        assert(devices.contains(devices[from]));
    }
}

proof fn lemma_last(devices: Seq<DeviceId>, registry: Seq<LibinputDevice>, touch: DeviceId, n: int)
    requires
        0 <= n <= devices.len(),
    ensures
        last_candidate(devices, registry, touch, n) matches Some(id) ==> devices.contains(id)
            && has_tool_near(registry, touch, id),
        last_candidate(devices, registry, touch, n) is None ==> forall|i: int|
            0 <= i < n ==> !has_tool_near(registry, touch, #[trigger] devices[i]),
    decreases n,
{
    if n > 0 {
        lemma_last(devices, registry, touch, n - 1);
        assert(devices.contains(devices[n - 1]));
    }
}

/// A touch device gives way only to another device, a tablet with a tool near
/// it. One of the same hardware comes first; only a touchscreen gives way to
/// others, and it gives way whenever any tool is near.
pub proof fn law_touch_gives_way_to_tools(
    devices: Seq<DeviceId>,
    registry: Seq<LibinputDevice>,
    touch: DeviceId,
    k: int,
)
    requires
        0 <= k < devices.len(),
    ensures
        ({
            let tablet = active_tablet_spec(devices, registry, touch);
            &&& tablet matches Some(id) ==> devices.contains(id) && has_tool_near(
                registry,
                touch,
                id,
            )
            &&& has_tool_near(registry, touch, devices[k]) && same_hardware(
                registry[touch as int],
                registry[devices[k] as int],
            ) ==> tablet is Some && same_hardware(
                registry[touch as int],
                registry[tablet->0 as int],
            )
            &&& has_tool_near(registry, touch, devices[k]) && registry[touch as int].has_touch
                ==> tablet is Some
            &&& tablet is Some && !registry[touch as int].has_touch ==> same_hardware(
                registry[touch as int],
                registry[tablet->0 as int],
            )
        }),
{
    lemma_paired(devices, registry, touch, 0);
    lemma_last(devices, registry, touch, devices.len() as int);
}

/// For a while after a tool left touch gives way everywhere; then it gives way
/// only while a tool is near, and a touchpad altogether.
pub proof fn law_touch_waits_for_tools_that_left(
    until: Option<u64>,
    now: u64,
    devices: Seq<DeviceId>,
    registry: Seq<LibinputDevice>,
    touch: DeviceId,
    point: Option<(i32, i32)>,
)
    ensures
        ({
            let gives_way = arbitration_active(until, now, devices, registry, touch, point);
            let tablet = active_tablet_spec(devices, registry, touch);
            let waits = until is Some && now < until->0;
            &&& waits ==> gives_way
            &&& !waits && tablet is None ==> !gives_way
            &&& registry[touch as int].has_gesture && tablet is Some ==> gives_way
        }),
{
}

// ---------------------------------------------------------------------------
// Where
// ---------------------------------------------------------------------------
/// Units per millimetre, one where the kernel gives none.
pub open spec fn per_millimetre(resolution: Option<i32>) -> int {
    if resolution is Some && resolution->0 > 1 {
        resolution->0 as int
    } else {
        1
    }
}

pub open spec fn edge(range: Option<(i32, i32)>) -> int {
    match range {
        Some((low, _)) => low as int,
        None => 0,
    }
}

/// Whether a coordinate is `mm` millimetres from the edge of its axis.
pub open spec fn lies_at(
    v: i32,
    range: Option<(i32, i32)>,
    resolution: Option<i32>,
    mm: int,
) -> bool {
    v == edge(range) + mm * per_millimetre(resolution)
}

proof fn lemma_place(m: int, n: int, f: int, t: int, before: int, after: int)
    requires
        f >= 1,
        t >= 1,
    ensures
        (Place { finger: (m * f) * t, tool: (n * t) * f, unit: f * t }).is_between(before, after)
            == (m >= 0 && m >= n - before && m <= n + after),
{
    let unit = f * t;
    assert(unit >= 1) by (nonlinear_arith)
        requires
            f >= 1,
            t >= 1,
            unit == f * t,
    ;
    assert((m * f) * t == m * unit) by (nonlinear_arith)
        requires
            unit == f * t,
    ;
    assert((n * t) * f == n * unit) by (nonlinear_arith)
        requires
            unit == f * t,
    ;
    assert(m * unit >= 0 <==> m >= 0) by (nonlinear_arith)
        requires
            unit >= 1,
    ;
    assert(m * unit >= n * unit - before * unit <==> m >= n - before) by (nonlinear_arith)
        requires
            unit >= 1,
    ;
    assert(m * unit <= n * unit + after * unit <==> m <= n + after) by (nonlinear_arith)
        requires
            unit >= 1,
    ;
}

/// A pen that tilts claims where the hand is likely to rest: from 20 millimetres
/// before it to 180 behind it on the side that it tilts to, and from 100 above
/// it to 150 below it; the other way round if it tilts the other way. The
/// scales of touchscreen and tablet do not matter.
pub proof fn law_tilted_pens_claim_the_hand(
    tablet: LibinputDevice,
    touch: LibinputDevice,
    px: i32,
    py: i32,
    mx: int,
    my: int,
    nx: int,
    ny: int,
)
    requires
        !touch.has_gesture,
        tablet.tablet_current is Some,
        tablet.tablet_current->0.tool_type != 8,
        lies_at(px, touch.abs_x_range, touch.abs_x_resolution, mx),
        lies_at(py, touch.abs_y_range, touch.abs_y_resolution, my),
        lies_at(
            tablet.tablet_current->0.axes.x,
            tablet.abs_x_range,
            tablet.abs_x_resolution,
            nx,
        ),
        lies_at(
            tablet.tablet_current->0.axes.y,
            tablet.abs_y_range,
            tablet.abs_y_resolution,
            ny,
        ),
    ensures
        ({
            let pen = tablet.tablet_current->0;
            let tilt = tilt_spec(axis(tablet.axes@, 0x1a), pen.axes.tilt_x, pen.left_handed);
            let claimed = claims(tablet, touch, Some((px, py)));
            &&& tilt == 0 ==> claimed && claims(tablet, touch, None)
            &&& tilt > 0 ==> claimed == (mx >= 0 && my >= 0 && nx - 20 <= mx <= nx + 180 && ny - 100
                <= my <= ny + 150)
            &&& tilt < 0 ==> claimed == (mx >= 0 && my >= 0 && nx - 180 <= mx <= nx + 20 && ny - 100
                <= my <= ny + 150)
            &&& tilt != 0 ==> !claims(tablet, touch, None)
        }),
{
    let fx = per_millimetre(touch.abs_x_resolution);
    let fy = per_millimetre(touch.abs_y_resolution);
    let tx = per_millimetre(tablet.abs_x_resolution);
    let ty = per_millimetre(tablet.abs_y_resolution);
    lemma_place(mx, nx, fx, tx, 20, 180);
    lemma_place(mx, nx, fx, tx, 180, 20);
    lemma_place(my, ny, fy, ty, 100, 150);
}

/// Which way a pen tilts: with a scale zero is upright, without one the middle
/// of the axis. Turning the tablet round turns the tilt round.
pub proof fn law_tilt_has_two_sides(info: AxisInfo, value: i32)
    ensures
        ({
            let scaled = info.resolution > 0 && info.minimum < 0 && info.maximum > 0;
            let tilt = tilt_spec(Some(info), value, false);
            &&& tilt_spec(Some(info), value, true) == -tilt
            &&& scaled ==> (tilt > 0 <==> value > 0) && (tilt < 0 <==> value < 0)
            &&& info.resolution == 0 && (info.maximum - info.minimum) % 2 == 0 && info.minimum
                < info.maximum ==> {
                &&& 2 * value > info.minimum + info.maximum <==> tilt > 0
                &&& 2 * value < info.minimum + info.maximum <==> tilt < 0
            }
            &&& tilt_spec(None, value, false) == 0
        }),
{
    assert((info.maximum - info.minimum) % 2 == 0 ==> (info.maximum - info.minimum + 1) % 2 != 0);
}

/// A totem claims what it covers: half of its size to each side, and nothing
/// where its size has no scale but the point where it stands.
pub proof fn law_totems_claim_what_they_cover(gap: int, size: int, per_mm: int, left: bool)
    requires
        gap >= 0,
    ensures
        ({
            let place = Place {
                finger: if left {
                    -gap
                } else {
                    gap
                },
                tool: 0,
                unit: 1,
            };
            &&& per_mm > 0 ==> (place.is_covered(size, per_mm) <==> gap * 2 * per_mm <= size)
            &&& per_mm <= 0 ==> (place.is_covered(size, per_mm) <==> gap == 0)
        }),
{
}

// ---------------------------------------------------------------------------
// What clients are told
// ---------------------------------------------------------------------------
/// Whether an event takes a contact back: under its slots and where it was.
pub open spec fn tells_cancel(
    event: LibinputEvent,
    slot: MtSlot,
    index: int,
    device: DeviceId,
    time_usec: u64,
) -> bool {
    &&& event.device == device
    &&& event.event_type == LibinputEventType::LIBINPUT_EVENT_TOUCH_CANCEL
    &&& event.payload is TouchCancel
    &&& tells_slot(event.payload->TouchCancel_0, slot, index, time_usec)
    &&& slot.seat_slot is Some ==> event.payload->TouchCancel_0.seat_slot == slot.seat_slot->0
}

/// Whether an event ends a frame of touches.
pub open spec fn tells_frame(event: LibinputEvent, device: DeviceId, time_usec: u64) -> bool {
    &&& event.device == device
    &&& event.event_type == LibinputEventType::LIBINPUT_EVENT_TOUCH_FRAME
    &&& event.payload is TouchFrame
    &&& event.payload->TouchFrame_time_usec == time_usec
}

proof fn lemma_cancelled(
    slots: Seq<MtSlot>,
    device: DeviceId,
    time_usec: u64,
    used: Seq<bool>,
    out: Seq<LibinputEvent>,
    n: int,
)
    requires
        0 <= n <= slots.len(),
    ensures
        ({
            let step = cancelled_upto(slots, device, time_usec, used, out, n);
            &&& step.slots.len() == n
            &&& step.used.len() == used.len()
            &&& step.out.len() >= out.len()
            &&& step.cancelled <==> step.out.len() > out.len()
            &&& forall|i: int| 0 <= i < out.len() ==> #[trigger] step.out[i] == out[i]
            &&& forall|e: int|
                out.len() <= e < step.out.len() ==> (#[trigger] step.out[e]).payload is TouchCancel
            &&& forall|i: int| 0 <= i < n && (#[trigger] slots[i]).reported ==> step.cancelled
        }),
    decreases n,
{
    if n > 0 {
        lemma_cancelled(slots, device, time_usec, used, out, n - 1);
    }
}

proof fn lemma_slot_cancelled(
    slots: Seq<MtSlot>,
    device: DeviceId,
    time_usec: u64,
    used: Seq<bool>,
    out: Seq<LibinputEvent>,
    n: int,
    k: int,
) -> (e: int)
    requires
        0 <= k < n <= slots.len(),
    ensures
        ({
            let step = cancelled_upto(slots, device, time_usec, used, out, n);
            let slot = step.slots[k];
            &&& !slot.reported
            &&& slot.active == slots[k].active && slot.x == slots[k].x && slot.y == slots[k].y
            &&& slots[k].reported ==> {
                &&& slot.palm_suppressed == slots[k].active && slot.seat_slot is None
                &&& out.len() <= e < step.out.len()
                &&& tells_cancel(step.out[e], slots[k], k, device, time_usec)
            }
            &&& !slots[k].reported ==> slot == slots[k]
            &&& slots[k].reported && slots[k].seat_slot is Some && 0 <= slots[k].seat_slot->0
                < used.len() ==> !step.used[slots[k].seat_slot->0 as int]
        }),
    decreases n,
{
    lemma_cancelled(slots, device, time_usec, used, out, n - 1);
    let before = cancelled_upto(slots, device, time_usec, used, out, n - 1);
    if k == n - 1 {
        before.out.len() as int
    } else {
        lemma_slot_cancelled(slots, device, time_usec, used, out, n - 1, k)
    }
}

proof fn lemma_others_kept(
    slots: Seq<MtSlot>,
    device: DeviceId,
    time_usec: u64,
    used: Seq<bool>,
    out: Seq<LibinputEvent>,
    n: int,
    u: int,
)
    requires
        0 <= n <= slots.len(),
        0 <= u < used.len(),
        forall|i: int|
            0 <= i < n && (#[trigger] slots[i]).reported ==> slots[i].seat_slot is None
                || slots[i].seat_slot->0 != u,
    ensures
        cancelled_upto(slots, device, time_usec, used, out, n).used[u] == used[u],
    decreases n,
{
    if n > 0 {
        lemma_others_kept(slots, device, time_usec, used, out, n - 1, u);
        lemma_cancelled(slots, device, time_usec, used, out, n - 1);
    }
}

/// When a tool comes near a contact that clients know of, all contacts are
/// taken back, each where it was and under the numbers that clients know, in
/// one frame; their places in the seat are free again. Contacts that stay on
/// the surface stay unknown. Otherwise nothing is told.
pub proof fn law_contacts_give_way_to_tools(
    t: TouchState,
    device: DeviceId,
    time_usec: u64,
    near: bool,
    blocked: Seq<bool>,
    used: Seq<bool>,
    out: Seq<LibinputEvent>,
    after: TouchState,
    used_after: Seq<bool>,
    reported: Seq<LibinputEvent>,
    k: int,
) -> (e: int)
    requires
        t.gave_way(device, time_usec, near, blocked, used, out, after, used_after, reported),
        0 <= k < t.slots@.len(),
    ensures
        ({
            let comes = near && !t.arbitration.tablet_was_active;
            let touched = exists|i: int|
                0 <= i < t.slots@.len() && (#[trigger] t.slots@[i]).reported && blocked[i];
            let slot = t.slots@[k];
            &&& after.arbitration.tablet_was_active == near
            &&& !(comes && touched) ==> {
                &&& reported == out
                &&& used_after == used
                &&& after.slots@ == t.slots@
                &&& after.arbitration.suppressed == t.arbitration.suppressed
            }
            &&& comes && touched ==> {
                &&& after.arbitration.suppressed
                &&& reported.len() > out.len() + 1
                &&& tells_frame(reported.last(), device, time_usec)
                &&& forall|i: int| 0 <= i < out.len() ==> #[trigger] reported[i] == out[i]
                &&& after.slots@.len() == t.slots@.len()
                &&& !after.slots@[k].reported
                &&& slot.reported ==> {
                    &&& after.slots@[k].palm_suppressed == slot.active
                    &&& after.slots@[k].seat_slot is None
                    &&& out.len() <= e < reported.len() - 1
                    &&& tells_cancel(reported[e], slot, k, device, time_usec)
                }
                &&& slot.reported && slot.seat_slot is Some && 0 <= slot.seat_slot->0 < used.len()
                    ==> !used_after[slot.seat_slot->0 as int]
                &&& forall|i: int|
                    out.len() <= i < reported.len() - 1 ==> (#[trigger] reported[i]).payload
                        is TouchCancel
            }
        }),
{
    reveal(TouchState::gave_way);
    let n = t.slots@.len() as int;
    let step = cancelled_upto(t.slots@, device, time_usec, used, out, n);
    lemma_cancelled(t.slots@, device, time_usec, used, out, n);
    if t.yields(near, blocked) {
        assert(step.cancelled);
        assert(reported.drop_last() =~= step.out);
        assert forall|i: int| out.len() <= i < reported.len() - 1 implies (
        #[trigger] reported[i]).payload is TouchCancel by {
            assert(reported[i] == step.out[i]);
        }
    }
    lemma_slot_cancelled(t.slots@, device, time_usec, used, out, n, k)
}

/// Places in the seat that belong to no contact of the device are not freed.
pub proof fn law_other_contacts_keep_their_place(
    t: TouchState,
    device: DeviceId,
    time_usec: u64,
    near: bool,
    blocked: Seq<bool>,
    used: Seq<bool>,
    out: Seq<LibinputEvent>,
    after: TouchState,
    used_after: Seq<bool>,
    reported: Seq<LibinputEvent>,
    u: int,
)
    requires
        t.gave_way(device, time_usec, near, blocked, used, out, after, used_after, reported),
        0 <= u < used.len(),
        forall|i: int|
            0 <= i < t.slots@.len() && (#[trigger] t.slots@[i]).reported ==> t.slots@[i].seat_slot
                is None || t.slots@[i].seat_slot->0 != u,
    ensures
        used_after[u] == used[u],
{
    reveal(TouchState::gave_way);
    lemma_others_kept(t.slots@, device, time_usec, used, out, t.slots@.len() as int, u);
}

} // verus!
