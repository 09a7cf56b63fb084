//! Touchscreens: where contacts are, and that each is told of as it is.
use vstd::prelude::*;
use crate::backend::slots::{slot_after, MtSlot};
use crate::backend::touchpad::{FrameEnd, TouchState};
use crate::backend::touchscreen::{
    frame_reported, frame_slots, law_touch_lifecycle, lemma_first_free, matched, nearest,
    reported_slots, same_id, slot_for, slot_reported, slots_reported, taken, unused, Contact,
};
use crate::codes::InputEvent;
use crate::ffi_types::{
    DeviceId, EventPayload, LibinputDevice, LibinputEvent, LibinputEventType, TouchEvent,
};

verus! {

/// What touch events say of a contact.
pub open spec fn touch_in(event: LibinputEvent) -> Option<TouchEvent> {
    match event.payload {
        EventPayload::TouchDown(t) => Some(t),
        EventPayload::TouchMotion(t) => Some(t),
        EventPayload::TouchUp(t) => Some(t),
        EventPayload::TouchCancel(t) => Some(t),
        _ => None,
    }
}

/// Whether the type of a touch event is that of its contents.
pub open spec fn is_typed(event: LibinputEvent) -> bool {
    match event.payload {
        EventPayload::TouchDown(_) => event.event_type
            == LibinputEventType::LIBINPUT_EVENT_TOUCH_DOWN,
        EventPayload::TouchMotion(_) => event.event_type
            == LibinputEventType::LIBINPUT_EVENT_TOUCH_MOTION,
        EventPayload::TouchUp(_) => event.event_type == LibinputEventType::LIBINPUT_EVENT_TOUCH_UP,
        EventPayload::TouchCancel(_) => event.event_type
            == LibinputEventType::LIBINPUT_EVENT_TOUCH_CANCEL,
        EventPayload::TouchFrame { .. } => event.event_type
            == LibinputEventType::LIBINPUT_EVENT_TOUCH_FRAME,
        _ => false,
    }
}

/// Whether an event tells of a contact: where it is, under the number of its
/// slot, at the time of the frame.
pub open spec fn tells_contact(
    event: LibinputEvent,
    device: DeviceId,
    time_usec: u64,
    index: int,
    x: i32,
    y: i32,
) -> bool {
    &&& event.device == device
    &&& is_typed(event)
    &&& touch_in(event) is Some
    &&& touch_in(event)->0.time_usec == time_usec
    &&& touch_in(event)->0.slot == index
    &&& touch_in(event)->0.x == x
    &&& touch_in(event)->0.y == y
}

/// Whatever is reported of a slot tells where the slot is, in the fields of
/// those names, and which slot it is; a contact that goes down gets the lowest
/// free seat slot and keeps it until it is up.
pub proof fn law_touches_are_where_the_contacts_are(
    slot: MtSlot,
    index: int,
    device: DeviceId,
    time_usec: u64,
    used: Seq<bool>,
    out: Seq<LibinputEvent>,
)
    requires
        0 <= index < 256,
        used.len() < i32::MAX,
    ensures
        ({
            let s = slot_reported(slot, index, device, time_usec, used, out);
            let event = s.out.last();
            &&& s.slot.x == slot.x && s.slot.y == slot.y && s.slot.active == slot.active
                && s.slot.tracking_id == slot.tracking_id
            &&& !s.slot.dirty
            &&& s.used.len() <= used.len() + 1
            &&& s.emitted ==> s.out.len() == out.len() + 1 && s.out.drop_last() == out
            &&& s.emitted ==> tells_contact(event, device, time_usec, index, slot.x, slot.y)
            &&& !s.emitted ==> s.out == out && s.used == used
            &&& event.payload is TouchDown && s.emitted ==> {
                let seat_slot = touch_in(event)->0.seat_slot as int;
                &&& s.slot.seat_slot == Some(touch_in(event)->0.seat_slot)
                &&& 0 <= seat_slot <= used.len()
                &&& seat_slot < used.len() ==> !used[seat_slot]
                &&& forall|i: int| 0 <= i < seat_slot ==> used[i]
                &&& s.used.len() >= used.len() && s.used[seat_slot]
                &&& forall|i: int|
                    0 <= i < used.len() && i != seat_slot ==> #[trigger] s.used[i] == used[i]
            }
            &&& s.emitted && !(event.payload is TouchDown) && slot.seat_slot is Some
                ==> touch_in(event)->0.seat_slot == slot.seat_slot->0
            &&& s.emitted && event.payload is TouchMotion ==> s.slot.seat_slot == slot.seat_slot
                && s.used == used
            &&& s.emitted && (event.payload is TouchUp || event.payload is TouchCancel) ==> {
                &&& s.slot.seat_slot is None
                &&& s.used.len() == used.len()
                &&& forall|i: int|
                    0 <= i < used.len() ==> #[trigger] s.used[i] == (used[i] && slot.seat_slot
                        != Some(i as i32))
            }
        }),
{
    let s = slot_reported(slot, index, device, time_usec, used, out);
    law_touch_lifecycle(slot, index, device, time_usec, used, out);
    lemma_first_free(used, 0);
}

/// A contact that is down and was not told of goes down; one that was told of
/// and changed moves; one that is gone comes up. Palms are not told of, and
/// one that was told of as a finger is taken back.
pub proof fn law_contacts_go_down_move_and_come_up(
    slot: MtSlot,
    index: int,
    device: DeviceId,
    time_usec: u64,
    used: Seq<bool>,
    out: Seq<LibinputEvent>,
)
    ensures
        ({
            let s = slot_reported(slot, index, device, time_usec, used, out);
            let event = s.out.last();
            let plain = slot.dirty && !slot.cancel_pending && !slot.palm_suppressed;
            &&& s.emitted <==> slot.dirty && (slot.cancel_pending || (!slot.palm_suppressed && (
            slot.active || slot.reported)))
            &&& plain && slot.active && !slot.reported ==> event.payload is TouchDown
            &&& plain && slot.active && slot.reported ==> event.payload is TouchMotion
            &&& plain && !slot.active && slot.reported ==> event.payload is TouchUp
            &&& slot.dirty && slot.cancel_pending ==> event.payload is TouchCancel
                && !s.slot.cancel_pending
            &&& plain ==> s.slot.reported == slot.active
        }),
{
}

// ---------------------------------------------------------------------------
// Frames
// ---------------------------------------------------------------------------
/// Whether a frame tells anything of a slot.
pub open spec fn is_told(slot: MtSlot) -> bool {
    slot.dirty && (slot.cancel_pending || (!slot.palm_suppressed && (slot.active || slot.reported)))
}

/// How many of the first `n` slots a frame tells of.
pub open spec fn told_upto(slots: Seq<MtSlot>, n: int) -> int
    decreases n,
{
    if n <= 0 {
        0
    } else {
        told_upto(slots, n - 1) + if is_told(slots[n - 1]) {
            1int
        } else {
            0
        }
    }
}

/// A frame tells of every slot that changed, once and in the order of the
/// slots, each where it is; and it ends with one frame event if it told of
/// any.
pub proof fn law_frames_tell_of_every_change(
    slots: Seq<MtSlot>,
    device: DeviceId,
    time_usec: u64,
    used: Seq<bool>,
    out: Seq<LibinputEvent>,
)
    requires
        slots.len() <= 256,
        used.len() < 0x4000_0000,
    ensures
        ({
            let frame = frame_reported(slots, device, time_usec, used, out);
            let told = told_upto(slots, slots.len() as int);
            &&& frame.out.len() == out.len() + told + if told > 0 {
                1int
            } else {
                0
            }
            &&& forall|i: int| 0 <= i < out.len() ==> #[trigger] frame.out[i] == out[i]
            &&& forall|k: int|
                0 <= k < slots.len() && is_told(#[trigger] slots[k]) ==> tells_contact(
                    frame.out[out.len() + told_upto(slots, k)],
                    device,
                    time_usec,
                    k,
                    slots[k].x,
                    slots[k].y,
                )
            &&& told > 0 ==> frame.out.last().device == device && is_typed(frame.out.last())
                && frame.out.last().payload == EventPayload::TouchFrame { time_usec }
            &&& frame.slots.len() == slots.len()
            &&& forall|k: int|
                0 <= k < slots.len() ==> (#[trigger] frame.slots[k]).x == slots[k].x
                    && frame.slots[k].y == slots[k].y && frame.slots[k].active
                    == slots[k].active && !frame.slots[k].dirty
        }),
{
    lemma_slots_told(slots, device, time_usec, used, out, slots.len() as int);
    let n = slots.len() as int;
    let frame = frame_reported(slots, device, time_usec, used, out);
    let s = slots_reported(slots, device, time_usec, used, out, n);
    assert forall|k: int| 0 <= k < slots.len() && is_told(#[trigger] slots[k]) implies tells_contact(
        frame.out[out.len() + told_upto(slots, k)],
        device,
        time_usec,
        k,
        slots[k].x,
        slots[k].y,
    ) by {
        lemma_told_grows(slots, k, n);
        assert(frame.out[out.len() + told_upto(slots, k)] == s.out[out.len() + told_upto(
            slots,
            k,
        )]);
    }
}

proof fn lemma_told_grows(slots: Seq<MtSlot>, k: int, n: int)
    requires
        0 <= k < n <= slots.len(),
    ensures
        0 <= told_upto(slots, k),
        is_told(slots[k]) ==> told_upto(slots, k) + 1 <= told_upto(slots, n),
        told_upto(slots, k) <= told_upto(slots, n),
    decreases n + k,
{
    if k + 1 < n {
        lemma_told_grows(slots, k, n - 1);
    } else if k > 0 {
        lemma_told_grows(slots, k - 1, k);
    }
}

proof fn lemma_slots_told(
    slots: Seq<MtSlot>,
    device: DeviceId,
    time_usec: u64,
    used: Seq<bool>,
    out: Seq<LibinputEvent>,
    n: int,
)
    requires
        0 <= n <= slots.len() <= 256,
        used.len() < 0x4000_0000,
    ensures
        ({
            let s = slots_reported(slots, device, time_usec, used, out, n);
            &&& s.out.len() == out.len() + told_upto(slots, n)
            &&& told_upto(slots, n) >= 0
            &&& s.emitted <==> told_upto(slots, n) > 0
            &&& s.used.len() <= used.len() + n
            &&& s.slots.len() == n
            &&& forall|i: int| 0 <= i < out.len() ==> #[trigger] s.out[i] == out[i]
            &&& forall|k: int|
                0 <= k < n && is_told(#[trigger] slots[k]) ==> tells_contact(
                    s.out[out.len() + told_upto(slots, k)],
                    device,
                    time_usec,
                    k,
                    slots[k].x,
                    slots[k].y,
                )
            &&& forall|k: int|
                0 <= k < n ==> (#[trigger] s.slots[k]).x == slots[k].x && s.slots[k].y
                    == slots[k].y && s.slots[k].active == slots[k].active && !s.slots[k].dirty
        }),
    decreases n,
{
    if n > 0 {
        lemma_slots_told(slots, device, time_usec, used, out, n - 1);
        let before = slots_reported(slots, device, time_usec, used, out, n - 1);
        let s = slots_reported(slots, device, time_usec, used, out, n);
        let slot = slots[n - 1];
        let step = slot_reported(slot, n - 1, device, time_usec, before.used, before.out);
        law_touches_are_where_the_contacts_are(
            slot,
            n - 1,
            device,
            time_usec,
            before.used,
            before.out,
        );
        law_contacts_go_down_move_and_come_up(
            slot,
            n - 1,
            device,
            time_usec,
            before.used,
            before.out,
        );
        assert forall|i: int| 0 <= i < before.out.len() implies #[trigger] s.out[i]
            == before.out[i] by {
            if step.emitted {
                assert(step.out.drop_last()[i] == step.out[i]);
            }
        }
        assert forall|k: int| 0 <= k < n && is_told(#[trigger] slots[k]) implies tells_contact(
            s.out[out.len() + told_upto(slots, k)],
            device,
            time_usec,
            k,
            slots[k].x,
            slots[k].y,
        ) by {
            if k < n - 1 {
                lemma_told_grows(slots, k, n - 1);
            }
        }
        assert forall|k: int| 0 <= k < n implies (#[trigger] s.slots[k]).x == slots[k].x
            && s.slots[k].y == slots[k].y && s.slots[k].active == slots[k].active
            && !s.slots[k].dirty by {
            if k < n - 1 {
                assert(s.slots[k] == before.slots[k]);
            }
        }
    }
}

// ---------------------------------------------------------------------------
// Slots
// ---------------------------------------------------------------------------
/// The axes of a contact move the current slot and no other one: 0x35 and 0x36
/// are its coordinates, 0x39 says whether it is there, 0x2f chooses another
/// slot. Movement within the fuzz of a contact that was told of is no movement.
pub proof fn law_axes_move_the_current_contact(
    s: TouchState,
    dev: LibinputDevice,
    ev: InputEvent,
    stick: Option<DeviceId>,
    time_usec: u64,
    now: u64,
    tap_enabled: bool,
    dwt_active: bool,
    arbitrated: bool,
    out: Seq<LibinputEvent>,
    after: TouchState,
    reported: Seq<LibinputEvent>,
    end: FrameEnd,
)
    requires
        s.wf(),
        ev.kind == 3,
        !s.protocol_a,
        ev.code == 0x35 || ev.code == 0x36 || ev.code == 0x39 || ev.code == 0x2f,
        s.processed(
            dev,
            ev,
            stick,
            time_usec,
            now,
            tap_enabled,
            dwt_active,
            arbitrated,
            out,
            after,
            reported,
            end,
        ),
    ensures
        ({
            let k = s.current_slot as int;
            let was = s.slots@[k];
            let is = after.slots@[k];
            let far_x = !was.reported || ev.value - was.x > s.x_fuzz || was.x - ev.value
                > s.x_fuzz;
            let far_y = !was.reported || ev.value - was.y > s.y_fuzz || was.y - ev.value
                > s.y_fuzz;
            &&& reported == out
            &&& after.slots@.len() == s.slots@.len()
            &&& forall|i: int|
                0 <= i < s.slots@.len() && i != k ==> #[trigger] after.slots@[i] == s.slots@[i]
            &&& ev.code == 0x35 ==> is.y == was.y && is.active == was.active && is.x == (if far_x {
                ev.value
            } else {
                was.x
            }) && is.dirty == (was.dirty || far_x)
            &&& ev.code == 0x36 ==> is.x == was.x && is.active == was.active && is.y == (if far_y {
                ev.value
            } else {
                was.y
            }) && is.dirty == (was.dirty || far_y)
            &&& ev.code == 0x39 ==> is.x == was.x && is.y == was.y && is.active == (ev.value >= 0)
                && is.dirty && is.tracking_id == ev.value
            &&& ev.code == 0x2f ==> is == was && after.current_slot == (if 0 <= ev.value
                < s.slots@.len() {
                ev.value as int
            } else {
                s.current_slot as int
            })
            &&& ev.code != 0x2f ==> after.current_slot == s.current_slot
        }),
{
    reveal(TouchState::processed);
    assert(s.slots@.update(s.current_slot as int, s.slots@[s.current_slot as int]) =~= s.slots@);
}

/// A screen that knows one contact has it in its first slot: 0 and 1 are its
/// coordinates, and its touch button says whether it is there.
pub proof fn law_single_contacts_are_in_the_first_slot(
    s: TouchState,
    dev: LibinputDevice,
    ev: InputEvent,
    stick: Option<DeviceId>,
    time_usec: u64,
    now: u64,
    tap_enabled: bool,
    dwt_active: bool,
    arbitrated: bool,
    out: Seq<LibinputEvent>,
    after: TouchState,
    reported: Seq<LibinputEvent>,
    end: FrameEnd,
)
    requires
        s.wf(),
        dev.has_touch && !s.has_mt,
        (ev.kind == 3 && (ev.code == 0 || ev.code == 1)) || (ev.kind == 1 && ev.code == 0x14a),
        s.processed(
            dev,
            ev,
            stick,
            time_usec,
            now,
            tap_enabled,
            dwt_active,
            arbitrated,
            out,
            after,
            reported,
            end,
        ),
    ensures
        ({
            let was = s.slots@[0];
            let is = after.slots@[0];
            &&& after.slots@.len() == s.slots@.len()
            &&& forall|i: int| 0 < i < s.slots@.len() ==> #[trigger] after.slots@[i] == s.slots@[i]
            &&& is.dirty
            &&& is.x == (if ev.kind == 3 && ev.code == 0 {
                ev.value
            } else {
                was.x
            })
            &&& is.y == (if ev.kind == 3 && ev.code == 1 {
                ev.value
            } else {
                was.y
            })
            &&& is.active == (if ev.kind == 1 {
                ev.value != 0
            } else {
                was.active
            })
        }),
{
    reveal(TouchState::processed);
}

/// A contact that the kernel calls a palm is not told of any more, and taken
/// back if it was.
pub proof fn law_palms_are_taken_back(
    slot: MtSlot,
    x_fuzz: i32,
    y_fuzz: i32,
    suppressed: bool,
    index: int,
    device: DeviceId,
    time_usec: u64,
    used: Seq<bool>,
    out: Seq<LibinputEvent>,
)
    requires
        0 <= index < 256,
        used.len() < i32::MAX,
        !slot.cancel_pending,
    ensures
        ({
            let palm = slot_after(slot, 0x37, 2, x_fuzz, y_fuzz, suppressed);
            let s = slot_reported(palm, index, device, time_usec, used, out);
            &&& palm.x == slot.x && palm.y == slot.y && palm.active == slot.active
            &&& s.emitted <==> slot.active && slot.reported
            &&& s.emitted ==> s.out.last().payload is TouchCancel && !s.slot.reported
            &&& slot.active ==> s.slot.palm_suppressed
        }),
{
}

// ---------------------------------------------------------------------------
// Contacts without slots
// ---------------------------------------------------------------------------
/// The contact that a device without slots describes is the one that its axes
/// gave: 0x35 and 0x36 are its coordinates, 0x39 its number.
pub proof fn law_bare_contacts_are_collected(
    s: TouchState,
    dev: LibinputDevice,
    ev: InputEvent,
    stick: Option<DeviceId>,
    time_usec: u64,
    now: u64,
    tap_enabled: bool,
    dwt_active: bool,
    arbitrated: bool,
    out: Seq<LibinputEvent>,
    after: TouchState,
    reported: Seq<LibinputEvent>,
    end: FrameEnd,
)
    requires
        s.wf(),
        s.protocol_a,
        s.processed(
            dev,
            ev,
            stick,
            time_usec,
            now,
            tap_enabled,
            dwt_active,
            arbitrated,
            out,
            after,
            reported,
            end,
        ),
    ensures
        ev.kind == 3 && ev.code == 0x35 ==> after.report.x == Some(ev.value) && after.report.y
            == s.report.y && after.report.tracking_id == s.report.tracking_id,
        ev.kind == 3 && ev.code == 0x36 ==> after.report.y == Some(ev.value) && after.report.x
            == s.report.x && after.report.tracking_id == s.report.tracking_id,
        ev.kind == 3 && ev.code == 0x39 ==> after.report.tracking_id == Some(ev.value)
            && after.report.x == s.report.x && after.report.y == s.report.y,
        ev.kind == 0 && ev.code == 2 && s.report.x is Some && s.report.y is Some ==> {
            let c = after.contacts@.last();
            &&& after.contacts@.len() == s.contacts@.len() + 1
            &&& after.contacts@.drop_last() == s.contacts@
            &&& c.x == s.report.x->0 && c.y == s.report.y->0
            &&& s.report.tracking_id is Some ==> c.tracking_id == s.report.tracking_id->0
            &&& s.report.tracking_id is None ==> c.tracking_id == -1
            &&& after.report.x is None && after.report.y is None
        },
{
    reveal(TouchState::processed);
    if ev.kind == 0 && ev.code == 2 && s.report.x is Some && s.report.y is Some {
        assert(after.contacts@.drop_last() =~= s.contacts@);
    }
}

/// Whether a slot is claimed by the last contact that has its position.
pub open spec fn holds_contact(slot: MtSlot, contact: Contact) -> bool {
    slot.active && slot.x == contact.x && slot.y == contact.y && (contact.tracking_id >= 0
        ==> slot.tracking_id == contact.tracking_id)
}

pub open spec fn free_count(claimed: Seq<bool>) -> int
    decreases claimed.len(),
{
    if claimed.len() == 0 {
        0
    } else {
        free_count(claimed.drop_last()) + if claimed.last() {
            0int
        } else {
            1
        }
    }
}

proof fn lemma_free(claimed: Seq<bool>)
    ensures
        0 <= free_count(claimed) <= claimed.len(),
        free_count(claimed) > 0 ==> exists|i: int| 0 <= i < claimed.len() && !claimed[i],
    decreases claimed.len(),
{
    if claimed.len() > 0 {
        lemma_free(claimed.drop_last());
        if !claimed.last() {
            assert(!claimed[claimed.len() - 1]);
        } else if free_count(claimed.drop_last()) > 0 {
            let i = choose|i: int|
                0 <= i < claimed.drop_last().len() && !claimed.drop_last()[i];
            assert(!claimed[i]);
        }
    }
}

proof fn lemma_claim(claimed: Seq<bool>, k: int)
    requires
        0 <= k < claimed.len(),
    ensures
        free_count(claimed.update(k, true)) >= free_count(claimed) - 1,
    decreases claimed.len(),
{
    let after = claimed.update(k, true);
    if k == claimed.len() - 1 {
        assert(after.drop_last() =~= claimed.drop_last());
    } else {
        lemma_claim(claimed.drop_last(), k);
        assert(after.drop_last() =~= claimed.drop_last().update(k, true));
    }
}

proof fn lemma_all_free(n: nat)
    ensures
        free_count(Seq::new(n, |i: int| false)) == n,
    decreases n,
{
    let all = Seq::new(n, |i: int| false);
    if n > 0 {
        lemma_all_free((n - 1) as nat);
        assert(all.drop_last() =~= Seq::new((n - 1) as nat, |i: int| false));
    }
}

proof fn lemma_same_id(slots: Seq<MtSlot>, claimed: Seq<bool>, id: i32, from: int)
    requires
        0 <= from,
        claimed.len() == slots.len(),
    ensures
        same_id(slots, claimed, id, from) matches Some(i) ==> from <= i < slots.len()
            && !claimed[i] && slots[i].reported && slots[i].tracking_id == id,
        same_id(slots, claimed, id, from) is None ==> forall|i: int|
            from <= i < slots.len() && !claimed[i] && (#[trigger] slots[i]).reported
                ==> slots[i].tracking_id != id,
    decreases slots.len() - from,
{
    if from < slots.len() {
        lemma_same_id(slots, claimed, id, from + 1);
    }
}

proof fn lemma_nearest(slots: Seq<MtSlot>, claimed: Seq<bool>, contact: Contact, n: int)
    requires
        0 <= n <= slots.len(),
        claimed.len() == slots.len(),
    ensures
        nearest(slots, claimed, contact, n) matches Some(i) ==> 0 <= i < n && !claimed[i]
            && slots[i].reported && forall|j: int|
            0 <= j < n && !claimed[j] && (#[trigger] slots[j]).reported ==> (slots[i].x
                - contact.x) * (slots[i].x - contact.x) + (slots[i].y - contact.y) * (slots[i].y
                - contact.y) <= (slots[j].x - contact.x) * (slots[j].x - contact.x) + (slots[j].y
                - contact.y) * (slots[j].y - contact.y),
        nearest(slots, claimed, contact, n) is None ==> forall|i: int|
            0 <= i < n && !claimed[i] ==> !(#[trigger] slots[i]).reported,
    decreases n,
{
    if n > 0 {
        lemma_nearest(slots, claimed, contact, n - 1);
    }
}

proof fn lemma_unused(slots: Seq<MtSlot>, claimed: Seq<bool>, from: int)
    requires
        0 <= from,
        claimed.len() == slots.len(),
    ensures
        unused(slots, claimed, from) matches Some(i) ==> from <= i < slots.len() && !claimed[i]
            && !slots[i].reported,
        unused(slots, claimed, from) is None ==> forall|i: int|
            from <= i < slots.len() && !claimed[i] ==> (#[trigger] slots[i]).reported,
    decreases slots.len() - from,
{
    if from < slots.len() {
        lemma_unused(slots, claimed, from + 1);
    }
}

/// A contact is matched with a contact of the frame before: with the one of
/// its number, else with none that is farther away than another. While there
/// are free slots it never takes a slot that another contact has.
pub proof fn law_contacts_keep_their_slots(
    slots: Seq<MtSlot>,
    claimed: Seq<bool>,
    existing: Seq<usize>,
    complete: bool,
    index: int,
    contact: Contact,
    other: int,
)
    requires
        claimed.len() == slots.len(),
        forall|i: int| 0 <= i < existing.len() ==> (#[trigger] existing[i]) < slots.len(),
        0 <= index,
        0 <= other < slots.len(),
        exists|i: int| 0 <= i < claimed.len() && !claimed[i],
    ensures
        ({
            let k = slot_for(slots, claimed, existing, complete, index, contact);
            &&& 0 <= k < slots.len() && !claimed[k]
            &&& contact.tracking_id >= 0 && !claimed[other] && slots[other].reported
                && slots[other].tracking_id == contact.tracking_id ==> slots[k].reported
                && slots[k].tracking_id == contact.tracking_id
            &&& (contact.tracking_id < 0 && (!complete || index >= existing.len())
                && !claimed[other] && slots[other].reported) ==> slots[k].reported && (slots[k].x
                - contact.x) * (slots[k].x - contact.x) + (slots[k].y - contact.y) * (slots[k].y
                - contact.y) <= (slots[other].x - contact.x) * (slots[other].x - contact.x) + (
            slots[other].y - contact.y) * (slots[other].y - contact.y)
        }),
{
    lemma_same_id(slots, claimed, contact.tracking_id, 0);
    lemma_nearest(slots, claimed, contact, slots.len() as int);
    lemma_unused(slots, claimed, 0);
    let free = choose|i: int| 0 <= i < claimed.len() && !claimed[i];
    if slots[free].reported {
        assert(nearest(slots, claimed, contact, slots.len() as int) is Some);
    } else {
        assert(unused(slots, claimed, 0) is Some);
    }
    if 0 <= index < existing.len() {
        assert(existing[index] < slots.len());
    }
}

proof fn lemma_reported_slots(slots: Seq<MtSlot>, n: int)
    requires
        0 <= n <= slots.len() <= 256,
    ensures
        forall|i: int|
            0 <= i < reported_slots(slots, n).len() ==> (#[trigger] reported_slots(slots, n)[i])
                < n,
    decreases n,
{
    if n > 0 {
        lemma_reported_slots(slots, n - 1);
        let before = reported_slots(slots, n - 1);
        let all = reported_slots(slots, n);
        assert forall|i: int| 0 <= i < all.len() implies (#[trigger] all[i]) < n by {
            if i < before.len() {
                assert(all[i] == before[i]);
            }
        }
    }
}

proof fn lemma_matched(
    slots: Seq<MtSlot>,
    contacts: Seq<Contact>,
    suppressed: bool,
    n: int,
)
    requires
        0 <= n <= contacts.len() <= slots.len() <= 256,
    ensures
        ({
            let (moved, claimed) = matched(slots, contacts, suppressed, n);
            &&& moved.len() == slots.len() && claimed.len() == slots.len()
            &&& free_count(claimed) >= slots.len() - n
            &&& forall|i: int| 0 <= i < slots.len() && !claimed[i] ==> #[trigger] moved[i] == slots[i]
            &&& forall|c: int|
                0 <= c < n ==> exists|i: int|
                    0 <= i < slots.len() && claimed[i] && holds_contact(
                        #[trigger] moved[i],
                        #[trigger] contacts[c],
                    )
        }),
    decreases n,
{
    if n == 0 {
        lemma_all_free(slots.len());
    } else {
        lemma_matched(slots, contacts, suppressed, n - 1);
        let (before, claims) = matched(slots, contacts, suppressed, n - 1);
        let (moved, claimed) = matched(slots, contacts, suppressed, n);
        let existing = reported_slots(slots, slots.len() as int);
        lemma_reported_slots(slots, slots.len() as int);
        lemma_free(claims);
        let contact = contacts[n - 1];
        let k = slot_for(
            before,
            claims,
            existing,
            contacts.len() >= existing.len(),
            n - 1,
            contact,
        );
        law_contacts_keep_their_slots(
            before,
            claims,
            existing,
            contacts.len() >= existing.len(),
            n - 1,
            contact,
            0,
        );
        lemma_claim(claims, k);
        assert forall|c: int| 0 <= c < n implies exists|i: int|
            0 <= i < slots.len() && claimed[i] && holds_contact(
                #[trigger] moved[i],
                #[trigger] contacts[c],
            ) by {
            if c == n - 1 {
                assert(claimed[k] && holds_contact(moved[k], contacts[c]));
            } else {
                let i = choose|i: int|
                    0 <= i < slots.len() && claims[i] && holds_contact(
                        #[trigger] before[i],
                        contacts[c],
                    );
                assert(i != k);
                assert(moved[i] == before[i]);
                assert(claimed[i] && holds_contact(moved[i], contacts[c]));
            }
        }
    }
}

/// Every contact of a frame is in a slot afterwards, where the contact is; and
/// every slot that is in use afterwards was claimed by a contact, or nothing
/// happened to it.
pub proof fn law_every_contact_gets_a_slot(
    slots: Seq<MtSlot>,
    contacts: Seq<Contact>,
    suppressed: bool,
)
    requires
        contacts.len() <= slots.len() <= 256,
    ensures
        ({
            let after = frame_slots(slots, contacts, suppressed);
            &&& after.len() == slots.len()
            &&& forall|c: int|
                0 <= c < contacts.len() ==> exists|i: int|
                    0 <= i < after.len() && holds_contact(
                        #[trigger] after[i],
                        #[trigger] contacts[c],
                    )
            &&& contacts.len() == 0 ==> forall|i: int|
                0 <= i < after.len() ==> (slots[i].reported ==> !(#[trigger] after[i]).active
                    && after[i].dirty)
        }),
{
    lemma_matched(slots, contacts, suppressed, contacts.len() as int);
    let (moved, claimed) = matched(slots, contacts, suppressed, contacts.len() as int);
    let after = frame_slots(slots, contacts, suppressed);
    assert forall|c: int| 0 <= c < contacts.len() implies exists|i: int|
        0 <= i < after.len() && holds_contact(#[trigger] after[i], #[trigger] contacts[c]) by {
        let i = choose|i: int|
            0 <= i < slots.len() && claimed[i] && holds_contact(
                #[trigger] moved[i],
                contacts[c],
            );
        assert(after[i] == moved[i]);
    }
}

/// Of slots that are equally near a contact takes the first.
pub proof fn law_of_equally_near_slots_the_first_is_taken(
    slots: Seq<MtSlot>,
    claimed: Seq<bool>,
    contact: Contact,
    n: int,
    k: int,
    j: int,
)
    requires
        0 <= n <= slots.len(),
        crate::backend::touchscreen::nearest(slots, claimed, contact, n) == Some(k),
        0 <= j < n,
        !claimed[j] && slots[j].reported,
    ensures
        0 <= k < n,
        !claimed[k] && slots[k].reported,
        ({
            let near = (slots[k].x - contact.x) * (slots[k].x - contact.x) + (slots[k].y
                - contact.y) * (slots[k].y - contact.y);
            let far = (slots[j].x - contact.x) * (slots[j].x - contact.x) + (slots[j].y
                - contact.y) * (slots[j].y - contact.y);
            &&& near <= far
            &&& j < k ==> near < far
        }),
    decreases n,
{
    let before = crate::backend::touchscreen::nearest(slots, claimed, contact, n - 1);
    if before is None {
        lemma_none_nearest(slots, claimed, contact, n - 1);
    } else {
        let b = before->0;
        if j < n - 1 {
            law_of_equally_near_slots_the_first_is_taken(slots, claimed, contact, n - 1, b, j);
        } else if k != n - 1 {
            lemma_some_nearest(slots, claimed, contact, n - 1);
        }
    }
}

proof fn lemma_none_nearest(slots: Seq<MtSlot>, claimed: Seq<bool>, contact: Contact, n: int)
    requires
        0 <= n <= slots.len(),
        crate::backend::touchscreen::nearest(slots, claimed, contact, n) is None,
    ensures
        forall|j: int| 0 <= j < n ==> !(!claimed[j] && (#[trigger] slots[j]).reported),
    decreases n,
{
    if n > 0 {
        lemma_none_nearest(slots, claimed, contact, n - 1);
    }
}

proof fn lemma_some_nearest(slots: Seq<MtSlot>, claimed: Seq<bool>, contact: Contact, n: int)
    requires
        0 <= n <= slots.len(),
        crate::backend::touchscreen::nearest(slots, claimed, contact, n) is Some,
    ensures
        ({
            let k = crate::backend::touchscreen::nearest(slots, claimed, contact, n)->0;
            0 <= k < n && !claimed[k] && slots[k].reported
        }),
    decreases n,
{
    if n > 0 && crate::backend::touchscreen::nearest(slots, claimed, contact, n - 1) is Some {
        lemma_some_nearest(slots, claimed, contact, n - 1);
    }
}

/// A touch key moves no slot of a device that tracks its contacts, nor of a
/// touchpad.
pub proof fn law_touch_keys_move_no_other_slots(s: TouchState, dev: LibinputDevice, down: bool)
    requires
        !dev.has_touch || s.has_mt,
    ensures
        s.touched_slots(dev, down) == s.slots@,
{
}

/// A device that ends a contact without naming it tracks no contacts, and the
/// next contact starts from nothing.
pub proof fn law_bare_contacts_are_recognised(
    s: TouchState,
    dev: LibinputDevice,
    ev: InputEvent,
    stick: Option<DeviceId>,
    time_usec: u64,
    now: u64,
    tap_enabled: bool,
    dwt_active: bool,
    arbitrated: bool,
    out: Seq<LibinputEvent>,
    after: TouchState,
    reported: Seq<LibinputEvent>,
    end: FrameEnd,
)
    requires
        s.processed(
            dev,
            ev,
            stick,
            time_usec,
            now,
            tap_enabled,
            dwt_active,
            arbitrated,
            out,
            after,
            reported,
            end,
        ),
        ev.kind == 0 && ev.code == 2,
    ensures
        after.protocol_a,
        after.report.tracking_id is None && after.report.x is None && after.report.y is None,
        reported == out && after.slots == s.slots,
{
    reveal(TouchState::processed);
}

} // verus!
