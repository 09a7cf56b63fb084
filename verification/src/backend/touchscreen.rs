//! Touchscreens: seat-wide slots, contact matching for devices without slots
//! of their own, and the touch events of a frame.
use vstd::prelude::*;
use crate::backend::slots::{any_active, any_active_spec, MtSlot, MAX_SLOTS};
use crate::ffi_types::{
    DeviceId, EventPayload, LibinputEvent, LibinputEventType, TouchEvent,
};

verus! {

// ---------------------------------------------------------------------------
// Seat slots
// ---------------------------------------------------------------------------
/// The first seat slot that is not in use; the number of slots if all are.
pub open spec fn first_free(used: Seq<bool>, from: int) -> int
    decreases used.len() - from,
{
    if from >= used.len() {
        used.len() as int
    } else if !used[from] {
        from
    } else {
        first_free(used, from + 1)
    }
}

/// The seat slots once the first free one is taken.
pub open spec fn taken(used: Seq<bool>) -> Seq<bool> {
    let slot = first_free(used, 0);
    if slot < used.len() {
        used.update(slot, true)
    } else {
        used.push(true)
    }
}

/// The seat slots once `slot` is given back. Numbers that name no slot
/// change nothing.
pub open spec fn given_back(used: Seq<bool>, slot: i32) -> Seq<bool> {
    if 0 <= slot < used.len() {
        used.update(slot as int, false)
    } else {
        used
    }
}

pub proof fn lemma_first_free(used: Seq<bool>, from: int)
    requires
        0 <= from <= used.len(),
    ensures
        from <= first_free(used, from) <= used.len(),
        first_free(used, from) < used.len() ==> !used[first_free(used, from)],
        forall|i: int| from <= i < first_free(used, from) ==> used[i],
    decreases used.len() - from,
{
    if from < used.len() && used[from] {
        lemma_first_free(used, from + 1);
    }
}

/// A seat slot that is handed out was free before, is in use afterwards, and
/// no other slot changes hands.
pub proof fn law_seat_slots_are_exclusive(used: Seq<bool>, other: int)
    requires
        0 <= other < used.len(),
        other != first_free(used, 0),
    ensures
        first_free(used, 0) < used.len() ==> !used[first_free(used, 0)],
        taken(used)[first_free(used, 0)],
        taken(used)[other] == used[other],
{
    lemma_first_free(used, 0);
}

/// Giving a slot back right after taking it leaves the others as they were,
/// and the slot free for the next contact.
pub proof fn law_seat_slot_is_reusable(used: Seq<bool>)
    requires
        used.len() < i32::MAX,
    ensures
        first_free(given_back(taken(used), first_free(used, 0) as i32), 0) == first_free(used, 0),
{
    lemma_first_free(used, 0);
    let slot = first_free(used, 0);
    let after = given_back(taken(used), slot as i32);
    lemma_first_free(after, 0);
    assert forall|i: int| 0 <= i < slot implies after[i] by {
        assert(used[i]);
    }
    assert(!after[slot]);
}

/// Takes the lowest free seat slot.
pub fn allocate_touch_seat_slot(used: &mut Vec<bool>) -> (slot: i32)
    requires
        old(used).len() < i32::MAX,
    ensures
        final(used)@ == taken(old(used)@),
        slot == first_free(old(used)@, 0),
{
    let mut i: usize = 0;
    while i < used.len()
        invariant
            i <= used.len() < i32::MAX,
            used@ == old(used)@,
            first_free(used@, 0) == first_free(used@, i as int),
        decreases used.len() - i,
    {
        if !used[i] {
            used.set(i, true);
            return i as i32;
        }
        i += 1;
    }
    used.push(true);
    (used.len() - 1) as i32
}

/// Gives a seat slot back.
pub fn release_touch_seat_slot(used: &mut Vec<bool>, slot: i32)
    ensures
        final(used)@ == given_back(old(used)@, slot),
{
    if 0 <= slot && (slot as usize) < used.len() {
        used.set(slot as usize, false);
    }
}

// ---------------------------------------------------------------------------
// Contacts of devices without slots
// ---------------------------------------------------------------------------
/// One contact of a frame, as devices without slots report it.
#[derive(Clone, Copy, Debug, PartialEq, Eq, Structural)]
pub struct Contact {
    pub tracking_id: i32,
    pub x: i32,
    pub y: i32,
}

/// The square of the distance between a slot and a contact.
pub open spec fn distance_squared(slot: MtSlot, contact: Contact) -> int {
    (slot.x - contact.x) * (slot.x - contact.x) + (slot.y - contact.y) * (slot.y - contact.y)
}

fn squared_distance(slot: &MtSlot, contact: &Contact) -> (d: u128)
    ensures
        d == distance_squared(*slot, *contact),
{
    let dx: i64 = slot.x as i64 - contact.x as i64;
    let dy: i64 = slot.y as i64 - contact.y as i64;
    let ax: u128 = if dx < 0 {
        (-dx) as u128
    } else {
        dx as u128
    };
    let ay: u128 = if dy < 0 {
        (-dy) as u128
    } else {
        dy as u128
    };
    proof {
        assert(ax * ax <= 0x1_0000_0000 * 0x1_0000_0000) by (nonlinear_arith)
            requires
                0 <= ax <= 0x1_0000_0000,
        ;
        assert(ay * ay <= 0x1_0000_0000 * 0x1_0000_0000) by (nonlinear_arith)
            requires
                0 <= ay <= 0x1_0000_0000,
        ;
        assert(ax * ax == dx * dx) by (nonlinear_arith)
            requires
                ax == dx || ax == -dx,
        ;
        assert(ay * ay == dy * dy) by (nonlinear_arith)
            requires
                ay == dy || ay == -dy,
        ;
    }
    ax * ax + ay * ay
}

/// A reported slot that no contact of this frame has claimed yet.
pub open spec fn claimable(slots: Seq<MtSlot>, claimed: Seq<bool>, i: int) -> bool {
    0 <= i < slots.len() && !claimed[i] && slots[i].reported
}

/// The first claimable slot from `from` on that carries the tracking id.
pub open spec fn same_id(
    slots: Seq<MtSlot>,
    claimed: Seq<bool>,
    id: i32,
    from: int,
) -> Option<int>
    decreases slots.len() - from,
{
    if from >= slots.len() {
        None
    } else if claimable(slots, claimed, from) && slots[from].tracking_id == id {
        Some(from)
    } else {
        same_id(slots, claimed, id, from + 1)
    }
}

/// The claimable slot among the first `n` that lies nearest to the contact;
/// of equally near ones the first.
pub open spec fn nearest(
    slots: Seq<MtSlot>,
    claimed: Seq<bool>,
    contact: Contact,
    n: int,
) -> Option<int>
    decreases n,
{
    if n <= 0 {
        None
    } else {
        let before = nearest(slots, claimed, contact, n - 1);
        if claimable(slots, claimed, n - 1) && (before is None || distance_squared(
            slots[n - 1],
            contact,
        ) < distance_squared(slots[before->0], contact)) {
            Some(n - 1)
        } else {
            before
        }
    }
}

/// The first slot from `from` on that is neither claimed nor reported.
pub open spec fn unused(slots: Seq<MtSlot>, claimed: Seq<bool>, from: int) -> Option<int>
    decreases slots.len() - from,
{
    if from >= slots.len() {
        None
    } else if !claimed[from] && !slots[from].reported {
        Some(from)
    } else {
        unused(slots, claimed, from + 1)
    }
}

/// The places of the reported slots among the first `n`.
pub open spec fn reported_slots(slots: Seq<MtSlot>, n: int) -> Seq<usize>
    decreases n,
{
    if n <= 0 {
        Seq::empty()
    } else if slots[n - 1].reported {
        reported_slots(slots, n - 1).push((n - 1) as usize)
    } else {
        reported_slots(slots, n - 1)
    }
}

/// Which slot the contact with number `index` of a frame belongs to: the one
/// with its tracking id; else, in a frame that reports as many contacts as
/// there were, the one at its place; else the nearest one; else a fresh one.
pub open spec fn slot_for(
    slots: Seq<MtSlot>,
    claimed: Seq<bool>,
    existing: Seq<usize>,
    complete: bool,
    index: int,
    contact: Contact,
) -> int {
    let by_id = if contact.tracking_id >= 0 {
        same_id(slots, claimed, contact.tracking_id, 0)
    } else {
        None
    };
    if by_id is Some {
        by_id->0
    } else if complete && index < existing.len() && !claimed[existing[index] as int] {
        existing[index] as int
    } else if nearest(slots, claimed, contact, slots.len() as int) is Some {
        nearest(slots, claimed, contact, slots.len() as int)->0
    } else if unused(slots, claimed, 0) is Some {
        unused(slots, claimed, 0)->0
    } else {
        0
    }
}

/// A slot once a contact has claimed it.
pub open spec fn moved_to(slot: MtSlot, contact: Contact, suppressed: bool) -> MtSlot {
    MtSlot {
        active: true,
        palm_suppressed: slot.palm_suppressed || suppressed,
        tracking_id: if contact.tracking_id >= 0 {
            contact.tracking_id
        } else {
            slot.tracking_id
        },
        x: contact.x,
        y: contact.y,
        dirty: slot.dirty || !slot.reported || slot.x != contact.x || slot.y != contact.y,
        ..slot
    }
}

/// Slots and claims after the first `n` contacts of a frame.
pub open spec fn matched(
    slots: Seq<MtSlot>,
    contacts: Seq<Contact>,
    suppressed: bool,
    n: int,
) -> (Seq<MtSlot>, Seq<bool>)
    decreases n,
{
    if n <= 0 {
        (slots, Seq::new(slots.len(), |i: int| false))
    } else {
        let before = matched(slots, contacts, suppressed, n - 1);
        let existing = reported_slots(slots, slots.len() as int);
        let slot = slot_for(
            before.0,
            before.1,
            existing,
            contacts.len() >= existing.len(),
            n - 1,
            contacts[n - 1],
        );
        (
            before.0.update(slot, moved_to(before.0[slot], contacts[n - 1], suppressed)),
            before.1.update(slot, true),
        )
    }
}

/// The slots after a whole frame: reported ones that no contact claimed have
/// been lifted.
pub open spec fn frame_slots(
    slots: Seq<MtSlot>,
    contacts: Seq<Contact>,
    suppressed: bool,
) -> Seq<MtSlot> {
    let (moved, claimed) = matched(slots, contacts, suppressed, contacts.len() as int);
    Seq::new(
        slots.len(),
        |i: int|
            if moved[i].reported && !claimed[i] {
                MtSlot { active: false, dirty: true, ..moved[i] }
            } else {
                moved[i]
            },
    )
}

fn find_same_id(slots: &Vec<MtSlot>, claimed: &Vec<bool>, id: i32) -> (found: Option<usize>)
    requires
        claimed.len() == slots.len(),
    ensures
        match found {
            Some(i) => same_id(slots@, claimed@, id, 0) == Some(i as int) && i < slots.len(),
            None => same_id(slots@, claimed@, id, 0) is None,
        },
{
    let mut i: usize = 0;
    while i < slots.len()
        invariant
            i <= slots.len() == claimed.len(),
            same_id(slots@, claimed@, id, 0) == same_id(slots@, claimed@, id, i as int),
        decreases slots.len() - i,
    {
        if !claimed[i] && slots[i].reported && slots[i].tracking_id == id {
            return Some(i);
        }
        i += 1;
    }
    None
}

fn find_nearest(slots: &Vec<MtSlot>, claimed: &Vec<bool>, contact: &Contact) -> (found: Option<
    usize,
>)
    requires
        claimed.len() == slots.len(),
    ensures
        match found {
            Some(i) => nearest(slots@, claimed@, *contact, slots.len() as int) == Some(i as int)
                && i < slots.len(),
            None => nearest(slots@, claimed@, *contact, slots.len() as int) is None,
        },
{
    let mut best: Option<usize> = None;
    let mut best_distance: u128 = 0;
    let mut i: usize = 0;
    while i < slots.len()
        invariant
            i <= slots.len() == claimed.len(),
            match best {
                Some(b) => nearest(slots@, claimed@, *contact, i as int) == Some(b as int) && b < i
                    && best_distance == distance_squared(slots@[b as int], *contact),
                None => nearest(slots@, claimed@, *contact, i as int) is None,
            },
        decreases slots.len() - i,
    {
        if !claimed[i] && slots[i].reported {
            let slot = slots[i];
            let distance: u128 = squared_distance(&slot, contact);
            if best.is_none() || distance < best_distance {
                best = Some(i);
                best_distance = distance;
            }
        }
        i += 1;
    }
    best
}

fn find_unused(slots: &Vec<MtSlot>, claimed: &Vec<bool>) -> (found: Option<usize>)
    requires
        claimed.len() == slots.len(),
    ensures
        match found {
            Some(i) => unused(slots@, claimed@, 0) == Some(i as int) && i < slots.len(),
            None => unused(slots@, claimed@, 0) is None,
        },
{
    let mut i: usize = 0;
    while i < slots.len()
        invariant
            i <= slots.len() == claimed.len(),
            unused(slots@, claimed@, 0) == unused(slots@, claimed@, i as int),
        decreases slots.len() - i,
    {
        if !claimed[i] && !slots[i].reported {
            return Some(i);
        }
        i += 1;
    }
    None
}

fn list_reported(slots: &Vec<MtSlot>) -> (existing: Vec<usize>)
    ensures
        existing@ == reported_slots(slots@, slots.len() as int),
        existing.len() <= slots.len(),
        forall|i: int| 0 <= i < existing.len() ==> (#[trigger] existing@[i]) < slots.len(),
{
    let mut existing: Vec<usize> = Vec::new();
    let mut i: usize = 0;
    while i < slots.len()
        invariant
            i <= slots.len(),
            existing@ == reported_slots(slots@, i as int),
            existing.len() <= i,
            forall|j: int| 0 <= j < existing.len() ==> (#[trigger] existing@[j]) < i,
        decreases slots.len() - i,
    {
        if slots[i].reported {
            existing.push(i);
        }
        i += 1;
    }
    existing
}

fn choose_slot(
    slots: &Vec<MtSlot>,
    claimed: &Vec<bool>,
    existing: &Vec<usize>,
    complete: bool,
    index: usize,
    contact: &Contact,
) -> (slot: usize)
    requires
        0 < slots.len(),
        claimed.len() == slots.len(),
        forall|i: int| 0 <= i < existing.len() ==> (#[trigger] existing@[i]) < slots.len(),
    ensures
        slot < slots.len(),
        slot == slot_for(slots@, claimed@, existing@, complete, index as int, *contact),
{
    if contact.tracking_id >= 0 {
        if let Some(i) = find_same_id(slots, claimed, contact.tracking_id) {
            return i;
        }
    }
    if complete && index < existing.len() && !claimed[existing[index]] {
        return existing[index];
    }
    if let Some(i) = find_nearest(slots, claimed, contact) {
        return i;
    }
    if let Some(i) = find_unused(slots, claimed) {
        return i;
    }
    0
}

/// Assigns the contacts of a frame to slots, for devices that report bare
/// contacts.
pub fn match_contacts(slots: &mut Vec<MtSlot>, contacts: &Vec<Contact>, suppressed: bool)
    requires
        0 < old(slots).len(),
    ensures
        final(slots)@ == frame_slots(old(slots)@, contacts@, suppressed),
        final(slots)@.len() == old(slots)@.len(),
{
    let existing = list_reported(slots);
    let complete = contacts.len() >= existing.len();
    let mut claimed: Vec<bool> = Vec::new();
    let mut i: usize = 0;
    while i < slots.len()
        invariant
            i <= slots.len(),
            claimed.len() == i,
            slots@ == old(slots)@,
            forall|j: int| 0 <= j < i ==> !(#[trigger] claimed@[j]),
        decreases slots.len() - i,
    {
        claimed.push(false);
        i += 1;
    }
    let mut index: usize = 0;
    assert(claimed@ =~= matched(old(slots)@, contacts@, suppressed, 0).1);
    while index < contacts.len()
        invariant
            index <= contacts.len(),
            0 < slots.len() == claimed.len(),
            slots@.len() == old(slots)@.len(),
            existing@ == reported_slots(old(slots)@, old(slots)@.len() as int),
            complete == (contacts.len() >= existing.len()),
            forall|j: int| 0 <= j < existing.len() ==> (#[trigger] existing@[j]) < slots.len(),
            (slots@, claimed@) == matched(old(slots)@, contacts@, suppressed, index as int),
        decreases contacts.len() - index,
    {
        let contact = contacts[index];
        let k: usize = choose_slot(slots, &claimed, &existing, complete, index, &contact);
        let slot = slots[k];
        let moved = MtSlot {
            active: true,
            palm_suppressed: slot.palm_suppressed || suppressed,
            tracking_id: if contact.tracking_id >= 0 {
                contact.tracking_id
            } else {
                slot.tracking_id
            },
            x: contact.x,
            y: contact.y,
            dirty: slot.dirty || !slot.reported || slot.x != contact.x || slot.y != contact.y,
            ..slot
        };
        slots.set(k, moved);
        claimed.set(k, true);
        index += 1;
    }
    let ghost moved = slots@;
    let mut k: usize = 0;
    while k < slots.len()
        invariant
            k <= slots.len() == claimed.len(),
            slots@.len() == moved.len(),
            forall|j: int|
                0 <= j < k ==> #[trigger] slots@[j] == (if moved[j].reported && !claimed@[j] {
                    MtSlot { active: false, dirty: true, ..moved[j] }
                } else {
                    moved[j]
                }),
            forall|j: int| k <= j < moved.len() ==> #[trigger] slots@[j] == moved[j],
        decreases slots.len() - k,
    {
        let slot = slots[k];
        if slot.reported && !claimed[k] {
            slots.set(k, MtSlot { active: false, dirty: true, ..slot });
        }
        k += 1;
    }
    assert(slots@ =~= frame_slots(old(slots)@, contacts@, suppressed));
}

// ---------------------------------------------------------------------------
// Frames
// ---------------------------------------------------------------------------
/// A slot, the seat's slots and the events queued so far.
#[verifier::ext_equal]
pub struct SlotStep {
    pub slot: MtSlot,
    pub used: Seq<bool>,
    pub out: Seq<LibinputEvent>,
    pub emitted: bool,
}

pub open spec fn touch_of(slot: MtSlot, index: int, time_usec: u64, seat_slot: int) -> TouchEvent {
    TouchEvent {
        time_usec,
        slot: index as i32,
        seat_slot: seat_slot as i32,
        x: slot.x,
        y: slot.y,
    }
}

pub open spec fn seat_slot_of(slot: MtSlot) -> int {
    match slot.seat_slot {
        Some(seat_slot) => seat_slot as int,
        None => -1,
    }
}

/// What a frame reports of one slot. A palm that was reported as a finger is
/// cancelled, other palms are passed over; contacts go down, move and come
/// up.
pub open spec fn slot_reported(
    slot: MtSlot,
    index: int,
    device: DeviceId,
    time_usec: u64,
    used: Seq<bool>,
    out: Seq<LibinputEvent>,
) -> SlotStep {
    if !slot.dirty {
        SlotStep { slot, used, out, emitted: false }
    } else if slot.cancel_pending {
        SlotStep {
            slot: MtSlot {
                cancel_pending: false,
                reported: false,
                seat_slot: None,
                palm_suppressed: slot.palm_suppressed && slot.active,
                dirty: false,
                ..slot
            },
            used: given_back(used, seat_slot_of(slot) as i32),
            out: out.push(
                LibinputEvent {
                    event_type: LibinputEventType::LIBINPUT_EVENT_TOUCH_CANCEL,
                    payload: EventPayload::TouchCancel(
                        touch_of(slot, index, time_usec, seat_slot_of(slot)),
                    ),
                    device,
                },
            ),
            emitted: true,
        }
    } else if slot.palm_suppressed {
        SlotStep {
            slot: MtSlot { palm_suppressed: slot.active, dirty: false, ..slot },
            used,
            out,
            emitted: false,
        }
    } else if slot.active && !slot.reported {
        SlotStep {
            slot: MtSlot {
                reported: true,
                seat_slot: Some(first_free(used, 0) as i32),
                dirty: false,
                ..slot
            },
            used: taken(used),
            out: out.push(
                LibinputEvent {
                    event_type: LibinputEventType::LIBINPUT_EVENT_TOUCH_DOWN,
                    payload: EventPayload::TouchDown(
                        touch_of(slot, index, time_usec, first_free(used, 0)),
                    ),
                    device,
                },
            ),
            emitted: true,
        }
    } else if slot.active {
        SlotStep {
            slot: MtSlot { dirty: false, ..slot },
            used,
            out: out.push(
                LibinputEvent {
                    event_type: LibinputEventType::LIBINPUT_EVENT_TOUCH_MOTION,
                    payload: EventPayload::TouchMotion(
                        touch_of(slot, index, time_usec, seat_slot_of(slot)),
                    ),
                    device,
                },
            ),
            emitted: true,
        }
    } else if slot.reported {
        SlotStep {
            slot: MtSlot { reported: false, seat_slot: None, dirty: false, ..slot },
            used: given_back(used, seat_slot_of(slot) as i32),
            out: out.push(
                LibinputEvent {
                    event_type: LibinputEventType::LIBINPUT_EVENT_TOUCH_UP,
                    payload: EventPayload::TouchUp(
                        touch_of(slot, index, time_usec, seat_slot_of(slot)),
                    ),
                    device,
                },
            ),
            emitted: true,
        }
    } else {
        SlotStep { slot: MtSlot { dirty: false, ..slot }, used, out, emitted: false }
    }
}

fn report_slot(
    slot: MtSlot,
    index: usize,
    device: DeviceId,
    time_usec: u64,
    used: &mut Vec<bool>,
    out: &mut Vec<LibinputEvent>,
) -> (r: (MtSlot, bool))
    requires
        old(used).len() < i32::MAX,
        index < MAX_SLOTS,
    ensures
        (SlotStep { slot: r.0, used: final(used)@, out: final(out)@, emitted: r.1 })
            == slot_reported(slot, index as int, device, time_usec, old(used)@, old(out)@),
        final(used).len() <= old(used).len() + 1,
{
    if !slot.dirty {
        return (slot, false);
    }
    let seat_slot: i32 = match slot.seat_slot {
        Some(known) => known,
        None => -1,
    };
    let mut touch = TouchEvent {
        time_usec,
        slot: index as i32,
        seat_slot,
        x: slot.x,
        y: slot.y,
    };
    if slot.cancel_pending {
        release_touch_seat_slot(used, seat_slot);
        out.push(
            LibinputEvent {
                event_type: LibinputEventType::LIBINPUT_EVENT_TOUCH_CANCEL,
                payload: EventPayload::TouchCancel(touch),
                device,
            },
        );
        let after = MtSlot {
            cancel_pending: false,
            reported: false,
            seat_slot: None,
            palm_suppressed: slot.palm_suppressed && slot.active,
            dirty: false,
            ..slot
        };
        return (after, true);
    }
    if slot.palm_suppressed {
        return (MtSlot { palm_suppressed: slot.active, dirty: false, ..slot }, false);
    }
    if slot.active && !slot.reported {
        proof {
            lemma_first_free(used@, 0);
        }
        let fresh: i32 = allocate_touch_seat_slot(used);
        touch = TouchEvent { seat_slot: fresh, ..touch };
        out.push(
            LibinputEvent {
                event_type: LibinputEventType::LIBINPUT_EVENT_TOUCH_DOWN,
                payload: EventPayload::TouchDown(touch),
                device,
            },
        );
        return (
            MtSlot { reported: true, seat_slot: Some(fresh), dirty: false, ..slot },
            true,
        );
    }
    if slot.active {
        out.push(
            LibinputEvent {
                event_type: LibinputEventType::LIBINPUT_EVENT_TOUCH_MOTION,
                payload: EventPayload::TouchMotion(touch),
                device,
            },
        );
        return (MtSlot { dirty: false, ..slot }, true);
    }
    if slot.reported {
        release_touch_seat_slot(used, seat_slot);
        out.push(
            LibinputEvent {
                event_type: LibinputEventType::LIBINPUT_EVENT_TOUCH_UP,
                payload: EventPayload::TouchUp(touch),
                device,
            },
        );
        return (MtSlot { reported: false, seat_slot: None, dirty: false, ..slot }, true);
    }
    (MtSlot { dirty: false, ..slot }, false)
}

/// Whether a touch event tells where a slot is, and which slot it is.
pub open spec fn tells_slot(t: TouchEvent, slot: MtSlot, index: int, time_usec: u64) -> bool {
    &&& t.x == slot.x
    &&& t.y == slot.y
    &&& 0 <= index <= i32::MAX ==> t.slot == index
    &&& t.time_usec == time_usec
}

/// Each contact is reported as down once before it moves, and as up or
/// cancelled at most once after that; always where it is, under the number of
/// its slot and under the seat slot that it was given when it went down.
pub proof fn law_touch_lifecycle(
    slot: MtSlot,
    index: int,
    device: DeviceId,
    time_usec: u64,
    used: Seq<bool>,
    out: Seq<LibinputEvent>,
)
    ensures
        ({
            let s = slot_reported(slot, index, device, time_usec, used, out);
            &&& !s.emitted ==> s.out == out && s.slot.reported == slot.reported
            &&& s.emitted ==> s.out.len() == out.len() + 1 && s.out.drop_last() == out
            &&& s.emitted ==> match s.out.last().payload {
                EventPayload::TouchDown(t) => !slot.reported && s.slot.reported && tells_slot(
                    t,
                    slot,
                    index,
                    time_usec,
                ) && s.slot.seat_slot == Some(t.seat_slot),
                EventPayload::TouchMotion(t) => slot.reported && s.slot.reported && tells_slot(
                    t,
                    slot,
                    index,
                    time_usec,
                ) && (slot.seat_slot is Some ==> slot.seat_slot == Some(t.seat_slot)),
                EventPayload::TouchUp(t) => slot.reported && !s.slot.reported && tells_slot(
                    t,
                    slot,
                    index,
                    time_usec,
                ) && (slot.seat_slot is Some ==> slot.seat_slot == Some(t.seat_slot)),
                EventPayload::TouchCancel(t) => slot.cancel_pending && !s.slot.reported
                    && tells_slot(t, slot, index, time_usec) && (slot.seat_slot is Some
                    ==> slot.seat_slot == Some(t.seat_slot)),
                _ => false,
            }
        }),
{
    let s = slot_reported(slot, index, device, time_usec, used, out);
    if s.emitted {
        assert(s.out.drop_last() =~= out);
    }
}

/// All slots of a frame, the seat's slots and the events queued so far.
#[verifier::ext_equal]
pub struct FrameStep {
    pub slots: Seq<MtSlot>,
    pub used: Seq<bool>,
    pub out: Seq<LibinputEvent>,
    pub emitted: bool,
}

/// The frame once its first `n` slots are reported.
pub open spec fn slots_reported(
    slots: Seq<MtSlot>,
    device: DeviceId,
    time_usec: u64,
    used: Seq<bool>,
    out: Seq<LibinputEvent>,
    n: int,
) -> FrameStep
    decreases n,
{
    if n <= 0 {
        FrameStep { slots: Seq::empty(), used, out, emitted: false }
    } else {
        let before = slots_reported(slots, device, time_usec, used, out, n - 1);
        let s = slot_reported(
            slots[n - 1],
            n - 1,
            device,
            time_usec,
            before.used,
            before.out,
        );
        FrameStep {
            slots: before.slots.push(s.slot),
            used: s.used,
            out: s.out,
            emitted: before.emitted || s.emitted,
        }
    }
}

/// Reporting keeps the number of slots.
pub proof fn lemma_frame_len(
    slots: Seq<MtSlot>,
    device: DeviceId,
    time_usec: u64,
    used: Seq<bool>,
    out: Seq<LibinputEvent>,
    n: int,
)
    requires
        0 <= n <= slots.len(),
    ensures
        slots_reported(slots, device, time_usec, used, out, n).slots.len() == n,
    decreases n,
{
    if n > 0 {
        lemma_frame_len(slots, device, time_usec, used, out, n - 1);
    }
}

/// A frame that reported anything ends with a frame event.
pub open spec fn frame_reported(
    slots: Seq<MtSlot>,
    device: DeviceId,
    time_usec: u64,
    used: Seq<bool>,
    out: Seq<LibinputEvent>,
) -> FrameStep {
    let s = slots_reported(slots, device, time_usec, used, out, slots.len() as int);
    if s.emitted {
        FrameStep {
            out: s.out.push(
                LibinputEvent {
                    event_type: LibinputEventType::LIBINPUT_EVENT_TOUCH_FRAME,
                    payload: EventPayload::TouchFrame { time_usec },
                    device,
                },
            ),
            ..s
        }
    } else {
        s
    }
}

/// A slot while touch is suppressed: nothing is reported, and what was
/// reported is forgotten.
pub open spec fn slot_silenced(slot: MtSlot) -> MtSlot {
    MtSlot {
        palm_suppressed: slot.active,
        reported: false,
        seat_slot: if slot.reported {
            None
        } else {
            slot.seat_slot
        },
        dirty: false,
        ..slot
    }
}

pub open spec fn silenced(slots: Seq<MtSlot>) -> Seq<MtSlot> {
    Seq::new(slots.len(), |i: int| slot_silenced(slots[i]))
}

/// The seat's slots once the first `n` reported contacts gave theirs back.
pub open spec fn all_given_back(slots: Seq<MtSlot>, used: Seq<bool>, n: int) -> Seq<bool>
    decreases n,
{
    if n <= 0 {
        used
    } else {
        let before = all_given_back(slots, used, n - 1);
        if slots[n - 1].reported && slots[n - 1].seat_slot is Some {
            given_back(before, slots[n - 1].seat_slot->0)
        } else {
            before
        }
    }
}

/// Whether touch gives way to a tablet tool, and whether a tool was in range
/// at the last frame.
#[derive(Clone, Copy, Debug, PartialEq, Eq, Structural)]
pub struct Arbitration {
    pub suppressed: bool,
    pub tablet_was_active: bool,
}

/// Whether a contact that just came down, or that was down when a tool came
/// into range, lies where the tool blocks touch. `blocked` says so for each
/// slot.
pub open spec fn arbitration_starts(
    slots: Seq<MtSlot>,
    blocked: Seq<bool>,
    tablet_just_activated: bool,
) -> bool {
    exists|i: int|
        0 <= i < slots.len() && (#[trigger] slots[i]).active && (!slots[i].reported
            || tablet_just_activated) && blocked[i]
}

impl Arbitration {
    /// The arbitration that a frame is processed under.
    pub open spec fn entered(
        self,
        slots: Seq<MtSlot>,
        blocked: Seq<bool>,
        tablet_active: bool,
    ) -> Arbitration {
        Arbitration {
            suppressed: self.suppressed || arbitration_starts(
                slots,
                blocked,
                tablet_active && !self.tablet_was_active,
            ),
            tablet_was_active: tablet_active,
        }
    }

    /// Suppression lasts until every contact is up and no tool claims touch.
    pub open spec fn left(self, touching: bool, arbitrated: bool) -> Arbitration {
        Arbitration { suppressed: self.suppressed && (touching || arbitrated), ..self }
    }
}

fn starts_arbitration(
    slots: &Vec<MtSlot>,
    blocked: &Vec<bool>,
    tablet_just_activated: bool,
) -> (starts: bool)
    requires
        blocked.len() == slots.len(),
    ensures
        starts == arbitration_starts(slots@, blocked@, tablet_just_activated),
{
    let mut i: usize = 0;
    while i < slots.len()
        invariant
            i <= slots.len() == blocked.len(),
            forall|j: int|
                0 <= j < i ==> !((#[trigger] slots@[j]).active && (!slots@[j].reported
                    || tablet_just_activated) && blocked@[j]),
        decreases slots.len() - i,
    {
        if slots[i].active && (!slots[i].reported || tablet_just_activated) && blocked[i] {
            assert(slots@[i as int].active);
            return true;
        }
        i += 1;
    }
    false
}

fn silence_slots(slots: &mut Vec<MtSlot>, used: &mut Vec<bool>)
    ensures
        final(slots)@ == silenced(old(slots)@),
        final(used)@ == all_given_back(old(slots)@, old(used)@, old(slots)@.len() as int),
{
    let ghost before = slots@;
    let ghost used_before = used@;
    let mut i: usize = 0;
    while i < slots.len()
        invariant
            i <= slots.len(),
            slots@.len() == before.len(),
            used@ == all_given_back(before, used_before, i as int),
            forall|j: int| 0 <= j < i ==> #[trigger] slots@[j] == slot_silenced(before[j]),
            forall|j: int| i <= j < before.len() ==> #[trigger] slots@[j] == before[j],
        decreases slots.len() - i,
    {
        let slot = slots[i];
        let mut seat_slot: Option<i32> = slot.seat_slot;
        if slot.reported {
            if let Some(known) = slot.seat_slot {
                release_touch_seat_slot(used, known);
            }
            seat_slot = None;
        }
        slots.set(
            i,
            MtSlot {
                palm_suppressed: slot.active,
                reported: false,
                seat_slot,
                dirty: false,
                ..slot
            },
        );
        i += 1;
    }
    assert(slots@ =~= silenced(before));
}

/// Reports a touchscreen's frame: one event per changed contact, and a frame
/// event if there was any. Under arbitration nothing is reported. The result
/// is the arbitration for the next frame.
pub fn touch_frame(
    slots: &mut Vec<MtSlot>,
    arbitration: Arbitration,
    device: DeviceId,
    time_usec: u64,
    tablet_active: bool,
    blocked: &Vec<bool>,
    touch_arbitrated: bool,
    used: &mut Vec<bool>,
    out: &mut Vec<LibinputEvent>,
) -> (next: Arbitration)
    requires
        old(slots).len() <= MAX_SLOTS,
        blocked.len() == old(slots).len(),
        old(used).len() < 0x4000_0000,
    ensures
        ({
            let entered = arbitration.entered(old(slots)@, blocked@, tablet_active);
            if entered.suppressed {
                &&& final(slots)@ == silenced(old(slots)@)
                &&& final(used)@ == all_given_back(
                    old(slots)@,
                    old(used)@,
                    old(slots)@.len() as int,
                )
                &&& final(out)@ == old(out)@
                &&& next == entered.left(any_active_spec(final(slots)@), touch_arbitrated)
            } else {
                let frame = frame_reported(old(slots)@, device, time_usec, old(used)@, old(out)@);
                &&& final(slots)@ == frame.slots
                &&& final(used)@ == frame.used
                &&& final(out)@ == frame.out
                &&& next == entered
            }
        }),
{
    let just_activated = tablet_active && !arbitration.tablet_was_active;
    let suppressed = arbitration.suppressed || starts_arbitration(slots, blocked, just_activated);
    if suppressed {
        silence_slots(slots, used);
        let touching = any_active(slots);
        return Arbitration {
            suppressed: touching || touch_arbitrated,
            tablet_was_active: tablet_active,
        };
    }
    let ghost before = slots@;
    let ghost used_before = used@;
    let ghost out_before = out@;
    let mut emitted = false;
    let mut i: usize = 0;
    while i < slots.len()
        invariant
            i <= slots.len() <= MAX_SLOTS,
            slots@.len() == before.len(),
            used.len() <= 0x4000_0000 + i,
            ({
                let s = slots_reported(
                    before,
                    device,
                    time_usec,
                    used_before,
                    out_before,
                    i as int,
                );
                &&& used@ == s.used
                &&& out@ == s.out
                &&& emitted == s.emitted
                &&& s.slots.len() == i
                &&& forall|j: int| 0 <= j < i ==> #[trigger] slots@[j] == s.slots[j]
            }),
            forall|j: int| i <= j < before.len() ==> #[trigger] slots@[j] == before[j],
        decreases slots.len() - i,
    {
        let slot = slots[i];
        let (after, reported) = report_slot(slot, i, device, time_usec, used, out);
        slots.set(i, after);
        if reported {
            emitted = true;
        }
        i += 1;
    }
    if emitted {
        out.push(
            LibinputEvent {
                event_type: LibinputEventType::LIBINPUT_EVENT_TOUCH_FRAME,
                payload: EventPayload::TouchFrame { time_usec },
                device,
            },
        );
    }
    assert(slots@ =~= frame_reported(before, device, time_usec, used_before, out_before).slots);
    Arbitration { suppressed: false, tablet_was_active: tablet_active }
}

} // verus!
