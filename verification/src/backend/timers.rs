//! What happens without an event: time limits that run out, and the release of
//! everything that a device holds.
use vstd::prelude::*;
use crate::backend::buttons::{button_event, button_event_spec, ButtonStep, MiddleState};
use crate::backend::debounce::{unique, DebounceButton, DEBOUNCE_TIMEOUT};
use crate::backend::gestures::{
    hold_begin, hold_end, push_hold_begin, push_hold_end, ClickState, DragState, HoldState,
    TapState,
};
use crate::backend::pointer::PointerState;
use crate::backend::slots::{finger_count_spec, gesture_finger_count, MtSlot, MAX_SLOTS};
use crate::backend::tablet::FrameTime;
use crate::backend::touchpad::TouchState;
use crate::backend::touchscreen::{
    given_back, release_touch_seat_slot, seat_slot_of, touch_of, Arbitration,
};
use crate::clock::{passed, passed_spec, MILLISECOND};
use crate::codes::BTN_LEFT;
use crate::ffi_types::{
    DeviceId, EventPayload, LibinputDevice, LibinputEvent, LibinputEventType, TouchEvent,
};

verus! {

/// How long a lone left or right press waits for the other one.
pub const MIDDLE_TIMEOUT: u64 = 50 * MILLISECOND;

/// How long one or two fingers rest before they hold.
pub const QUICK_HOLD_TIMEOUT: u64 = 40 * MILLISECOND;

/// How long more fingers rest before they hold.
pub const HOLD_TIMEOUT: u64 = 180 * MILLISECOND;

/// How long a tap waits for the touch that makes it a drag.
pub const TAP_RELEASE_TIMEOUT: u64 = 180 * MILLISECOND;

/// How long a drag with several fingers waits for them to come back.
pub const DRAG_RELEASE_TIMEOUT: u64 = 700 * MILLISECOND;

// ---------------------------------------------------------------------------
// Buttons
// ---------------------------------------------------------------------------
/// Whether a held-back change has waited long enough.
pub open spec fn is_due(button: DebounceButton, now: u64) -> bool {
    passed_spec(now, button.pending_since, DEBOUNCE_TIMEOUT) && button.pending_down is Some
}

/// The changes that have waited long enough.
pub open spec fn due_changes(buttons: Seq<DebounceButton>, now: u64) -> Seq<(u16, bool)>
    decreases buttons.len(),
{
    if buttons.len() == 0 {
        Seq::empty()
    } else {
        let rest = due_changes(buttons.drop_last(), now);
        if is_due(buttons.last(), now) {
            rest.push((buttons.last().code, buttons.last().pending_down->0))
        } else {
            rest
        }
    }
}

/// A button once its change was delivered.
pub open spec fn delivered(button: DebounceButton, now: u64) -> DebounceButton {
    if is_due(button, now) {
        DebounceButton {
            code: button.code,
            delivered_down: button.pending_down->0,
            window_since: None,
            pending_down: None,
            pending_since: None,
        }
    } else {
        button
    }
}

pub open spec fn all_delivered(buttons: Seq<DebounceButton>, now: u64) -> Seq<DebounceButton> {
    Seq::new(buttons.len(), |i: int| delivered(buttons[i], now))
}

fn deliver_due(buttons: &mut Vec<DebounceButton>, now: u64) -> (changes: Vec<(u16, bool)>)
    requires
        unique(old(buttons)@),
    ensures
        unique(final(buttons)@),
        final(buttons)@ == all_delivered(old(buttons)@, now),
        changes@ == due_changes(old(buttons)@, now),
{
    let ghost before = buttons@;
    let mut changes: Vec<(u16, bool)> = Vec::new();
    let mut i: usize = 0;
    assert(before.take(0) =~= Seq::<DebounceButton>::empty());
    while i < buttons.len()
        invariant
            i <= buttons.len() == before.len(),
            changes@ == due_changes(before.take(i as int), now),
            forall|j: int| 0 <= j < i ==> #[trigger] buttons@[j] == delivered(before[j], now),
            forall|j: int| i <= j < before.len() ==> #[trigger] buttons@[j] == before[j],
        decreases buttons.len() - i,
    {
        let b = buttons[i];
        proof {
            assert(before.take(i + 1).drop_last() =~= before.take(i as int));
        }
        if passed(now, b.pending_since, DEBOUNCE_TIMEOUT) {
            if let Some(down) = b.pending_down {
                changes.push((b.code, down));
                buttons.set(
                    i,
                    DebounceButton {
                        code: b.code,
                        delivered_down: down,
                        window_since: None,
                        pending_down: None,
                        pending_since: None,
                    },
                );
            }
        }
        i += 1;
    }
    proof {
        assert(before.take(i as int) =~= before);
        assert(buttons@ =~= all_delivered(before, now));
        assert forall|a: int, b: int| 0 <= a < b < buttons@.len() implies #[trigger] buttons@[a].code
            != #[trigger] buttons@[b].code by {
            assert(before[a].code != before[b].code);
        }
    }
    changes
}

impl PointerState {
    /// The button press whose wait for a chord is over.
    pub open spec fn lone_press(self, now: u64) -> Option<u16> {
        if passed_spec(now, self.buttons.middle.pending_since, MIDDLE_TIMEOUT) {
            self.buttons.middle.pending_button
        } else {
            None
        }
    }

    /// The buttons after a lone press was delivered.
    pub open spec fn lone_pressed(
        self,
        dev: LibinputDevice,
        at: FrameTime,
        out: Seq<LibinputEvent>,
    ) -> ButtonStep {
        match self.lone_press(at.now) {
            Some(button) => self.buttons.step(out).with_middle(
                MiddleState {
                    pending_button: None,
                    pending_since: None,
                    ..self.buttons.middle
                },
            ).button(dev, at.time_usec, button, true),
            None => self.buttons.step(out),
        }
    }

    /// Delivers a lone press whose wait for a chord is over.
    pub fn expire_middle(
        &mut self,
        dev: &LibinputDevice,
        at: FrameTime,
        out: &mut Vec<LibinputEvent>,
    )
        requires
            old(self).wf(),
        ensures
            final(self).wf(),
            final(self).buttons.step(final(out)@) == old(self).lone_pressed(*dev, at, old(out)@),
            *final(self) == (PointerState { buttons: final(self).buttons, ..*old(self) }),
    {
        let middle = self.buttons.middle;
        if passed(at.now, middle.pending_since, MIDDLE_TIMEOUT) {
            if let Some(button) = middle.pending_button {
                self.buttons.middle = MiddleState {
                    pending_button: None,
                    pending_since: None,
                    ..middle
                };
                self.buttons.emit_pointer_button(dev, at.time_usec, button, true, out);
            }
        }
    }

    /// Delivers the changes that have waited long enough. That any had to
    /// wait shows that the buttons bounce.
    pub fn expire_debounce(
        &mut self,
        dev: &LibinputDevice,
        at: FrameTime,
        out: &mut Vec<LibinputEvent>,
    )
        requires
            old(self).wf(),
        ensures
            final(self).wf(),
            ({
                let known = old(self).debouncer.known@;
                let changes = due_changes(known, at.now);
                &&& final(self).debouncer.known@ == all_delivered(known, at.now)
                &&& final(self).debouncer.bypass == old(self).debouncer.bypass
                &&& final(self).debouncer.spurious == (old(self).debouncer.spurious || changes.len()
                    > 0)
                &&& final(self).buttons.step(final(out)@) == old(self).buttons.step(
                    old(out)@,
                ).buttons(*dev, at.time_usec, changes)
                &&& *final(self) == (PointerState {
                    buttons: final(self).buttons,
                    debouncer: final(self).debouncer,
                    ..*old(self)
                })
            }),
    {
        let changes = deliver_due(&mut self.debouncer.known, at.now);
        if changes.len() > 0 {
            self.debouncer.spurious = true;
        }
        self.buttons.emit_pointer_buttons(dev, at.time_usec, &changes, out);
    }
}

// ---------------------------------------------------------------------------
// Holding
// ---------------------------------------------------------------------------
impl HoldState {
    /// Whether a changed number of fingers ends the hold.
    pub open spec fn breaks(self, fingers: i32) -> bool {
        self.contact_changed && self.active && (fingers == 0 || fingers != self.fingers)
    }

    /// The hold after all events of a batch, when `fingers` are on the
    /// touchpad. A partial lift cancels it.
    pub open spec fn resolved(self, fingers: i32) -> HoldState {
        if !self.contact_changed {
            self
        } else {
            let h = HoldState { contact_changed: false, ..self };
            let h = if self.breaks(fingers) {
                HoldState { active: false, started_at: None, blocked: fingers != 0, ..h }
            } else {
                h
            };
            if fingers == 0 {
                HoldState { started_at: None, blocked: false, fingers: 0, ..h }
            } else {
                h
            }
        }
    }

    pub open spec fn resolved_events(
        self,
        fingers: i32,
        device: DeviceId,
        time_usec: u64,
        out: Seq<LibinputEvent>,
    ) -> Seq<LibinputEvent> {
        if self.breaks(fingers) {
            out.push(hold_end(device, time_usec, self.fingers, fingers != 0))
        } else {
            out
        }
    }

    fn resolve(self, fingers: i32, device: DeviceId, time_usec: u64, out: &mut Vec<LibinputEvent>)
        -> (h: HoldState)
        ensures
            h == self.resolved(fingers),
            final(out)@ == self.resolved_events(fingers, device, time_usec, old(out)@),
    {
        if !self.contact_changed {
            return self;
        }
        let mut h = HoldState { contact_changed: false, ..self };
        if self.active && (fingers == 0 || fingers != self.fingers) {
            push_hold_end(device, time_usec, self.fingers, fingers != 0, out);
            h = HoldState { active: false, started_at: None, blocked: fingers != 0, ..h };
        }
        if fingers == 0 {
            h = HoldState { started_at: None, blocked: false, fingers: 0, ..h };
        }
        h
    }

    pub open spec fn patience(self) -> u64 {
        if self.fingers <= 2 {
            QUICK_HOLD_TIMEOUT
        } else {
            HOLD_TIMEOUT
        }
    }

    pub fn hold_patience(&self) -> (span: u64)
        ensures
            span == self.patience(),
    {
        if self.fingers <= 2 {
            QUICK_HOLD_TIMEOUT
        } else {
            HOLD_TIMEOUT
        }
    }

    /// Whether fingers have rested long enough to hold.
    pub open spec fn is_ripe(self, now: u64) -> bool {
        !self.active && !self.blocked && passed_spec(now, self.started_at, self.patience())
    }

    pub open spec fn more_fingers(self, fingers: i32) -> i32 {
        if self.fingers > fingers {
            self.fingers
        } else {
            fingers
        }
    }

    /// The hold after its time came, when `fingers` are on the touchpad.
    pub open spec fn ripened(self, now: u64, fingers: i32) -> HoldState {
        if !self.is_ripe(now) {
            self
        } else if fingers == 0 {
            HoldState { started_at: None, ..self }
        } else {
            HoldState {
                started_at: None,
                active: true,
                fingers: self.more_fingers(fingers),
                ..self
            }
        }
    }

    pub open spec fn ripened_events(
        self,
        fingers: i32,
        device: DeviceId,
        at: FrameTime,
        out: Seq<LibinputEvent>,
    ) -> Seq<LibinputEvent> {
        if self.is_ripe(at.now) && fingers != 0 {
            out.push(hold_begin(device, at.time_usec, self.more_fingers(fingers)))
        } else {
            out
        }
    }

    fn ripen(self, fingers: i32, device: DeviceId, at: FrameTime, out: &mut Vec<LibinputEvent>) -> (
    h: HoldState)
        ensures
            h == self.ripened(at.now, fingers),
            final(out)@ == self.ripened_events(fingers, device, at, old(out)@),
    {
        if self.active || self.blocked || !passed(at.now, self.started_at, self.hold_patience()) {
            return self;
        }
        if fingers == 0 {
            return HoldState { started_at: None, ..self };
        }
        let more: i32 = if self.fingers > fingers {
            self.fingers
        } else {
            fingers
        };
        push_hold_begin(device, at.time_usec, more, out);
        HoldState { started_at: None, active: true, fingers: more, ..self }
    }
}

/// Holds come in pairs: while one is active none begins, and none ends unless
/// it is active.
pub proof fn law_holds_begin_and_end_in_turn(
    h: HoldState,
    fingers: i32,
    device: DeviceId,
    at: FrameTime,
    out: Seq<LibinputEvent>,
)
    ensures
        h.resolved_events(fingers, device, at.time_usec, out) != out ==> h.active && !h.resolved(
            fingers,
        ).active,
        h.resolved_events(fingers, device, at.time_usec, out) == out ==> h.resolved(fingers).active
            == h.active,
        h.ripened_events(fingers, device, at, out) != out ==> !h.active && h.ripened(
            at.now,
            fingers,
        ).active,
        h.ripened_events(fingers, device, at, out) == out ==> h.ripened(at.now, fingers).active
            == h.active,
{
    let ended = out.push(hold_end(device, at.time_usec, h.fingers, fingers != 0));
    assert(ended.len() != out.len());
    let begun = out.push(hold_begin(device, at.time_usec, h.more_fingers(fingers)));
    assert(begun.len() != out.len());
}

// ---------------------------------------------------------------------------
// Taps and drags
// ---------------------------------------------------------------------------
impl TapState {
    /// The tap after its wait for a drag: its button comes up.
    pub open spec fn expired(self, now: u64) -> TapState {
        if passed_spec(now, self.release_since, TAP_RELEASE_TIMEOUT) {
            TapState { release_since: None, drag_active: false, button_down: None, ..self }
        } else {
            self
        }
    }

    pub open spec fn expired_events(
        self,
        device: DeviceId,
        at: FrameTime,
        out: Seq<LibinputEvent>,
    ) -> Seq<LibinputEvent> {
        if passed_spec(at.now, self.release_since, TAP_RELEASE_TIMEOUT) && self.button_down is Some {
            out.push(button_event_spec(device, at.time_usec, self.button_down->0, false))
        } else {
            out
        }
    }

    fn expire(self, device: DeviceId, at: FrameTime, out: &mut Vec<LibinputEvent>) -> (t: TapState)
        ensures
            t == self.expired(at.now),
            final(out)@ == self.expired_events(device, at, old(out)@),
    {
        if !passed(at.now, self.release_since, TAP_RELEASE_TIMEOUT) {
            return self;
        }
        if let Some(button) = self.button_down {
            out.push(button_event(device, at.time_usec, button, false));
        }
        TapState { release_since: None, drag_active: false, button_down: None, ..self }
    }
}

impl DragState {
    /// The drag after its wait for the fingers: its button comes up.
    pub open spec fn expired(self, now: u64) -> DragState {
        if passed_spec(now, self.release_since, DRAG_RELEASE_TIMEOUT) {
            DragState { release_since: None, active: false, button_down: false, ..self }
        } else {
            self
        }
    }

    pub open spec fn expired_events(
        self,
        device: DeviceId,
        at: FrameTime,
        out: Seq<LibinputEvent>,
    ) -> Seq<LibinputEvent> {
        if passed_spec(at.now, self.release_since, DRAG_RELEASE_TIMEOUT) && self.button_down {
            out.push(button_event_spec(device, at.time_usec, BTN_LEFT, false))
        } else {
            out
        }
    }

    fn expire(self, device: DeviceId, at: FrameTime, out: &mut Vec<LibinputEvent>) -> (d: DragState)
        ensures
            d == self.expired(at.now),
            final(out)@ == self.expired_events(device, at, old(out)@),
    {
        if !passed(at.now, self.release_since, DRAG_RELEASE_TIMEOUT) {
            return self;
        }
        if self.button_down {
            out.push(button_event(device, at.time_usec, BTN_LEFT, false));
        }
        DragState { release_since: None, active: false, button_down: false, ..self }
    }
}

impl TouchState {
    /// The fingers that count, clipped to what an event can say.
    pub open spec fn fingers_now(self, dev: LibinputDevice) -> i32 {
        finger_count_spec(self.slots@, TouchState::button_areas(dev), self.tap.fingers) as i32
    }

    fn count_fingers(&self, dev: &LibinputDevice) -> (n: i32)
        requires
            self.wf(),
        ensures
            n == self.fingers_now(*dev),
    {
        let n: u64 = gesture_finger_count(&self.slots, dev.click_method == 1, self.tap.fingers);
        n as i32
    }

    /// Ends or keeps a hold once a batch of events is complete.
    pub fn resolve_hold(
        &mut self,
        dev: &LibinputDevice,
        time_usec: u64,
        out: &mut Vec<LibinputEvent>,
    )
        requires
            old(self).wf(),
        ensures
            final(self).wf(),
            *final(self) == (TouchState {
                hold: old(self).hold.resolved(old(self).fingers_now(*dev)),
                ..*old(self)
            }),
            final(out)@ == old(self).hold.resolved_events(
                old(self).fingers_now(*dev),
                dev.id,
                time_usec,
                old(out)@,
            ),
    {
        let fingers: i32 = self.count_fingers(dev);
        let hold = self.hold;
        self.hold = hold.resolve(fingers, dev.id, time_usec, out);
    }

    /// Begins a hold whose time has come. Only touchpads hold.
    pub fn ripen_hold(
        &mut self,
        dev: &LibinputDevice,
        at: FrameTime,
        out: &mut Vec<LibinputEvent>,
    )
        requires
            old(self).wf(),
        ensures
            final(self).wf(),
            *final(self) == (TouchState {
                hold: if dev.has_gesture {
                    old(self).hold.ripened(at.now, old(self).fingers_now(*dev))
                } else {
                    old(self).hold
                },
                ..*old(self)
            }),
            final(out)@ == (if dev.has_gesture {
                old(self).hold.ripened_events(old(self).fingers_now(*dev), dev.id, at, old(out)@)
            } else {
                old(out)@
            }),
    {
        if dev.has_gesture {
            let fingers: i32 = self.count_fingers(dev);
            let hold = self.hold;
            self.hold = hold.ripen(fingers, dev.id, at, out);
        }
    }

    /// Releases a tap that waited for a drag.
    pub fn expire_tap(&mut self, device: DeviceId, at: FrameTime, out: &mut Vec<LibinputEvent>)
        requires
            old(self).wf(),
        ensures
            final(self).wf(),
            *final(self) == (TouchState { tap: old(self).tap.expired(at.now), ..*old(self) }),
            final(out)@ == old(self).tap.expired_events(device, at, old(out)@),
    {
        let tap = self.tap;
        self.tap = tap.expire(device, at, out);
    }

    /// Releases a drag that waited for its fingers.
    pub fn expire_drag(&mut self, device: DeviceId, at: FrameTime, out: &mut Vec<LibinputEvent>)
        requires
            old(self).wf(),
        ensures
            final(self).wf(),
            *final(self) == (TouchState { drag: old(self).drag.expired(at.now), ..*old(self) }),
            final(out)@ == old(self).drag.expired_events(device, at, old(out)@),
    {
        let drag = self.drag;
        self.drag = drag.expire(device, at, out);
    }
}

// ---------------------------------------------------------------------------
// Touch under a tablet tool
// ---------------------------------------------------------------------------
/// The slots, the seat's slots and the events while contacts are cancelled.
#[verifier::ext_equal]
pub struct CancelStep {
    pub slots: Seq<MtSlot>,
    pub used: Seq<bool>,
    pub out: Seq<LibinputEvent>,
    pub cancelled: bool,
}

/// A reported contact once it was cancelled.
pub open spec fn slot_cancelled(slot: MtSlot) -> MtSlot {
    if slot.reported {
        MtSlot {
            reported: false,
            palm_suppressed: slot.active,
            dirty: false,
            seat_slot: None,
            ..slot
        }
    } else {
        slot
    }
}

pub open spec fn cancel_event(
    slot: MtSlot,
    index: int,
    device: DeviceId,
    time_usec: u64,
) -> LibinputEvent {
    LibinputEvent {
        event_type: LibinputEventType::LIBINPUT_EVENT_TOUCH_CANCEL,
        payload: EventPayload::TouchCancel(touch_of(slot, index, time_usec, seat_slot_of(slot))),
        device,
    }
}

/// The seat's slots and the events after the first `n` slots.
pub open spec fn cancelled_upto(
    slots: Seq<MtSlot>,
    device: DeviceId,
    time_usec: u64,
    used: Seq<bool>,
    out: Seq<LibinputEvent>,
    n: int,
) -> CancelStep
    decreases n,
{
    if n <= 0 {
        CancelStep { slots: Seq::empty(), used, out, cancelled: false }
    } else {
        let before = cancelled_upto(slots, device, time_usec, used, out, n - 1);
        let slot = slots[n - 1];
        CancelStep {
            slots: before.slots.push(slot_cancelled(slot)),
            used: if slot.reported && slot.seat_slot is Some {
                given_back(before.used, slot.seat_slot->0)
            } else {
                before.used
            },
            out: if slot.reported {
                before.out.push(cancel_event(slot, n - 1, device, time_usec))
            } else {
                before.out
            },
            cancelled: before.cancelled || slot.reported,
        }
    }
}

pub open spec fn frame_event(device: DeviceId, time_usec: u64) -> LibinputEvent {
    LibinputEvent {
        event_type: LibinputEventType::LIBINPUT_EVENT_TOUCH_FRAME,
        payload: EventPayload::TouchFrame { time_usec },
        device,
    }
}

/// Whether a contact that clients know of lies where a tool blocks touch.
pub open spec fn tool_covers_contact(slots: Seq<MtSlot>, blocked: Seq<bool>) -> bool {
    exists|i: int| 0 <= i < slots.len() && (#[trigger] slots[i]).reported && blocked[i]
}

fn covers_contact(slots: &Vec<MtSlot>, blocked: &Vec<bool>) -> (covers: bool)
    requires
        blocked.len() == slots.len(),
    ensures
        covers == tool_covers_contact(slots@, blocked@),
{
    let mut i: usize = 0;
    while i < slots.len()
        invariant
            i <= slots.len() == blocked.len(),
            forall|j: int| 0 <= j < i ==> !((#[trigger] slots@[j]).reported && blocked@[j]),
        decreases slots.len() - i,
    {
        if slots[i].reported && blocked[i] {
            assert(slots@[i as int].reported);
            return true;
        }
        i += 1;
    }
    false
}

fn cancel_slots(
    slots: &mut Vec<MtSlot>,
    device: DeviceId,
    time_usec: u64,
    used: &mut Vec<bool>,
    out: &mut Vec<LibinputEvent>,
) -> (cancelled: bool)
    requires
        old(slots).len() <= MAX_SLOTS,
    ensures
        ({
            let step = cancelled_upto(
                old(slots)@,
                device,
                time_usec,
                old(used)@,
                old(out)@,
                old(slots)@.len() as int,
            );
            &&& final(slots)@ == step.slots
            &&& final(used)@ == step.used
            &&& final(out)@ == step.out
            &&& cancelled == step.cancelled
        }),
        final(slots).len() == old(slots).len(),
{
    let ghost before = slots@;
    let ghost used_before = used@;
    let ghost out_before = out@;
    let mut cancelled = false;
    let mut i: usize = 0;
    while i < slots.len()
        invariant
            i <= slots.len() == before.len(),
            slots.len() <= MAX_SLOTS,
            ({
                let step = cancelled_upto(
                    before,
                    device,
                    time_usec,
                    used_before,
                    out_before,
                    i as int,
                );
                &&& step.slots.len() == i
                &&& used@ == step.used
                &&& out@ == step.out
                &&& cancelled == step.cancelled
                &&& forall|j: int| 0 <= j < i ==> #[trigger] slots@[j] == step.slots[j]
            }),
            forall|j: int| i <= j < before.len() ==> #[trigger] slots@[j] == before[j],
        decreases slots.len() - i,
    {
        let slot = slots[i];
        if slot.reported {
            let seat_slot: i32 = match slot.seat_slot {
                Some(seat_slot) => seat_slot,
                None => -1,
            };
            if let Some(known) = slot.seat_slot {
                release_touch_seat_slot(used, known);
            }
            slots.set(
                i,
                MtSlot {
                    reported: false,
                    palm_suppressed: slot.active,
                    dirty: false,
                    seat_slot: None,
                    ..slot
                },
            );
            cancelled = true;
            out.push(
                LibinputEvent {
                    event_type: LibinputEventType::LIBINPUT_EVENT_TOUCH_CANCEL,
                    payload: EventPayload::TouchCancel(
                        TouchEvent {
                            time_usec,
                            slot: i as i32,
                            seat_slot,
                            x: slot.x,
                            y: slot.y,
                        },
                    ),
                    device,
                },
            );
        }
        i += 1;
    }
    proof {
        let step = cancelled_upto(
            before,
            device,
            time_usec,
            used_before,
            out_before,
            before.len() as int,
        );
        assert(slots@ =~= step.slots);
    }
    cancelled
}

impl TouchState {
    /// Whether contacts are cancelled because a tool came near.
    pub open spec fn yields(self, tablet_active: bool, blocked: Seq<bool>) -> bool {
        tablet_active && !self.arbitration.tablet_was_active && tool_covers_contact(
            self.slots@,
            blocked,
        )
    }

    /// Whether giving way to a tablet tool leaves these behind.
    #[verifier::opaque]
    pub open spec fn gave_way(
        self,
        device: DeviceId,
        time_usec: u64,
        tablet_active: bool,
        blocked: Seq<bool>,
        used: Seq<bool>,
        out: Seq<LibinputEvent>,
        after: TouchState,
        used_after: Seq<bool>,
        reported: Seq<LibinputEvent>,
    ) -> bool {
        let yields = self.yields(tablet_active, blocked);
        let step = cancelled_upto(
            self.slots@,
            device,
            time_usec,
            used,
            out,
            self.slots@.len() as int,
        );
        &&& after == (TouchState {
            slots: after.slots,
            arbitration: Arbitration {
                suppressed: yields || self.arbitration.suppressed,
                tablet_was_active: tablet_active,
            },
            ..self
        })
        &&& yields ==> {
            &&& after.slots@ == step.slots
            &&& used_after == step.used
            &&& reported == (if step.cancelled {
                step.out.push(frame_event(device, time_usec))
            } else {
                step.out
            })
        }
        &&& !yields ==> {
            &&& after.slots@ == self.slots@
            &&& used_after == used
            &&& reported == out
        }
    }

    /// Cancels the contacts of a touchscreen when a tool comes near them, even
    /// if the touchscreen itself is silent.
    pub fn yield_to_tablet(
        &mut self,
        device: DeviceId,
        time_usec: u64,
        tablet_active: bool,
        blocked: &Vec<bool>,
        used: &mut Vec<bool>,
        out: &mut Vec<LibinputEvent>,
    )
        requires
            old(self).wf(),
            blocked.len() == old(self).slots.len(),
        ensures
            final(self).wf(),
            old(self).gave_way(
                device,
                time_usec,
                tablet_active,
                blocked@,
                old(used)@,
                old(out)@,
                *final(self),
                final(used)@,
                final(out)@,
            ),
    {
        reveal(TouchState::gave_way);
        let arbitration = self.arbitration;
        let just_activated = tablet_active && !arbitration.tablet_was_active;
        if !just_activated || !covers_contact(&self.slots, blocked) {
            self.arbitration = Arbitration { tablet_was_active: tablet_active, ..arbitration };
            return;
        }
        self.arbitration = Arbitration { suppressed: true, tablet_was_active: tablet_active };
        if cancel_slots(&mut self.slots, device, time_usec, used, out) {
            out.push(
                LibinputEvent {
                    event_type: LibinputEventType::LIBINPUT_EVENT_TOUCH_FRAME,
                    payload: EventPayload::TouchFrame { time_usec },
                    device,
                },
            );
        }
    }
}

// ---------------------------------------------------------------------------
// Releasing everything
// ---------------------------------------------------------------------------
/// The releases of buttons in their order.
pub open spec fn button_releases(
    buttons: Seq<u16>,
    device: DeviceId,
    time_usec: u64,
    out: Seq<LibinputEvent>,
) -> Seq<LibinputEvent>
    decreases buttons.len(),
{
    if buttons.len() == 0 {
        out
    } else {
        button_releases(buttons.drop_last(), device, time_usec, out).push(
            button_event_spec(device, time_usec, buttons.last(), false),
        )
    }
}

impl PointerState {
    /// Releases every button that was delivered.
    pub fn release_buttons(
        &mut self,
        device: DeviceId,
        time_usec: u64,
        out: &mut Vec<LibinputEvent>,
    )
        requires
            old(self).wf(),
        ensures
            final(self).wf(),
            final(self).buttons.held_buttons@.len() == 0,
            final(self).buttons.left_handed_applied == old(self).buttons.left_handed_applied,
            final(self).buttons.middle == old(self).buttons.middle,
            *final(self) == (PointerState { buttons: final(self).buttons, ..*old(self) }),
            final(out)@ == button_releases(
                old(self).buttons.held_buttons@,
                device,
                time_usec,
                old(out)@,
            ),
    {
        let ghost held = self.buttons.held_buttons@;
        let ghost before = out@;
        let mut i: usize = 0;
        assert(held.take(0) =~= Seq::<u16>::empty());
        while i < self.buttons.held_buttons.len()
            invariant
                i <= self.buttons.held_buttons.len(),
                *self == *old(self),
                held == self.buttons.held_buttons@,
                out@ == button_releases(held.take(i as int), device, time_usec, before),
            decreases self.buttons.held_buttons.len() - i,
        {
            proof {
                assert(held.take(i + 1).drop_last() =~= held.take(i as int));
            }
            out.push(button_event(device, time_usec, self.buttons.held_buttons[i], false));
            i += 1;
        }
        assert(held.take(i as int) =~= held);
        self.buttons.held_buttons = Vec::new();
    }
}

/// Every button that a device holds is released.
pub proof fn law_every_held_button_is_released(
    buttons: Seq<u16>,
    device: DeviceId,
    time_usec: u64,
    out: Seq<LibinputEvent>,
    k: int,
)
    requires
        0 <= k < buttons.len(),
    ensures
        button_releases(buttons, device, time_usec, out).len() == out.len() + buttons.len(),
        button_releases(buttons, device, time_usec, out)[out.len() + k] == button_event_spec(
            device,
            time_usec,
            buttons[k],
            false,
        ),
    decreases buttons.len(),
{
    if buttons.len() == 1 {
        assert(button_releases(buttons.drop_last(), device, time_usec, out) == out);
    } else if k == buttons.len() - 1 {
        law_every_held_button_is_released(buttons.drop_last(), device, time_usec, out, k - 1);
    } else {
        law_every_held_button_is_released(buttons.drop_last(), device, time_usec, out, k);
    }
}

/// The events that release what a touchpad's buttons, taps and drags hold.
pub open spec fn pad_releases(
    click: ClickState,
    tap: TapState,
    drag: DragState,
    device: DeviceId,
    time_usec: u64,
    out: Seq<LibinputEvent>,
) -> Seq<LibinputEvent> {
    let out = match click.button {
        Some(button) => out.push(
            button_event_spec(
                match click.device {
                    Some(owner) => owner,
                    None => device,
                },
                time_usec,
                button,
                false,
            ),
        ),
        None => out,
    };
    let out = match tap.button_down {
        Some(button) => out.push(button_event_spec(device, time_usec, button, false)),
        None => out,
    };
    if drag.button_down {
        out.push(button_event_spec(device, time_usec, BTN_LEFT, false))
    } else {
        out
    }
}

pub open spec fn click_released(click: ClickState) -> ClickState {
    if click.button is Some {
        ClickState { button: None, device: None }
    } else {
        click
    }
}

pub open spec fn tap_released(tap: TapState) -> TapState {
    if tap.button_down is Some {
        TapState { button_down: None, release_since: None, drag_active: false, ..tap }
    } else {
        tap
    }
}

pub open spec fn drag_released(drag: DragState) -> DragState {
    if drag.button_down {
        DragState {
            candidate_since: None,
            candidate_time_usec: 0,
            active: false,
            button_down: false,
            release_since: None,
        }
    } else {
        drag
    }
}

/// A slot once its contact was dropped.
pub open spec fn slot_dropped(slot: MtSlot) -> MtSlot {
    MtSlot {
        active: false,
        reported: false,
        dirty: false,
        tracking_id: (-1) as i32,
        seat_slot: None,
        ..slot
    }
}

/// The seat's slots once the first `n` contacts gave theirs back.
pub open spec fn seats_returned(slots: Seq<MtSlot>, used: Seq<bool>, n: int) -> Seq<bool>
    decreases n,
{
    if n <= 0 {
        used
    } else {
        let before = seats_returned(slots, used, n - 1);
        match slots[n - 1].seat_slot {
            Some(seat_slot) => given_back(before, seat_slot),
            None => before,
        }
    }
}

fn drop_slots(slots: &mut Vec<MtSlot>, used: &mut Vec<bool>) -> (reported: bool)
    ensures
        final(slots)@ == Seq::new(old(slots)@.len(), |i: int| slot_dropped(old(slots)@[i])),
        final(used)@ == seats_returned(old(slots)@, old(used)@, old(slots)@.len() as int),
        reported == exists|i: int| 0 <= i < old(slots)@.len() && #[trigger] old(slots)@[i].reported,
{
    let ghost before = slots@;
    let ghost used_before = used@;
    let mut reported = false;
    let mut i: usize = 0;
    while i < slots.len()
        invariant
            i <= slots.len() == before.len(),
            used@ == seats_returned(before, used_before, i as int),
            reported == exists|j: int| 0 <= j < i && #[trigger] before[j].reported,
            forall|j: int| 0 <= j < i ==> #[trigger] slots@[j] == slot_dropped(before[j]),
            forall|j: int| i <= j < before.len() ==> #[trigger] slots@[j] == before[j],
        decreases slots.len() - i,
    {
        let slot = slots[i];
        if let Some(seat_slot) = slot.seat_slot {
            release_touch_seat_slot(used, seat_slot);
        }
        slots.set(
            i,
            MtSlot {
                active: false,
                reported: false,
                dirty: false,
                tracking_id: -1,
                seat_slot: None,
                ..slot
            },
        );
        if slot.reported {
            assert(before[i as int].reported);
            reported = true;
        }
        i += 1;
    }
    assert(slots@ =~= Seq::new(before.len(), |i: int| slot_dropped(before[i])));
    reported
}

pub open spec fn any_reported(slots: Seq<MtSlot>) -> bool {
    exists|i: int| 0 <= i < slots.len() && #[trigger] slots[i].reported
}

/// The event that takes back all contacts of a touchscreen.
pub open spec fn cancel_all_event(device: DeviceId, time_usec: u64) -> LibinputEvent {
    LibinputEvent {
        event_type: LibinputEventType::LIBINPUT_EVENT_TOUCH_CANCEL,
        payload: EventPayload::TouchCancel(
            TouchEvent { time_usec, slot: (-1) as i32, seat_slot: (-1) as i32, x: 0, y: 0 },
        ),
        device,
    }
}

impl TouchState {
    /// Releases the buttons that clicks, taps and drags hold.
    pub fn release_pad_buttons(
        &mut self,
        device: DeviceId,
        time_usec: u64,
        out: &mut Vec<LibinputEvent>,
    )
        requires
            old(self).wf(),
        ensures
            final(self).wf(),
            *final(self) == (TouchState {
                click: click_released(old(self).click),
                tap: tap_released(old(self).tap),
                drag: drag_released(old(self).drag),
                ..*old(self)
            }),
            final(out)@ == pad_releases(
                old(self).click,
                old(self).tap,
                old(self).drag,
                device,
                time_usec,
                old(out)@,
            ),
    {
        let click = self.click;
        let tap = self.tap;
        let drag = self.drag;
        if let Some(button) = click.button {
            let owner: DeviceId = match click.device {
                Some(owner) => owner,
                None => device,
            };
            out.push(button_event(owner, time_usec, button, false));
            self.click = ClickState { button: None, device: None };
        }
        if let Some(button) = tap.button_down {
            out.push(button_event(device, time_usec, button, false));
            self.tap = TapState {
                button_down: None,
                release_since: None,
                drag_active: false,
                ..tap
            };
        }
        if drag.button_down {
            out.push(button_event(device, time_usec, BTN_LEFT, false));
            self.drag = DragState {
                candidate_since: None,
                candidate_time_usec: 0,
                active: false,
                button_down: false,
                release_since: None,
            };
        }
    }

    /// Whether dropping the contacts leaves these behind.
    #[verifier::opaque]
    pub open spec fn contacts_dropped(
        self,
        dev: LibinputDevice,
        time_usec: u64,
        arbitrated: bool,
        used: Seq<bool>,
        out: Seq<LibinputEvent>,
        after: TouchState,
        used_after: Seq<bool>,
        reported: Seq<LibinputEvent>,
    ) -> bool {
        if self.tap.touching && dev.has_touch {
            &&& after.slots@ == Seq::new(
                self.slots@.len(),
                |i: int| slot_dropped(self.slots@[i]),
            )
            &&& after == (TouchState {
                slots: after.slots,
                tap: TapState { touching: false, fingers: 0, start_time: None, ..self.tap },
                ..self
            })
            &&& used_after == seats_returned(self.slots@, used, self.slots@.len() as int)
            &&& reported == (if any_reported(self.slots@) && !arbitrated {
                out.push(cancel_all_event(dev.id, time_usec)).push(frame_event(dev.id, time_usec))
            } else {
                out
            })
        } else {
            &&& after == self
            &&& used_after == used
            &&& reported == out
        }
    }

    /// Drops the contacts of a touchscreen. Clients are told, unless a tablet
    /// tool had taken touch over.
    pub fn release_contacts(
        &mut self,
        dev: &LibinputDevice,
        time_usec: u64,
        arbitrated: bool,
        used: &mut Vec<bool>,
        out: &mut Vec<LibinputEvent>,
    )
        requires
            old(self).wf(),
        ensures
            final(self).wf(),
            old(self).contacts_dropped(
                *dev,
                time_usec,
                arbitrated,
                old(used)@,
                old(out)@,
                *final(self),
                final(used)@,
                final(out)@,
            ),
    {
        reveal(TouchState::contacts_dropped);
        let tap = self.tap;
        if !tap.touching || !dev.has_touch {
            return;
        }
        let reported = drop_slots(&mut self.slots, used);
        self.tap = TapState { touching: false, fingers: 0, start_time: None, ..tap };
        if reported && !arbitrated {
            out.push(
                LibinputEvent {
                    event_type: LibinputEventType::LIBINPUT_EVENT_TOUCH_CANCEL,
                    payload: EventPayload::TouchCancel(
                        TouchEvent { time_usec, slot: -1, seat_slot: -1, x: 0, y: 0 },
                    ),
                    device: dev.id,
                },
            );
            out.push(
                LibinputEvent {
                    event_type: LibinputEventType::LIBINPUT_EVENT_TOUCH_FRAME,
                    payload: EventPayload::TouchFrame { time_usec },
                    device: dev.id,
                },
            );
        }
    }
}

} // verus!
