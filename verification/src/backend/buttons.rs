//! Pointer buttons: exactly-once delivery, left-handed use, debouncing and
//! middle-button emulation.
use vstd::prelude::*;
use crate::backend::debounce::{
    all_quiet, any_other_active, entry, lemma_tracking_twice, nothing_delivered, others_active,
    pending_changes, settle, settled, state_of, store, unique, updated, DebounceButton,
    DEBOUNCE_TIMEOUT,
};
use crate::clock::{within, within_spec};
use crate::codes::{BTN_LEFT, BTN_MIDDLE, BTN_RIGHT};
use crate::evtrans::{contains_code, held_after, transition_button};
use crate::ffi_types::{
    DeviceId, EventPayload, LibinputDevice, LibinputEvent, LibinputEventType, PointerButtonEvent,
};

verus! {

/// Middle-button emulation: left and right pressed together.
#[derive(Clone, Copy, Debug, PartialEq, Eq, Structural)]
pub struct MiddleState {
    pub left_down: bool,
    pub right_down: bool,
    pub chord_active: bool,
    pub pending_button: Option<u16>,
    pub pending_since: Option<u64>,
    pub suppressed_left: bool,
    pub suppressed_right: bool,
    pub real_down: bool,
}

/// The delivered buttons of one device.
pub struct ButtonState {
    pub held_buttons: Vec<u16>,
    pub left_handed_applied: bool,
    pub middle: MiddleState,
}

/// A device's buttons together with the events queued so far.
#[verifier::ext_equal]
pub struct ButtonStep {
    pub held: Seq<u16>,
    pub left_handed: bool,
    pub middle: MiddleState,
    pub out: Seq<LibinputEvent>,
}

/// Debouncing on top of a device's buttons.
#[verifier::ext_equal]
pub struct DebounceStep {
    pub known: Seq<DebounceButton>,
    pub bypass: bool,
    pub step: ButtonStep,
}

pub struct Debouncer {
    pub known: Vec<DebounceButton>,
    pub spurious: bool,
    pub bypass: bool,
}

impl ButtonState {
    /// No button is held twice.
    pub open spec fn wf(self) -> bool {
        self.held_buttons@.no_duplicates()
    }

    pub open spec fn step(self, out: Seq<LibinputEvent>) -> ButtonStep {
        ButtonStep {
            held: self.held_buttons@,
            left_handed: self.left_handed_applied,
            middle: self.middle,
            out,
        }
    }

    /// Buttons that have not been used yet.
    pub open spec fn start_step() -> ButtonStep {
        ButtonStep {
            held: Seq::empty(),
            left_handed: false,
            middle: MiddleState {
                left_down: false,
                right_down: false,
                chord_active: false,
                pending_button: None,
                pending_since: None,
                suppressed_left: false,
                suppressed_right: false,
                real_down: false,
            },
            out: Seq::empty(),
        }
    }

    pub fn new() -> (b: ButtonState)
        ensures
            b.wf(),
            b.step(Seq::empty()) == ButtonState::start_step(),
    {
        ButtonState {
            held_buttons: Vec::new(),
            left_handed_applied: false,
            middle: MiddleState {
                left_down: false,
                right_down: false,
                chord_active: false,
                pending_button: None,
                pending_since: None,
                suppressed_left: false,
                suppressed_right: false,
                real_down: false,
            },
        }
    }
}

impl Debouncer {
    pub open spec fn wf(self) -> bool {
        unique(self.known@)
    }

    pub open spec fn step(self, step: ButtonStep) -> DebounceStep {
        DebounceStep { known: self.known@, bypass: self.bypass, step }
    }

    pub fn new() -> (d: Debouncer)
        ensures
            d.wf(),
            d.known@ == Seq::<DebounceButton>::empty(),
            !d.spurious,
            !d.bypass,
    {
        Debouncer { known: Vec::new(), spurious: false, bypass: false }
    }
}

// ---------------------------------------------------------------------------
// Exactly-once delivery
// ---------------------------------------------------------------------------
pub open spec fn button_event_spec(
    device: DeviceId,
    time_usec: u64,
    code: u16,
    pressed: bool,
) -> LibinputEvent {
    LibinputEvent {
        event_type: LibinputEventType::LIBINPUT_EVENT_POINTER_BUTTON,
        payload: EventPayload::PointerButton(
            PointerButtonEvent {
                time_usec,
                button: code as u32,
                state: if pressed {
                    1
                } else {
                    0
                },
                seat_button_count: 0,
            },
        ),
        device,
    }
}

pub fn button_event(device: DeviceId, time_usec: u64, code: u16, pressed: bool) -> (event:
    LibinputEvent)
    ensures
        event == button_event_spec(device, time_usec, code, pressed),
{
    LibinputEvent {
        event_type: LibinputEventType::LIBINPUT_EVENT_POINTER_BUTTON,
        payload: EventPayload::PointerButton(
            PointerButtonEvent {
                time_usec,
                button: code as u32,
                state: if pressed {
                    1
                } else {
                    0
                },
                seat_button_count: 0,
            },
        ),
        device,
    }
}

/// Left and right trade places for a left-handed user.
pub open spec fn swapped(left_handed: bool, code: u16) -> u16 {
    if left_handed && code == BTN_LEFT {
        BTN_RIGHT
    } else if left_handed && code == BTN_RIGHT {
        BTN_LEFT
    } else {
        code
    }
}

impl ButtonStep {
    pub open spec fn push(self, event: LibinputEvent) -> ButtonStep {
        ButtonStep { out: self.out.push(event), ..self }
    }

    pub open spec fn with_middle(self, middle: MiddleState) -> ButtonStep {
        ButtonStep { middle, ..self }
    }

    /// The handedness follows the configuration only while no button is in
    /// use.
    pub open spec fn rehanded(self, dev: LibinputDevice) -> ButtonStep {
        if self.held.len() == 0 && !self.middle.left_down && !self.middle.right_down
            && self.middle.pending_button is None {
            ButtonStep { left_handed: dev.left_handed, ..self }
        } else {
            self
        }
    }

    /// One button transition: reported exactly when the button changes
    /// state. The last release makes a new handedness effective.
    #[verifier::opaque]
    pub open spec fn button(
        self,
        dev: LibinputDevice,
        time_usec: u64,
        code: u16,
        down: bool,
    ) -> ButtonStep {
        let s = self.rehanded(dev);
        let mapped = swapped(s.left_handed, code);
        if s.held.contains(mapped) == down {
            s
        } else {
            let held = held_after(s.held, mapped, down);
            ButtonStep {
                held,
                left_handed: if !down && held.len() == 0 {
                    dev.left_handed
                } else {
                    s.left_handed
                },
                middle: s.middle,
                out: s.out.push(button_event_spec(dev.id, time_usec, mapped, down)),
            }
        }
    }

    /// Transitions in their order.
    pub open spec fn buttons(
        self,
        dev: LibinputDevice,
        time_usec: u64,
        changes: Seq<(u16, bool)>,
    ) -> ButtonStep
        decreases changes.len(),
    {
        if changes.len() == 0 {
            self
        } else {
            self.buttons(dev, time_usec, changes.drop_last()).button(
                dev,
                time_usec,
                changes.last().0,
                changes.last().1,
            )
        }
    }
}

impl ButtonState {
    /// Delivers one button transition, once per change of state.
    pub fn emit_pointer_button(
        &mut self,
        dev: &LibinputDevice,
        time_usec: u64,
        code: u16,
        down: bool,
        out: &mut Vec<LibinputEvent>,
    )
        requires
            old(self).wf(),
        ensures
            final(self).wf(),
            final(self).step(final(out)@) == old(self).step(old(out)@).button(
                *dev,
                time_usec,
                code,
                down,
            ),
    {
        reveal(ButtonStep::button);
        if self.held_buttons.len() == 0 && !self.middle.left_down && !self.middle.right_down
            && self.middle.pending_button.is_none() {
            self.left_handed_applied = dev.left_handed;
        }
        let mapped: u16 = if self.left_handed_applied && code == BTN_LEFT {
            BTN_RIGHT
        } else if self.left_handed_applied && code == BTN_RIGHT {
            BTN_LEFT
        } else {
            code
        };
        proof {
            crate::evtrans::law_transitions_keep_buttons_unique(self.held_buttons@, mapped, down);
        }
        if !transition_button(&mut self.held_buttons, mapped, down) {
            return;
        }
        if !down && self.held_buttons.len() == 0 {
            self.left_handed_applied = dev.left_handed;
        }
        out.push(button_event(dev.id, time_usec, mapped, down));
    }

    /// Delivers several button transitions in their order.
    pub fn emit_pointer_buttons(
        &mut self,
        dev: &LibinputDevice,
        time_usec: u64,
        changes: &Vec<(u16, bool)>,
        out: &mut Vec<LibinputEvent>,
    )
        requires
            old(self).wf(),
        ensures
            final(self).wf(),
            final(self).step(final(out)@) == old(self).step(old(out)@).buttons(
                *dev,
                time_usec,
                changes@,
            ),
    {
        let ghost start = self.step(out@);
        let mut i: usize = 0;
        assert(changes@.take(0) =~= Seq::<(u16, bool)>::empty());
        while i < changes.len()
            invariant
                i <= changes.len(),
                self.wf(),
                self.step(out@) == start.buttons(*dev, time_usec, changes@.take(i as int)),
            decreases changes.len() - i,
        {
            let change = changes[i];
            proof {
                assert(changes@.take(i + 1).drop_last() =~= changes@.take(i as int));
                assert(changes@.take(i + 1).last() == change);
            }
            self.emit_pointer_button(dev, time_usec, change.0, change.1, out);
            i += 1;
        }
        assert(changes@.take(i as int) =~= changes@);
    }
}

// ---------------------------------------------------------------------------
// Debouncing
// ---------------------------------------------------------------------------
impl DebounceStep {
    /// As soon as a second button is in use, debouncing is bypassed: what
    /// was held back is delivered first.
    #[verifier::opaque]
    pub open spec fn bypassing(
        self,
        dev: LibinputDevice,
        time_usec: u64,
        now: u64,
        code: u16,
    ) -> DebounceStep {
        if !self.bypass && others_active(self.known, code, now) {
            DebounceStep {
                known: settled(self.known, code),
                bypass: true,
                step: self.step.buttons(dev, time_usec, pending_changes(self.known, code)),
            }
        } else {
            self
        }
    }

    /// Delivery without debouncing, until every button is up again.
    #[verifier::opaque]
    pub open spec fn undebounced(
        self,
        dev: LibinputDevice,
        time_usec: u64,
        code: u16,
        down: bool,
    ) -> DebounceStep {
        let before = state_of(self.known, code);
        let known = updated(self.known, DebounceButton { delivered_down: down, ..before });
        DebounceStep {
            known,
            bypass: if !down && all_quiet(known) {
                false
            } else {
                self.bypass
            },
            step: if before.delivered_down != down {
                self.step.button(dev, time_usec, code, down)
            } else {
                self.step
            },
        }
    }

    /// Debounced delivery. The first change of a button passes and opens a
    /// window; what follows within the window is held back, and dropped when
    /// it only returns to what was delivered. On hardware known to bounce
    /// every change is held back.
    #[verifier::opaque]
    pub open spec fn debounced(
        self,
        dev: LibinputDevice,
        time_usec: u64,
        now: u64,
        spurious: bool,
        code: u16,
        down: bool,
    ) -> DebounceStep {
        let before = state_of(self.known, code);
        if down == before.delivered_down {
            let quiet = DebounceButton {
                pending_down: None,
                pending_since: if spurious || before.pending_down is Some {
                    None
                } else {
                    before.pending_since
                },
                ..before
            };
            DebounceStep { known: updated(self.known, quiet), ..self }
        } else if spurious || within_spec(now, before.window_since, DEBOUNCE_TIMEOUT) {
            let held_back = DebounceButton {
                pending_down: Some(down),
                pending_since: Some(now),
                ..before
            };
            DebounceStep { known: updated(self.known, held_back), ..self }
        } else {
            let delivered = DebounceButton {
                code: before.code,
                delivered_down: down,
                window_since: Some(now),
                pending_down: None,
                pending_since: None,
            };
            DebounceStep {
                known: updated(self.known, delivered),
                step: self.step.button(dev, time_usec, code, down),
                ..self
            }
        }
    }

    /// One transition of a mouse button, debounced.
    pub open spec fn delivered(
        self,
        dev: LibinputDevice,
        time_usec: u64,
        now: u64,
        spurious: bool,
        code: u16,
        down: bool,
    ) -> DebounceStep {
        let s = self.bypassing(dev, time_usec, now, code);
        if s.bypass {
            s.undebounced(dev, time_usec, code, down)
        } else {
            s.debounced(dev, time_usec, now, spurious, code, down)
        }
    }
}

impl Debouncer {
    fn start_bypass(
        &mut self,
        buttons: &mut ButtonState,
        dev: &LibinputDevice,
        time_usec: u64,
        now: u64,
        code: u16,
        out: &mut Vec<LibinputEvent>,
    )
        requires
            old(self).wf(),
            old(buttons).wf(),
        ensures
            final(self).wf(),
            final(buttons).wf(),
            final(self).spurious == old(self).spurious,
            final(self).step(final(buttons).step(final(out)@)) == old(self).step(
                old(buttons).step(old(out)@),
            ).bypassing(*dev, time_usec, now, code),
    {
        reveal(DebounceStep::bypassing);
        if !self.bypass && any_other_active(&self.known, code, now) {
            let changes = settle(&mut self.known, code);
            self.bypass = true;
            buttons.emit_pointer_buttons(dev, time_usec, &changes, out);
        }
    }

    fn deliver_undebounced(
        &mut self,
        buttons: &mut ButtonState,
        dev: &LibinputDevice,
        time_usec: u64,
        code: u16,
        down: bool,
        out: &mut Vec<LibinputEvent>,
    )
        requires
            old(self).wf(),
            old(buttons).wf(),
        ensures
            final(self).wf(),
            final(buttons).wf(),
            final(self).spurious == old(self).spurious,
            final(self).step(final(buttons).step(final(out)@)) == old(self).step(
                old(buttons).step(old(out)@),
            ).undebounced(*dev, time_usec, code, down),
    {
        reveal(DebounceStep::undebounced);
        let index: usize = entry(&mut self.known, code);
        let before = self.known[index];
        let button = DebounceButton { delivered_down: down, ..before };
        proof {
            lemma_tracking_twice(old(self).known@, button);
        }
        store(&mut self.known, button);
        if !down && nothing_delivered(&self.known) {
            self.bypass = false;
        }
        if before.delivered_down != down {
            buttons.emit_pointer_button(dev, time_usec, code, down, out);
        }
    }

    fn deliver_debounced(
        &mut self,
        buttons: &mut ButtonState,
        dev: &LibinputDevice,
        time_usec: u64,
        now: u64,
        code: u16,
        down: bool,
        out: &mut Vec<LibinputEvent>,
    )
        requires
            old(self).wf(),
            old(buttons).wf(),
        ensures
            final(self).wf(),
            final(buttons).wf(),
            final(self).spurious == old(self).spurious,
            final(self).step(final(buttons).step(final(out)@)) == old(self).step(
                old(buttons).step(old(out)@),
            ).debounced(*dev, time_usec, now, old(self).spurious, code, down),
    {
        reveal(DebounceStep::debounced);
        let index: usize = entry(&mut self.known, code);
        let before = self.known[index];
        let window_active = within(now, before.window_since, DEBOUNCE_TIMEOUT);
        let button = if down == before.delivered_down {
            DebounceButton {
                pending_down: None,
                pending_since: if self.spurious || before.pending_down.is_some() {
                    None
                } else {
                    before.pending_since
                },
                ..before
            }
        } else if self.spurious || window_active {
            DebounceButton { pending_down: Some(down), pending_since: Some(now), ..before }
        } else {
            DebounceButton {
                code: before.code,
                delivered_down: down,
                window_since: Some(now),
                pending_down: None,
                pending_since: None,
            }
        };
        proof {
            lemma_tracking_twice(old(self).known@, button);
        }
        store(&mut self.known, button);
        if down != before.delivered_down && !self.spurious && !window_active {
            buttons.emit_pointer_button(dev, time_usec, code, down, out);
        }
    }

    /// Delivers one transition of a mouse button, debounced.
    pub fn emit_debounced_pointer_button(
        &mut self,
        buttons: &mut ButtonState,
        dev: &LibinputDevice,
        time_usec: u64,
        now: u64,
        code: u16,
        down: bool,
        out: &mut Vec<LibinputEvent>,
    )
        requires
            old(self).wf(),
            old(buttons).wf(),
        ensures
            final(self).wf(),
            final(buttons).wf(),
            final(self).spurious == old(self).spurious,
            final(self).step(final(buttons).step(final(out)@)) == old(self).step(
                old(buttons).step(old(out)@),
            ).delivered(*dev, time_usec, now, old(self).spurious, code, down),
    {
        self.start_bypass(buttons, dev, time_usec, now, code, out);
        if self.bypass {
            self.deliver_undebounced(buttons, dev, time_usec, code, down, out);
        } else {
            self.deliver_debounced(buttons, dev, time_usec, now, code, down, out);
        }
    }
}

// ---------------------------------------------------------------------------
// Middle-button emulation
// ---------------------------------------------------------------------------
impl MiddleState {
    pub open spec fn suppressed(self, is_left: bool) -> bool {
        if is_left {
            self.suppressed_left
        } else {
            self.suppressed_right
        }
    }

    pub open spec fn unsuppressed(self, is_left: bool) -> MiddleState {
        if is_left {
            MiddleState { suppressed_left: false, ..self }
        } else {
            MiddleState { suppressed_right: false, ..self }
        }
    }

    pub open spec fn down(self, is_left: bool) -> bool {
        if is_left {
            self.left_down
        } else {
            self.right_down
        }
    }

    pub open spec fn with_down(self, is_left: bool, down: bool) -> MiddleState {
        if is_left {
            MiddleState { left_down: down, ..self }
        } else {
            MiddleState { right_down: down, ..self }
        }
    }

    fn is_suppressed(&self, is_left: bool) -> (suppressed: bool)
        ensures
            suppressed == self.suppressed(is_left),
    {
        if is_left {
            self.suppressed_left
        } else {
            self.suppressed_right
        }
    }

    fn clear_suppressed(self, is_left: bool) -> (m: MiddleState)
        ensures
            m == self.unsuppressed(is_left),
    {
        if is_left {
            MiddleState { suppressed_left: false, ..self }
        } else {
            MiddleState { suppressed_right: false, ..self }
        }
    }

    fn is_down(&self, is_left: bool) -> (down: bool)
        ensures
            down == self.down(is_left),
    {
        if is_left {
            self.left_down
        } else {
            self.right_down
        }
    }

    pub fn set_down(self, is_left: bool, down: bool) -> (m: MiddleState)
        ensures
            m == self.with_down(is_left, down),
    {
        if is_left {
            MiddleState { left_down: down, ..self }
        } else {
            MiddleState { right_down: down, ..self }
        }
    }
}

impl ButtonStep {
    /// The physical middle button ends an emulated one, and lets through a
    /// press that was waiting for its counterpart.
    pub open spec fn real_middle(self, dev: LibinputDevice, time_usec: u64, down: bool) -> ButtonStep {
        if !down {
            self.with_middle(MiddleState { real_down: false, ..self.middle })
        } else {
            let s = if self.middle.chord_active {
                self.with_middle(MiddleState { chord_active: false, ..self.middle }).button(
                    dev,
                    time_usec,
                    BTN_MIDDLE,
                    false,
                )
            } else {
                self
            };
            let s = match s.middle.pending_button {
                Some(pending) => s.with_middle(
                    MiddleState { pending_button: None, pending_since: None, ..s.middle },
                ).button(dev, time_usec, pending, true),
                None => s,
            };
            s.with_middle(MiddleState { real_down: true, ..s.middle })
        }
    }

    /// A left or right press or release under middle-button emulation.
    pub open spec fn emulated(
        self,
        dev: LibinputDevice,
        time_usec: u64,
        now: u64,
        code: u16,
        down: bool,
    ) -> ButtonStep {
        let is_left = code == BTN_LEFT;
        let m = self.middle;
        let left_handed = if down && !m.left_down && !m.right_down && self.held.len() == 0 {
            dev.left_handed
        } else {
            self.left_handed
        };
        let m = m.with_down(is_left, down);
        let s = ButtonStep { left_handed, middle: m, ..self };
        let delivered = s.held.contains(BTN_LEFT) || s.held.contains(BTN_RIGHT);
        if m.real_down || delivered {
            if !down && m.suppressed(is_left) {
                s.with_middle(m.unsuppressed(is_left))
            } else {
                s.button(dev, time_usec, code, down)
            }
        } else if down {
            if m.down(!is_left) && (m.pending_button is Some || m.suppressed(!is_left)) {
                s.with_middle(
                    MiddleState {
                        pending_button: None,
                        pending_since: None,
                        chord_active: true,
                        suppressed_left: true,
                        suppressed_right: true,
                        ..m
                    },
                ).button(dev, time_usec, BTN_MIDDLE, true)
            } else if m.pending_button is None {
                s.with_middle(
                    MiddleState { pending_button: Some(code), pending_since: Some(now), ..m },
                )
            } else {
                s
            }
        } else if m.chord_active {
            s.with_middle(
                (MiddleState { chord_active: false, ..m }).unsuppressed(is_left),
            ).button(dev, time_usec, BTN_MIDDLE, false)
        } else if m.suppressed(is_left) {
            s.with_middle(m.unsuppressed(is_left))
        } else if m.pending_button == Some(code) {
            let t = s.with_middle(MiddleState { pending_since: None, ..m }).button(
                dev,
                time_usec,
                code,
                true,
            ).button(dev, time_usec, code, false);
            t.with_middle(MiddleState { pending_button: None, ..t.middle })
        } else {
            s.button(dev, time_usec, code, false)
        }
    }
}

impl ButtonState {
    pub fn press_real_middle(
        &mut self,
        dev: &LibinputDevice,
        time_usec: u64,
        down: bool,
        out: &mut Vec<LibinputEvent>,
    )
        requires
            old(self).wf(),
        ensures
            final(self).wf(),
            final(self).step(final(out)@) == old(self).step(old(out)@).real_middle(
                *dev,
                time_usec,
                down,
            ),
    {
        if !down {
            self.middle = MiddleState { real_down: false, ..self.middle };
            return;
        }
        if self.middle.chord_active {
            self.middle = MiddleState { chord_active: false, ..self.middle };
            self.emit_pointer_button(dev, time_usec, BTN_MIDDLE, false, out);
        }
        if let Some(pending) = self.middle.pending_button {
            self.middle = MiddleState { pending_button: None, pending_since: None, ..self.middle };
            self.emit_pointer_button(dev, time_usec, pending, true, out);
        }
        self.middle = MiddleState { real_down: true, ..self.middle };
    }

    pub fn emulate_middle(
        &mut self,
        dev: &LibinputDevice,
        time_usec: u64,
        now: u64,
        code: u16,
        down: bool,
        out: &mut Vec<LibinputEvent>,
    )
        requires
            old(self).wf(),
        ensures
            final(self).wf(),
            final(self).step(final(out)@) == old(self).step(old(out)@).emulated(
                *dev,
                time_usec,
                now,
                code,
                down,
            ),
    {
        let is_left = code == BTN_LEFT;
        if down && !self.middle.left_down && !self.middle.right_down && self.held_buttons.len()
            == 0 {
            self.left_handed_applied = dev.left_handed;
        }
        self.middle = self.middle.set_down(is_left, down);
        let delivered = contains_code(&self.held_buttons, BTN_LEFT) || contains_code(
            &self.held_buttons,
            BTN_RIGHT,
        );
        if self.middle.real_down || delivered {
            if !down && self.middle.is_suppressed(is_left) {
                self.middle = self.middle.clear_suppressed(is_left);
            } else {
                self.emit_pointer_button(dev, time_usec, code, down, out);
            }
            return;
        }
        if down {
            if self.middle.is_down(!is_left) && (self.middle.pending_button.is_some()
                || self.middle.is_suppressed(!is_left)) {
                self.middle = MiddleState {
                    pending_button: None,
                    pending_since: None,
                    chord_active: true,
                    suppressed_left: true,
                    suppressed_right: true,
                    ..self.middle
                };
                self.emit_pointer_button(dev, time_usec, BTN_MIDDLE, true, out);
            } else if self.middle.pending_button.is_none() {
                self.middle = MiddleState {
                    pending_button: Some(code),
                    pending_since: Some(now),
                    ..self.middle
                };
            }
            return;
        }
        if self.middle.chord_active {
            self.middle = MiddleState { chord_active: false, ..self.middle };
            self.middle = self.middle.clear_suppressed(is_left);
            self.emit_pointer_button(dev, time_usec, BTN_MIDDLE, false, out);
            return;
        }
        if self.middle.is_suppressed(is_left) {
            self.middle = self.middle.clear_suppressed(is_left);
            return;
        }
        let waiting = match self.middle.pending_button {
            Some(pending) => pending == code,
            None => false,
        };
        if waiting {
            self.middle = MiddleState { pending_since: None, ..self.middle };
            self.emit_pointer_button(dev, time_usec, code, true, out);
            self.emit_pointer_button(dev, time_usec, code, false, out);
            self.middle = MiddleState { pending_button: None, ..self.middle };
        } else {
            self.emit_pointer_button(dev, time_usec, code, false, out);
        }
    }
}

} // verus!
