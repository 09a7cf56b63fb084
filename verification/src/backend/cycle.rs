//! What every device does before and after the events of a cycle are read.
use vstd::prelude::*;
use crate::backend::debounce::{DebounceButton, DEBOUNCE_TIMEOUT};
use crate::backend::keyboard::{emit_key_repeats, repeat_events, repeated};
use crate::backend::live::TrackedDevice;
use crate::backend::pointer::PointerState;
use crate::backend::tablet::{FrameTime, TabletState, ERASER_TIMEOUT, PROXIMITY_TIMEOUT};
use crate::backend::timers::{
    all_delivered, due_changes, DRAG_RELEASE_TIMEOUT, MIDDLE_TIMEOUT, TAP_RELEASE_TIMEOUT,
};
use crate::backend::touchpad::TouchState;
use crate::clock::{elapsed, elapsed_spec};
use crate::ffi_types::{LibinputDevice, LibinputEvent};

verus! {

/// The steps of a cycle in which every device is looked at.
#[derive(Clone, Copy, Debug, PartialEq, Eq, Structural)]
pub enum Phase {
    /// Held keys repeat.
    Repeat,
    /// A lone press stops waiting for its chord.
    Middle,
    /// Changes of bouncing buttons are delivered.
    Debounce,
    /// A hold ends with its fingers.
    ResolveHold,
    /// Resting fingers begin to hold.
    RipenHold,
    /// A tap stops waiting for a drag.
    Tap,
    /// A drag stops waiting for its fingers.
    Drag,
}

impl TrackedDevice {
    /// The events of a step.
    #[verifier::opaque]
    pub open spec fn phase_events(
        self,
        phase: Phase,
        dev: LibinputDevice,
        at: FrameTime,
        out: Seq<LibinputEvent>,
    ) -> Seq<LibinputEvent> {
        match phase {
            Phase::Repeat => if self.kind.is_keyboard {
                repeat_events(self.held_keys@, at.now, dev.id, out)
            } else {
                out
            },
            Phase::Middle => self.pointer.lone_pressed(dev, at, out).out,
            Phase::Debounce => self.pointer.buttons.step(out).buttons(
                dev,
                at.time_usec,
                due_changes(self.pointer.debouncer.known@, at.now),
            ).out,
            Phase::ResolveHold => self.touch.hold.resolved_events(
                self.touch.fingers_now(dev),
                dev.id,
                at.time_usec,
                out,
            ),
            Phase::RipenHold => if dev.has_gesture {
                self.touch.hold.ripened_events(self.touch.fingers_now(dev), dev.id, at, out)
            } else {
                out
            },
            Phase::Tap => self.touch.tap.expired_events(dev.id, at, out),
            Phase::Drag => self.touch.drag.expired_events(dev.id, at, out),
        }
    }

    /// Whether a step leaves this device behind.
    #[verifier::opaque]
    pub open spec fn phase_done(
        self,
        phase: Phase,
        dev: LibinputDevice,
        at: FrameTime,
        out: Seq<LibinputEvent>,
        after: TrackedDevice,
    ) -> bool {
        match phase {
            Phase::Repeat => {
                &&& after == (TrackedDevice { held_keys: after.held_keys, ..self })
                &&& after.held_keys@.len() == self.held_keys@.len()
                &&& forall|i: int|
                    0 <= i < self.held_keys@.len() ==> #[trigger] after.held_keys@[i] == (
                    if self.kind.is_keyboard {
                        repeated(self.held_keys@[i], at.now)
                    } else {
                        self.held_keys@[i]
                    })
            },
            Phase::Middle => {
                let step = self.pointer.lone_pressed(dev, at, out);
                &&& after.pointer.buttons.step(step.out) == step
                &&& after == (TrackedDevice {
                    pointer: PointerState { buttons: after.pointer.buttons, ..self.pointer },
                    ..self
                })
            },
            Phase::Debounce => {
                let known = self.pointer.debouncer.known@;
                let changes = due_changes(known, at.now);
                let step = self.pointer.buttons.step(out).buttons(dev, at.time_usec, changes);
                &&& after.pointer.buttons.step(step.out) == step
                &&& after.pointer.debouncer.known@ == all_delivered(known, at.now)
                &&& after.pointer.debouncer.bypass == self.pointer.debouncer.bypass
                &&& after.pointer.debouncer.spurious == (self.pointer.debouncer.spurious
                    || changes.len() > 0)
                &&& after == (TrackedDevice {
                    pointer: PointerState {
                        buttons: after.pointer.buttons,
                        debouncer: after.pointer.debouncer,
                        ..self.pointer
                    },
                    ..self
                })
            },
            Phase::ResolveHold => after == (TrackedDevice {
                touch: TouchState {
                    hold: self.touch.hold.resolved(self.touch.fingers_now(dev)),
                    ..self.touch
                },
                ..self
            }),
            Phase::RipenHold => after == (TrackedDevice {
                touch: TouchState {
                    hold: if dev.has_gesture {
                        self.touch.hold.ripened(at.now, self.touch.fingers_now(dev))
                    } else {
                        self.touch.hold
                    },
                    ..self.touch
                },
                ..self
            }),
            Phase::Tap => after == (TrackedDevice {
                touch: TouchState { tap: self.touch.tap.expired(at.now), ..self.touch },
                ..self
            }),
            Phase::Drag => after == (TrackedDevice {
                touch: TouchState { drag: self.touch.drag.expired(at.now), ..self.touch },
                ..self
            }),
        }
    }

    fn repeat_keys(&mut self, dev: &LibinputDevice, now: u64, out: &mut Vec<LibinputEvent>)
        ensures
            *final(self) == (TrackedDevice { held_keys: final(self).held_keys, ..*old(self) }),
            final(self).held_keys@.len() == old(self).held_keys@.len(),
            forall|i: int|
                0 <= i < old(self).held_keys@.len() ==> #[trigger] final(self).held_keys@[i] == (
                if old(self).kind.is_keyboard {
                    repeated(old(self).held_keys@[i], now)
                } else {
                    old(self).held_keys@[i]
                }),
            final(out)@ == (if old(self).kind.is_keyboard {
                repeat_events(old(self).held_keys@, now, dev.id, old(out)@)
            } else {
                old(out)@
            }),
    {
        if self.kind.is_keyboard {
            emit_key_repeats(&mut self.held_keys, now, dev.id, out);
        }
    }

    /// Takes one step of a cycle.
    pub fn run_phase(
        &mut self,
        phase: Phase,
        dev: &LibinputDevice,
        at: FrameTime,
        out: &mut Vec<LibinputEvent>,
    )
        requires
            old(self).pointer.wf(),
            old(self).touch.wf(),
        ensures
            final(self).pointer.wf(),
            final(self).touch.wf(),
            final(self).tablet == old(self).tablet,
            final(self).device == old(self).device,
            old(self).phase_done(phase, *dev, at, old(out)@, *final(self)),
            final(out)@ == old(self).phase_events(phase, *dev, at, old(out)@),
    {
        reveal(TrackedDevice::phase_events);
        reveal(TrackedDevice::phase_done);
        match phase {
            Phase::Repeat => self.repeat_keys(dev, at.now, out),
            Phase::Middle => self.pointer.expire_middle(dev, at, out),
            Phase::Debounce => self.pointer.expire_debounce(dev, at, out),
            Phase::ResolveHold => self.touch.resolve_hold(dev, at.time_usec, out),
            Phase::RipenHold => self.touch.ripen_hold(dev, at, out),
            Phase::Tap => self.touch.expire_tap(dev.id, at, out),
            Phase::Drag => self.touch.expire_drag(dev.id, at, out),
        }
    }
}

// ---------------------------------------------------------------------------
// Deadlines
// ---------------------------------------------------------------------------
/// The sooner of two spans of time, if there is any.
pub open spec fn sooner_spec(a: Option<u64>, b: Option<u64>) -> Option<u64> {
    match (a, b) {
        (Some(a), Some(b)) => if a <= b {
            Some(a)
        } else {
            Some(b)
        },
        (Some(a), None) => Some(a),
        (None, b) => b,
    }
}

pub fn sooner(a: Option<u64>, b: Option<u64>) -> (s: Option<u64>)
    ensures
        s == sooner_spec(a, b),
{
    match (a, b) {
        (Some(a), Some(b)) => if a <= b {
            Some(a)
        } else {
            Some(b)
        },
        (Some(a), None) => Some(a),
        (None, b) => b,
    }
}

/// How much of a span that began then is left.
pub open spec fn left_spec(now: u64, since: Option<u64>, span: u64) -> Option<u64> {
    match since {
        Some(since) => Some(
            (if elapsed_spec(now, since) >= span {
                0
            } else {
                span - elapsed_spec(now, since)
            }) as u64,
        ),
        None => None,
    }
}

pub fn time_left(now: u64, since: Option<u64>, span: u64) -> (left: Option<u64>)
    ensures
        left == left_spec(now, since, span),
{
    match since {
        Some(since) => {
            let past: u64 = elapsed(now, since);
            Some(
                if past >= span {
                    0
                } else {
                    span - past
                },
            )
        },
        None => None,
    }
}

/// The first of the held-back changes to be due.
pub open spec fn debounce_left(buttons: Seq<DebounceButton>, now: u64) -> Option<u64>
    decreases buttons.len(),
{
    if buttons.len() == 0 {
        None
    } else {
        sooner_spec(
            debounce_left(buttons.drop_last(), now),
            left_spec(now, buttons.last().pending_since, DEBOUNCE_TIMEOUT),
        )
    }
}

fn first_debounce(buttons: &Vec<DebounceButton>, now: u64) -> (left: Option<u64>)
    ensures
        left == debounce_left(buttons@, now),
{
    let mut left: Option<u64> = None;
    let mut i: usize = 0;
    assert(buttons@.take(0) =~= Seq::<DebounceButton>::empty());
    while i < buttons.len()
        invariant
            i <= buttons.len(),
            left == debounce_left(buttons@.take(i as int), now),
        decreases buttons.len() - i,
    {
        proof {
            assert(buttons@.take(i + 1).drop_last() =~= buttons@.take(i as int));
        }
        left = sooner(left, time_left(now, buttons[i].pending_since, DEBOUNCE_TIMEOUT));
        i += 1;
    }
    assert(buttons@.take(i as int) =~= buttons@);
    left
}

/// Whether a tablet waits for its tool to fall silent.
pub open spec fn watches_tool(t: TabletState) -> bool {
    t.prox.timer_enabled && t.held_buttons@.len() == 0 && !t.tip.down && (t.prox.tool is Some
        || t.prox.area_suppressed)
}

impl TrackedDevice {
    /// The time until something happens to the device without an event.
    pub open spec fn next_deadline_spec(self, now: u64) -> Option<u64> {
        let next = left_spec(now, self.pointer.buttons.middle.pending_since, MIDDLE_TIMEOUT);
        let next = sooner_spec(next, debounce_left(self.pointer.debouncer.known@, now));
        let next = sooner_spec(
            next,
            if watches_tool(self.tablet) {
                left_spec(now, self.tablet.prox.zero_pressure_since, PROXIMITY_TIMEOUT)
            } else {
                None
            },
        );
        let next = sooner_spec(
            next,
            left_spec(now, self.tablet.eraser.pen_out_since, ERASER_TIMEOUT),
        );
        let next = sooner_spec(
            next,
            if !self.touch.hold.active && !self.touch.hold.blocked {
                left_spec(now, self.touch.hold.started_at, self.touch.hold.patience())
            } else {
                None
            },
        );
        let next = sooner_spec(next, left_spec(now, self.touch.tap.release_since, TAP_RELEASE_TIMEOUT));
        sooner_spec(next, left_spec(now, self.touch.drag.release_since, DRAG_RELEASE_TIMEOUT))
    }

    pub fn next_deadline(&self, now: u64) -> (left: Option<u64>)
        ensures
            left == self.next_deadline_spec(now),
    {
        let middle = time_left(now, self.pointer.buttons.middle.pending_since, MIDDLE_TIMEOUT);
        let debounce = first_debounce(&self.pointer.debouncer.known, now);
        let t = &self.tablet;
        let tool = if t.prox.timer_enabled && t.held_buttons.len() == 0 && !t.tip.down && (
        t.prox.tool.is_some() || t.prox.area_suppressed) {
            time_left(now, t.prox.zero_pressure_since, PROXIMITY_TIMEOUT)
        } else {
            None
        };
        let eraser = time_left(now, t.eraser.pen_out_since, ERASER_TIMEOUT);
        let h = self.touch.hold;
        let hold = if !h.active && !h.blocked {
            time_left(now, h.started_at, h.hold_patience())
        } else {
            None
        };
        let tap = time_left(now, self.touch.tap.release_since, TAP_RELEASE_TIMEOUT);
        let drag = time_left(now, self.touch.drag.release_since, DRAG_RELEASE_TIMEOUT);
        sooner(
            sooner(sooner(sooner(sooner(sooner(middle, debounce), tool), eraser), hold), tap),
            drag,
        )
    }
}

} // verus!
