//! Devices that go: what clients are told of what they held.
use vstd::prelude::*;
use crate::backend::gestures::{ClickState, DragState, TapState};
use crate::backend::live::TrackedDevice;
use crate::backend::timers::{button_releases, pad_releases, seats_returned};
use crate::backend::slots::MtSlot;
use crate::backend::touchpad::TouchState;
use crate::ffi_types::{DeviceId, LibinputDevice, LibinputEvent, LibinputEventType};
use crate::laws::taps::tells_button;
use crate::laws::yielding::tells_frame;

verus! {

/// Every button that was held comes up, each once and in the order in which
/// they went down; nothing else is told.
pub proof fn law_held_buttons_come_up(
    buttons: Seq<u16>,
    device: DeviceId,
    time_usec: u64,
    out: Seq<LibinputEvent>,
)
    ensures
        ({
            let reported = button_releases(buttons, device, time_usec, out);
            &&& reported.len() == out.len() + buttons.len()
            &&& forall|i: int| 0 <= i < out.len() ==> #[trigger] reported[i] == out[i]
            &&& forall|k: int|
                out.len() <= k < reported.len() ==> tells_button(
                    #[trigger] reported[k],
                    device,
                    time_usec,
                    buttons[k - out.len()] as int,
                    false,
                )
        }),
    decreases buttons.len(),
{
    if buttons.len() > 0 {
        law_held_buttons_come_up(buttons.drop_last(), device, time_usec, out);
        let before = button_releases(buttons.drop_last(), device, time_usec, out);
        let reported = button_releases(buttons, device, time_usec, out);
        assert forall|k: int| out.len() <= k < reported.len() implies tells_button(
            #[trigger] reported[k],
            device,
            time_usec,
            buttons[k - out.len()] as int,
            false,
        ) by {
            if k < before.len() {
                assert(reported[k] == before[k]);
                assert(buttons.drop_last()[k - out.len()] == buttons[k - out.len()]);
            }
        }
    }
}

/// What a touchpad's clicks, taps and drags hold comes up, in that order; a
/// click comes up on the device that it was told of.
pub proof fn law_touchpads_let_go(
    click: ClickState,
    tap: TapState,
    drag: DragState,
    device: DeviceId,
    time_usec: u64,
    out: Seq<LibinputEvent>,
)
    ensures
        ({
            let reported = pad_releases(click, tap, drag, device, time_usec, out);
            let clicks = if click.button is Some {
                1int
            } else {
                0
            };
            let taps = if tap.button_down is Some {
                1int
            } else {
                0
            };
            let drags = if drag.button_down {
                1int
            } else {
                0
            };
            &&& reported.len() == out.len() + clicks + taps + drags
            &&& forall|i: int| 0 <= i < out.len() ==> #[trigger] reported[i] == out[i]
            &&& click.button is Some ==> tells_button(
                reported[out.len() as int],
                if click.device is Some {
                    click.device->0
                } else {
                    device
                },
                time_usec,
                click.button->0 as int,
                false,
            )
            &&& tap.button_down is Some ==> tells_button(
                reported[out.len() + clicks],
                device,
                time_usec,
                tap.button_down->0 as int,
                false,
            )
            &&& drag.button_down ==> tells_button(
                reported.last(),
                device,
                time_usec,
                0x110,
                false,
            )
        }),
{
}

proof fn lemma_returned(slots: Seq<MtSlot>, used: Seq<bool>, n: int)
    requires
        0 <= n <= slots.len(),
    ensures
        seats_returned(slots, used, n).len() == used.len(),
        forall|i: int|
            0 <= i < n && (#[trigger] slots[i]).seat_slot is Some && 0 <= slots[i].seat_slot->0
                < used.len() ==> !seats_returned(slots, used, n)[slots[i].seat_slot->0 as int],
        forall|u: int|
            0 <= u < used.len() && seats_returned(slots, used, n)[u] ==> #[trigger] used[u],
    decreases n,
{
    if n > 0 {
        lemma_returned(slots, used, n - 1);
    }
}

/// The contacts of a touchscreen that goes are all taken back by one event and
/// one frame, unless clients know of none or a tool had taken touch over. Their
/// places in the seat are free again, and nothing is in touch.
pub proof fn law_contacts_are_dropped(
    t: TouchState,
    dev: LibinputDevice,
    time_usec: u64,
    arbitrated: bool,
    used: Seq<bool>,
    out: Seq<LibinputEvent>,
    after: TouchState,
    used_after: Seq<bool>,
    reported: Seq<LibinputEvent>,
    k: int,
)
    requires
        t.contacts_dropped(dev, time_usec, arbitrated, used, out, after, used_after, reported),
        dev.has_touch && t.tap.touching,
        0 <= k < t.slots@.len(),
    ensures
        ({
            let known = exists|i: int| 0 <= i < t.slots@.len() && (#[trigger] t.slots@[i]).reported;
            let slot = t.slots@[k];
            &&& !after.tap.touching && after.tap.fingers == 0
            &&& after.slots@.len() == t.slots@.len()
            &&& !after.slots@[k].active && !after.slots@[k].reported && after.slots@[k].seat_slot
                is None && after.slots@[k].tracking_id == -1
            &&& slot.seat_slot is Some && 0 <= slot.seat_slot->0 < used.len()
                ==> !used_after[slot.seat_slot->0 as int]
            &&& !known || arbitrated ==> reported == out
            &&& known && !arbitrated ==> {
                let cancel = reported[out.len() as int];
                &&& reported.len() == out.len() + 2
                &&& reported.take(out.len() as int) == out
                &&& cancel.device == dev.id && cancel.event_type
                    == LibinputEventType::LIBINPUT_EVENT_TOUCH_CANCEL && cancel.payload
                    is TouchCancel && cancel.payload->TouchCancel_0.time_usec == time_usec
                &&& cancel.payload->TouchCancel_0.slot == -1
                    && cancel.payload->TouchCancel_0.seat_slot == -1
                &&& tells_frame(reported.last(), dev.id, time_usec)
            }
        }),
{
    reveal(TouchState::contacts_dropped);
    lemma_returned(t.slots@, used, t.slots@.len() as int);
    assert(reported.take(out.len() as int) =~= out);
}

/// What is released is told of with the time of the release, on the device
/// that held it: a key as released, a button as released.
pub proof fn law_keys_go_before_buttons(
    t: TrackedDevice,
    dev: LibinputDevice,
    tools: Seq<crate::backend::tools::LibinputTabletTool>,
    time_usec: u64,
    arbitrated: bool,
    used: Seq<bool>,
    out: Seq<LibinputEvent>,
    after: TrackedDevice,
    dev_after: LibinputDevice,
    tools_after: Seq<crate::backend::tools::LibinputTabletTool>,
    used_after: Seq<bool>,
    reported: Seq<LibinputEvent>,
    k: int,
    b: int,
)
    requires
        t.fully_released(
            dev,
            tools,
            time_usec,
            arbitrated,
            used,
            out,
            after,
            dev_after,
            tools_after,
            used_after,
            reported,
        ),
        0 <= k < t.held_keys@.len(),
        0 <= b < t.pointer.buttons.held_buttons@.len(),
    ensures
        ({
            let key = reported[out.len() + k];
            let button = reported[out.len() + t.held_keys@.len() + b];
            &&& reported.len() >= out.len() + t.held_keys@.len()
                + t.pointer.buttons.held_buttons@.len()
            &&& key.device == t.device && key.event_type
                == LibinputEventType::LIBINPUT_EVENT_KEYBOARD_KEY && key.payload is KeyboardKey
            &&& key.payload->KeyboardKey_0.key == t.held_keys@[k].code
                && key.payload->KeyboardKey_0.state == 0 && key.payload->KeyboardKey_0.time_usec
                == time_usec
            &&& tells_button(
                button,
                t.device,
                time_usec,
                t.pointer.buttons.held_buttons@[b] as int,
                false,
            )
        }),
{
    reveal(TrackedDevice::fully_released);
    reveal(TrackedDevice::release_events);
    reveal(TouchState::contacts_dropped);
    let keys = crate::backend::keyboard::key_releases(t.held_keys@, time_usec, t.device, out);
    let buttons = button_releases(t.pointer.buttons.held_buttons@, t.device, time_usec, keys);
    let pads = pad_releases(
        t.touch.click,
        t.touch.tap,
        t.touch.drag,
        t.device,
        time_usec,
        buttons,
    );
    law_held_buttons_come_up(t.pointer.buttons.held_buttons@, t.device, time_usec, keys);
    law_touchpads_let_go(t.touch.click, t.touch.tap, t.touch.drag, t.device, time_usec, buttons);
    crate::backend::keyboard::law_every_held_key_is_released(
        t.held_keys@,
        time_usec,
        t.device,
        out,
        k,
    );
    let tool = t.tablet.release_events(tools, t.device, time_usec, pads);
    crate::backend::release::lemma_tablet_extends(t.tablet, tools, t.device, time_usec, pads);
    assert(buttons[out.len() + k] == keys[out.len() + k]);
    assert(pads[out.len() + k] == buttons[out.len() + k]);
    assert(tool[out.len() + k] == pads[out.len() + k]);
    assert(reported[out.len() + k] == tool[out.len() + k]);
    let at = out.len() + t.held_keys@.len() + b;
    assert(pads[at] == buttons[at]);
    assert(tool[at] == pads[at]);
    assert(reported[at] == tool[at]);
    assert(tells_button(
        buttons[at],
        t.device,
        time_usec,
        t.pointer.buttons.held_buttons@[b] as int,
        false,
    ));
}

} // verus!
