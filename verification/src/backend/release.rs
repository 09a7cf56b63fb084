//! Nothing that a device holds outlives it.
use vstd::prelude::*;
use crate::backend::buttons::button_event_spec;
use crate::backend::keyboard::{
    key_releases, key_report, law_every_held_key_is_released, HeldKey, KEY_STATE_RELEASED,
};
use crate::backend::live::TrackedDevice;
use crate::backend::tablet::{releases, TabletState};
use crate::backend::timers::{
    button_releases, law_every_held_button_is_released, pad_releases,
};
use crate::backend::tools::LibinputTabletTool;
use crate::backend::touchpad::TouchState;
use crate::codes::BTN_LEFT;
use crate::ffi_types::{DeviceId, LibinputDevice, LibinputEvent, LibinputEventType};

verus! {

/// Whether events only came to others that were there.
pub open spec fn extends(before: Seq<LibinputEvent>, after: Seq<LibinputEvent>) -> bool {
    &&& before.len() <= after.len()
    &&& forall|i: int| 0 <= i < before.len() ==> #[trigger] after[i] == before[i]
}

/// Whether an event is among those that came to others.
pub open spec fn came(
    before: Seq<LibinputEvent>,
    after: Seq<LibinputEvent>,
    event: LibinputEvent,
) -> bool {
    exists|i: int| before.len() <= i < after.len() && #[trigger] after[i] == event
}

proof fn lemma_keys_extend(
    keys: Seq<HeldKey>,
    time_usec: u64,
    device: DeviceId,
    out: Seq<LibinputEvent>,
)
    ensures
        extends(out, key_releases(keys, time_usec, device, out)),
    decreases keys.len(),
{
    if keys.len() > 0 {
        lemma_keys_extend(keys.drop_last(), time_usec, device, out);
    }
}

proof fn lemma_buttons_extend(
    buttons: Seq<u16>,
    device: DeviceId,
    time_usec: u64,
    out: Seq<LibinputEvent>,
)
    ensures
        extends(out, button_releases(buttons, device, time_usec, out)),
    decreases buttons.len(),
{
    if buttons.len() > 0 {
        lemma_buttons_extend(buttons.drop_last(), device, time_usec, out);
    }
}

proof fn lemma_tool_buttons_extend(
    s: TabletState,
    tools: Seq<LibinputTabletTool>,
    tool: usize,
    device: DeviceId,
    time_usec: u64,
    changes: Seq<(u16, bool)>,
    out: Seq<LibinputEvent>,
)
    ensures
        extends(out, s.tool_button_events(tools, tool, device, time_usec, changes, out)),
    decreases changes.len(),
{
    if changes.len() > 0 {
        lemma_tool_buttons_extend(s, tools, tool, device, time_usec, changes.drop_last(), out);
    }
}

pub proof fn lemma_tablet_extends(
    s: TabletState,
    tools: Seq<LibinputTabletTool>,
    device: DeviceId,
    time_usec: u64,
    out: Seq<LibinputEvent>,
)
    ensures
        extends(out, s.release_events(tools, device, time_usec, out)),
        s.prox.tool is Some ==> {
            let after = s.release_events(tools, device, time_usec, out);
            &&& after.len() > out.len()
            &&& after.last().event_type == LibinputEventType::LIBINPUT_EVENT_TABLET_TOOL_PROXIMITY
        },
{
    if let Some(tool) = s.prox.tool {
        lemma_tool_buttons_extend(
            s,
            tools,
            tool,
            device,
            time_usec,
            releases(s.held_buttons@),
            out,
        );
    }
}

/// A device that goes releases every key, every button, every click, tap and
/// drag that it held, and takes its tool out of proximity; nothing that was
/// reported before is lost. Afterwards it holds nothing.
pub proof fn law_devices_leave_nothing_behind(
    t: TrackedDevice,
    dev: LibinputDevice,
    tools: Seq<LibinputTabletTool>,
    time_usec: u64,
    arbitrated: bool,
    used: Seq<bool>,
    out: Seq<LibinputEvent>,
    after: TrackedDevice,
    dev_after: LibinputDevice,
    tools_after: Seq<LibinputTabletTool>,
    used_after: Seq<bool>,
    reported: Seq<LibinputEvent>,
)
    requires
        t.fully_released(
            dev,
            tools,
            time_usec,
            arbitrated,
            used,
            out,
            after,
            dev_after,
            tools_after,
            used_after,
            reported,
        ),
    ensures
        extends(out, reported),
        forall|k: int|
            0 <= k < t.held_keys@.len() ==> came(
                out,
                reported,
                key_report(time_usec, (#[trigger] t.held_keys@[k]).code, KEY_STATE_RELEASED, t.device),
            ),
        forall|k: int|
            0 <= k < t.pointer.buttons.held_buttons@.len() ==> came(
                out,
                reported,
                button_event_spec(
                    t.device,
                    time_usec,
                    #[trigger] t.pointer.buttons.held_buttons@[k],
                    false,
                ),
            ),
        t.touch.click.button matches Some(button) ==> came(
            out,
            reported,
            button_event_spec(
                match t.touch.click.device {
                    Some(owner) => owner,
                    None => t.device,
                },
                time_usec,
                button,
                false,
            ),
        ),
        t.touch.tap.button_down matches Some(button) ==> came(
            out,
            reported,
            button_event_spec(t.device, time_usec, button, false),
        ),
        t.touch.drag.button_down ==> came(
            out,
            reported,
            button_event_spec(t.device, time_usec, BTN_LEFT, false),
        ),
        t.tablet.prox.tool is Some ==> exists|i: int|
            out.len() <= i < reported.len() && (#[trigger] reported[i]).event_type
                == LibinputEventType::LIBINPUT_EVENT_TABLET_TOOL_PROXIMITY,
        after.held_keys@.len() == 0,
        after.pointer.buttons.held_buttons@.len() == 0,
        after.touch.click.button is None,
        after.touch.tap.button_down is None,
        !after.touch.drag.button_down,
        t.tablet.prox.tool is Some ==> after.tablet.held_buttons@.len() == 0,
{
    reveal(TrackedDevice::fully_released);
    reveal(TrackedDevice::release_events);
    reveal(TouchState::contacts_dropped);
    let id = t.device;
    let a = key_releases(t.held_keys@, time_usec, id, out);
    let b = button_releases(t.pointer.buttons.held_buttons@, id, time_usec, a);
    let c = pad_releases(t.touch.click, t.touch.tap, t.touch.drag, id, time_usec, b);
    let d = t.tablet.release_events(tools, id, time_usec, c);
    lemma_keys_extend(t.held_keys@, time_usec, id, out);
    lemma_buttons_extend(t.pointer.buttons.held_buttons@, id, time_usec, a);
    lemma_tablet_extends(t.tablet, tools, id, time_usec, c);
    assert(extends(b, c));
    assert(extends(d, reported));
    assert forall|k: int| 0 <= k < t.held_keys@.len() implies came(
        out,
        reported,
        key_report(time_usec, (#[trigger] t.held_keys@[k]).code, KEY_STATE_RELEASED, id),
    ) by {
        law_every_held_key_is_released(t.held_keys@, time_usec, id, out, k);
        assert(a[out.len() + k] == key_report(
            time_usec,
            t.held_keys@[k].code,
            KEY_STATE_RELEASED,
            id,
        ));
        assert(reported[out.len() + k] == a[out.len() + k]);
    }
    assert forall|k: int| 0 <= k < t.pointer.buttons.held_buttons@.len() implies came(
        out,
        reported,
        button_event_spec(id, time_usec, #[trigger] t.pointer.buttons.held_buttons@[k], false),
    ) by {
        law_every_held_button_is_released(
            t.pointer.buttons.held_buttons@,
            id,
            time_usec,
            a,
            k,
        );
        assert(reported[a.len() + k] == b[a.len() + k]);
    }
    if let Some(button) = t.touch.click.button {
        assert(reported[b.len() as int] == c[b.len() as int]);
    }
    if t.tablet.prox.tool is Some {
        assert(reported[d.len() - 1] == d.last());
    }
    if let Some(button) = t.touch.tap.button_down {
        let at = if t.touch.drag.button_down {
            c.len() - 2
        } else {
            c.len() - 1
        };
        assert(c[at] == button_event_spec(id, time_usec, button, false));
        assert(reported[at] == c[at]);
    }
    if t.touch.drag.button_down {
        assert(c[c.len() - 1] == button_event_spec(id, time_usec, BTN_LEFT, false));
        assert(reported[c.len() - 1] == c[c.len() - 1]);
    }
}

} // verus!
