//! Keyboards: what is reported of a key follows whether the key is held.
use vstd::prelude::*;
use crate::backend::keyboard::{
    key_events_after, key_releases, keys_after_event, law_release_is_local, repeat_events, repeated,
    HeldKey,
};
use crate::backend::live::{is_tablet_tool, Environment, Progress, TrackedDevice};
use crate::backend::tablet::FrameTime;
use crate::backend::tools::LibinputTabletTool;
use crate::codes::InputEvent;
use crate::ffi_types::{DeviceId, EventPayload, LibinputDevice, LibinputEvent, LibinputEventType};

verus! {

/// Whether a key is among those that are held.
pub open spec fn holds(keys: Seq<HeldKey>, code: u16) -> bool {
    exists|i: int| 0 <= i < keys.len() && (#[trigger] keys[i]).code == code
}

/// Whether an event tells clients that a key of a device changed to a state:
/// 0 is up, 1 is down, 2 is repeated.
pub open spec fn tells_key(
    event: LibinputEvent,
    device: DeviceId,
    code: u16,
    state: u32,
    time_usec: u64,
) -> bool {
    &&& event.device == device
    &&& event.event_type == LibinputEventType::LIBINPUT_EVENT_KEYBOARD_KEY
    &&& event.payload is KeyboardKey
    &&& event.payload->KeyboardKey_0.key == code
    &&& event.payload->KeyboardKey_0.state == state
    &&& event.payload->KeyboardKey_0.time_usec == time_usec
}

/// Whether clients that have read these events take a key to be down: the last
/// that they heard of it is a press.
pub open spec fn taken_to_be_down(out: Seq<LibinputEvent>, device: DeviceId, code: u16) -> bool
    decreases out.len(),
{
    if out.len() == 0 {
        false
    } else {
        match out.last().payload {
            EventPayload::KeyboardKey(key) if out.last().device == device && key.key == code
                && key.state <= 1 => key.state == 1,
            _ => taken_to_be_down(out.drop_last(), device, code),
        }
    }
}

/// Whether clients know which keys of a device are held.
pub open spec fn clients_know(
    keys: Seq<HeldKey>,
    out: Seq<LibinputEvent>,
    device: DeviceId,
) -> bool {
    forall|code: u16| #[trigger] taken_to_be_down(out, device, code) <==> holds(keys, code)
}

/// A key that goes down is held and reported once as pressed; one that comes
/// up is held no more and reported once as released; the kernel's repeats and
/// everything that is no key change and report nothing. No other key is
/// touched.
pub proof fn law_keys_are_held_and_reported(
    keys: Seq<HeldKey>,
    ev: InputEvent,
    time_usec: u64,
    now: u64,
    device: DeviceId,
    out: Seq<LibinputEvent>,
    other: u16,
)
    requires
        other != ev.code,
    ensures
        ({
            let after = keys_after_event(keys, ev, time_usec, now);
            let reported = key_events_after(ev, time_usec, device, out);
            &&& holds(after, other) <==> holds(keys, other)
            &&& ev.kind == 1 && ev.value == 1 ==> {
                &&& holds(after, ev.code)
                &&& reported.len() == out.len() + 1
                &&& reported.drop_last() == out
                &&& tells_key(reported.last(), device, ev.code, 1, time_usec)
            }
            &&& ev.kind == 1 && ev.value == 0 ==> {
                &&& !holds(after, ev.code)
                &&& reported.len() == out.len() + 1
                &&& reported.drop_last() == out
                &&& tells_key(reported.last(), device, ev.code, 0, time_usec)
            }
            &&& !(ev.kind == 1 && (ev.value == 0 || ev.value == 1)) ==> {
                &&& after == keys
                &&& reported == out
            }
        }),
{
    let after = keys_after_event(keys, ev, time_usec, now);
    let reported = key_events_after(ev, time_usec, device, out);
    lemma_holds_after(keys, ev, time_usec, now, other);
    lemma_holds_after(keys, ev, time_usec, now, ev.code);
    if ev.kind == 1 && (ev.value == 0 || ev.value == 1) {
        assert(reported.drop_last() =~= out);
    }
}

proof fn lemma_holds_after(
    keys: Seq<HeldKey>,
    ev: InputEvent,
    time_usec: u64,
    now: u64,
    code: u16,
)
    ensures
        holds(keys_after_event(keys, ev, time_usec, now), code) <==> (if ev.kind == 1 && ev.code
            == code && ev.value == 1 {
            true
        } else if ev.kind == 1 && ev.code == code && ev.value == 0 {
            false
        } else {
            holds(keys, code)
        }),
{
    let after = keys_after_event(keys, ev, time_usec, now);
    if ev.kind == 1 && ev.value == 1 {
        assert(after.len() == keys.len() + 1);
        assert(after[keys.len() as int].code == ev.code);
        if holds(keys, code) {
            let i = choose|i: int| 0 <= i < keys.len() && (#[trigger] keys[i]).code == code;
            assert(after[i].code == code);
        }
        if holds(after, code) && code != ev.code {
            let i = choose|i: int| 0 <= i < after.len() && (#[trigger] after[i]).code == code;
            assert(keys[i].code == code);
        }
    } else if ev.kind == 1 && ev.value == 0 {
        if holds(after, code) {
            let i = choose|i: int| 0 <= i < after.len() && (#[trigger] after[i]).code == code;
            law_release_is_local(keys, ev.code, after[i]);
            assert(after.contains(after[i]));
            let j = choose|j: int| 0 <= j < keys.len() && keys[j] == after[i];
            assert(keys[j].code == code);
        }
        if holds(keys, code) && code != ev.code {
            let i = choose|i: int| 0 <= i < keys.len() && (#[trigger] keys[i]).code == code;
            law_release_is_local(keys, ev.code, keys[i]);
            assert(keys.contains(keys[i]));
            let j = choose|j: int| 0 <= j < after.len() && after[j] == keys[i];
            assert(after[j].code == code);
        }
    }
}

/// One event of the kernel, and when it came.
pub struct KeyInput {
    pub ev: InputEvent,
    pub time_usec: u64,
    pub now: u64,
}

/// The keys that are held after a number of events.
pub open spec fn held_after_all(keys: Seq<HeldKey>, inputs: Seq<KeyInput>) -> Seq<HeldKey>
    decreases inputs.len(),
{
    if inputs.len() == 0 {
        keys
    } else {
        let last = inputs.last();
        keys_after_event(
            held_after_all(keys, inputs.drop_last()),
            last.ev,
            last.time_usec,
            last.now,
        )
    }
}

/// What is reported of a number of events.
pub open spec fn reported_of_all(
    inputs: Seq<KeyInput>,
    device: DeviceId,
    out: Seq<LibinputEvent>,
) -> Seq<LibinputEvent>
    decreases inputs.len(),
{
    if inputs.len() == 0 {
        out
    } else {
        key_events_after(
            inputs.last().ev,
            inputs.last().time_usec,
            device,
            reported_of_all(inputs.drop_last(), device, out),
        )
    }
}

/// Whatever a keyboard sends, clients that read the events know which of its
/// keys are held: the last report of a key is a press exactly if the key is
/// held.
pub proof fn law_clients_know_which_keys_are_held(
    keys: Seq<HeldKey>,
    inputs: Seq<KeyInput>,
    device: DeviceId,
    out: Seq<LibinputEvent>,
)
    requires
        clients_know(keys, out, device),
    ensures
        clients_know(held_after_all(keys, inputs), reported_of_all(inputs, device, out), device),
    decreases inputs.len(),
{
    if inputs.len() > 0 {
        let before = inputs.drop_last();
        law_clients_know_which_keys_are_held(keys, before, device, out);
        let held = held_after_all(keys, before);
        let told = reported_of_all(before, device, out);
        let last = inputs.last();
        let after = held_after_all(keys, inputs);
        let reported = reported_of_all(inputs, device, out);
        assert forall|code: u16| #[trigger] taken_to_be_down(reported, device, code) <==> holds(
            after,
            code,
        ) by {
            assert(taken_to_be_down(told, device, code) <==> holds(held, code));
            lemma_holds_after(held, last.ev, last.time_usec, last.now, code);
            if last.ev.kind == 1 && (last.ev.value == 0 || last.ev.value == 1) {
                assert(reported.drop_last() =~= told);
            }
        }
    }
}

/// A key that repeats is reported with its own code and the time of its press,
/// as repeated, and clients still take the same keys to be down.
pub proof fn law_repeats_are_of_held_keys(
    keys: Seq<HeldKey>,
    now: u64,
    device: DeviceId,
    out: Seq<LibinputEvent>,
)
    ensures
        ({
            let reported = repeat_events(keys, now, device, out);
            &&& out.len() <= reported.len() <= out.len() + keys.len()
            &&& forall|i: int| 0 <= i < out.len() ==> #[trigger] reported[i] == out[i]
            &&& forall|i: int|
                out.len() <= i < reported.len() ==> exists|k: int|
                    0 <= k < keys.len() && tells_key(
                        #[trigger] reported[i],
                        device,
                        (#[trigger] keys[k]).code,
                        2,
                        keys[k].time_usec,
                    )
            &&& forall|code: u16|
                taken_to_be_down(reported, device, code) == taken_to_be_down(out, device, code)
        }),
    decreases keys.len(),
{
    let reported = repeat_events(keys, now, device, out);
    if keys.len() > 0 {
        let before = repeat_events(keys.drop_last(), now, device, out);
        law_repeats_are_of_held_keys(keys.drop_last(), now, device, out);
        if reported.len() > before.len() {
            assert(reported.drop_last() =~= before);
            assert(keys[keys.len() - 1] == keys.last());
        }
        assert forall|i: int| out.len() <= i < reported.len() implies exists|k: int|
            0 <= k < keys.len() && tells_key(
                #[trigger] reported[i],
                device,
                (#[trigger] keys[k]).code,
                2,
                keys[k].time_usec,
            ) by {
            if i < before.len() {
                assert(reported[i] == before[i]);
                let k = choose|k: int|
                    0 <= k < keys.len() - 1 && tells_key(
                        before[i],
                        device,
                        (#[trigger] keys.drop_last()[k]).code,
                        2,
                        keys.drop_last()[k].time_usec,
                    );
                assert(keys[k] == keys.drop_last()[k]);
            } else {
                let k = keys.len() - 1;
                assert(tells_key(reported[i], device, keys[k].code, 2, keys[k].time_usec));
            }
        }
    }
}

/// A key starts to repeat when it has been held for 200 milliseconds, and
/// repeats every 25 milliseconds after that; not earlier, and not later than
/// it is asked.
pub proof fn law_keys_repeat_in_time(key: HeldKey, now: u64, device: DeviceId)
    requires
        now >= key.last_fire,
    ensures
        ({
            let due = now - key.last_fire >= if key.initial_fired {
                25_000_000int
            } else {
                200_000_000int
            };
            let told = repeat_events(seq![key], now, device, Seq::empty());
            let after = repeated(key, now);
            &&& told.len() == (if due {
                1int
            } else {
                0
            })
            &&& due ==> after.last_fire == now && after.initial_fired && tells_key(
                told[0],
                device,
                key.code,
                2,
                key.time_usec,
            )
            &&& !due ==> after == key
            &&& after.code == key.code && after.time_usec == key.time_usec
        }),
{
    let keys = seq![key];
    assert(keys.drop_last() =~= Seq::<HeldKey>::empty());
    reveal_with_fuel(repeat_events, 2);
}

/// When a keyboard lets go, every held key is reported as released, in the
/// order in which they went down.
pub proof fn law_letting_go_releases_every_key(
    keys: Seq<HeldKey>,
    time_usec: u64,
    device: DeviceId,
    out: Seq<LibinputEvent>,
)
    ensures
        ({
            let reported = key_releases(keys, time_usec, device, out);
            &&& reported.len() == out.len() + keys.len()
            &&& forall|i: int| 0 <= i < out.len() ==> #[trigger] reported[i] == out[i]
            &&& forall|k: int|
                0 <= k < keys.len() ==> tells_key(
                    reported[out.len() + k],
                    device,
                    (#[trigger] keys[k]).code,
                    0,
                    time_usec,
                )
        }),
    decreases keys.len(),
{
    if keys.len() > 0 {
        let first = keys.drop_last();
        law_letting_go_releases_every_key(first, time_usec, device, out);
        let reported = key_releases(keys, time_usec, device, out);
        let before = key_releases(first, time_usec, device, out);
        assert forall|k: int| 0 <= k < keys.len() implies tells_key(
            reported[out.len() + k],
            device,
            (#[trigger] keys[k]).code,
            0,
            time_usec,
        ) by {
            if k < first.len() {
                assert(first[k] == keys[k]);
                assert(reported[out.len() + k] == before[out.len() + k]);
            }
        }
    }
}

/// A device that is a keyboard alone reports its keys, and tells that it was
/// typed on exactly when a key goes down.
pub proof fn law_keyboards_report_their_keys(
    t: TrackedDevice,
    dev: LibinputDevice,
    ev: InputEvent,
    at: FrameTime,
    env: Environment,
    tools: Seq<LibinputTabletTool>,
    out: Seq<LibinputEvent>,
    after: TrackedDevice,
    dev_after: LibinputDevice,
    tools_after: Seq<LibinputTabletTool>,
    reported: Seq<LibinputEvent>,
    progress: Progress,
)
    requires
        t.kind.is_keyboard && !t.kind.is_pointer && !t.kind.is_absolute
            && !t.kind.is_absolute_pointer,
        dev.send_events_mode != 1 && !dev.has_tablet_pad && !is_tablet_tool(dev),
        ev.kind == 1,
        t.processed(
            dev,
            ev,
            at,
            env,
            tools,
            out,
            after,
            dev_after,
            tools_after,
            reported,
            progress,
        ),
    ensures
        ev.value == 1 <==> progress == Progress::Typed,
        ev.value == 1 || ev.value == 0 ==> reported.len() == out.len() + 1 && reported.drop_last()
            == out && tells_key(
            reported.last(),
            dev.id,
            ev.code,
            ev.value as u32,
            at.time_usec,
        ),
        ev.value != 1 && ev.value != 0 ==> reported == out,
        ev.value == 1 ==> holds(after.held_keys@, ev.code),
        ev.value == 0 ==> !holds(after.held_keys@, ev.code),
        forall|code: u16|
            code != ev.code ==> (holds(after.held_keys@, code) <==> #[trigger] holds(
                t.held_keys@,
                code,
            )),
{
    let other: u16 = if ev.code == 0 {
        1
    } else {
        0
    };
    law_keys_are_held_and_reported(t.held_keys@, ev, at.time_usec, at.now, dev.id, out, other);
    assert forall|code: u16| code != ev.code implies (holds(after.held_keys@, code) <==> #[trigger] holds(
        t.held_keys@,
        code,
    )) by {
        lemma_holds_after(t.held_keys@, ev, at.time_usec, at.now, code);
    }
}

/// Each lamp of a keyboard (0, 1 and 2 of kind 0x11) is lit exactly if its bit
/// is set, and all three are told of every time.
pub proof fn law_lamps_show_the_locks(num: bool, caps: bool, scroll: bool)
    ensures
        ({
            let leds = (if num {
                1u32
            } else {
                0u32
            }) | (if caps {
                2u32
            } else {
                0u32
            }) | (if scroll {
                4u32
            } else {
                0u32
            });
            let out = crate::backend::keyboard::lamps(leds);
            &&& out.len() == 3
            &&& forall|i: int| 0 <= i < 3 ==> (#[trigger] out[i]).kind == 0x11 && out[i].code == i
            &&& out[0].value == (if num {
                1i32
            } else {
                0i32
            })
            &&& out[1].value == (if caps {
                1i32
            } else {
                0i32
            })
            &&& out[2].value == (if scroll {
                1i32
            } else {
                0i32
            })
        }),
{
    let a = if num {
        1u32
    } else {
        0u32
    };
    let b = if caps {
        2u32
    } else {
        0u32
    };
    let c = if scroll {
        4u32
    } else {
        0u32
    };
    assert((a | b | c) & 1 == a && (a | b | c) & 2 == b && (a | b | c) & 4 == c) by (bit_vector)
        requires
            a <= 1,
            b == 0 || b == 2,
            c == 0 || c == 4,
    ;
}

} // verus!
