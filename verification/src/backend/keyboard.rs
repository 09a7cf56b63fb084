//! Keyboards: presses, releases and key repeat.
use vstd::prelude::*;
use crate::clock::{elapsed, elapsed_spec, MILLISECOND};
use crate::codes::{InputEvent, EV_KEY, EV_LED};
use crate::ffi_types::{
    DeviceId, EventPayload, KeyboardKeyEvent, LibinputEvent, LibinputEventType,
};

verus! {

/// How long a key is held before it repeats.
pub const REPEAT_DELAY: u64 = 200 * MILLISECOND;

/// The time between two repeats.
pub const REPEAT_INTERVAL: u64 = 25 * MILLISECOND;

pub const KEY_STATE_RELEASED: u32 = 0;
pub const KEY_STATE_PRESSED: u32 = 1;
pub const KEY_STATE_REPEAT: u32 = 2;

/// A key that is down: when it was pressed, and when it last repeated.
#[derive(Clone, Copy, Debug, PartialEq, Eq, Structural)]
pub struct HeldKey {
    pub code: u16,
    pub time_usec: u64,
    pub last_fire: u64,
    pub initial_fired: bool,
}

pub open spec fn key_report(time_usec: u64, code: u16, state: u32, device: DeviceId) -> LibinputEvent {
    LibinputEvent {
        event_type: LibinputEventType::LIBINPUT_EVENT_KEYBOARD_KEY,
        payload: EventPayload::KeyboardKey(
            KeyboardKeyEvent { time_usec, key: code as u32, state, seat_key_count: 0 },
        ),
        device,
    }
}

fn key_event(time_usec: u64, code: u16, state: u32, device: DeviceId) -> (e: LibinputEvent)
    ensures
        e == key_report(time_usec, code, state, device),
{
    LibinputEvent {
        event_type: LibinputEventType::LIBINPUT_EVENT_KEYBOARD_KEY,
        payload: EventPayload::KeyboardKey(
            KeyboardKeyEvent { time_usec, key: code as u32, state, seat_key_count: 0 },
        ),
        device,
    }
}

/// The keys that remain after a release.
pub open spec fn without_key(keys: Seq<HeldKey>, code: u16) -> Seq<HeldKey>
    decreases keys.len(),
{
    if keys.len() == 0 {
        keys
    } else if keys.last().code == code {
        without_key(keys.drop_last(), code)
    } else {
        without_key(keys.drop_last(), code).push(keys.last())
    }
}

/// The held keys after a key event.
pub open spec fn keys_after(
    keys: Seq<HeldKey>,
    code: u16,
    value: i32,
    time_usec: u64,
    now: u64,
) -> Seq<HeldKey> {
    if value == 1 {
        keys.push(HeldKey { code, time_usec, last_fire: now, initial_fired: false })
    } else if value == 0 {
        without_key(keys, code)
    } else {
        keys
    }
}

/// Whether a held key is due to repeat.
pub open spec fn repeats(key: HeldKey, now: u64) -> bool {
    elapsed_spec(now, key.last_fire) >= if key.initial_fired {
        REPEAT_INTERVAL
    } else {
        REPEAT_DELAY
    }
}

pub open spec fn repeated(key: HeldKey, now: u64) -> HeldKey {
    if repeats(key, now) {
        HeldKey { last_fire: now, initial_fired: true, ..key }
    } else {
        key
    }
}

/// The repeats that are due, in the order in which the keys went down.
pub open spec fn repeat_events(
    keys: Seq<HeldKey>,
    now: u64,
    device: DeviceId,
    out: Seq<LibinputEvent>,
) -> Seq<LibinputEvent>
    decreases keys.len(),
{
    if keys.len() == 0 {
        out
    } else {
        let before = repeat_events(keys.drop_last(), now, device, out);
        if repeats(keys.last(), now) {
            before.push(
                key_report(keys.last().time_usec, keys.last().code, KEY_STATE_REPEAT, device),
            )
        } else {
            before
        }
    }
}

/// The releases of all held keys.
pub open spec fn key_releases(
    keys: Seq<HeldKey>,
    time_usec: u64,
    device: DeviceId,
    out: Seq<LibinputEvent>,
) -> Seq<LibinputEvent>
    decreases keys.len(),
{
    if keys.len() == 0 {
        out
    } else {
        key_releases(keys.drop_last(), time_usec, device, out).push(
            key_report(time_usec, keys.last().code, KEY_STATE_RELEASED, device),
        )
    }
}

fn remove_key(keys: &mut Vec<HeldKey>, code: u16)
    ensures
        final(keys)@ == without_key(old(keys)@, code),
{
    let mut kept: Vec<HeldKey> = Vec::new();
    let mut i: usize = 0;
    assert(keys@.take(0) =~= Seq::<HeldKey>::empty());
    while i < keys.len()
        invariant
            i <= keys.len(),
            keys@ == old(keys)@,
            kept@ == without_key(keys@.take(i as int), code),
        decreases keys.len() - i,
    {
        proof {
            assert(keys@.take(i + 1).drop_last() =~= keys@.take(i as int));
        }
        if keys[i].code != code {
            kept.push(keys[i]);
        }
        i += 1;
    }
    assert(keys@.take(i as int) =~= keys@);
    *keys = kept;
}

/// The held keys after one kernel event.
pub open spec fn keys_after_event(
    keys: Seq<HeldKey>,
    ev: InputEvent,
    time_usec: u64,
    now: u64,
) -> Seq<HeldKey> {
    if ev.kind == EV_KEY {
        keys_after(keys, ev.code, ev.value, time_usec, now)
    } else {
        keys
    }
}

/// The events that one kernel event causes: repeats of the kernel cause none.
pub open spec fn key_events_after(
    ev: InputEvent,
    time_usec: u64,
    device: DeviceId,
    out: Seq<LibinputEvent>,
) -> Seq<LibinputEvent> {
    if ev.kind == EV_KEY && ev.value == 1 {
        out.push(key_report(time_usec, ev.code, KEY_STATE_PRESSED, device))
    } else if ev.kind == EV_KEY && ev.value == 0 {
        out.push(key_report(time_usec, ev.code, KEY_STATE_RELEASED, device))
    } else {
        out
    }
}

/// Takes in one kernel event of a keyboard. Repeats of the kernel are
/// dropped: the library has its own. Tells whether a key was pressed.
pub fn process_keyboard_event(
    held: &mut Vec<HeldKey>,
    ev: &InputEvent,
    time_usec: u64,
    now: u64,
    device: DeviceId,
    out: &mut Vec<LibinputEvent>,
) -> (typed: bool)
    ensures
        typed == (ev.kind == EV_KEY && ev.value == 1),
        final(held)@ == keys_after_event(old(held)@, *ev, time_usec, now),
        final(out)@ == key_events_after(*ev, time_usec, device, old(out)@),
{
    if ev.kind != EV_KEY {
        return false;
    }
    if ev.value == 1 {
        held.push(HeldKey { code: ev.code, time_usec, last_fire: now, initial_fired: false });
        out.push(key_event(time_usec, ev.code, KEY_STATE_PRESSED, device));
        true
    } else {
        if ev.value == 0 {
            remove_key(held, ev.code);
            out.push(key_event(time_usec, ev.code, KEY_STATE_RELEASED, device));
        }
        false
    }
}

/// Reports the repeats that are due.
pub fn emit_key_repeats(
    held: &mut Vec<HeldKey>,
    now: u64,
    device: DeviceId,
    out: &mut Vec<LibinputEvent>,
)
    ensures
        final(held).len() == old(held).len(),
        forall|i: int|
            0 <= i < old(held).len() ==> #[trigger] final(held)@[i] == repeated(old(held)@[i], now),
        final(out)@ == repeat_events(old(held)@, now, device, old(out)@),
{
    let ghost before = held@;
    let ghost reported = out@;
    let mut i: usize = 0;
    assert(before.take(0) =~= Seq::<HeldKey>::empty());
    while i < held.len()
        invariant
            i <= held.len(),
            held.len() == before.len(),
            forall|j: int| 0 <= j < i ==> #[trigger] held@[j] == repeated(before[j], now),
            forall|j: int| i <= j < held.len() ==> #[trigger] held@[j] == before[j],
            out@ == repeat_events(before.take(i as int), now, device, reported),
        decreases held.len() - i,
    {
        let key = held[i];
        let due: u64 = if key.initial_fired {
            REPEAT_INTERVAL
        } else {
            REPEAT_DELAY
        };
        proof {
            assert(before.take(i + 1).drop_last() =~= before.take(i as int));
        }
        if elapsed(now, key.last_fire) >= due {
            out.push(key_event(key.time_usec, key.code, KEY_STATE_REPEAT, device));
            held.set(i, HeldKey { last_fire: now, initial_fired: true, ..key });
        }
        i += 1;
    }
    assert(before.take(i as int) =~= before);
}

/// Releases every held key.
pub fn release_keys(
    held: &mut Vec<HeldKey>,
    time_usec: u64,
    device: DeviceId,
    out: &mut Vec<LibinputEvent>,
)
    ensures
        final(held)@.len() == 0,
        final(out)@ == key_releases(old(held)@, time_usec, device, old(out)@),
{
    let ghost reported = out@;
    let mut i: usize = 0;
    assert(held@.take(0) =~= Seq::<HeldKey>::empty());
    while i < held.len()
        invariant
            i <= held.len(),
            held@ == old(held)@,
            out@ == key_releases(held@.take(i as int), time_usec, device, reported),
        decreases held.len() - i,
    {
        proof {
            assert(held@.take(i + 1).drop_last() =~= held@.take(i as int));
        }
        out.push(key_event(time_usec, held[i].code, KEY_STATE_RELEASED, device));
        i += 1;
    }
    assert(held@.take(i as int) =~= held@);
    *held = Vec::new();
}

/// A released key is not held any more, and no other key is affected.
pub proof fn law_release_is_local(keys: Seq<HeldKey>, code: u16, key: HeldKey)
    ensures
        without_key(keys, code).contains(key) <==> keys.contains(key) && key.code != code,
    decreases keys.len(),
{
    if keys.len() > 0 {
        law_release_is_local(keys.drop_last(), code, key);
        let rest = without_key(keys.drop_last(), code);
        let all = without_key(keys, code);
        assert(keys =~= keys.drop_last().push(keys.last()));
        if rest.contains(key) && keys.last().code != code {
            let i = choose|i: int| 0 <= i < rest.len() && rest[i] == key;
            assert(all[i] == key);
        }
        if key == keys.last() && key.code != code {
            assert(all[rest.len() as int] == key);
        }
        if keys.drop_last().contains(key) {
            let i = choose|i: int| 0 <= i < keys.len() - 1 && keys[i] == key;
            assert(keys[i] == key);
        }
    }
}

/// A key that has just repeated is silent until a whole interval has passed.
pub proof fn law_repeats_keep_their_distance(key: HeldKey, now: u64, later: u64)
    requires
        repeats(key, now),
        now <= later,
    ensures
        repeats(repeated(key, now), later) <==> later - now >= REPEAT_INTERVAL,
{
}

/// What a keyboard is sent to switch a lamp.
pub open spec fn led_event(code: u16, lit: bool) -> InputEvent {
    InputEvent {
        kind: EV_LED,
        code,
        value: if lit {
            1
        } else {
            0
        },
    }
}

fn light(code: u16, lit: bool) -> (ev: InputEvent)
    ensures
        ev == led_event(code, lit),
{
    InputEvent {
        kind: EV_LED,
        code,
        value: if lit {
            1
        } else {
            0
        },
    }
}

/// What a keyboard is sent to show its locks.
pub open spec fn lamps(leds: u32) -> Seq<InputEvent> {
    seq![
        led_event(0, leds & 1 != 0),
        led_event(1, leds & 2 != 0),
        led_event(2, leds & 4 != 0),
    ]
}

/// What a keyboard is sent to show its locks: the lowest bit is num lock, the
/// next is caps lock, and the third is scroll lock, which is also the order of
/// the kernel's lamps.
pub fn led_events(leds: u32) -> (out: Vec<InputEvent>)
    ensures
        out@ == lamps(leds),
{
    let mut out: Vec<InputEvent> = Vec::new();
    out.push(light(0, leds & 1 != 0));
    out.push(light(1, leds & 2 != 0));
    out.push(light(2, leds & 4 != 0));
    assert(out@ =~= seq![
        led_event(0, leds & 1 != 0),
        led_event(1, leds & 2 != 0),
        led_event(2, leds & 4 != 0),
    ]);
    out
}

/// Every held key is released by `release_keys`.
pub proof fn law_every_held_key_is_released(
    keys: Seq<HeldKey>,
    time_usec: u64,
    device: DeviceId,
    out: Seq<LibinputEvent>,
    k: int,
)
    requires
        0 <= k < keys.len(),
    ensures
        key_releases(keys, time_usec, device, out).len() == out.len() + keys.len(),
        key_releases(keys, time_usec, device, out)[out.len() + k] == key_report(
            time_usec,
            keys[k].code,
            KEY_STATE_RELEASED,
            device,
        ),
    decreases keys.len(),
{
    if keys.len() == 1 {
        assert(key_releases(keys.drop_last(), time_usec, device, out) == out);
    } else if k == keys.len() - 1 {
        law_every_held_key_is_released(keys.drop_last(), time_usec, device, out, k - 1);
    } else {
        law_every_held_key_is_released(keys.drop_last(), time_usec, device, out, k);
    }
}

} // verus!
