//! Tablet pads: what is told of buttons, dials, rings and strips.
use vstd::prelude::*;
use crate::backend::pad::{button_place, groups_after_event, PadState};
use crate::codes::InputEvent;
use crate::ffi_types::{LibinputDevice, LibinputEvent, LibinputEventType, PadReading};

verus! {

/// Whether an event is told of a pad: of its device, at its time, in the mode
/// that its first group is in.
pub open spec fn tells_pad(
    event: LibinputEvent,
    event_type: LibinputEventType,
    dev: LibinputDevice,
    time_usec: u64,
    mode: u32,
) -> bool {
    &&& event.device == dev.id
    &&& event.event_type == event_type
    &&& event.payload is TabletPad
    &&& event.payload->TabletPad_0.time_usec == time_usec
    &&& event.payload->TabletPad_0.mode == mode
    &&& dev.tablet_pad_mode_groups@.len() > 0 ==> event.payload->TabletPad_0.mode_group == Some(
        0usize,
    )
}

pub open spec fn mode_of(dev: LibinputDevice) -> u32 {
    if dev.tablet_pad_mode_groups@.len() == 0 {
        0
    } else {
        dev.tablet_pad_mode_groups@[0].current_mode
    }
}

/// A dial moves by 120 parts a click: dials (7) and the vertical wheel (8) are
/// the first dial, the horizontal wheel (6) is the second. Turning a wheel
/// forward is negative. Finer steps (11 and 12) count as they are, and take
/// the place of clicks where a pad has them. Nothing else moves.
pub proof fn law_dials_turn_by_parts(s: PadState, ev: InputEvent)
    requires
        ev.kind == 2,
    ensures
        ({
            let after = s.after_event(ev);
            &&& ev.code == 7 ==> after.first_dial == Some((ev.value * 120) as i64)
            &&& ev.code == 8 && !s.hi_res_vertical ==> after.first_dial == Some(
                (ev.value * -120) as i64,
            )
            &&& ev.code == 6 && !s.hi_res_horizontal ==> after.second_dial == Some(
                (ev.value * 120) as i64,
            )
            &&& ev.code == 11 ==> after.first_dial == Some((-ev.value) as i64)
            &&& ev.code == 12 ==> after.second_dial == Some(ev.value as i64)
            &&& ev.code != 7 && ev.code != 11 && !(ev.code == 8 && !s.hi_res_vertical)
                ==> after.first_dial == s.first_dial
            &&& ev.code != 12 && !(ev.code == 6 && !s.hi_res_horizontal) ==> after.second_dial
                == s.second_dial
            &&& after.first_ring == s.first_ring && after.second_ring == s.second_ring
            &&& after.first_strip == s.first_strip && after.second_strip == s.second_strip
        }),
{
}

/// Rings and strips are where the kernel says: 8 and 6 are the rings, 3 and 4
/// the strips. A zero after a movement in the same frame takes the movement
/// back; 0x28 says with a zero that the finger left.
pub proof fn law_rings_and_strips_are_where_they_were_sensed(s: PadState, ev: InputEvent)
    requires
        ev.kind == 3,
    ensures
        ({
            let after = s.after_event(ev);
            &&& ev.code == 8 && ev.value != 0 ==> after.first_ring.value == ev.value
                && after.first_ring.changed
            &&& ev.code == 6 && ev.value != 0 ==> after.second_ring.value == ev.value
                && after.second_ring.changed
            &&& ev.code == 3 && ev.value != 0 ==> after.first_strip.value == ev.value
                && after.first_strip.changed
            &&& ev.code == 4 && ev.value != 0 ==> after.second_strip.value == ev.value
                && after.second_strip.changed
            &&& ev.code == 8 && ev.value == 0 ==> after.first_ring.changed
                == !s.first_ring.changed && (s.first_ring.changed ==> after.first_ring.value
                == s.first_ring.value)
            &&& ev.code == 3 && ev.value == 0 ==> after.first_strip.changed
                == !s.first_strip.changed && (s.first_strip.changed ==> after.first_strip.value
                == s.first_strip.value)
            &&& ev.code == 0x28 ==> after.lifted == (ev.value == 0)
            &&& ev.code != 8 ==> after.first_ring == s.first_ring
            &&& ev.code != 6 ==> after.second_ring == s.second_ring
            &&& ev.code != 3 ==> after.first_strip == s.first_strip
            &&& ev.code != 4 ==> after.second_strip == s.second_strip
            &&& after.first_dial == s.first_dial && after.second_dial == s.second_dial
            &&& after.first_ring.range == s.first_ring.range && after.second_ring.range
                == s.second_ring.range
        }),
{
}

/// How many events a frame of a pad has.
pub open spec fn moved(s: PadState) -> int {
    (if s.first_dial is Some {
        1int
    } else {
        0
    }) + (if s.second_dial is Some {
        1int
    } else {
        0
    }) + (if s.first_ring.changed {
        1int
    } else {
        0
    }) + (if s.second_ring.changed {
        1int
    } else {
        0
    }) + (if s.first_strip.changed {
        1int
    } else {
        0
    }) + (if s.second_strip.changed {
        1int
    } else {
        0
    })
}

pub open spec fn reads(reading: PadReading, value: i32, range: Option<(i32, i32)>, lifted: bool, hand: bool) -> bool {
    &&& reading.value == value
    &&& reading.range == range
    &&& reading.lifted == lifted
    &&& reading.left_handed == hand
}

/// A frame tells of everything on a pad that moved, once, and of nothing else:
/// dials by how far they turned, rings and strips by where they are, each under
/// its number; where only one of them moved it is the only event. Afterwards
/// nothing counts as moved.
pub proof fn law_pads_tell_what_moved(
    s: PadState,
    dev: LibinputDevice,
    time_usec: u64,
    out: Seq<LibinputEvent>,
)
    ensures
        ({
            let ev = InputEvent { kind: 0, code: 0, value: 0 };
            let reported = s.events_after(ev, dev, time_usec, out);
            let after = s.after_event(ev);
            let e = reported.last();
            let p = e.payload->TabletPad_0;
            let m = mode_of(dev);
            &&& reported.len() == out.len() + moved(s)
            &&& forall|i: int| 0 <= i < out.len() ==> #[trigger] reported[i] == out[i]
            &&& moved(after) == 0 && !after.lifted
            &&& after.first_ring.value == s.first_ring.value && after.second_ring.value
                == s.second_ring.value && after.first_strip.value == s.first_strip.value
                && after.second_strip.value == s.second_strip.value
            &&& moved(s) == 1 && s.first_dial is Some ==> tells_pad(
                e,
                LibinputEventType::LIBINPUT_EVENT_TABLET_PAD_DIAL,
                dev,
                time_usec,
                m,
            ) && p.dial_number == 0 && p.dial_delta_v120 == s.first_dial->0
            &&& moved(s) == 1 && s.second_dial is Some ==> tells_pad(
                e,
                LibinputEventType::LIBINPUT_EVENT_TABLET_PAD_DIAL,
                dev,
                time_usec,
                m,
            ) && p.dial_number == 1 && p.dial_delta_v120 == s.second_dial->0
            &&& moved(s) == 1 && s.first_ring.changed ==> tells_pad(
                e,
                LibinputEventType::LIBINPUT_EVENT_TABLET_PAD_RING,
                dev,
                time_usec,
                m,
            ) && p.ring_number == 0 && p.ring is Some && p.ring_source == 2 && reads(
                p.ring->0,
                s.first_ring.value,
                s.first_ring.range,
                s.lifted,
                dev.left_handed,
            )
            &&& moved(s) == 1 && s.second_ring.changed ==> tells_pad(
                e,
                LibinputEventType::LIBINPUT_EVENT_TABLET_PAD_RING,
                dev,
                time_usec,
                m,
            ) && p.ring_number == 1 && p.ring is Some && p.ring_source == 2 && reads(
                p.ring->0,
                s.second_ring.value,
                s.second_ring.range,
                s.lifted,
                dev.left_handed,
            )
            &&& moved(s) == 1 && s.first_strip.changed ==> tells_pad(
                e,
                LibinputEventType::LIBINPUT_EVENT_TABLET_PAD_STRIP,
                dev,
                time_usec,
                m,
            ) && p.strip_number == 0 && p.strip is Some && p.strip_source == 2 && reads(
                p.strip->0,
                s.first_strip.value,
                s.first_strip.range,
                s.lifted,
                dev.left_handed,
            )
            &&& moved(s) == 1 && s.second_strip.changed ==> tells_pad(
                e,
                LibinputEventType::LIBINPUT_EVENT_TABLET_PAD_STRIP,
                dev,
                time_usec,
                m,
            ) && p.strip_number == 1 && p.strip is Some && p.strip_source == 2 && reads(
                p.strip->0,
                s.second_strip.value,
                s.second_strip.range,
                s.lifted,
                dev.left_handed,
            )
        }),
{
    reveal(PadState::events_after);
}

/// The parts of a frame are told one after the other: dials, rings, strips;
/// each as if it had moved alone.
pub proof fn law_pads_tell_their_parts_in_turn(
    s: PadState,
    dev: LibinputDevice,
    time_usec: u64,
    out: Seq<LibinputEvent>,
)
    ensures
        ({
            let still = s.settled();
            let dials = PadState {
                first_dial: s.first_dial,
                second_dial: s.second_dial,
                ..still
            };
            let rings = PadState {
                first_ring: s.first_ring,
                second_ring: s.second_ring,
                lifted: s.lifted,
                ..still
            };
            let strips = PadState {
                first_strip: s.first_strip,
                second_strip: s.second_strip,
                lifted: s.lifted,
                ..still
            };
            s.frame_events(dev, time_usec, out) == strips.frame_events(
                dev,
                time_usec,
                rings.frame_events(dev, time_usec, dials.frame_events(dev, time_usec, out)),
            )
        }),
{
}

proof fn lemma_place(codes: Seq<u16>, k: int, from: int)
    requires
        0 <= from <= k < codes.len(),
        codes.no_duplicates(),
    ensures
        button_place(codes, codes[k], from) == Some(k),
    decreases k - from,
{
    if from < k {
        lemma_place(codes, k, from + 1);
    }
}

/// A button of a pad is told of by its place in the list of the pad's buttons,
/// as pressed or released as it was; the kernel's repeats are not told of, and
/// neither is the button of a stylus.
pub proof fn law_pad_buttons_are_numbered(
    s: PadState,
    dev: LibinputDevice,
    k: int,
    value: i32,
    time_usec: u64,
    out: Seq<LibinputEvent>,
)
    requires
        0 <= k < dev.tablet_pad_button_codes@.len() <= u32::MAX,
        dev.tablet_pad_button_codes@.no_duplicates(),
        dev.vendor_id != 0x056a,
        dev.tablet_pad_button_codes@[k] != 0x14b,
    ensures
        ({
            let code = dev.tablet_pad_button_codes@[k];
            let ev = InputEvent { kind: 1, code, value };
            let reported = s.events_after(ev, dev, time_usec, out);
            &&& value == 2 ==> reported == out
            &&& value != 2 ==> {
                &&& reported.len() == out.len() + 1
                &&& reported.drop_last() == out
                &&& tells_pad(
                    reported.last(),
                    LibinputEventType::LIBINPUT_EVENT_TABLET_PAD_BUTTON,
                    dev,
                    time_usec,
                    mode_of(dev),
                )
                &&& reported.last().payload->TabletPad_0.button == k
                &&& reported.last().payload->TabletPad_0.button_state == (if value != 0 {
                    1u32
                } else {
                    0u32
                })
            }
            &&& groups_after_event(dev, ev) == dev.tablet_pad_mode_groups@
            &&& s.after_event(ev) == s
        }),
{
    reveal(PadState::events_after);
    let code = dev.tablet_pad_button_codes@[k];
    lemma_place(dev.tablet_pad_button_codes@, k, 0);
    let ev = InputEvent { kind: 1, code, value };
    let reported = s.events_after(ev, dev, time_usec, out);
    if value != 2 {
        assert(reported.drop_last() =~= out);
    }
}

/// Some keys of a pad are keys, and are told of by their code.
pub proof fn law_pad_keys_keep_their_codes(
    s: PadState,
    dev: LibinputDevice,
    code: u16,
    value: i32,
    time_usec: u64,
    out: Seq<LibinputEvent>,
)
    requires
        dev.vendor_id == 0x056a,
        code == 0x240 || code == 0x243 || code == 0x278,
        value != 2,
    ensures
        ({
            let reported = s.events_after(
                InputEvent { kind: 1, code, value },
                dev,
                time_usec,
                out,
            );
            &&& reported.len() == out.len() + 1
            &&& reported.drop_last() == out
            &&& tells_pad(
                reported.last(),
                LibinputEventType::LIBINPUT_EVENT_TABLET_PAD_KEY,
                dev,
                time_usec,
                mode_of(dev),
            )
            &&& reported.last().payload->TabletPad_0.key == code
            &&& reported.last().payload->TabletPad_0.key_state == (if value != 0 {
                1u32
            } else {
                0u32
            })
        }),
{
    reveal(PadState::events_after);
    let reported = s.events_after(InputEvent { kind: 1, code, value }, dev, time_usec, out);
    assert(reported.drop_last() =~= out);
}

/// The mode buttons of the pad that has them choose the mode by their order,
/// when they go down; the event already has the new mode.
pub proof fn law_mode_buttons_choose_the_mode(
    s: PadState,
    dev: LibinputDevice,
    mode: u32,
    value: i32,
    time_usec: u64,
    out: Seq<LibinputEvent>,
)
    requires
        dev.vendor_id == 0x056a && dev.product_id == 0x034e,
        dev.tablet_pad_mode_groups@.len() > 0,
        dev.tablet_pad_button_codes@ == seq![0x109u16, 0x130u16, 0x131u16, 0x132u16],
        mode < 4,
        value == 0 || value == 1,
    ensures
        ({
            let code = dev.tablet_pad_button_codes@[mode as int];
            let ev = InputEvent { kind: 1, code, value };
            let groups = groups_after_event(dev, ev);
            let reported = s.events_after(ev, dev, time_usec, out);
            let e = reported.last().payload->TabletPad_0;
            &&& groups.len() == dev.tablet_pad_mode_groups@.len()
            &&& groups[0].current_mode == (if value == 1 {
                mode
            } else {
                dev.tablet_pad_mode_groups@[0].current_mode
            })
            &&& reported.len() == out.len() + 1
            &&& e.button == mode && e.mode == groups[0].current_mode
            &&& e.button_state == value
        }),
{
    reveal(PadState::events_after);
    let codes = dev.tablet_pad_button_codes@;
    assert(codes.no_duplicates());
    lemma_place(codes, mode as int, 0);
}

} // verus!
