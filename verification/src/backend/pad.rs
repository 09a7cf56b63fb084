//! Tablet pads: buttons, keys, dials, rings and strips.
use vstd::prelude::*;
use crate::codes::{
    InputEvent, ABS_MISC, ABS_RX, ABS_RY, ABS_THROTTLE, ABS_WHEEL, BTN_STYLUS, EV_ABS, EV_KEY,
    EV_REL, EV_SYN, REL_DIAL, REL_HWHEEL, REL_HWHEEL_HI_RES, REL_WHEEL, REL_WHEEL_HI_RES,
    SYN_REPORT,
};
use crate::ffi_types::{
    DeviceId, EventPayload, LibinputDevice, LibinputEvent, LibinputEventType,
    LibinputTabletPadModeGroup, PadReading, TabletPadEvent,
};

verus! {

pub const WACOM: u32 = 0x056a;

/// The pad whose buttons select the mode directly.
pub const MODE_BUTTON_PAD: u32 = 0x034e;

/// Ring and strip positions come from a finger.
pub const PAD_SOURCE_FINGER: u32 = 2;

/// One ring or strip: its last value, its range, and whether it moved in
/// this frame.
#[derive(Clone, Copy, Debug, PartialEq, Eq)]
pub struct PadAxis {
    pub value: i32,
    pub range: Option<(i32, i32)>,
    pub changed: bool,
}

/// `lifted` says that the frame ends a touch on a ring or strip.
#[derive(Clone, Copy, Debug, PartialEq, Eq)]
pub struct PadState {
    pub first_dial: Option<i64>,
    pub second_dial: Option<i64>,
    pub first_ring: PadAxis,
    pub second_ring: PadAxis,
    pub first_strip: PadAxis,
    pub second_strip: PadAxis,
    pub lifted: bool,
    pub hi_res_vertical: bool,
    pub hi_res_horizontal: bool,
}

impl PadAxis {
    /// A zero after a movement in the same frame takes the movement back.
    pub open spec fn moved(self, value: i32) -> PadAxis {
        if self.changed && value == 0 {
            PadAxis { changed: false, ..self }
        } else {
            PadAxis { value, changed: true, ..self }
        }
    }

    fn set(self, value: i32) -> (a: PadAxis)
        ensures
            a == self.moved(value),
    {
        if self.changed && value == 0 {
            PadAxis { changed: false, ..self }
        } else {
            PadAxis { value, changed: true, ..self }
        }
    }

    pub open spec fn settled(self) -> PadAxis {
        PadAxis { changed: false, ..self }
    }

    fn settle(self) -> (a: PadAxis)
        ensures
            a == self.settled(),
    {
        PadAxis { changed: false, ..self }
    }

    pub open spec fn reading(self, lifted: bool, left_handed: bool) -> PadReading {
        PadReading { value: self.value, range: self.range, lifted, left_handed }
    }
}

// ---------------------------------------------------------------------------
// Events
// ---------------------------------------------------------------------------
/// An event that says nothing but the pad's mode.
pub open spec fn pad_event(
    groups: Seq<LibinputTabletPadModeGroup>,
    time_usec: u64,
) -> TabletPadEvent {
    TabletPadEvent {
        time_usec,
        button: 0,
        button_state: 0,
        key: 0,
        key_state: 0,
        dial_delta_v120: 0,
        dial_number: 0,
        mode: if groups.len() == 0 {
            0
        } else {
            groups[0].current_mode
        },
        mode_group: if groups.len() == 0 {
            None
        } else {
            Some(0)
        },
        ring_number: 0,
        ring: None,
        ring_source: 0,
        strip_number: 0,
        strip: None,
        strip_source: 0,
    }
}

fn blank_pad_event(groups: &Vec<LibinputTabletPadModeGroup>, time_usec: u64) -> (e: TabletPadEvent)
    ensures
        e == pad_event(groups@, time_usec),
{
    let (mode, mode_group): (u32, Option<usize>) = if groups.len() == 0 {
        (0, None)
    } else {
        (groups[0].current_mode, Some(0))
    };
    TabletPadEvent {
        time_usec,
        button: 0,
        button_state: 0,
        key: 0,
        key_state: 0,
        dial_delta_v120: 0,
        dial_number: 0,
        mode,
        mode_group,
        ring_number: 0,
        ring: None,
        ring_source: 0,
        strip_number: 0,
        strip: None,
        strip_source: 0,
    }
}

pub open spec fn pad_report(
    event_type: LibinputEventType,
    event: TabletPadEvent,
    device: DeviceId,
) -> LibinputEvent {
    LibinputEvent { event_type, payload: EventPayload::TabletPad(event), device }
}

/// The place of a button in the pad's list, from `from` on.
pub open spec fn button_place(codes: Seq<u16>, code: u16, from: int) -> Option<int>
    decreases codes.len() - from,
{
    if from >= codes.len() {
        None
    } else if codes[from] == code {
        Some(from)
    } else {
        button_place(codes, code, from + 1)
    }
}

fn find_button(codes: &Vec<u16>, code: u16) -> (place: Option<usize>)
    ensures
        match place {
            Some(i) => button_place(codes@, code, 0) == Some(i as int),
            None => button_place(codes@, code, 0) is None,
        },
{
    let mut i: usize = 0;
    while i < codes.len()
        invariant
            i <= codes.len(),
            button_place(codes@, code, 0) == button_place(codes@, code, i as int),
        decreases codes.len() - i,
    {
        if codes[i] == code {
            return Some(i);
        }
        i += 1;
    }
    None
}

// ---------------------------------------------------------------------------
// Keys
// ---------------------------------------------------------------------------
/// Keys that are reported as keys rather than as pad buttons.
pub open spec fn is_pad_key(vendor_id: u32, code: u16) -> bool {
    vendor_id == WACOM && (code == 0x240 || code == 0x243 || code == 0x278)
}

/// The mode that a button selects.
pub open spec fn selected_mode(vendor_id: u32, product_id: u32, code: u16) -> Option<u32> {
    if vendor_id != WACOM || product_id != MODE_BUTTON_PAD {
        None
    } else if code == 0x109 {
        Some(0)
    } else if code == 0x130 {
        Some(1)
    } else if code == 0x131 {
        Some(2)
    } else if code == 0x132 {
        Some(3)
    } else {
        None
    }
}

fn mode_for_button(vendor_id: u32, product_id: u32, code: u16) -> (mode: Option<u32>)
    ensures
        mode == selected_mode(vendor_id, product_id, code),
{
    if vendor_id != WACOM || product_id != MODE_BUTTON_PAD {
        None
    } else if code == 0x109 {
        Some(0)
    } else if code == 0x130 {
        Some(1)
    } else if code == 0x131 {
        Some(2)
    } else if code == 0x132 {
        Some(3)
    } else {
        None
    }
}

/// The mode groups after a button: pressing a mode button switches the first
/// group.
pub open spec fn groups_after(
    groups: Seq<LibinputTabletPadModeGroup>,
    mode: Option<u32>,
) -> Seq<LibinputTabletPadModeGroup> {
    if groups.len() > 0 && mode is Some {
        groups.update(0, LibinputTabletPadModeGroup { current_mode: mode->0, ..groups[0] })
    } else {
        groups
    }
}

fn switch_mode(groups: &mut Vec<LibinputTabletPadModeGroup>, mode: Option<u32>)
    ensures
        final(groups)@ == groups_after(old(groups)@, mode),
{
    if let Some(mode) = mode {
        if groups.len() > 0 {
            let group = groups[0];
            groups.set(0, LibinputTabletPadModeGroup { current_mode: mode, ..group });
        }
    }
}

/// Whether a key of the pad is reported as a button, and as which one.
pub open spec fn reported_button(dev: LibinputDevice, code: u16) -> Option<int> {
    if code == BTN_STYLUS || is_pad_key(dev.vendor_id, code) {
        None
    } else {
        button_place(dev.tablet_pad_button_codes@, code, 0)
    }
}

/// The mode groups after a key.
pub open spec fn groups_keyed(
    dev: LibinputDevice,
    code: u16,
    value: i32,
) -> Seq<LibinputTabletPadModeGroup> {
    groups_after(
        dev.tablet_pad_mode_groups@,
        if reported_button(dev, code) is Some && value != 0 && value != 2 {
            selected_mode(dev.vendor_id, dev.product_id, code)
        } else {
            None
        },
    )
}

/// The mode groups after one kernel event.
pub open spec fn groups_after_event(
    dev: LibinputDevice,
    ev: InputEvent,
) -> Seq<LibinputTabletPadModeGroup> {
    if ev.kind == EV_KEY {
        groups_keyed(dev, ev.code, ev.value)
    } else {
        dev.tablet_pad_mode_groups@
    }
}

/// The events of a key. Key repeat is not reported.
pub open spec fn key_events(
    dev: LibinputDevice,
    code: u16,
    value: i32,
    time_usec: u64,
    out: Seq<LibinputEvent>,
) -> Seq<LibinputEvent> {
    let state: u32 = if value != 0 {
        1
    } else {
        0
    };
    let event = pad_event(groups_keyed(dev, code, value), time_usec);
    if value == 2 {
        out
    } else if code != BTN_STYLUS && is_pad_key(dev.vendor_id, code) {
        out.push(
            pad_report(
                LibinputEventType::LIBINPUT_EVENT_TABLET_PAD_KEY,
                TabletPadEvent { key: code as u32, key_state: state, ..event },
                dev.id,
            ),
        )
    } else {
        match reported_button(dev, code) {
            Some(button) => out.push(
                pad_report(
                    LibinputEventType::LIBINPUT_EVENT_TABLET_PAD_BUTTON,
                    TabletPadEvent { button: button as u32, button_state: state, ..event },
                    dev.id,
                ),
            ),
            None => out,
        }
    }
}

fn switch_device_mode(dev: &mut LibinputDevice, mode: Option<u32>)
    ensures
        final(dev).tablet_pad_mode_groups@ == groups_after(old(dev).tablet_pad_mode_groups@, mode),
        *final(dev) == (LibinputDevice {
            tablet_pad_mode_groups: final(dev).tablet_pad_mode_groups,
            ..*old(dev)
        }),
{
    switch_mode(&mut dev.tablet_pad_mode_groups, mode);
}

fn push_pad_event(
    event_type: LibinputEventType,
    event: TabletPadEvent,
    device: DeviceId,
    out: &mut Vec<LibinputEvent>,
)
    ensures
        final(out)@ == old(out)@.push(pad_report(event_type, event, device)),
{
    out.push(LibinputEvent { event_type, payload: EventPayload::TabletPad(event), device });
}

/// Which button a key is, and the mode that it selects.
fn judge_key(dev: &LibinputDevice, code: u16, value: i32) -> (r: (Option<usize>, Option<u32>))
    ensures
        match r.0 {
            Some(i) => reported_button(*dev, code) == Some(i as int),
            None => reported_button(*dev, code) is None,
        },
        groups_keyed(*dev, code, value) == groups_after(dev.tablet_pad_mode_groups@, r.1),
{
    if code == BTN_STYLUS || (dev.vendor_id == WACOM && (code == 0x240 || code == 0x243 || code
        == 0x278)) {
        return (None, None);
    }
    let button = find_button(&dev.tablet_pad_button_codes, code);
    let mode = if button.is_some() && value != 0 && value != 2 {
        mode_for_button(dev.vendor_id, dev.product_id, code)
    } else {
        None
    };
    (button, mode)
}

fn pad_key(
    dev: &mut LibinputDevice,
    code: u16,
    value: i32,
    time_usec: u64,
    out: &mut Vec<LibinputEvent>,
)
    ensures
        final(dev).tablet_pad_mode_groups@ == groups_keyed(*old(dev), code, value),
        *final(dev) == (LibinputDevice {
            tablet_pad_mode_groups: final(dev).tablet_pad_mode_groups,
            ..*old(dev)
        }),
        final(out)@ == key_events(*old(dev), code, value, time_usec, old(out)@),
{
    let id: DeviceId = dev.id;
    let vendor_id: u32 = dev.vendor_id;
    let state: u32 = if value != 0 {
        1
    } else {
        0
    };
    let (button, mode) = judge_key(dev, code, value);
    switch_device_mode(dev, mode);
    if value == 2 {
        return;
    }
    let event = blank_pad_event(&dev.tablet_pad_mode_groups, time_usec);
    if code != BTN_STYLUS && vendor_id == WACOM && (code == 0x240 || code == 0x243 || code
        == 0x278) {
        push_pad_event(
            LibinputEventType::LIBINPUT_EVENT_TABLET_PAD_KEY,
            TabletPadEvent { key: code as u32, key_state: state, ..event },
            id,
            out,
        );
    } else if let Some(button) = button {
        push_pad_event(
            LibinputEventType::LIBINPUT_EVENT_TABLET_PAD_BUTTON,
            TabletPadEvent { button: button as u32, button_state: state, ..event },
            id,
            out,
        );
    }
}

// ---------------------------------------------------------------------------
// Dials, rings and strips
// ---------------------------------------------------------------------------
impl PadState {
    /// The state after a dial or wheel turned. Where the kernel reports a
    /// high-resolution wheel, the plain one is ignored.
    pub open spec fn turned(self, code: u16, value: i32) -> PadState {
        if code == REL_DIAL {
            PadState { first_dial: Some((value * 120) as i64), ..self }
        } else if code == REL_WHEEL && !self.hi_res_vertical {
            PadState { first_dial: Some((-value * 120) as i64), ..self }
        } else if code == REL_HWHEEL && !self.hi_res_horizontal {
            PadState { second_dial: Some((value * 120) as i64), ..self }
        } else if code == REL_WHEEL_HI_RES {
            PadState { first_dial: Some((-value) as i64), ..self }
        } else if code == REL_HWHEEL_HI_RES {
            PadState { second_dial: Some(value as i64), ..self }
        } else {
            self
        }
    }

    fn turn(self, code: u16, value: i32) -> (s: PadState)
        ensures
            s == self.turned(code, value),
    {
        let wide: i64 = value as i64;
        if code == REL_DIAL {
            PadState { first_dial: Some(wide * 120), ..self }
        } else if code == REL_WHEEL && !self.hi_res_vertical {
            PadState { first_dial: Some(-wide * 120), ..self }
        } else if code == REL_HWHEEL && !self.hi_res_horizontal {
            PadState { second_dial: Some(wide * 120), ..self }
        } else if code == REL_WHEEL_HI_RES {
            PadState { first_dial: Some(-wide), ..self }
        } else if code == REL_HWHEEL_HI_RES {
            PadState { second_dial: Some(wide), ..self }
        } else {
            self
        }
    }

    /// The state after a ring or strip moved.
    pub open spec fn slid(self, code: u16, value: i32) -> PadState {
        if code == ABS_MISC {
            PadState { lifted: value == 0, ..self }
        } else if code == ABS_WHEEL {
            PadState { first_ring: self.first_ring.moved(value), ..self }
        } else if code == ABS_THROTTLE {
            PadState { second_ring: self.second_ring.moved(value), ..self }
        } else if code == ABS_RX {
            PadState { first_strip: self.first_strip.moved(value), ..self }
        } else if code == ABS_RY {
            PadState { second_strip: self.second_strip.moved(value), ..self }
        } else {
            self
        }
    }

    fn slide(self, code: u16, value: i32) -> (s: PadState)
        ensures
            s == self.slid(code, value),
    {
        if code == ABS_MISC {
            PadState { lifted: value == 0, ..self }
        } else if code == ABS_WHEEL {
            PadState { first_ring: self.first_ring.set(value), ..self }
        } else if code == ABS_THROTTLE {
            PadState { second_ring: self.second_ring.set(value), ..self }
        } else if code == ABS_RX {
            PadState { first_strip: self.first_strip.set(value), ..self }
        } else if code == ABS_RY {
            PadState { second_strip: self.second_strip.set(value), ..self }
        } else {
            self
        }
    }

    /// The state after a frame.
    pub open spec fn settled(self) -> PadState {
        PadState {
            first_dial: None,
            second_dial: None,
            first_ring: self.first_ring.settled(),
            second_ring: self.second_ring.settled(),
            first_strip: self.first_strip.settled(),
            second_strip: self.second_strip.settled(),
            lifted: false,
            ..self
        }
    }

    fn settle(self) -> (s: PadState)
        ensures
            s == self.settled(),
    {
        PadState {
            first_dial: None,
            second_dial: None,
            first_ring: self.first_ring.settle(),
            second_ring: self.second_ring.settle(),
            first_strip: self.first_strip.settle(),
            second_strip: self.second_strip.settle(),
            lifted: false,
            ..self
        }
    }
}

pub open spec fn dial_events(
    event: TabletPadEvent,
    device: DeviceId,
    number: u32,
    delta: Option<i64>,
    out: Seq<LibinputEvent>,
) -> Seq<LibinputEvent> {
    match delta {
        Some(delta) => out.push(
            pad_report(
                LibinputEventType::LIBINPUT_EVENT_TABLET_PAD_DIAL,
                TabletPadEvent { dial_number: number, dial_delta_v120: delta, ..event },
                device,
            ),
        ),
        None => out,
    }
}

fn push_dial(
    event: TabletPadEvent,
    device: DeviceId,
    number: u32,
    delta: Option<i64>,
    out: &mut Vec<LibinputEvent>,
)
    ensures
        final(out)@ == dial_events(event, device, number, delta, old(out)@),
{
    if let Some(delta) = delta {
        push_pad_event(
            LibinputEventType::LIBINPUT_EVENT_TABLET_PAD_DIAL,
            TabletPadEvent { dial_number: number, dial_delta_v120: delta, ..event },
            device,
            out,
        );
    }
}

pub open spec fn ring_events(
    event: TabletPadEvent,
    device: DeviceId,
    number: u32,
    axis: PadAxis,
    lifted: bool,
    left_handed: bool,
    out: Seq<LibinputEvent>,
) -> Seq<LibinputEvent> {
    if axis.changed {
        out.push(
            pad_report(
                LibinputEventType::LIBINPUT_EVENT_TABLET_PAD_RING,
                TabletPadEvent {
                    ring_number: number,
                    ring: Some(axis.reading(lifted, left_handed)),
                    ring_source: PAD_SOURCE_FINGER,
                    ..event
                },
                device,
            ),
        )
    } else {
        out
    }
}

fn push_ring(
    event: TabletPadEvent,
    device: DeviceId,
    number: u32,
    axis: PadAxis,
    lifted: bool,
    left_handed: bool,
    out: &mut Vec<LibinputEvent>,
)
    ensures
        final(out)@ == ring_events(event, device, number, axis, lifted, left_handed, old(out)@),
{
    if axis.changed {
        push_pad_event(
            LibinputEventType::LIBINPUT_EVENT_TABLET_PAD_RING,
            TabletPadEvent {
                ring_number: number,
                ring: Some(
                    PadReading { value: axis.value, range: axis.range, lifted, left_handed },
                ),
                ring_source: PAD_SOURCE_FINGER,
                ..event
            },
            device,
            out,
        );
    }
}

pub open spec fn strip_events(
    event: TabletPadEvent,
    device: DeviceId,
    number: u32,
    axis: PadAxis,
    lifted: bool,
    left_handed: bool,
    out: Seq<LibinputEvent>,
) -> Seq<LibinputEvent> {
    if axis.changed {
        out.push(
            pad_report(
                LibinputEventType::LIBINPUT_EVENT_TABLET_PAD_STRIP,
                TabletPadEvent {
                    strip_number: number,
                    strip: Some(axis.reading(lifted, left_handed)),
                    strip_source: PAD_SOURCE_FINGER,
                    ..event
                },
                device,
            ),
        )
    } else {
        out
    }
}

fn push_strip(
    event: TabletPadEvent,
    device: DeviceId,
    number: u32,
    axis: PadAxis,
    lifted: bool,
    left_handed: bool,
    out: &mut Vec<LibinputEvent>,
)
    ensures
        final(out)@ == strip_events(event, device, number, axis, lifted, left_handed, old(out)@),
{
    if axis.changed {
        push_pad_event(
            LibinputEventType::LIBINPUT_EVENT_TABLET_PAD_STRIP,
            TabletPadEvent {
                strip_number: number,
                strip: Some(
                    PadReading { value: axis.value, range: axis.range, lifted, left_handed },
                ),
                strip_source: PAD_SOURCE_FINGER,
                ..event
            },
            device,
            out,
        );
    }
}

impl PadState {
    /// The events of a frame: dials, rings, strips.
    pub open spec fn frame_events(
        self,
        dev: LibinputDevice,
        time_usec: u64,
        out: Seq<LibinputEvent>,
    ) -> Seq<LibinputEvent> {
        let event = pad_event(dev.tablet_pad_mode_groups@, time_usec);
        let hand = dev.left_handed;
        let out = dial_events(event, dev.id, 0, self.first_dial, out);
        let out = dial_events(event, dev.id, 1, self.second_dial, out);
        let out = ring_events(event, dev.id, 0, self.first_ring, self.lifted, hand, out);
        let out = ring_events(event, dev.id, 1, self.second_ring, self.lifted, hand, out);
        let out = strip_events(event, dev.id, 0, self.first_strip, self.lifted, hand, out);
        strip_events(event, dev.id, 1, self.second_strip, self.lifted, hand, out)
    }

    /// The state after one kernel event.
    pub open spec fn after_event(self, ev: InputEvent) -> PadState {
        if ev.kind == EV_REL {
            self.turned(ev.code, ev.value)
        } else if ev.kind == EV_ABS {
            self.slid(ev.code, ev.value)
        } else if ev.kind == EV_SYN && ev.code == SYN_REPORT {
            self.settled()
        } else {
            self
        }
    }

    /// The events that one kernel event causes.
    #[verifier::opaque]
    pub open spec fn events_after(
        self,
        ev: InputEvent,
        dev: LibinputDevice,
        time_usec: u64,
        out: Seq<LibinputEvent>,
    ) -> Seq<LibinputEvent> {
        if ev.kind == EV_KEY {
            key_events(dev, ev.code, ev.value, time_usec, out)
        } else if ev.kind == EV_SYN && ev.code == SYN_REPORT {
            self.frame_events(dev, time_usec, out)
        } else {
            out
        }
    }

    /// Takes in one kernel event of a tablet pad.
    pub fn process_tablet_pad_event(
        &mut self,
        ev: &InputEvent,
        dev: &mut LibinputDevice,
        time_usec: u64,
        out: &mut Vec<LibinputEvent>,
    )
        ensures
            *final(self) == old(self).after_event(*ev),
            final(dev).tablet_pad_mode_groups@ == groups_after_event(*old(dev), *ev),
            *final(dev) == (LibinputDevice {
                tablet_pad_mode_groups: final(dev).tablet_pad_mode_groups,
                ..*old(dev)
            }),
            final(out)@ == old(self).events_after(*ev, *old(dev), time_usec, old(out)@),
    {
        reveal(PadState::events_after);
        if ev.kind == EV_KEY {
            pad_key(dev, ev.code, ev.value, time_usec, out);
        } else if ev.kind == EV_REL {
            *self = self.turn(ev.code, ev.value);
        } else if ev.kind == EV_ABS {
            *self = self.slide(ev.code, ev.value);
        } else if ev.kind == EV_SYN && ev.code == SYN_REPORT {
            let event = blank_pad_event(&dev.tablet_pad_mode_groups, time_usec);
            let s = *self;
            let hand = dev.left_handed;
            let id: DeviceId = dev.id;
            push_dial(event, id, 0, s.first_dial, out);
            push_dial(event, id, 1, s.second_dial, out);
            push_ring(event, id, 0, s.first_ring, s.lifted, hand, out);
            push_ring(event, id, 1, s.second_ring, s.lifted, hand, out);
            push_strip(event, id, 0, s.first_strip, s.lifted, hand, out);
            push_strip(event, id, 1, s.second_strip, s.lifted, hand, out);
            *self = s.settle();
        }
    }
}

} // verus!
