//! A device as clients first see it: its capabilities and the defaults of its
//! configuration.
use vstd::prelude::*;
use crate::backend::probe::{
    any_between, axis, find_axis, has_between, AxisInfo, DeviceClass, KernelDevice, WACOM_VENDOR,
};
use crate::codes::{
    ABS_MT_POSITION_X, ABS_MT_POSITION_Y, ABS_MT_SLOT, ABS_RX, ABS_RY, ABS_THROTTLE, ABS_WHEEL,
    ABS_X, ABS_Y, BTN_0, BTN_9, BTN_LEFT, BTN_MIDDLE, BTN_RIGHT, BTN_SIDE, BTN_TASK, REL_DIAL,
    REL_HWHEEL, REL_WHEEL,
};
use crate::evtrans::contains_code;
use crate::ffi_types::{LibinputDevice, LibinputTabletPadModeGroup};

verus! {

pub const SCROLL_NONE: u32 = 0;
pub const SCROLL_TWO_FINGERS: u32 = 1;
pub const SCROLL_EDGE: u32 = 2;
pub const SCROLL_BUTTON: u32 = 4;

/// What the tablet database knows of a pad: the codes of its buttons in their
/// order, and whether it can be turned round. A pad that it does not know has
/// no codes and can be turned.
pub struct PadFacts {
    pub buttons: Vec<i32>,
    pub reversible: bool,
}

/// What is known of a device from elsewhere: whether a tablet is part of a
/// display, and whether a touchpad is an external one.
#[derive(Clone, Copy, Debug, PartialEq, Eq, Structural)]
pub struct Surroundings {
    pub display_tablet: bool,
    pub external_touchpad: bool,
}

/// The names that udev gives a device.
pub struct Names {
    pub sysname: String,
    pub output_name: Option<String>,
    pub udev_group: Option<String>,
}

/// What quirks say that matters for a description.
#[derive(Clone, Copy, Debug, PartialEq, Eq, Structural)]
pub struct QuirkFacts {
    pub dell_canvas_totem: bool,
    pub alps_serial_touchpad: bool,
    pub lenovo_scrollpoint: bool,
}

// ---------------------------------------------------------------------------
// Classes after quirks
// ---------------------------------------------------------------------------
/// A totem announces itself as a touchscreen and is a tablet.
pub open spec fn corrected(class: DeviceClass, quirks: QuirkFacts) -> DeviceClass {
    if quirks.dell_canvas_totem {
        DeviceClass { has_touch: false, has_tablet: true, ..class }
    } else {
        class
    }
}

pub fn correct_class(class: &DeviceClass, quirks: &QuirkFacts) -> (c: DeviceClass)
    ensures
        c == corrected(*class, *quirks),
{
    if quirks.dell_canvas_totem {
        DeviceClass { has_touch: false, has_tablet: true, ..*class }
    } else {
        *class
    }
}

// ---------------------------------------------------------------------------
// Axes
// ---------------------------------------------------------------------------
/// The axis that gives a coordinate: the plain one, or that of the contacts.
pub open spec fn coordinate(axes: Seq<AxisInfo>, plain: u16, contact: u16) -> Option<AxisInfo> {
    if axis(axes, plain) is Some {
        axis(axes, plain)
    } else {
        axis(axes, contact)
    }
}

fn find_coordinate(axes: &Vec<AxisInfo>, plain: u16, contact: u16) -> (info: Option<AxisInfo>)
    ensures
        info == coordinate(axes@, plain, contact),
{
    let first = find_axis(axes, plain);
    if first.is_some() {
        first
    } else {
        find_axis(axes, contact)
    }
}

pub open spec fn range_of(info: Option<AxisInfo>) -> Option<(i32, i32)> {
    match info {
        Some(info) => Some((info.minimum, info.maximum)),
        None => None,
    }
}

pub open spec fn resolution_of(info: Option<AxisInfo>) -> Option<i32> {
    match info {
        Some(info) => if info.resolution > 0 {
            Some(info.resolution)
        } else {
            None
        },
        None => None,
    }
}

fn get_range(info: &Option<AxisInfo>) -> (range: Option<(i32, i32)>)
    ensures
        range == range_of(*info),
{
    match info {
        Some(info) => Some((info.minimum, info.maximum)),
        None => None,
    }
}

fn get_resolution(info: &Option<AxisInfo>) -> (resolution: Option<i32>)
    ensures
        resolution == resolution_of(*info),
{
    match info {
        Some(info) => if info.resolution > 0 {
            Some(info.resolution)
        } else {
            None
        },
        None => None,
    }
}

/// Whether the number of slots can be told at all.
pub open spec fn slots_fit(axes: Seq<AxisInfo>) -> bool {
    match axis(axes, ABS_MT_SLOT) {
        Some(info) => i32::MIN <= info.maximum - info.minimum && info.maximum - info.minimum
            < i32::MAX,
        None => true,
    }
}

pub fn can_count_slots(axes: &Vec<AxisInfo>) -> (can: bool)
    ensures
        can == slots_fit(axes@),
{
    match find_axis(axes, ABS_MT_SLOT) {
        Some(info) => {
            let span: i64 = info.maximum as i64 - info.minimum as i64;
            i32::MIN as i64 <= span && span < i32::MAX as i64
        },
        None => true,
    }
}

/// The number of slots that a device announces.
pub open spec fn announced_slots(axes: Seq<AxisInfo>) -> Option<int> {
    match axis(axes, ABS_MT_SLOT) {
        Some(info) => Some(info.maximum - info.minimum + 1),
        None => None,
    }
}

fn count_slots(axes: &Vec<AxisInfo>) -> (slots: Option<i32>)
    requires
        slots_fit(axes@),
    ensures
        match slots {
            Some(n) => announced_slots(axes@) == Some(n as int),
            None => announced_slots(axes@) is None,
        },
{
    match find_axis(axes, ABS_MT_SLOT) {
        Some(info) => {
            let n: i64 = info.maximum as i64 - info.minimum as i64 + 1;
            Some(n as i32)
        },
        None => None,
    }
}

/// How many fingers a device tells apart. A touchscreen that lists its
/// contacts without slots is taken to know ten.
pub open spec fn touch_count_spec(k: KernelDevice, class: DeviceClass) -> int {
    if !k.axes_known || !(class.has_touch || class.is_touchpad) {
        0
    } else if class.has_touch && k.has_mt_xy() && announced_slots(k.axes@) is None {
        10
    } else {
        match announced_slots(k.axes@) {
            Some(n) => n,
            None => 1,
        }
    }
}

fn count_touches(k: &KernelDevice, class: &DeviceClass) -> (n: i32)
    requires
        slots_fit(k.axes@),
    ensures
        n == touch_count_spec(*k, *class),
{
    let slots = count_slots(&k.axes);
    if !k.axes_known || !(class.has_touch || class.is_touchpad) {
        return 0;
    }
    if class.has_touch && k.reports_mt_xy() && slots.is_none() {
        return 10;
    }
    match slots {
        Some(n) => n,
        None => 1,
    }
}

// ---------------------------------------------------------------------------
// Buttons
// ---------------------------------------------------------------------------
/// Whether a device can scroll while a button is held: a pointer that moves
/// and has buttons.
pub open spec fn button_scroll_spec(k: KernelDevice, class: DeviceClass) -> bool {
    &&& class.is_pointer
    &&& !class.has_tablet
    &&& !class.has_tablet_pad
    &&& k.has_relative_motion()
    &&& any_between(k.keys@, BTN_0 as int, BTN_9 as int) || any_between(
        k.keys@,
        BTN_LEFT as int,
        BTN_TASK as int,
    )
}

fn supports_button_scroll(k: &KernelDevice, class: &DeviceClass) -> (supports: bool)
    ensures
        supports == button_scroll_spec(*k, *class),
{
    class.is_pointer && !class.has_tablet && !class.has_tablet_pad && k.moves() && (has_between(
        &k.keys,
        BTN_0,
        BTN_9,
    ) || has_between(&k.keys, BTN_LEFT, BTN_TASK))
}

/// Whether left and right together can make a middle button, and whether they
/// do so by default: where there is no middle button they always do.
pub open spec fn middle_emulation_spec(
    class: DeviceClass,
    is_clickpad: bool,
    codes: Seq<u16>,
    alps: bool,
) -> (bool, bool) {
    let both = codes.contains(BTN_LEFT) && codes.contains(BTN_RIGHT);
    let middle = codes.contains(BTN_MIDDLE);
    if class.is_touchpad {
        if is_clickpad {
            (true, false)
        } else if both {
            if middle && alps {
                (true, true)
            } else {
                (false, !middle)
            }
        } else {
            (false, false)
        }
    } else if class.is_pointer && !class.has_tablet && !class.has_tablet_pad && both {
        (middle, !middle)
    } else {
        (false, false)
    }
}

fn middle_emulation(class: &DeviceClass, is_clickpad: bool, codes: &Vec<u16>, alps: bool) -> (r: (
    bool,
    bool,
))
    ensures
        r == middle_emulation_spec(*class, is_clickpad, codes@, alps),
{
    let both = contains_code(codes, BTN_LEFT) && contains_code(codes, BTN_RIGHT);
    let middle = contains_code(codes, BTN_MIDDLE);
    if class.is_touchpad {
        if is_clickpad {
            (true, false)
        } else if both {
            if middle && alps {
                (true, true)
            } else {
                (false, !middle)
            }
        } else {
            (false, false)
        }
    } else if class.is_pointer && !class.has_tablet && !class.has_tablet_pad && both {
        (middle, !middle)
    } else {
        (false, false)
    }
}

/// The button that scrolls by default.
pub open spec fn scroll_button_spec(supported: bool, codes: Seq<u16>) -> u32 {
    if !supported {
        0
    } else if codes.contains(BTN_MIDDLE) {
        BTN_MIDDLE as u32
    } else if codes.contains(BTN_SIDE) {
        BTN_SIDE as u32
    } else {
        0
    }
}

fn default_scroll_button(supported: bool, codes: &Vec<u16>) -> (button: u32)
    ensures
        button == scroll_button_spec(supported, codes@),
{
    if !supported {
        0
    } else if contains_code(codes, BTN_MIDDLE) {
        BTN_MIDDLE as u32
    } else if contains_code(codes, BTN_SIDE) {
        BTN_SIDE as u32
    } else {
        0
    }
}

/// How a device scrolls by default: touchpads with two fingers or at their
/// edge, pointers without a wheel by their middle button.
pub open spec fn scroll_method_spec(
    k: KernelDevice,
    class: DeviceClass,
    supported: bool,
    codes: Seq<u16>,
    scrollpoint: bool,
    touches: int,
) -> u32 {
    if class.is_touchpad {
        if k.axes_known && touches >= 2 {
            SCROLL_TWO_FINGERS
        } else {
            SCROLL_EDGE
        }
    } else if supported && !k.has_wheel() && codes.contains(BTN_MIDDLE) && !scrollpoint {
        SCROLL_BUTTON
    } else {
        SCROLL_NONE
    }
}

fn default_scroll_method(
    k: &KernelDevice,
    class: &DeviceClass,
    supported: bool,
    codes: &Vec<u16>,
    scrollpoint: bool,
    touches: i32,
) -> (method: u32)
    ensures
        method == scroll_method_spec(*k, *class, supported, codes@, scrollpoint, touches as int),
{
    if class.is_touchpad {
        if k.axes_known && touches >= 2 {
            SCROLL_TWO_FINGERS
        } else {
            SCROLL_EDGE
        }
    } else if supported && !k.scrolls() && contains_code(codes, BTN_MIDDLE) && !scrollpoint {
        SCROLL_BUTTON
    } else {
        SCROLL_NONE
    }
}

/// The ways in which a device can scroll.
pub open spec fn scroll_methods_spec(class: DeviceClass, supported: bool, touches: int) -> u32 {
    if class.is_touchpad {
        if touches >= 2 {
            3
        } else {
            SCROLL_EDGE
        }
    } else if supported {
        SCROLL_BUTTON
    } else {
        SCROLL_NONE
    }
}

/// How many fingers can tap.
pub open spec fn tap_fingers_spec(class: DeviceClass, touches: int) -> int {
    if !class.is_touchpad || touches <= 0 {
        0
    } else if touches < 3 {
        touches
    } else {
        3
    }
}

// ---------------------------------------------------------------------------
// Pads
// ---------------------------------------------------------------------------
/// The codes that the database gives and the device has.
pub open spec fn known_buttons(buttons: Seq<i32>, codes: Seq<u16>) -> Seq<u16>
    decreases buttons.len(),
{
    if buttons.len() == 0 {
        Seq::empty()
    } else {
        let code = buttons.last();
        let rest = known_buttons(buttons.drop_last(), codes);
        if 0 < code <= u16::MAX && codes.contains(code as u16) {
            rest.push(code as u16)
        } else {
            rest
        }
    }
}

fn list_known_buttons(buttons: &Vec<i32>, codes: &Vec<u16>) -> (out: Vec<u16>)
    ensures
        out@ == known_buttons(buttons@, codes@),
{
    let mut out: Vec<u16> = Vec::new();
    let mut i: usize = 0;
    assert(buttons@.take(0) =~= Seq::<i32>::empty());
    while i < buttons.len()
        invariant
            i <= buttons.len(),
            out@ == known_buttons(buttons@.take(i as int), codes@),
        decreases buttons.len() - i,
    {
        proof {
            assert(buttons@.take(i + 1).drop_last() =~= buttons@.take(i as int));
        }
        let code: i32 = buttons[i];
        if 0 < code && code <= 0xffff && contains_code(codes, code as u16) {
            out.push(code as u16);
        }
        i += 1;
    }
    assert(buttons@.take(i as int) =~= buttons@);
    out
}

/// The codes from `low` up to, but without, `high` that a device has.
pub open spec fn codes_between(codes: Seq<u16>, low: int, high: int) -> Seq<u16>
    decreases high - low,
{
    if high <= low {
        Seq::empty()
    } else {
        let rest = codes_between(codes, low, high - 1);
        if codes.contains((high - 1) as u16) {
            rest.push((high - 1) as u16)
        } else {
            rest
        }
    }
}

fn push_codes_between(codes: &Vec<u16>, low: u16, high: u16, out: &mut Vec<u16>)
    requires
        low <= high,
    ensures
        final(out)@ == old(out)@ + codes_between(codes@, low as int, high as int),
{
    let ghost before = out@;
    let mut code: u16 = low;
    assert(before + Seq::<u16>::empty() =~= before);
    while code < high
        invariant
            low <= code <= high,
            out@ == before + codes_between(codes@, low as int, code as int),
        decreases high - code,
    {
        let ghost so_far = codes_between(codes@, low as int, code as int);
        if contains_code(codes, code) {
            out.push(code);
            assert(out@ =~= before + so_far.push(code));
        }
        code += 1;
    }
}

/// The buttons of a pad, in their order: those of the database, or else all
/// that a pad can have.
pub open spec fn pad_buttons(facts: PadFacts, codes: Seq<u16>) -> Seq<u16> {
    let known = known_buttons(facts.buttons@, codes);
    if known.len() > 0 {
        known
    } else {
        codes_between(codes, 0x100, 0x10a) + codes_between(codes, 0x126, 0x128) + codes_between(
            codes,
            0x130,
            0x136,
        ) + codes_between(codes, 0x110, 0x117)
    }
}

fn list_pad_buttons(facts: &PadFacts, codes: &Vec<u16>) -> (out: Vec<u16>)
    ensures
        out@ == pad_buttons(*facts, codes@),
{
    let known = list_known_buttons(&facts.buttons, codes);
    if known.len() > 0 {
        return known;
    }
    let mut out: Vec<u16> = Vec::new();
    push_codes_between(codes, 0x100, 0x10a, &mut out);
    push_codes_between(codes, 0x126, 0x128, &mut out);
    push_codes_between(codes, 0x130, 0x136, &mut out);
    push_codes_between(codes, 0x110, 0x117, &mut out);
    assert(out@ =~= pad_buttons(*facts, codes@));
    out
}

/// 1 if any of two codes is there.
pub open spec fn one_of(codes: Seq<u16>, a: u16, b: u16) -> int {
    if codes.contains(a) || codes.contains(b) {
        1
    } else {
        0
    }
}

fn count_one(codes: &Vec<u16>, a: u16, b: u16) -> (n: u32)
    ensures
        n == one_of(codes@, a, b),
        n <= 1,
{
    if contains_code(codes, a) || contains_code(codes, b) {
        1
    } else {
        0
    }
}

/// The mask of the lowest `n` bits.
pub open spec fn low_mask(n: int) -> u32 {
    if n >= 32 {
        u32::MAX
    } else {
        ((1u32 << (n as u32)) - 1) as u32
    }
}

fn mask_of(n: usize) -> (mask: u32)
    ensures
        mask == low_mask(n as int),
{
    if n >= 32 {
        u32::MAX
    } else {
        let bits: u32 = n as u32;
        assert(1u32 << bits >= 1u32) by (bit_vector)
            requires
                bits < 32,
        ;
        (1u32 << bits) - 1
    }
}

/// The one mode group of a pad: all its controls switch mode together. One
/// pad has four modes.
pub open spec fn mode_group(
    k: KernelDevice,
    buttons: int,
    dials: u32,
    rings: u32,
    strips: u32,
) -> LibinputTabletPadModeGroup {
    LibinputTabletPadModeGroup {
        refcount: 1,
        user_data: 0,
        index: 0,
        num_modes: if k.id.vendor == WACOM_VENDOR && k.id.product == 0x034e {
            4
        } else {
            1
        },
        current_mode: 0,
        button_mask: low_mask(buttons),
        dial_mask: low_mask(dials as int),
        ring_mask: low_mask(rings as int),
        strip_mask: low_mask(strips as int),
        toggle_button_mask: 0,
    }
}

/// The controls of a pad; a device that is no pad has none.
pub struct PadControls {
    pub buttons: Vec<u16>,
    pub dials: u32,
    pub rings: u32,
    pub strips: u32,
    pub groups: Vec<LibinputTabletPadModeGroup>,
}

pub open spec fn dials_spec(k: KernelDevice) -> u32 {
    (one_of(k.relative@, REL_WHEEL, REL_DIAL) + one_of(k.relative@, REL_HWHEEL, REL_HWHEEL)) as u32
}

pub open spec fn rings_spec(k: KernelDevice) -> u32 {
    (one_of(k.absolute@, ABS_WHEEL, ABS_WHEEL) + one_of(k.absolute@, ABS_THROTTLE, ABS_THROTTLE))
        as u32
}

pub open spec fn strips_spec(k: KernelDevice) -> u32 {
    (one_of(k.absolute@, ABS_RX, ABS_RX) + one_of(k.absolute@, ABS_RY, ABS_RY)) as u32
}

fn pad_controls(k: &KernelDevice, class: &DeviceClass, facts: &PadFacts, codes: &Vec<u16>) -> (c:
    PadControls)
    ensures
        !class.has_tablet_pad ==> c.buttons@.len() == 0 && c.dials == 0 && c.rings == 0 && c.strips
            == 0 && c.groups@.len() == 0,
        class.has_tablet_pad ==> {
            &&& c.buttons@ == pad_buttons(*facts, codes@)
            &&& c.dials == dials_spec(*k)
            &&& c.rings == rings_spec(*k)
            &&& c.strips == strips_spec(*k)
            &&& c.groups@ == seq![
                mode_group(*k, c.buttons@.len() as int, c.dials, c.rings, c.strips),
            ]
        },
{
    let mut groups: Vec<LibinputTabletPadModeGroup> = Vec::new();
    if !class.has_tablet_pad {
        return PadControls { buttons: Vec::new(), dials: 0, rings: 0, strips: 0, groups };
    }
    let buttons = list_pad_buttons(facts, codes);
    let dials: u32 = count_one(&k.relative, REL_WHEEL, REL_DIAL) + count_one(
        &k.relative,
        REL_HWHEEL,
        REL_HWHEEL,
    );
    let rings: u32 = count_one(&k.absolute, ABS_WHEEL, ABS_WHEEL) + count_one(
        &k.absolute,
        ABS_THROTTLE,
        ABS_THROTTLE,
    );
    let strips: u32 = count_one(&k.absolute, ABS_RX, ABS_RX) + count_one(
        &k.absolute,
        ABS_RY,
        ABS_RY,
    );
    let num_modes: u32 = if k.id.vendor == WACOM_VENDOR && k.id.product == 0x034e {
        4
    } else {
        1
    };
    groups.push(
        LibinputTabletPadModeGroup {
            refcount: 1,
            user_data: 0,
            index: 0,
            num_modes,
            current_mode: 0,
            button_mask: mask_of(buttons.len()),
            dial_mask: mask_of(dials as usize),
            ring_mask: mask_of(rings as usize),
            strip_mask: mask_of(strips as usize),
            toggle_button_mask: 0,
        },
    );
    let c = PadControls { buttons, dials, rings, strips, groups };
    assert(c.groups@ =~= seq![
        mode_group(*k, c.buttons@.len() as int, c.dials, c.rings, c.strips),
    ]);
    c
}

// ---------------------------------------------------------------------------
// The whole description
// ---------------------------------------------------------------------------
/// What a description is drawn from: the device, its class as udev or its
/// looks have it, what quirks say, and what is known from elsewhere.
pub struct Evidence<'a> {
    pub kernel: &'a KernelDevice,
    pub class: DeviceClass,
    pub quirks: QuirkFacts,
    pub around: Surroundings,
    pub pad: &'a PadFacts,
}

impl Evidence<'_> {
    /// The class once quirks have corrected it.
    pub open spec fn final_class(self) -> DeviceClass {
        corrected(self.class, self.quirks)
    }

    pub open spec fn touches(self) -> int {
        touch_count_spec(*self.kernel, self.final_class())
    }

    pub open spec fn x(self) -> Option<AxisInfo> {
        coordinate(self.kernel.axes@, ABS_X, ABS_MT_POSITION_X)
    }

    pub open spec fn y(self) -> Option<AxisInfo> {
        coordinate(self.kernel.axes@, ABS_Y, ABS_MT_POSITION_Y)
    }

    /// The capabilities that a description adds to a fresh device.
    pub open spec fn with_capabilities(self, d: LibinputDevice) -> LibinputDevice {
        let k = *self.kernel;
        let class = self.final_class();
        LibinputDevice {
            vendor_id: k.id.vendor as u32,
            product_id: k.id.product as u32,
            bus_type: k.id.bus_type as u32,
            has_pointer: class.is_pointer,
            has_keyboard: class.is_keyboard,
            has_touch: class.has_touch,
            has_gesture: class.is_touchpad && !k.props.semi_mt,
            has_switch: class.has_switch,
            has_tablet: class.has_tablet,
            has_tablet_pad: class.has_tablet_pad,
            mt_slot_count: match announced_slots(k.axes@) {
                Some(n) if n > 0 => n as i32,
                _ => 0,
            },
            touch_count: self.touches() as i32,
            abs_x_range: range_of(self.x()),
            abs_y_range: range_of(self.y()),
            abs_x_resolution: resolution_of(self.x()),
            abs_y_resolution: resolution_of(self.y()),
            ..d
        }
    }

    /// The configuration that is possible, and its defaults.
    pub open spec fn with_configuration(self, d: LibinputDevice, codes: Seq<u16>) -> LibinputDevice {
        let k = *self.kernel;
        let class = self.final_class();
        let button_scroll = button_scroll_spec(k, self.class);
        let middle = middle_emulation_spec(
            class,
            k.props.buttonpad,
            codes,
            self.quirks.alps_serial_touchpad,
        );
        let button = scroll_button_spec(button_scroll, codes);
        let method = scroll_method_spec(
            k,
            class,
            button_scroll,
            codes,
            self.quirks.lenovo_scrollpoint,
            self.touches(),
        );
        LibinputDevice {
            calibration_available: k.has_abs_xy() && !class.is_touchpad && (!self.class.has_tablet
                || k.props.direct || self.around.display_tablet),
            area_available: self.class.has_tablet && !k.props.direct,
            accel_available: class.is_touchpad || k.has_relative_motion() || class.has_tablet,
            supports_button_scroll: button_scroll,
            left_handed_available: if class.has_tablet_pad {
                self.pad.reversible
            } else {
                class.is_pointer
            },
            middle_emulation_available: middle.0,
            middle_emulation: middle.1,
            middle_emulation_default: middle.1,
            scroll_button: button,
            scroll_default_button: button,
            scroll_methods: scroll_methods_spec(class, button_scroll, self.touches()),
            scroll_method: method,
            scroll_default_method: method,
            send_events_modes: if class.is_touchpad && !self.around.external_touchpad && k.id.vendor
                != WACOM_VENDOR {
                3
            } else {
                1
            },
            tap_finger_count: tap_fingers_spec(class, self.touches()) as i32,
            tap_drag_enabled: tap_fingers_spec(class, self.touches()) > 0,
            click_methods: if class.is_touchpad && k.props.buttonpad {
                3
            } else {
                0
            },
            dwt_available: class.is_touchpad,
            dwtp_available: class.is_touchpad,
            ..d
        }
    }

    fn describe_capabilities(&self, d: LibinputDevice) -> (out: LibinputDevice)
        requires
            slots_fit(self.kernel.axes@),
        ensures
            out == self.with_capabilities(d),
    {
        let k = self.kernel;
        let class = correct_class(&self.class, &self.quirks);
        let x = find_coordinate(&k.axes, ABS_X, ABS_MT_POSITION_X);
        let y = find_coordinate(&k.axes, ABS_Y, ABS_MT_POSITION_Y);
        let mt_slot_count: i32 = match count_slots(&k.axes) {
            Some(n) => if n > 0 {
                n
            } else {
                0
            },
            None => 0,
        };
        LibinputDevice {
            vendor_id: k.id.vendor as u32,
            product_id: k.id.product as u32,
            bus_type: k.id.bus_type as u32,
            has_pointer: class.is_pointer,
            has_keyboard: class.is_keyboard,
            has_touch: class.has_touch,
            has_gesture: class.is_touchpad && !k.props.semi_mt,
            has_switch: class.has_switch,
            has_tablet: class.has_tablet,
            has_tablet_pad: class.has_tablet_pad,
            mt_slot_count,
            touch_count: count_touches(k, &class),
            abs_x_range: get_range(&x),
            abs_y_range: get_range(&y),
            abs_x_resolution: get_resolution(&x),
            abs_y_resolution: get_resolution(&y),
            ..d
        }
    }

    fn describe_configuration(&self, d: LibinputDevice, codes: &Vec<u16>) -> (out: LibinputDevice)
        requires
            slots_fit(self.kernel.axes@),
        ensures
            out == self.with_configuration(d, codes@),
    {
        let k = self.kernel;
        let class = correct_class(&self.class, &self.quirks);
        let touches: i32 = count_touches(k, &class);
        let button_scroll = supports_button_scroll(k, &self.class);
        let (middle_available, middle_default) = middle_emulation(
            &class,
            k.props.buttonpad,
            codes,
            self.quirks.alps_serial_touchpad,
        );
        let button: u32 = default_scroll_button(button_scroll, codes);
        let method: u32 = default_scroll_method(
            k,
            &class,
            button_scroll,
            codes,
            self.quirks.lenovo_scrollpoint,
            touches,
        );
        let scroll_methods: u32 = if class.is_touchpad {
            if touches >= 2 {
                3
            } else {
                SCROLL_EDGE
            }
        } else if button_scroll {
            SCROLL_BUTTON
        } else {
            SCROLL_NONE
        };
        let tap_finger_count: i32 = if !class.is_touchpad || touches <= 0 {
            0
        } else if touches < 3 {
            touches
        } else {
            3
        };
        LibinputDevice {
            calibration_available: k.reports_abs_xy() && !class.is_touchpad && (
            !self.class.has_tablet || k.props.direct || self.around.display_tablet),
            area_available: self.class.has_tablet && !k.props.direct,
            accel_available: class.is_touchpad || k.moves() || class.has_tablet,
            supports_button_scroll: button_scroll,
            left_handed_available: if class.has_tablet_pad {
                self.pad.reversible
            } else {
                class.is_pointer
            },
            middle_emulation_available: middle_available,
            middle_emulation: middle_default,
            middle_emulation_default: middle_default,
            scroll_button: button,
            scroll_default_button: button,
            scroll_methods,
            scroll_method: method,
            scroll_default_method: method,
            send_events_modes: if class.is_touchpad && !self.around.external_touchpad && k.id.vendor
                != WACOM_VENDOR {
                3
            } else {
                1
            },
            tap_finger_count,
            tap_drag_enabled: tap_finger_count > 0,
            click_methods: if class.is_touchpad && k.props.buttonpad {
                3
            } else {
                0
            },
            dwt_available: class.is_touchpad,
            dwtp_available: class.is_touchpad,
            ..d
        }
    }

    /// Whether `out` describes a device that is taken in. `d` is fresh; `codes`
    /// are the keys that quirks leave it.
    #[verifier::opaque]
    pub open spec fn is_description(
        self,
        d: LibinputDevice,
        codes: Seq<u16>,
        switches: Seq<u16>,
        names: Names,
        axes: Seq<AxisInfo>,
        out: LibinputDevice,
    ) -> bool {
        &&& out.event_codes@ == codes
        &&& out.switch_codes@ == switches
        &&& out.axes@ == axes
        &&& out == (LibinputDevice {
            event_codes: out.event_codes,
            switch_codes: out.switch_codes,
            axes: out.axes,
            sysname: names.sysname,
            output_name: names.output_name,
            udev_group: names.udev_group,
            tablet_pad_button_codes: out.tablet_pad_button_codes,
            tablet_pad_num_dials: out.tablet_pad_num_dials,
            tablet_pad_num_rings: out.tablet_pad_num_rings,
            tablet_pad_num_strips: out.tablet_pad_num_strips,
            tablet_pad_mode_groups: out.tablet_pad_mode_groups,
            ..self.with_configuration(self.with_capabilities(d), codes)
        })
        &&& !self.final_class().has_tablet_pad ==> {
            &&& out.tablet_pad_button_codes@.len() == 0
            &&& out.tablet_pad_num_dials == 0
            &&& out.tablet_pad_num_rings == 0
            &&& out.tablet_pad_num_strips == 0
            &&& out.tablet_pad_mode_groups@.len() == 0
        }
        &&& self.final_class().has_tablet_pad ==> {
            &&& out.tablet_pad_button_codes@ == pad_buttons(*self.pad, codes)
            &&& out.tablet_pad_num_dials == dials_spec(*self.kernel)
            &&& out.tablet_pad_num_rings == rings_spec(*self.kernel)
            &&& out.tablet_pad_num_strips == strips_spec(*self.kernel)
            &&& out.tablet_pad_mode_groups@ == seq![
                mode_group(
                    *self.kernel,
                    out.tablet_pad_button_codes@.len() as int,
                    out.tablet_pad_num_dials,
                    out.tablet_pad_num_rings,
                    out.tablet_pad_num_strips,
                ),
            ]
        }
    }

    /// Describes a device that is taken in.
    pub fn describe(
        &self,
        d: LibinputDevice,
        codes: Vec<u16>,
        switches: Vec<u16>,
        names: Names,
        axes: Vec<AxisInfo>,
    ) -> (out: LibinputDevice)
        requires
            slots_fit(self.kernel.axes@),
        ensures
            out.id == d.id,
            out.seat == d.seat,
            out.group == d.group,
            out.refcount == d.refcount,
            self.is_description(d, codes@, switches@, names, axes@, out),
    {
        reveal(Evidence::is_description);
        let class = correct_class(&self.class, &self.quirks);
        let controls = pad_controls(self.kernel, &class, self.pad, &codes);
        let d = self.describe_capabilities(d);
        let d = self.describe_configuration(d, &codes);
        LibinputDevice {
            event_codes: codes,
            switch_codes: switches,
            axes,
            sysname: names.sysname,
            output_name: names.output_name,
            udev_group: names.udev_group,
            tablet_pad_button_codes: controls.buttons,
            tablet_pad_num_dials: controls.dials,
            tablet_pad_num_rings: controls.rings,
            tablet_pad_num_strips: controls.strips,
            tablet_pad_mode_groups: controls.groups,
            ..d
        }
    }
}

/// Whatever a device does by default it can also be set to do.
pub proof fn law_defaults_are_available(e: Evidence<'_>, d: LibinputDevice, codes: Seq<u16>)
    ensures
        ({
            let out = e.with_configuration(d, codes);
            let method = out.scroll_default_method;
            &&& method == SCROLL_NONE || method == SCROLL_EDGE || method == SCROLL_TWO_FINGERS
                || method == SCROLL_BUTTON
            &&& method == SCROLL_BUTTON ==> out.scroll_methods == SCROLL_BUTTON
            &&& method == SCROLL_TWO_FINGERS ==> out.scroll_methods == 3
            &&& method == SCROLL_EDGE ==> out.scroll_methods == 3 || out.scroll_methods
                == SCROLL_EDGE
            &&& out.scroll_button != 0 ==> out.supports_button_scroll && codes.contains(
                out.scroll_button as u16,
            )
        }),
{
}

} // verus!
