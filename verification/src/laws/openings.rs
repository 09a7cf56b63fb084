//! Devices as they are opened: what is told of them, and where they are
//! followed from.
use vstd::prelude::*;
use crate::backend::describe::{codes_between, known_buttons, low_mask, slots_fit, Evidence, Names};
use crate::backend::pad::PadState;
use crate::backend::pointer::AbsolutePointer;
use crate::backend::probe::{
    any_between, axes_are_valid, axis, axis_in, AxisInfo, KernelDevice, UdevTags,
};
use crate::backend::start::{button_candidate, buttons_among, common, either_in, Snapshot};
use crate::backend::tablet::TabletState;
use crate::backend::touchpad::TouchState;
use crate::ffi_types::{AxisMix, LibinputDevice};

verus! {

/// Whether the axes are listed once each, as the kernel lists them.
pub open spec fn listed_once(axes: Seq<AxisInfo>) -> bool {
    forall|a: int, b: int|
        0 <= a < b < axes.len() ==> (#[trigger] axes[a]).code != (#[trigger] axes[b]).code
}

pub open spec fn lists(axes: Seq<AxisInfo>, code: u16) -> bool {
    exists|a: int| 0 <= a < axes.len() && (#[trigger] axes[a]).code == code
}

proof fn lemma_axis_in(axes: Seq<AxisInfo>, n: int, i: int, code: u16)
    requires
        0 <= n <= axes.len(),
        listed_once(axes),
    ensures
        0 <= i < n && axes[i].code == code ==> axis_in(axes, n, code) == Some(axes[i]),
        (forall|a: int| 0 <= a < n ==> (#[trigger] axes[a]).code != code) ==> axis_in(
            axes,
            n,
            code,
        ) is None,
        axis_in(axes, n, code) is Some ==> lists(axes, code),
    decreases n,
{
    if n > 0 {
        lemma_axis_in(axes, n - 1, i, code);
    }
}

/// What is known of an axis is what the kernel lists for its code.
pub proof fn law_axes_are_found_by_their_code(axes: Seq<AxisInfo>, i: int, code: u16)
    requires
        listed_once(axes),
    ensures
        0 <= i < axes.len() && axes[i].code == code ==> axis(axes, code) == Some(axes[i]),
        axis(axes, code) is Some <==> lists(axes, code),
{
    lemma_axis_in(axes, axes.len() as int, i, code);
    if lists(axes, code) {
        let a = choose|a: int| 0 <= a < axes.len() && (#[trigger] axes[a]).code == code;
        lemma_axis_in(axes, axes.len() as int, a, code);
    }
}

proof fn lemma_either(axes: Seq<AxisInfo>, n: int, i: int, a: u16, b: u16)
    requires
        0 <= i < n <= axes.len(),
        listed_once(axes),
        axes[i].code == a || axes[i].code == b,
        !(lists(axes, a) && lists(axes, b)),
    ensures
        either_in(axes, n, a, b) == Some(axes[i]),
    decreases n,
{
    if n - 1 > i {
        assert(axes[n - 1].code != a && axes[n - 1].code != b) by {
            if axes[n - 1].code == a || axes[n - 1].code == b {
                assert(lists(axes, axes[i].code));
                assert(lists(axes, axes[n - 1].code));
            }
        }
        lemma_either(axes, n - 1, i, a, b);
    }
}

/// A pointer that reports positions starts where the kernel says it is: 0 is
/// across, 1 is down.
pub proof fn law_pointers_start_where_they_are(k: KernelDevice, i: int)
    requires
        listed_once(k.axes@),
        0 <= i < k.axes@.len(),
    ensures
        ({
            let p = AbsolutePointer::start_spec(k);
            let a = k.axes@[i];
            &&& !p.changed
            &&& a.code == 0 ==> p.x == Some(a.value) && p.x_range == Some((a.minimum, a.maximum))
            &&& a.code == 1 ==> p.y == Some(a.value) && p.y_range == Some((a.minimum, a.maximum))
            &&& !lists(k.axes@, 0) ==> p.x is None && p.x_range is None
            &&& !lists(k.axes@, 1) ==> p.y is None && p.y_range is None
        }),
{
    law_axes_are_found_by_their_code(k.axes@, i, 0);
    law_axes_are_found_by_their_code(k.axes@, i, 1);
}

/// A pad starts where the kernel says its rings (8 and 6) and strips (3 and 4)
/// are; nothing has moved yet.
pub proof fn law_pads_start_where_they_are(k: KernelDevice, vertical: bool, horizontal: bool, i: int)
    requires
        listed_once(k.axes@),
        0 <= i < k.axes@.len(),
    ensures
        ({
            let p = PadState::start_spec(k, vertical, horizontal);
            let a = k.axes@[i];
            let range = Some((a.minimum, a.maximum));
            &&& p.first_dial is None && p.second_dial is None && !p.lifted
            &&& !p.first_ring.changed && !p.second_ring.changed && !p.first_strip.changed
                && !p.second_strip.changed
            &&& p.hi_res_vertical == vertical && p.hi_res_horizontal == horizontal
            &&& a.code == 8 ==> p.first_ring.value == a.value && p.first_ring.range == range
            &&& a.code == 6 ==> p.second_ring.value == a.value && p.second_ring.range == range
            &&& a.code == 3 ==> p.first_strip.value == a.value && p.first_strip.range == range
            &&& a.code == 4 ==> p.second_strip.value == a.value && p.second_strip.range == range
        }),
{
    law_axes_are_found_by_their_code(k.axes@, i, 8);
    law_axes_are_found_by_their_code(k.axes@, i, 6);
    law_axes_are_found_by_their_code(k.axes@, i, 3);
    law_axes_are_found_by_their_code(k.axes@, i, 4);
}

/// A touch device starts with nothing in touch, each slot where the kernel says
/// its contact is, and with the tolerance that udev gives, or else the kernel.
pub proof fn law_touch_devices_start_where_their_contacts_are(
    t: TouchState,
    k: KernelDevice,
    s: Snapshot,
    top: bool,
    x_fuzz: Option<i32>,
    y_fuzz: Option<i32>,
    i: int,
    slot: int,
)
    requires
        t.is_start(k, s, top, x_fuzz, y_fuzz),
        listed_once(k.axes@),
        0 <= i < k.axes@.len(),
        0 <= slot < t.slots@.len(),
    ensures
        ({
            let a = k.axes@[i];
            let c = t.slots@[slot];
            &&& !c.active && !c.reported && !c.dirty && c.seat_slot is None
            &&& lists(k.axes@, 0x2f) && s.slot_x is Some && slot < s.slot_x->0@.len() ==> c.x
                == s.slot_x->0@[slot]
            &&& lists(k.axes@, 0x2f) && s.slot_y is Some && slot < s.slot_y->0@.len() ==> c.y
                == s.slot_y->0@[slot]
            &&& !lists(k.axes@, 0x2f) && slot == 0 && a.code == 0 ==> c.x == a.value
            &&& !lists(k.axes@, 0x2f) && slot == 0 && a.code == 1 ==> c.y == a.value
            &&& t.current_slot == 0 && t.is_topbuttonpad == top
            &&& t.has_mt == lists(k.axes@, 0x39)
            &&& t.protocol_a == (lists(k.axes@, 0x39) && !lists(k.axes@, 0x2f))
            &&& a.code == 0x2f && 0 <= a.maximum - a.minimum < 256 ==> t.slots@.len() == a.maximum
                - a.minimum + 1
            &&& a.code == 0 ==> t.motion.x_range == Some((a.minimum, a.maximum))
            &&& a.code == 1 ==> t.motion.y_range == Some((a.minimum, a.maximum))
            &&& x_fuzz is Some && x_fuzz->0 >= 0 ==> t.x_fuzz == x_fuzz->0
            &&& y_fuzz is Some && y_fuzz->0 >= 0 ==> t.y_fuzz == y_fuzz->0
            &&& x_fuzz is None && a.code == 0x35 ==> t.x_fuzz == a.fuzz
            &&& y_fuzz is None && a.code == 0x36 ==> t.y_fuzz == a.fuzz
        }),
{
    reveal(TouchState::is_start);
    law_axes_are_found_by_their_code(k.axes@, i, 0);
    law_axes_are_found_by_their_code(k.axes@, i, 1);
    law_axes_are_found_by_their_code(k.axes@, i, 0x2f);
    law_axes_are_found_by_their_code(k.axes@, i, 0x39);
    law_axes_are_found_by_their_code(k.axes@, i, 0x35);
    law_axes_are_found_by_their_code(k.axes@, i, 0x36);
}

/// A tablet starts with its tool where the kernel says it is: 0 and 1 are the
/// position, 0x18 the pressure, 0x19 the distance, 0x1a and 0x1b the tilt, 2 or
/// 0x34 the rotation, 8 the slider, 0x30 and 0x31 the size.
pub proof fn law_tablets_start_where_their_axes_are(
    t: TabletState,
    k: KernelDevice,
    s: Snapshot,
    is_tablet: bool,
    tilt_disabled: bool,
    mix: AxisMix,
    i: int,
)
    requires
        t.is_start(k, s, is_tablet, tilt_disabled, mix),
        listed_once(k.axes@),
        0 <= i < k.axes@.len(),
    ensures
        ({
            let a = k.axes@[i];
            let range = Some((a.minimum, a.maximum));
            &&& !t.has.size && a.code == 0 ==> t.axes.x == a.value
            &&& !t.has.size && a.code == 1 ==> t.axes.y == a.value
            &&& a.code == 0x18 ==> t.axes.pressure == a.value && t.pressure.range == range
            &&& a.code == 0x19 ==> t.axes.distance == a.value && t.distance_range == range
            &&& a.code == 0x1a ==> t.axes.tilt_x == a.value
            &&& a.code == 0x1b ==> t.axes.tilt_y == a.value
            &&& (a.code == 2 || a.code == 0x34) && !(lists(k.axes@, 2) && lists(k.axes@, 0x34))
                ==> t.axes.rotation == a.value
            &&& a.code == 8 ==> t.axes.slider == a.value
            &&& a.code == 0x30 ==> t.axes.size_major == a.value
            &&& a.code == 0x31 ==> t.axes.size_minor == a.value
            &&& t.last == t.axes && !t.axes_changed && t.mix == mix
            &&& !t.prox.in_proximity && t.prox.tool is None && t.prox.timer_enabled
        }),
{
    reveal(TabletState::is_start);
    law_axes_are_found_by_their_code(k.axes@, i, 0);
    law_axes_are_found_by_their_code(k.axes@, i, 1);
    law_axes_are_found_by_their_code(k.axes@, i, 0x18);
    law_axes_are_found_by_their_code(k.axes@, i, 0x19);
    law_axes_are_found_by_their_code(k.axes@, i, 0x1a);
    law_axes_are_found_by_their_code(k.axes@, i, 0x1b);
    law_axes_are_found_by_their_code(k.axes@, i, 8);
    law_axes_are_found_by_their_code(k.axes@, i, 0x30);
    law_axes_are_found_by_their_code(k.axes@, i, 0x31);
    let code = k.axes@[i].code;
    if (code == 2 || code == 0x34) && !(lists(k.axes@, 2) && lists(k.axes@, 0x34)) {
        lemma_either(k.axes@, k.axes@.len() as int, i, 2, 0x34);
    }
}

/// A tablet senses what it has axes for; tilt takes both, and is not believed
/// where quirks say so.
pub proof fn law_tablets_sense_what_they_have(
    t: TabletState,
    k: KernelDevice,
    s: Snapshot,
    is_tablet: bool,
    tilt_disabled: bool,
    mix: AxisMix,
)
    requires
        t.is_start(k, s, is_tablet, tilt_disabled, mix),
    ensures
        t.has.pressure == k.absolute@.contains(0x18),
        t.has.distance == k.absolute@.contains(0x19),
        t.has.tilt == (!tilt_disabled && k.absolute@.contains(0x1a) && k.absolute@.contains(0x1b)),
        t.has.rotation == (k.absolute@.contains(2) || k.absolute@.contains(0x34)),
        t.has.slider == k.absolute@.contains(8),
        t.has.wheel == k.relative@.contains(8),
        t.has.size == (k.absolute@.contains(0x30) && k.absolute@.contains(0x31)),
{
    reveal(TabletState::is_start);
}

/// A tool whose key is down as the tablet is opened is about to come near, and
/// it is the tool that its key says.
pub proof fn law_tools_may_be_there_already(
    t: TabletState,
    k: KernelDevice,
    s: Snapshot,
    tilt_disabled: bool,
    mix: AxisMix,
    key: u16,
)
    requires
        t.is_start(k, s, true, tilt_disabled, mix),
        !t.has.size,
        s.keys_down is Some,
        s.keys_down->0@.contains(key),
        forall|other: u16|
            0x140 <= other <= 0x147 && other != key ==> !#[trigger] s.keys_down->0@.contains(other),
        0x140 <= key <= 0x147 && key != 0x145,
    ensures
        t.prox.pending == Some(true),
        t.active_tool_keys@ == seq![key],
        t.identity.tool_type == (if key <= 0x144 {
            key - 0x140 + 1
        } else {
            key - 0x140
        }),
        !t.tip.down && t.tip.pending is None,
{
    reveal(TabletState::is_start);
    let keys = s.keys_down->0@;
    assert(0x140 != key ==> !keys.contains(0x140));
    assert(0x141 != key ==> !keys.contains(0x141));
    assert(0x142 != key ==> !keys.contains(0x142));
    assert(0x143 != key ==> !keys.contains(0x143));
    assert(0x144 != key ==> !keys.contains(0x144));
    assert(0x146 != key ==> !keys.contains(0x146));
    assert(0x147 != key ==> !keys.contains(0x147));
}

/// A totem whose contact (0x39, or the first of the slots) is there as the
/// tablet is opened is about to come near, with its tip down, where its contact
/// is.
pub proof fn law_totems_may_be_there_already(
    t: TabletState,
    k: KernelDevice,
    s: Snapshot,
    tilt_disabled: bool,
    mix: AxisMix,
)
    requires
        t.is_start(k, s, true, tilt_disabled, mix),
        t.has.size,
        listed_once(k.axes@),
        lists(k.axes@, 0x2f),
        s.slot_ids is Some && s.slot_ids->0@.len() > 0,
        s.slot_x is Some && s.slot_x->0@.len() > 0,
        s.slot_y is Some && s.slot_y->0@.len() > 0,
    ensures
        s.slot_ids->0@[0] >= 0 ==> t.identity.tool_type == 8 && t.prox.pending == Some(true)
            && t.tip.down && t.tip.pending == Some(true) && t.active_tool_keys@.len() == 0,
        s.slot_ids->0@[0] < 0 && s.keys_down is None ==> t.prox.pending is None && !t.tip.down,
        t.axes.x == s.slot_x->0@[0],
        t.axes.y == s.slot_y->0@[0],
{
    reveal(TabletState::is_start);
    law_axes_are_found_by_their_code(k.axes@, 0, 0x2f);
}

/// Where no tool's key is down nothing comes near by itself.
pub proof fn law_tablets_start_empty(
    t: TabletState,
    k: KernelDevice,
    s: Snapshot,
    tilt_disabled: bool,
    mix: AxisMix,
)
    requires
        t.is_start(k, s, true, tilt_disabled, mix),
        !t.has.size,
        s.keys_down is None || forall|key: u16|
            0x140 <= key <= 0x147 ==> !#[trigger] s.keys_down->0@.contains(key),
    ensures
        t.prox.pending is None && t.active_tool_keys@.len() == 0 && t.tip.pending is None
            && !t.tip.down,
{
    reveal(TabletState::is_start);
    if s.keys_down is Some {
        let keys = s.keys_down->0@;
        assert(!keys.contains(0x140) && !keys.contains(0x141) && !keys.contains(0x142)
            && !keys.contains(0x143) && !keys.contains(0x144) && !keys.contains(0x146)
            && !keys.contains(0x147));
    } else {
        assert(crate::backend::start::keys_down(s) =~= Seq::<u16>::empty());
    }
}

proof fn lemma_buttons_among(codes: Seq<u16>, n: int, code: u16)
    requires
        0 <= n <= 12,
    ensures
        buttons_among(codes, n).contains(code) <==> codes.contains(code) && exists|j: int|
            0 <= j < n && #[trigger] button_candidate(j) == code,
    decreases n,
{
    if n > 0 {
        lemma_buttons_among(codes, n - 1, code);
        let rest = buttons_among(codes, n - 1);
        let all = buttons_among(codes, n);
        let last = button_candidate(n - 1);
        if codes.contains(last) {
            assert(all == rest.push(last));
            assert(all[rest.len() as int] == last);
            if rest.contains(code) {
                let x = choose|x: int| 0 <= x < rest.len() && rest[x] == code;
                assert(all[x] == code);
            }
            if all.contains(code) && code != last {
                let x = choose|x: int| 0 <= x < all.len() && all[x] == code;
                assert(rest[x] == code);
            }
        }
        if exists|j: int| 0 <= j < n && #[trigger] button_candidate(j) == code {
            let j = choose|j: int| 0 <= j < n && #[trigger] button_candidate(j) == code;
            if j < n - 1 {
                assert(exists|j: int| 0 <= j < n - 1 && #[trigger] button_candidate(j) == code);
            }
        }
    }
}

proof fn lemma_in_common(a: Seq<u16>, b: Seq<u16>, code: u16)
    ensures
        common(a, b).contains(code) <==> a.contains(code) && b.contains(code),
    decreases a.len(),
{
    if a.len() > 0 {
        let head = a.drop_last();
        lemma_in_common(head, b, code);
        let rest = common(head, b);
        let all = common(a, b);
        assert(a =~= head.push(a.last()));
        if a.contains(code) && code != a.last() {
            let x = choose|x: int| 0 <= x < a.len() && a[x] == code;
            assert(head[x] == code);
        }
        if head.contains(code) {
            let x = choose|x: int| 0 <= x < head.len() && head[x] == code;
            assert(a[x] == code);
        }
        assert(a[a.len() - 1] == a.last());
        if b.contains(a.last()) {
            assert(all == rest.push(a.last()));
            assert(all[rest.len() as int] == a.last());
            if rest.contains(code) {
                let x = choose|x: int| 0 <= x < rest.len() && rest[x] == code;
                assert(all[x] == code);
            }
            if all.contains(code) && code != a.last() {
                let x = choose|x: int| 0 <= x < all.len() && all[x] == code;
                assert(rest[x] == code);
            }
        }
    }
}

/// The buttons of a tablet's tool are those among the stylus buttons (0x149,
/// 0x14b, 0x14c), 0x100 and the buttons of a mouse (0x110 to 0x117) that the
/// tablet has. Those that are down already are ignored.
pub proof fn law_buttons_may_be_down_already(
    t: TabletState,
    k: KernelDevice,
    s: Snapshot,
    is_tablet: bool,
    tilt_disabled: bool,
    mix: AxisMix,
    code: u16,
)
    requires
        t.is_start(k, s, is_tablet, tilt_disabled, mix),
    ensures
        ({
            let may = code == 0x14b || code == 0x14c || code == 0x149 || code == 0x100 || 0x110
                <= code <= 0x117;
            &&& t.buttons@.contains(code as u32) <==> may && k.keys@.contains(code)
            &&& t.ignored_buttons@.contains(code) <==> may && k.keys@.contains(code) && s.keys_down
                is Some && s.keys_down->0@.contains(code)
            &&& t.held_buttons@.len() == 0 && t.pending_buttons@.len() == 0
        }),
{
    reveal(TabletState::is_start);
    let buttons = buttons_among(k.keys@, 12);
    lemma_buttons_among(k.keys@, 12, code);
    lemma_in_common(buttons, crate::backend::start::keys_down(s), code);
    assert(button_candidate(0) == 0x14b && button_candidate(1) == 0x14c && button_candidate(2)
        == 0x149 && button_candidate(3) == 0x100);
    if 0x110 <= code <= 0x117 {
        assert(button_candidate(code - 0x110 + 4) == code);
    }
    if buttons.contains(code) {
        let x = choose|x: int| 0 <= x < buttons.len() && buttons[x] == code;
        assert(t.buttons@[x] == code);
    }
    if t.buttons@.contains(code as u32) {
        let x = choose|x: int| 0 <= x < t.buttons@.len() && t.buttons@[x] == code as u32;
        assert(buttons[x] == code);
    }
}

// ---------------------------------------------------------------------------
// Descriptions
// ---------------------------------------------------------------------------
/// A description has the identity that the device gives itself, the range and
/// resolution of its axes, and the number of its slots.
pub proof fn law_descriptions_are_of_the_device(
    e: Evidence<'_>,
    d: LibinputDevice,
    codes: Seq<u16>,
    switches: Seq<u16>,
    names: Names,
    axes: Seq<AxisInfo>,
    out: LibinputDevice,
    i: int,
)
    requires
        e.is_description(d, codes, switches, names, axes, out),
        slots_fit(e.kernel.axes@),
        listed_once(e.kernel.axes@),
        0 <= i < e.kernel.axes@.len(),
    ensures
        ({
            let k = *e.kernel;
            let a = k.axes@[i];
            let range = Some((a.minimum, a.maximum));
            let resolution = if a.resolution > 0 {
                Some(a.resolution)
            } else {
                None
            };
            &&& out.vendor_id == k.id.vendor && out.product_id == k.id.product && out.bus_type
                == k.id.bus_type
            &&& a.code == 0 ==> out.abs_x_range == range && out.abs_x_resolution == resolution
            &&& a.code == 1 ==> out.abs_y_range == range && out.abs_y_resolution == resolution
            &&& a.code == 0x35 && !lists(k.axes@, 0) ==> out.abs_x_range == range
                && out.abs_x_resolution == resolution
            &&& a.code == 0x36 && !lists(k.axes@, 1) ==> out.abs_y_range == range
                && out.abs_y_resolution == resolution
            &&& a.code == 0x2f && a.maximum >= a.minimum ==> out.mt_slot_count == a.maximum
                - a.minimum + 1
            &&& !lists(k.axes@, 0x2f) ==> out.mt_slot_count == 0
            &&& out.event_codes@ == codes && out.switch_codes@ == switches && out.axes@ == axes
            &&& out.sysname == names.sysname && out.output_name == names.output_name
                && out.udev_group == names.udev_group
            &&& out.id == d.id && out.seat == d.seat && out.group == d.group && out.refcount
                == d.refcount
        }),
{
    reveal(Evidence::is_description);
    law_axes_are_found_by_their_code(e.kernel.axes@, i, 0);
    law_axes_are_found_by_their_code(e.kernel.axes@, i, 1);
    law_axes_are_found_by_their_code(e.kernel.axes@, i, 0x35);
    law_axes_are_found_by_their_code(e.kernel.axes@, i, 0x36);
    law_axes_are_found_by_their_code(e.kernel.axes@, i, 0x2f);
}

/// A device can do what its class says. Only touchpads that tell their fingers
/// apart make gestures; a totem is a tablet, whatever it announces.
pub proof fn law_capabilities_follow_the_class(
    e: Evidence<'_>,
    d: LibinputDevice,
    codes: Seq<u16>,
    switches: Seq<u16>,
    names: Names,
    axes: Seq<AxisInfo>,
    out: LibinputDevice,
)
    requires
        e.is_description(d, codes, switches, names, axes, out),
    ensures
        out.has_pointer == e.class.is_pointer,
        out.has_keyboard == e.class.is_keyboard,
        out.has_switch == e.class.has_switch,
        out.has_tablet_pad == e.class.has_tablet_pad,
        out.has_touch == (e.class.has_touch && !e.quirks.dell_canvas_totem),
        out.has_tablet == (e.class.has_tablet || e.quirks.dell_canvas_totem),
        out.has_gesture == (e.class.is_touchpad && !e.kernel.props.semi_mt),
        out.dwt_available == e.class.is_touchpad,
        out.dwtp_available == e.class.is_touchpad,
        out.area_available == (e.class.has_tablet && !e.kernel.props.direct),
        out.send_events_modes == (if e.class.is_touchpad && !e.around.external_touchpad
            && e.kernel.id.vendor != 0x056a {
            3u32
        } else {
            1u32
        }),
        out.click_methods == (if e.class.is_touchpad && e.kernel.props.buttonpad {
            3u32
        } else {
            0u32
        }),
        !e.class.has_tablet_pad ==> out.left_handed_available == e.class.is_pointer,
        e.class.has_tablet_pad ==> out.left_handed_available == e.pad.reversible,
{
    reveal(Evidence::is_description);
}

/// How a device scrolls by default: a touchpad by two fingers if it has room
/// for two contacts and at its edge if not; a mouse without a wheel by its
/// middle button; everything else not at all. The middle button (0x112) comes
/// before the side button (0x113).
pub proof fn law_scrolling_defaults(
    e: Evidence<'_>,
    d: LibinputDevice,
    codes: Seq<u16>,
    switches: Seq<u16>,
    names: Names,
    axes: Seq<AxisInfo>,
    out: LibinputDevice,
)
    requires
        e.is_description(d, codes, switches, names, axes, out),
        slots_fit(e.kernel.axes@),
    ensures
        ({
            let r = e.kernel.relative@;
            let moves = r.contains(0) || r.contains(1);
            let wheel = r.contains(6) || r.contains(8) || r.contains(11) || r.contains(12);
            let buttons = any_between(e.kernel.keys@, 0x100, 0x109) || any_between(
                e.kernel.keys@,
                0x110,
                0x117,
            );
            let plain = e.class.is_pointer && !e.class.has_tablet && !e.class.has_tablet_pad;
            &&& out.supports_button_scroll == (plain && moves && buttons)
            &&& out.scroll_method == out.scroll_default_method && out.scroll_button
                == out.scroll_default_button
            &&& e.class.is_touchpad && e.kernel.axes_known && out.touch_count >= 2
                ==> out.scroll_method == 1
            &&& e.class.is_touchpad && out.touch_count < 2 ==> out.scroll_method == 2
            &&& !e.class.is_touchpad && out.supports_button_scroll && !wheel && codes.contains(
                0x112,
            ) && !e.quirks.lenovo_scrollpoint ==> out.scroll_method == 4
            &&& !e.class.is_touchpad && (!out.supports_button_scroll || wheel || !codes.contains(
                0x112,
            ) || e.quirks.lenovo_scrollpoint) ==> out.scroll_method == 0
            &&& out.supports_button_scroll && codes.contains(0x112) ==> out.scroll_button == 0x112
            &&& out.supports_button_scroll && !codes.contains(0x112) && codes.contains(0x113)
                ==> out.scroll_button == 0x113
            &&& !out.supports_button_scroll ==> out.scroll_button == 0
            &&& out.accel_available == (e.class.is_touchpad || moves || out.has_tablet)
            &&& !e.class.is_touchpad ==> out.tap_finger_count == 0
            &&& e.class.is_touchpad && 0 <= out.touch_count <= 3 ==> out.tap_finger_count
                == out.touch_count
            &&& e.class.is_touchpad && out.touch_count > 3 ==> out.tap_finger_count == 3
        }),
{
    reveal(Evidence::is_description);
}

/// Left (0x110) and right (0x111) together can be made a middle button
/// (0x112): by default where a mouse has none, never where it is not asked for
/// on a clickpad, and not where one of the two is missing.
pub proof fn law_middle_emulation_defaults(
    e: Evidence<'_>,
    d: LibinputDevice,
    codes: Seq<u16>,
    switches: Seq<u16>,
    names: Names,
    axes: Seq<AxisInfo>,
    out: LibinputDevice,
)
    requires
        e.is_description(d, codes, switches, names, axes, out),
    ensures
        ({
            let both = codes.contains(0x110) && codes.contains(0x111);
            let mouse = e.class.is_pointer && !e.class.is_touchpad && !out.has_tablet
                && !out.has_tablet_pad;
            &&& out.middle_emulation == out.middle_emulation_default
            &&& mouse && both && codes.contains(0x112) ==> out.middle_emulation_available
                && !out.middle_emulation
            &&& mouse && both && !codes.contains(0x112) ==> !out.middle_emulation_available
                && out.middle_emulation
            &&& mouse && !both ==> !out.middle_emulation_available && !out.middle_emulation
            &&& e.class.is_touchpad && e.kernel.props.buttonpad ==> out.middle_emulation_available
                && !out.middle_emulation
            &&& e.class.is_touchpad && !e.kernel.props.buttonpad && both && !codes.contains(0x112)
                ==> !out.middle_emulation_available && out.middle_emulation
            &&& !e.class.is_touchpad && !mouse ==> !out.middle_emulation_available
                && !out.middle_emulation
        }),
{
    reveal(Evidence::is_description);
}

/// How many contacts a touch device tells apart: as many as it has slots, ten
/// for a touchscreen that lists contacts without slots, one without any list.
pub proof fn law_contacts_are_counted(
    e: Evidence<'_>,
    d: LibinputDevice,
    codes: Seq<u16>,
    switches: Seq<u16>,
    names: Names,
    axes: Seq<AxisInfo>,
    out: LibinputDevice,
    i: int,
)
    requires
        e.is_description(d, codes, switches, names, axes, out),
        slots_fit(e.kernel.axes@),
        listed_once(e.kernel.axes@),
        e.kernel.axes_known,
        0 <= i < e.kernel.axes@.len(),
    ensures
        ({
            let k = *e.kernel;
            let a = k.axes@[i];
            let touches = out.has_touch || e.class.is_touchpad;
            let contacts = k.absolute@.contains(0x35) && k.absolute@.contains(0x36);
            &&& !touches ==> out.touch_count == 0
            &&& touches && a.code == 0x2f ==> out.touch_count == a.maximum - a.minimum + 1
            &&& touches && !lists(k.axes@, 0x2f) && out.has_touch && contacts ==> out.touch_count
                == 10
            &&& touches && !lists(k.axes@, 0x2f) && !(out.has_touch && contacts)
                ==> out.touch_count == 1
        }),
{
    reveal(Evidence::is_description);
    law_axes_are_found_by_their_code(e.kernel.axes@, i, 0x2f);
}

proof fn lemma_codes_between(codes: Seq<u16>, low: int, high: int)
    requires
        0 <= low <= high <= 0xffff,
    ensures
        forall|c: u16|
            #[trigger] codes_between(codes, low, high).contains(c) <==> low <= c < high
                && codes.contains(c),
        forall|a: int, b: int|
            0 <= a < b < codes_between(codes, low, high).len() ==> #[trigger] codes_between(
                codes,
                low,
                high,
            )[a] < #[trigger] codes_between(codes, low, high)[b],
    decreases high - low,
{
    if low < high {
        lemma_codes_between(codes, low, high - 1);
        let rest = codes_between(codes, low, high - 1);
        let all = codes_between(codes, low, high);
        let last = (high - 1) as u16;
        if codes.contains(last) {
            assert(all == rest.push(last));
            assert(all[rest.len() as int] == last);
            assert forall|c: u16| #[trigger] all.contains(c) <==> low <= c < high
                && codes.contains(c) by {
                if rest.contains(c) {
                    let x = choose|x: int| 0 <= x < rest.len() && rest[x] == c;
                    assert(all[x] == c);
                }
                if all.contains(c) && c != last {
                    let x = choose|x: int| 0 <= x < all.len() && all[x] == c;
                    assert(rest[x] == c);
                }
            }
            assert forall|a: int, b: int| 0 <= a < b < all.len() implies #[trigger] all[a]
                < #[trigger] all[b] by {
                assert(all[a] == rest[a]);
                assert(rest.contains(rest[a]));
                if b < rest.len() {
                    assert(all[b] == rest[b]);
                }
            }
        }
    }
}

/// A pad that is not known otherwise has as buttons what it has of 0x100 to
/// 0x109, 0x126 and 0x127, 0x130 to 0x135 and 0x110 to 0x116; it has a dial, a
/// ring or a strip for each axis that can be one, and one group of modes for
/// them all.
pub proof fn law_pads_have_what_the_kernel_lists(
    e: Evidence<'_>,
    d: LibinputDevice,
    codes: Seq<u16>,
    switches: Seq<u16>,
    names: Names,
    axes: Seq<AxisInfo>,
    out: LibinputDevice,
    code: u16,
)
    requires
        e.is_description(d, codes, switches, names, axes, out),
        e.class.has_tablet_pad,
        e.pad.buttons@.len() == 0,
    ensures
        ({
            let k = *e.kernel;
            let may = 0x100 <= code <= 0x109 || code == 0x126 || code == 0x127 || 0x130 <= code
                <= 0x135 || 0x110 <= code <= 0x116;
            &&& out.tablet_pad_button_codes@.contains(code) <==> may && codes.contains(code)
            &&& out.tablet_pad_num_dials == (if k.relative@.contains(8) || k.relative@.contains(7) {
                1int
            } else {
                0
            }) + (if k.relative@.contains(6) {
                1int
            } else {
                0
            })
            &&& out.tablet_pad_num_rings == (if k.absolute@.contains(8) {
                1int
            } else {
                0
            }) + (if k.absolute@.contains(6) {
                1int
            } else {
                0
            })
            &&& out.tablet_pad_num_strips == (if k.absolute@.contains(3) {
                1int
            } else {
                0
            }) + (if k.absolute@.contains(4) {
                1int
            } else {
                0
            })
            &&& out.tablet_pad_mode_groups@.len() == 1
            &&& out.tablet_pad_mode_groups@[0].index == 0
                && out.tablet_pad_mode_groups@[0].current_mode == 0
            &&& out.tablet_pad_mode_groups@[0].num_modes == (if k.id.vendor == 0x056a
                && k.id.product == 0x034e {
                4u32
            } else {
                1u32
            })
        }),
{
    reveal(Evidence::is_description);
    assert(known_buttons(e.pad.buttons@, codes).len() == 0);
    let a = codes_between(codes, 0x100, 0x10a);
    let b = codes_between(codes, 0x126, 0x128);
    let c = codes_between(codes, 0x130, 0x136);
    let f = codes_between(codes, 0x110, 0x117);
    lemma_codes_between(codes, 0x100, 0x10a);
    lemma_codes_between(codes, 0x126, 0x128);
    lemma_codes_between(codes, 0x130, 0x136);
    lemma_codes_between(codes, 0x110, 0x117);
    lemma_added(a, b, code);
    lemma_added(a + b, c, code);
    lemma_added(a + b + c, f, code);
    assert(out.tablet_pad_button_codes@ == a + b + c + f);
}

proof fn lemma_added(a: Seq<u16>, b: Seq<u16>, code: u16)
    ensures
        (a + b).contains(code) <==> a.contains(code) || b.contains(code),
{
    if a.contains(code) {
        let x = choose|x: int| 0 <= x < a.len() && a[x] == code;
        assert((a + b)[x] == code);
    }
    if b.contains(code) {
        let x = choose|x: int| 0 <= x < b.len() && b[x] == code;
        assert((a + b)[a.len() + x] == code);
    }
    if (a + b).contains(code) {
        let x = choose|x: int| 0 <= x < (a + b).len() && (a + b)[x] == code;
        if x < a.len() {
            assert(a[x] == code);
        } else {
            assert(b[x - a.len()] == code);
        }
    }
}

/// The control with number `n` belongs to a group of `count` controls exactly
/// if `n` is less than `count`.
pub proof fn law_masks_have_a_bit_for_each_control(count: int, n: u32)
    requires
        0 <= count <= 32,
        n < 32,
    ensures
        (low_mask(count) >> n) & 1 == (if n < count {
            1u32
        } else {
            0u32
        }),
{
    if count < 32 {
        let c = count as u32;
        assert(1u32 << c >= 1u32) by (bit_vector)
            requires
                c < 32,
        ;
        let mask = low_mask(count);
        assert(mask == (1u32 << c) - 1);
        assert(((((1u32 << c) - 1) as u32) >> n) & 1u32 == (if n < c {
            1u32
        } else {
            0u32
        })) by (bit_vector)
            requires
                c < 32,
                n < 32,
        ;
    } else {
        assert((0xffff_ffffu32 >> n) & 1u32 == 1u32) by (bit_vector)
            requires
                n < 32,
        ;
    }
}

// ---------------------------------------------------------------------------
// Classes
// ---------------------------------------------------------------------------
/// What a device is taken for that udev says nothing of: keys below 0x100 make
/// a keyboard, a pen's key (0x140 to 0x144) a tablet; a position makes a
/// touchpad with a finger's key (0x145) or where the kernel calls it a pointer,
/// and else a touchscreen with a touch key (0x14a); movement or a wheel make a
/// pointer; lid, tablet mode and keypad slide make a switch.
pub proof fn law_devices_are_taken_for_what_they_have(k: KernelDevice, tags: UdevTags)
    requires
        !tags.keyboard && !tags.touchpad && !tags.touchscreen && !tags.tablet && !tags.tablet_pad
            && !tags.switch && !tags.mouse && !tags.pointing_stick,
    ensures
        ({
            let class = k.class(tags);
            let keys = k.keys@;
            let abs = k.absolute@;
            let rel = k.relative@;
            let pen = keys.contains(0x140) || keys.contains(0x141) || keys.contains(0x142)
                || keys.contains(0x143) || keys.contains(0x144);
            let position = (abs.contains(0) && abs.contains(1)) || (abs.contains(0x35)
                && abs.contains(0x36));
            let pad_like = k.props.pointer || k.props.buttonpad || keys.contains(0x145);
            &&& class.is_keyboard <==> exists|i: int|
                0 <= i < keys.len() && #[trigger] keys[i] <= 0xff
            &&& class.has_tablet <==> pen
            &&& class.is_touchpad <==> !pen && position && pad_like
            &&& class.has_touch <==> !pen && position && !pad_like && keys.contains(0x14a)
            &&& class.has_switch <==> k.switches@.contains(0) || k.switches@.contains(1)
                || k.switches@.contains(10)
            &&& class.is_pointer <==> class.is_touchpad || rel.contains(0) || rel.contains(1)
                || rel.contains(6) || rel.contains(8) || rel.contains(11) || rel.contains(12)
            &&& class.has_tablet_pad && k.id.vendor != 0x056a ==> keys.contains(0x100) && !pen
                && !class.is_keyboard && !keys.contains(0x145) && !keys.contains(0x14a)
            &&& keys.contains(0x100) && !pen && !class.is_keyboard && !keys.contains(0x145)
                && !keys.contains(0x14a) && k.has_absolute_events ==> class.has_tablet_pad
        }),
{
    let keys = k.keys@;
    if any_between(keys, 0, 0xff) {
        let i = choose|i: int| 0 <= i < keys.len() && 0 <= #[trigger] keys[i] <= 0xff;
        assert(keys[i] <= 0xff);
    }
    if exists|i: int| 0 <= i < keys.len() && #[trigger] keys[i] <= 0xff {
        let i = choose|i: int| 0 <= i < keys.len() && #[trigger] keys[i] <= 0xff;
        assert(0 <= keys[i] <= 0xff);
    }
}

/// Axes are refused whose maximum is not above their minimum, unless they are
/// of a kind that needs no range, pairs of which only one has a resolution, and
/// coordinates of which only one is there.
pub proof fn law_senseless_axes_are_refused(axes: Seq<AxisInfo>, i: int, j: int)
    requires
        listed_once(axes),
        axes_are_valid(axes),
        0 <= i < axes.len() && 0 <= j < axes.len(),
    ensures
        axes[i].code == 0 || axes[i].code == 1 || axes[i].code == 0x35 || axes[i].code == 0x36
            || axes[i].code == 0x18 ==> axes[i].minimum < axes[i].maximum,
        axes[i].code == 0 && axes[j].code == 1 ==> (axes[i].resolution == 0) == (axes[j].resolution
            == 0),
        axes[i].code == 0x35 && axes[j].code == 0x36 ==> (axes[i].resolution == 0) == (
        axes[j].resolution == 0),
        axes[i].resolution >= 0,
        lists(axes, 0) == lists(axes, 1),
        lists(axes, 0) ==> lists(axes, 0x35) == lists(axes, 0x36),
{
    law_axes_are_found_by_their_code(axes, i, 1);
    law_axes_are_found_by_their_code(axes, i, 0x36);
    law_axes_are_found_by_their_code(axes, i, 0);
    law_axes_are_found_by_their_code(axes, j, 1);
    law_axes_are_found_by_their_code(axes, i, 0x35);
    law_axes_are_found_by_their_code(axes, j, 0x36);
}

/// Nothing is under way on a touch device that was just opened.
pub proof fn law_touch_devices_start_at_rest(
    t: TouchState,
    k: KernelDevice,
    s: Snapshot,
    top: bool,
    x_fuzz: Option<i32>,
    y_fuzz: Option<i32>,
)
    requires
        t.is_start(k, s, top, x_fuzz, y_fuzz),
    ensures
        t.contacts@.len() == 0 && t.report.tracking_id is None && t.report.x is None && t.report.y
            is None,
        !t.tap.touching && t.tap.fingers == 0 && t.tap.tap_fingers == 0 && !t.tap.emitted
            && t.tap.button_down is None && t.tap.release_since is None && !t.tap.drag_active,
        t.motion.last_x is None && t.motion.last_y is None && t.motion.dx == 0 && t.motion.dy == 0,
        t.click.button is None && t.click.device is None,
        !t.hold.active && !t.hold.blocked && t.hold.fingers == 0 && t.hold.started_at is None
            && !t.hold.contact_changed,
        !t.drag.active && !t.drag.button_down && t.drag.candidate_since is None
            && t.drag.release_since is None,
        !t.swipe.active && !t.pinch.active && !t.scroll.vertical && !t.scroll.horizontal,
        !t.contacts_changed && t.centroid is None,
        !t.arbitration.suppressed && !t.arbitration.tablet_was_active,
{
    reveal(TouchState::is_start);
}

/// What this library makes itself is known by its name.
pub proof fn law_own_devices_are_known(name: Seq<char>)
    ensures
        crate::text::contains(name, "virtual pointer"@) ==> crate::backend::probe::is_own_output(
            name,
        ),
        crate::text::contains(name, "libinput-rs"@) ==> crate::backend::probe::is_own_output(name),
        crate::backend::probe::is_own_output(name) ==> crate::text::contains(
            name,
            "virtual pointer"@,
        ) || crate::text::contains(name, "libinput-rs"@),
{
}

} // verus!
