//! Devices and tools that come and go, and what quirks make of a device.
use vstd::prelude::*;
use crate::backend::probe::{DeviceClass, InputProps, KernelDevice, UdevTags};
use crate::backend::tools::{
    known_tool, new_tool, tool_buttons, tool_index, tool_left, tool_takes_button, tools_with,
    LibinputTabletTool, ToolCapabilities,
};
use crate::api::context::LibinputContext;
use crate::api::lifecycle::without_id;
use crate::api::opening::{
    contact_fuzz_spec, quirk_facts_spec, tracking_quirks_spec, udev_type_spec,
};
use crate::api::seats::seat_place;
use crate::backend::live::TrackedDevice;
use crate::backend::mend::{believed, mended_prop, mended_props};
use crate::ffi_types::{DeviceId, LibinputDevice, LibinputEvent, LibinputEventType, LibinputSeat};
use crate::nodes::{is_event_name, is_quirk_name, precedes};
use crate::quirks::apply::{AppliedView, Disabled};
use crate::text::parsed;

verus! {

// ---------------------------------------------------------------------------
// Coming and going
// ---------------------------------------------------------------------------
proof fn lemma_without_id(ids: Seq<DeviceId>, id: DeviceId, other: DeviceId)
    ensures
        without_id(ids, id).contains(other) <==> ids.contains(other) && other != id,
    decreases ids.len(),
{
    if ids.len() > 0 {
        let head = ids.drop_last();
        lemma_without_id(head, id, other);
        let kept = without_id(head, id);
        let all = without_id(ids, id);
        assert(ids =~= head.push(ids.last()));
        assert(ids[ids.len() - 1] == ids.last());
        if ids.last() != id {
            assert(all == kept.push(ids.last()));
            assert(all[kept.len() as int] == ids.last());
            if kept.contains(other) {
                let i = choose|i: int| 0 <= i < kept.len() && kept[i] == other;
                assert(all[i] == other);
            }
            if all.contains(other) && other != ids.last() {
                let i = choose|i: int| 0 <= i < all.len() && all[i] == other;
                assert(kept[i] == other);
            }
        }
        if head.contains(other) {
            let i = choose|i: int| 0 <= i < head.len() && head[i] == other;
            assert(ids[i] == other);
        }
        if ids.contains(other) && other != ids.last() {
            let i = choose|i: int| 0 <= i < ids.len() && ids[i] == other;
            assert(head[i] == other);
        }
    }
}

/// A device that comes is announced, is among the devices, and counts once
/// more in its own seat; those that were there stay as they are.
pub proof fn law_devices_are_announced(
    ctx: LibinputContext,
    d: LibinputDevice,
    t: TrackedDevice,
    out: Seq<LibinputEvent>,
    after: LibinputContext,
    reported: Seq<LibinputEvent>,
    k: int,
    s: int,
)
    requires
        ctx.attached(d, t, out, after, reported),
        ctx.fits(d, t),
        0 <= k < ctx.registry@.len(),
        0 <= s < ctx.seats@.len(),
    ensures
        reported.len() == out.len() + 1 && reported.drop_last() == out,
        reported.last().device == d.id && reported.last().event_type
            == LibinputEventType::LIBINPUT_EVENT_DEVICE_ADDED,
        after.devices@.contains(d.id),
        after.registry@[d.id as int] == d && after.registry@[k] == ctx.registry@[k],
        after.backend.devices@.last() == t,
        after.backend.suspended == ctx.backend.suspended && after.backend.global_typing_time
            == ctx.backend.global_typing_time,
        after.event_queue == ctx.event_queue && after.tools == ctx.tools,
        s == d.seat ==> after.seats@[s].refcount == ctx.seats@[s].refcount + 1,
        s != d.seat ==> after.seats@[s] == ctx.seats@[s],
{
    reveal(LibinputContext::attached);
    assert(reported.drop_last() =~= out);
    assert(after.devices@[ctx.devices@.len() as int] == d.id);
}

/// A device that goes is said to be gone, and is not among the devices any
/// more; the others are.
pub proof fn law_departures_are_announced(
    ctx: LibinputContext,
    place: int,
    out: Seq<LibinputEvent>,
    after: LibinputContext,
    reported: Seq<LibinputEvent>,
    fd: i32,
    other: DeviceId,
)
    requires
        ctx.detached(place, out, after, reported, fd),
        0 <= place < ctx.backend.devices@.len(),
        other != ctx.backend.devices@[place].device,
    ensures
        ({
            let t = ctx.backend.devices@[place];
            &&& reported.len() == out.len() + 1 && reported.drop_last() == out
            &&& reported.last().device == t.device && reported.last().event_type
                == LibinputEventType::LIBINPUT_EVENT_DEVICE_REMOVED
            &&& !after.devices@.contains(t.device)
            &&& after.devices@.contains(other) == ctx.devices@.contains(other)
            &&& fd == t.fd
            &&& after.backend.devices@.len() == ctx.backend.devices@.len() - 1
            &&& forall|i: int|
                0 <= i < place ==> #[trigger] after.backend.devices@[i] == ctx.backend.devices@[i]
            &&& forall|i: int|
                place <= i < after.backend.devices@.len() ==> #[trigger] after.backend.devices@[i]
                    == ctx.backend.devices@[i + 1]
        }),
{
    reveal(LibinputContext::detached);
    let t = ctx.backend.devices@[place];
    assert(reported.drop_last() =~= out);
    lemma_without_id(ctx.devices@, t.device, t.device);
    lemma_without_id(ctx.devices@, t.device, other);
}

/// A seat is found by both of its names, and it is the first that has them.
pub proof fn law_seats_are_found_by_their_names(
    seats: Seq<LibinputSeat>,
    physical: Seq<char>,
    logical: Seq<char>,
    from: int,
)
    requires
        0 <= from <= seats.len(),
    ensures
        match seat_place(seats, physical, logical, from) {
            Some(i) => {
                &&& from <= i < seats.len()
                &&& seats[i].physical_name@ == physical && seats[i].logical_name@ == logical
                &&& forall|j: int|
                    from <= j < i ==> (#[trigger] seats[j]).physical_name@ != physical
                        || seats[j].logical_name@ != logical
            },
            None => forall|j: int|
                from <= j < seats.len() ==> (#[trigger] seats[j]).physical_name@ != physical
                    || seats[j].logical_name@ != logical,
        },
    decreases seats.len() - from,
{
    if from < seats.len() {
        law_seats_are_found_by_their_names(seats, physical, logical, from + 1);
    }
}

// ---------------------------------------------------------------------------
// Tools
// ---------------------------------------------------------------------------
/// Whether a tool is the one that came: of its kind, with its serial number,
/// and without one of the same tablet.
pub open spec fn is_the_tool(
    tool: LibinputTabletTool,
    device: DeviceId,
    serial: u64,
    tool_type: u32,
) -> bool {
    &&& tool.tool_type == tool_type
    &&& tool.serial == serial
    &&& serial == 0 ==> tool.device == device
}

proof fn lemma_known(
    tools: Seq<LibinputTabletTool>,
    device: DeviceId,
    serial: u64,
    tool_type: u32,
    from: int,
)
    requires
        0 <= from <= tools.len(),
    ensures
        match known_tool(tools, device, serial, tool_type, false, from) {
            Some(i) => from <= i < tools.len() && is_the_tool(tools[i], device, serial, tool_type),
            None => forall|i: int|
                from <= i < tools.len() ==> !is_the_tool(
                    #[trigger] tools[i],
                    device,
                    serial,
                    tool_type,
                ),
        },
    decreases tools.len() - from,
{
    if from < tools.len() {
        lemma_known(tools, device, serial, tool_type, from + 1);
    }
}

/// A tool that was here before is the same tool again, and a tool that was not
/// is a new one of its kind, serial number and tablet; no other tool changes.
pub proof fn law_tools_are_known_again(
    tools: Seq<LibinputTabletTool>,
    device: DeviceId,
    serial: u64,
    id: u64,
    tool_type: u32,
    has: ToolCapabilities,
    buttons: Seq<u32>,
    fixed: bool,
    k: int,
)
    requires
        tool_type != 2,
        0 <= k < tools.len(),
    ensures
        ({
            let (after, place) = tools_with(
                tools,
                device,
                serial,
                id,
                tool_type,
                has,
                buttons,
                fixed,
            );
            &&& 0 <= place < after.len()
            &&& is_the_tool(after[place], device, serial, tool_type)
            &&& after[place].device == device
            &&& place < tools.len() ==> after.len() == tools.len()
            &&& place == tools.len() ==> after.len() == tools.len() + 1 && after[place].tool_id
                == id && !after[place].in_proximity && after[place].refcount == 1
            &&& is_the_tool(tools[k], device, serial, tool_type) ==> place < tools.len()
            &&& k != place ==> after[k] == tools[k]
        }),
{
    reveal(tools_with);
    lemma_known(tools, device, serial, tool_type, 0);
}

/// A new tool can do what its tablet senses; mice and lenses turn where others
/// tilt. Only a pen's eraser can be a button.
pub proof fn law_new_tools_do_what_is_sensed(
    device: DeviceId,
    serial: u64,
    id: u64,
    tool_type: u32,
    has: ToolCapabilities,
    buttons: Seq<u32>,
    fixed: bool,
)
    ensures
        ({
            let tool = new_tool(device, serial, id, tool_type, has, buttons, fixed);
            let cursor = tool_type == 6 || tool_type == 7;
            &&& tool.serial == serial && tool.tool_id == id && tool.tool_type == tool_type
                && tool.device == device
            &&& tool.has.pressure == has.pressure && tool.has.distance == has.distance
                && tool.has.slider == has.slider && tool.has.wheel == has.wheel && tool.has.size
                == has.size
            &&& !cursor ==> tool.has.tilt == has.tilt && tool.has.rotation == has.rotation
            &&& cursor ==> !tool.has.tilt && tool.has.rotation == (has.rotation || has.tilt)
            &&& tool.eraser_button_modes == (if tool_type == 1 && !fixed {
                1u32
            } else {
                0u32
            })
            &&& tool.eraser_button_mode == 0 && tool.eraser_button == tool.default_eraser_button
        }),
{
}

/// Mice and lenses have the buttons of a mouse (0x110 to 0x117), a totem has
/// 0x100, other tools have the buttons of a stylus.
pub proof fn law_tools_have_buttons_of_their_kind(tool_type: u32, button: u32)
    ensures
        tool_type == 6 || tool_type == 7 ==> (tool_takes_button(tool_type, button) <==> 0x110
            <= button <= 0x117),
        tool_type == 8 ==> (tool_takes_button(tool_type, button) <==> button == 0x100),
        1 <= tool_type <= 5 ==> (tool_takes_button(tool_type, button) <==> button == 0x149 || button
            == 0x14b || button == 0x14c),
{
}

/// A tool's buttons are those of its tablet that its kind has.
pub proof fn law_tools_keep_their_buttons(buttons: Seq<u32>, tool_type: u32, button: u32)
    ensures
        tool_buttons(buttons, tool_type).contains(button) <==> buttons.contains(button)
            && tool_takes_button(tool_type, button),
    decreases buttons.len(),
{
    if buttons.len() > 0 {
        let head = buttons.drop_last();
        law_tools_keep_their_buttons(head, tool_type, button);
        let kept = tool_buttons(head, tool_type);
        let all = tool_buttons(buttons, tool_type);
        assert(buttons =~= head.push(buttons.last()));
        assert(buttons[buttons.len() - 1] == buttons.last());
        if tool_takes_button(tool_type, buttons.last()) {
            assert(all == kept.push(buttons.last()));
            assert(all[kept.len() as int] == buttons.last());
            if kept.contains(button) {
                let i = choose|i: int| 0 <= i < kept.len() && kept[i] == button;
                assert(all[i] == button);
            }
            if all.contains(button) && button != buttons.last() {
                let i = choose|i: int| 0 <= i < all.len() && all[i] == button;
                assert(kept[i] == button);
            }
        }
        if head.contains(button) {
            let i = choose|i: int| 0 <= i < head.len() && head[i] == button;
            assert(buttons[i] == button);
        }
        if buttons.contains(button) && button != buttons.last() {
            let i = choose|i: int| 0 <= i < buttons.len() && buttons[i] == button;
            assert(head[i] == button);
        }
    }
}

/// When a tool leaves, what was wanted of its eraser takes effect; nothing else
/// of it changes.
pub proof fn law_wishes_take_effect_when_tools_leave(tool: LibinputTabletTool)
    ensures
        ({
            let after = tool_left(tool);
            &&& !after.in_proximity
            &&& after.eraser_button_mode == tool.wanted_eraser_button_mode
            &&& after.eraser_button == tool.wanted_eraser_button
            &&& after.serial == tool.serial && after.tool_type == tool.tool_type && after.device
                == tool.device && after.refcount == tool.refcount && after.has == tool.has
                && after.pressure == tool.pressure
        }),
{
}

// ---------------------------------------------------------------------------
// Quirks
// ---------------------------------------------------------------------------
/// An axis is believed unless quirks hide it; nothing is made up. The hidden
/// axes go by their kernel codes.
pub proof fn law_hidden_axes_are_gone(codes: Seq<u16>, d: Disabled, code: u16)
    ensures
        ({
            let hides = d.all_absolute_axes || (d.tablet_tilt_x && code == 0x1a) || (d.tablet_tilt_y
                && code == 0x1b) || (d.abs_distance && code == 0x19) || (d.abs_mt_pressure && code
                == 0x3a) || (d.abs_pressure && code == 0x18) || (d.abs_mt_tool_type && code
                == 0x37);
            let stills = (d.hi_res_wheel_vertical && code == 11) || (d.hi_res_wheel_horizontal
                && code == 12);
            &&& believed(codes, d, true).contains(code) <==> codes.contains(code) && !hides
            &&& believed(codes, d, false).contains(code) <==> codes.contains(code) && !stills
        }),
    decreases codes.len(),
{
    if codes.len() > 0 {
        let head = codes.drop_last();
        law_hidden_axes_are_gone(head, d, code);
        assert(codes =~= head.push(codes.last()));
        assert(codes[codes.len() - 1] == codes.last());
        if head.contains(code) {
            let i = choose|i: int| 0 <= i < head.len() && head[i] == code;
            assert(codes[i] == code);
        }
        if codes.contains(code) && code != codes.last() {
            let i = choose|i: int| 0 <= i < codes.len() && codes[i] == code;
            assert(head[i] == code);
        }
        lemma_believed(codes, d, true, code);
        lemma_believed(codes, d, false, code);
    }
}

proof fn lemma_believed(codes: Seq<u16>, d: Disabled, absolute: bool, code: u16)
    requires
        codes.len() > 0,
    ensures
        ({
            let kept = believed(codes.drop_last(), d, absolute);
            let all = believed(codes, d, absolute);
            let hidden = if absolute {
                d.hides_absolute(codes.last())
            } else {
                d.hides_relative(codes.last())
            };
            &&& hidden ==> all == kept
            &&& !hidden ==> (all.contains(code) <==> kept.contains(code) || code == codes.last())
        }),
{
    let kept = believed(codes.drop_last(), d, absolute);
    let all = believed(codes, d, absolute);
    let last = codes.last();
    let more = kept.push(last);
    assert(more[kept.len() as int] == last);
    if kept.contains(code) {
        let i = choose|i: int| 0 <= i < kept.len() && kept[i] == code;
        assert(more[i] == code);
    }
    if more.contains(code) && code != last {
        let i = choose|i: int| 0 <= i < more.len() && more[i] == code;
        assert(kept[i] == code);
    }
}

/// A property is on where quirks switch it on, off where they switch it off,
/// and otherwise as the kernel says; each by its own name.
pub proof fn law_quirks_decide_properties(q: AppliedView, found: InputProps, name: Seq<char>)
    ensures
        q.enabled_input_props.contains(name) ==> mended_prop(q, name, false) && mended_prop(
            q,
            name,
            true,
        ),
        !q.enabled_input_props.contains(name) && q.disabled_input_props.contains(name)
            ==> !mended_prop(q, name, false) && !mended_prop(q, name, true),
        !q.enabled_input_props.contains(name) && !q.disabled_input_props.contains(name)
            ==> !mended_prop(q, name, false) && mended_prop(q, name, true),
        mended_props(q, found).pointer == mended_prop(q, "INPUT_PROP_POINTER"@, found.pointer),
        mended_props(q, found).direct == mended_prop(q, "INPUT_PROP_DIRECT"@, found.direct),
        mended_props(q, found).buttonpad == mended_prop(
            q,
            "INPUT_PROP_BUTTONPAD"@,
            found.buttonpad,
        ),
        mended_props(q, found).semi_mt == mended_prop(q, "INPUT_PROP_SEMI_MT"@, found.semi_mt),
        mended_props(q, found).topbuttonpad == mended_prop(
            q,
            "INPUT_PROP_TOPBUTTONPAD"@,
            found.topbuttonpad,
        ),
{
}

/// Quirks reach the parts of a device that they are about.
pub proof fn law_quirks_reach_their_device(q: AppliedView)
    ensures
        quirk_facts_spec(q).dell_canvas_totem == q.models.dell_canvas_totem,
        quirk_facts_spec(q).alps_serial_touchpad == q.models.alps_serial_touchpad,
        quirk_facts_spec(q).lenovo_scrollpoint == q.models.lenovo_scrollpoint,
        tracking_quirks_spec(q).no_hi_res_vertical == q.disabled.hi_res_wheel_vertical,
        tracking_quirks_spec(q).no_hi_res_horizontal == q.disabled.hi_res_wheel_horizontal,
        tracking_quirks_spec(q).no_tilt <==> q.disabled.tablet_tilt_x || q.disabled.tablet_tilt_y,
        tracking_quirks_spec(q).is_virtual == q.models.is_virtual,
        tracking_quirks_spec(q).lenovo_scrollpoint == q.models.lenovo_scrollpoint,
{
}

/// The type that quirks know a device by is the first that udev gives it.
pub proof fn law_types_are_what_udev_says(tags: UdevTags, k: KernelDevice)
    ensures
        tags.touchpad ==> udev_type_spec(tags, k) == "touchpad"@,
        tags.touchscreen && !tags.touchpad ==> udev_type_spec(tags, k) == "touchscreen"@,
        tags.tablet && !tags.touchpad && !tags.touchscreen ==> udev_type_spec(tags, k)
            == "tablet"@,
        tags.keyboard && !tags.touchpad && !tags.touchscreen && !tags.tablet && !tags.tablet_pad
            && !tags.pointing_stick && !tags.mouse && !k.has_relative_motion() && !k.has_wheel()
            ==> udev_type_spec(tags, k) == "keyboard"@,
        tags.mouse && !tags.touchpad && !tags.touchscreen && !tags.tablet && !tags.tablet_pad
            && !tags.pointing_stick ==> udev_type_spec(tags, k) == "mouse"@,
        tags.pointing_stick && !tags.touchpad && !tags.touchscreen && !tags.tablet
            && !tags.tablet_pad ==> udev_type_spec(tags, k) == "pointingstick"@,
{
}

/// The tolerance of contacts is what udev gives for their own axes, or else for
/// the axes of the device: 35 and 00 are across, 36 and 01 are down.
pub proof fn law_tolerance_is_given_per_axis(properties: Map<Seq<char>, Seq<char>>, n: i32, m: i32)
    ensures
        ({
            let fuzz = contact_fuzz_spec(properties);
            let across = properties["LIBINPUT_FUZZ_35"@];
            let down = properties["LIBINPUT_FUZZ_36"@];
            &&& properties.contains_key("LIBINPUT_FUZZ_35"@) && n >= 0 && parsed(
                across,
                10,
                true,
                i32::MIN as int,
                i32::MAX as int,
            ) == Some(n as int) ==> fuzz.x == Some(n)
            &&& properties.contains_key("LIBINPUT_FUZZ_36"@) && m >= 0 && parsed(
                down,
                10,
                true,
                i32::MIN as int,
                i32::MAX as int,
            ) == Some(m as int) ==> fuzz.y == Some(m)
            &&& !properties.contains_key("LIBINPUT_FUZZ_35"@) && !properties.contains_key(
                "LIBINPUT_FUZZ_00"@,
            ) ==> fuzz.x is None
            &&& !properties.contains_key("LIBINPUT_FUZZ_36"@) && !properties.contains_key(
                "LIBINPUT_FUZZ_01"@,
            ) ==> fuzz.y is None
        }),
{
}

// ---------------------------------------------------------------------------
// Names
// ---------------------------------------------------------------------------
/// An event node is `event` and a number; nothing else is one.
pub proof fn law_event_nodes_are_numbered(number: Seq<char>)
    ensures
        is_event_name("event"@ + number) <==> number.len() > 0 && forall|i: int|
            0 <= i < number.len() ==> '0' <= #[trigger] number[i] <= '9',
{
    crate::laws::texts::law_stripping_takes_the_beginning(number, "event"@);
    assert(forall|i: int|
        0 <= i < number.len() ==> (crate::nodes::is_digit(#[trigger] number[i]) <==> '0'
            <= number[i] <= '9'));
}

/// A file of quirks has a name before its ending.
pub proof fn law_quirk_files_end_in_quirks(stem: Seq<char>)
    ensures
        is_quirk_name(stem + ".quirks"@) <==> stem.len() > 0,
{
    reveal_strlit(".quirks");
    let name = stem + ".quirks"@;
    assert(".quirks"@.len() == 7);
    assert(name.skip(name.len() - 7) =~= ".quirks"@);
}

/// Names are ordered: never both ways, and one way unless they are the same; a
/// beginning comes before the whole.
pub proof fn law_names_are_ordered(a: Seq<char>, b: Seq<char>)
    ensures
        !(precedes(a, b) && precedes(b, a)),
        precedes(a, b) || precedes(b, a) || a == b,
        !precedes(a, a),
    decreases a.len(),
{
    if a.len() > 0 && b.len() > 0 && a[0] == b[0] {
        law_names_are_ordered(a.skip(1), b.skip(1));
        if a.skip(1) == b.skip(1) {
            assert(a =~= seq![a[0]] + a.skip(1));
            assert(b =~= seq![b[0]] + b.skip(1));
        }
    }
    if a.len() == 0 && b.len() == 0 {
        assert(a =~= b);
    }
    if a.len() > 0 {
        law_names_are_ordered(a.skip(1), a.skip(1));
    }
}

proof fn lemma_button_pen(
    tools: Seq<LibinputTabletTool>,
    device: DeviceId,
    serial: u64,
    from: int,
)
    requires
        0 <= from <= tools.len(),
    ensures
        match known_tool(tools, device, serial, 1, true, from) {
            Some(i) => from <= i < tools.len() && is_the_tool(tools[i], device, serial, 1)
                && tools[i].eraser_button_mode == 1,
            None => forall|i: int|
                from <= i < tools.len() ==> !(is_the_tool(#[trigger] tools[i], device, serial, 1)
                    && tools[i].eraser_button_mode == 1),
        },
    decreases tools.len() - from,
{
    if from < tools.len() {
        lemma_button_pen(tools, device, serial, from + 1);
    }
}

/// The eraser of a pen whose eraser is a button is that pen; any other eraser
/// is a tool of its own.
pub proof fn law_erasers_belong_to_their_pen(
    tools: Seq<LibinputTabletTool>,
    device: DeviceId,
    serial: u64,
    k: int,
)
    requires
        0 <= k < tools.len(),
    ensures
        ({
            let found = tool_index(tools, device, serial, 2);
            &&& is_the_tool(tools[k], device, serial, 1) && tools[k].eraser_button_mode == 1
                ==> found is Some && tools[found->0].tool_type == 1
            &&& found is Some && tools[found->0].tool_type == 1
                ==> tools[found->0].eraser_button_mode == 1
            &&& found is Some ==> 0 <= found->0 < tools.len() && (is_the_tool(
                tools[found->0],
                device,
                serial,
                1,
            ) || is_the_tool(tools[found->0], device, serial, 2))
        }),
{
    lemma_button_pen(tools, device, serial, 0);
    lemma_known(tools, device, serial, 2, 0);
}

/// A hint adds to a class only what it names, and only where the device looks
/// like it; it never takes anything away.
pub proof fn law_hints_add_what_they_name(
    class: DeviceClass,
    found: KernelDevice,
    hint: Option<Seq<char>>,
)
    ensures
        ({
            let after = class.hinted(found, hint);
            &&& after.is_keyboard && !class.is_keyboard ==> hint == Some("keyboard"@)
            &&& after.is_touchpad && !class.is_touchpad ==> hint == Some("touchpad"@)
            &&& after.has_touch && !class.has_touch ==> hint == Some("touchscreen"@)
            &&& after.has_tablet && !class.has_tablet ==> hint == Some("tablet"@)
            &&& after.has_tablet_pad && !class.has_tablet_pad ==> hint == Some("tablet-pad"@)
            &&& after.has_switch && !class.has_switch ==> hint == Some("switch"@)
            &&& after.is_pointer && !class.is_pointer ==> hint == Some("touchpad"@) || hint == Some(
                "mouse"@,
            )
            &&& hint == Some("keyboard"@) && found.looks_like_keyboard() ==> after.is_keyboard
            &&& hint == Some("touchpad"@) && found.looks_like_touchpad() ==> after.is_touchpad
                && after.is_pointer
            &&& hint == Some("touchscreen"@) && found.looks_like_touchscreen() ==> after.has_touch
            &&& hint == Some("tablet"@) && found.has_pen() ==> after.has_tablet
            &&& hint == Some("tablet-pad"@) && found.looks_like_pad() ==> after.has_tablet_pad
            &&& hint == Some("switch"@) && found.has_known_switch() ==> after.has_switch
            &&& class.is_keyboard ==> after.is_keyboard
            &&& class.is_touchpad ==> after.is_touchpad
            &&& class.has_touch ==> after.has_touch
            &&& class.has_tablet ==> after.has_tablet
            &&& class.has_tablet_pad ==> after.has_tablet_pad
            &&& class.has_switch ==> after.has_switch
            &&& class.is_pointer ==> after.is_pointer
            &&& hint is None ==> after == class
        }),
{
}

} // verus!
