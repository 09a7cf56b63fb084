//! Tablet tools: what is told of them is what the tablet sensed.
use vstd::prelude::*;
use crate::backend::tablet::{
    axes_after, changes_after, FrameTime, PressureState, ProximityState, TabletFacts, TabletOutcome,
    TabletState, TipState,
};
use crate::backend::tools::{law_tools_are_recognised, LibinputTabletTool, PressureBounds};
use crate::codes::InputEvent;
use crate::ffi_types::{
    AxisChanges, DeviceId, LibinputDevice, LibinputEvent, LibinputEventType, TabletAxes,
};

verus! {

// ---------------------------------------------------------------------------
// Axes
// ---------------------------------------------------------------------------
/// The axis that a code of the kernel is of, as it is numbered below: 0 is x,
/// 1 is y, 2 pressure, 3 distance, 4 and 5 the tilts, 6 rotation, 7 the slider,
/// 8 and 9 the sizes.
pub open spec fn axis_of(code: u16) -> int {
    if code == 0x00 || code == 0x35 {
        0
    } else if code == 0x01 || code == 0x36 {
        1
    } else if code == 0x18 {
        2
    } else if code == 0x19 {
        3
    } else if code == 0x1a {
        4
    } else if code == 0x1b {
        5
    } else if code == 0x02 || code == 0x34 {
        6
    } else if code == 0x08 {
        7
    } else if code == 0x30 {
        8
    } else if code == 0x31 {
        9
    } else {
        -1
    }
}

pub open spec fn axis_value(axes: TabletAxes, axis: int) -> i32 {
    if axis == 0 {
        axes.x
    } else if axis == 1 {
        axes.y
    } else if axis == 2 {
        axes.pressure
    } else if axis == 3 {
        axes.distance
    } else if axis == 4 {
        axes.tilt_x
    } else if axis == 5 {
        axes.tilt_y
    } else if axis == 6 {
        axes.rotation
    } else if axis == 7 {
        axes.slider
    } else if axis == 8 {
        axes.size_major
    } else {
        axes.size_minor
    }
}

pub open spec fn axis_flag(changed: AxisChanges, axis: int) -> bool {
    if axis == 0 {
        changed.x
    } else if axis == 1 {
        changed.y
    } else if axis == 2 {
        changed.pressure
    } else if axis == 3 {
        changed.distance
    } else if axis == 4 {
        changed.tilt_x
    } else if axis == 5 {
        changed.tilt_y
    } else if axis == 6 {
        changed.rotation
    } else if axis == 7 {
        changed.slider
    } else if axis == 8 {
        changed.size_major
    } else {
        changed.size_minor
    }
}

/// What the kernel sends for an axis becomes the value of that axis, and of no
/// other one; that axis counts as changed, and every other one as it did.
/// Nothing is told before the frame ends.
pub proof fn law_axes_keep_their_names(
    s: TabletState,
    ev: InputEvent,
    tools: Seq<LibinputTabletTool>,
    dev: LibinputDevice,
    facts: TabletFacts,
    at: FrameTime,
    out: Seq<LibinputEvent>,
    after: TabletState,
    tools_after: Seq<LibinputTabletTool>,
    reported: Seq<LibinputEvent>,
    outcome: TabletOutcome,
    axis: int,
)
    requires
        ev.kind == 3,
        0 <= axis <= 9,
        s.processed(
            ev,
            tools,
            dev,
            facts,
            at,
            out,
            after,
            tools_after,
            reported,
            outcome,
        ),
    ensures
        axis_value(after.axes, axis) == (if axis_of(ev.code) == axis {
            ev.value
        } else {
            axis_value(s.axes, axis)
        }),
        axis_flag(after.changed, axis) == (axis_flag(s.changed, axis) || axis_of(ev.code) == axis),
        after.changed.wheel == s.changed.wheel,
        after.axes_changed,
        after.last == s.last && after.wheel_discrete == s.wheel_discrete,
        after.pressure == s.pressure && after.held_buttons == s.held_buttons,
        reported == out && tools_after == tools,
{
    reveal(TabletState::processed);
    lemma_axis_value(s.axes, ev.code, ev.value, axis);
    lemma_axis_flag(s.changed, ev.code, axis);
}

proof fn lemma_axis_value(axes: TabletAxes, code: u16, value: i32, axis: int)
    requires
        0 <= axis <= 9,
    ensures
        axis_value(axes_after(axes, code, value), axis) == (if axis_of(code) == axis {
            value
        } else {
            axis_value(axes, axis)
        }),
{
    reveal(axes_after);
}

proof fn lemma_axis_flag(changed: AxisChanges, code: u16, axis: int)
    requires
        0 <= axis <= 9,
    ensures
        axis_flag(changes_after(changed, code), axis) == (axis_flag(changed, axis) || axis_of(code)
            == axis),
        changes_after(changed, code).wheel == changed.wheel,
{
    reveal(changes_after);
}

/// One event of an axis, as it comes from the kernel.
pub struct AxisInput {
    pub code: u16,
    pub value: i32,
}

pub open spec fn axes_after_all(axes: TabletAxes, inputs: Seq<AxisInput>) -> TabletAxes
    decreases inputs.len(),
{
    if inputs.len() == 0 {
        axes
    } else {
        axes_after(
            axes_after_all(axes, inputs.drop_last()),
            inputs.last().code,
            inputs.last().value,
        )
    }
}

/// The last value that the kernel sent for an axis, or what the axis was.
pub open spec fn last_sent(inputs: Seq<AxisInput>, axis: int, before: i32) -> i32
    decreases inputs.len(),
{
    if inputs.len() == 0 {
        before
    } else if axis_of(inputs.last().code) == axis {
        inputs.last().value
    } else {
        last_sent(inputs.drop_last(), axis, before)
    }
}

/// Whatever a tablet sends, each of its axes has the last value that was sent
/// for it.
pub proof fn law_axes_are_what_was_sent_last(
    axes: TabletAxes,
    inputs: Seq<AxisInput>,
    axis: int,
)
    requires
        0 <= axis <= 9,
    ensures
        axis_value(axes_after_all(axes, inputs), axis) == last_sent(
            inputs,
            axis,
            axis_value(axes, axis),
        ),
    decreases inputs.len(),
{
    reveal(axes_after);
    if inputs.len() > 0 {
        law_axes_are_what_was_sent_last(axes, inputs.drop_last(), axis);
    }
}

/// Turning the wheel of a tool forward is negative, as with other wheels.
pub proof fn law_tool_wheels_turn_both_ways(
    s: TabletState,
    tools: Seq<LibinputTabletTool>,
    dev: LibinputDevice,
    facts: TabletFacts,
    at: FrameTime,
    out: Seq<LibinputEvent>,
    after: TabletState,
    tools_after: Seq<LibinputTabletTool>,
    reported: Seq<LibinputEvent>,
    outcome: TabletOutcome,
    value: i32,
)
    requires
        value > i32::MIN,
        s.processed(
            InputEvent { kind: 2, code: 8, value },
            tools,
            dev,
            facts,
            at,
            out,
            after,
            tools_after,
            reported,
            outcome,
        ),
    ensures
        after.wheel_discrete == -value,
        after.changed.wheel && after.axes_changed,
        after.axes == s.axes,
        reported == out,
{
    reveal(TabletState::processed);
}

// ---------------------------------------------------------------------------
// Keys
// ---------------------------------------------------------------------------
/// The kind of tool that a key of the kernel is of.
pub open spec fn tool_of_key(code: u16) -> Option<u32> {
    if code == 0x140 {
        Some(1)
    } else if code == 0x141 {
        Some(2)
    } else if code == 0x142 {
        Some(3)
    } else if code == 0x143 {
        Some(4)
    } else if code == 0x144 {
        Some(5)
    } else if code == 0x146 {
        Some(6)
    } else if code == 0x147 {
        Some(7)
    } else {
        None
    }
}

/// The keys of tools say which tool is near: 0x140 is a pen, 0x141 an eraser,
/// 0x142 to 0x144 a brush, a pencil and an airbrush, 0x146 and 0x147 a mouse
/// and a lens. A tool whose key goes down alone comes near, and one whose key
/// comes up leaves.
pub proof fn law_tool_keys_say_which_tool_is_near(
    s: TabletState,
    ev: InputEvent,
    tools: Seq<LibinputTabletTool>,
    dev: LibinputDevice,
    facts: TabletFacts,
    at: FrameTime,
    out: Seq<LibinputEvent>,
    after: TabletState,
    tools_after: Seq<LibinputTabletTool>,
    reported: Seq<LibinputEvent>,
    outcome: TabletOutcome,
)
    requires
        ev.kind == 1,
        tool_of_key(ev.code) is Some,
        !s.buttons@.contains(ev.code as u32),
        s.active_tool_keys@.len() == 0 || (ev.value == 0 && s.active_tool_keys@ == seq![ev.code]),
        s.processed(
            ev,
            tools,
            dev,
            facts,
            at,
            out,
            after,
            tools_after,
            reported,
            outcome,
        ),
    ensures
        reported == out,
        after.axes == s.axes,
        ev.value != 0 ==> {
            &&& after.active_tool_keys@ == seq![ev.code]
            &&& after.identity.tool_type == tool_of_key(ev.code)->0
            &&& s.identity.tool_type != tool_of_key(ev.code)->0 || (s.prox.tool is None
                && !s.prox.in_proximity) ==> after.prox.pending == Some(true)
        },
        ev.value == 0 ==> {
            &&& s.active_tool_keys@.len() <= 1 ==> after.active_tool_keys@.len() == 0
            &&& s.identity.tool_type == tool_of_key(ev.code)->0 ==> after.prox.pending == Some(
                false,
            )
            &&& s.identity.tool_type != tool_of_key(ev.code)->0 ==> after.prox.pending
                == s.prox.pending
            &&& after.identity == s.identity
        },
{
    reveal(TabletState::processed);
    reveal(TabletState::keyed);
    reveal(crate::backend::tablet::selected_tool);
    let keys = s.active_tool_keys@;
    if ev.value == 0 {
        crate::evtrans::lemma_without(keys, ev.code);
        let left = after.active_tool_keys@;
        if left.len() > 0 {
            assert(left.contains(left[0]));
            assert(keys.contains(left[0]));
        }
    }
    if ev.value != 0 {
        assert(after.active_tool_keys@ =~= seq![ev.code]);
        assert(after.active_tool_keys@[0] == ev.code);
        assert(forall|c: u16|
            after.active_tool_keys@.contains(c) <==> c == ev.code);
    }
}

/// The touch key is the tip; a button of the tool waits for the end of the
/// frame, in the order in which they changed.
pub proof fn law_tips_and_buttons_wait_for_the_frame(
    s: TabletState,
    ev: InputEvent,
    tools: Seq<LibinputTabletTool>,
    dev: LibinputDevice,
    facts: TabletFacts,
    at: FrameTime,
    out: Seq<LibinputEvent>,
    after: TabletState,
    tools_after: Seq<LibinputTabletTool>,
    reported: Seq<LibinputEvent>,
    outcome: TabletOutcome,
)
    requires
        ev.kind == 1,
        s.processed(
            ev,
            tools,
            dev,
            facts,
            at,
            out,
            after,
            tools_after,
            reported,
            outcome,
        ),
    ensures
        reported == out,
        after.axes == s.axes,
        ev.code == 0x14a ==> {
            &&& after.tip.down == (ev.value != 0)
            &&& (ev.value != 0) != s.tip.down ==> after.tip.pending == Some(ev.value != 0)
            &&& (ev.value != 0) == s.tip.down ==> after.tip.pending == s.tip.pending
            &&& after.pending_buttons == s.pending_buttons && after.prox == s.prox
        },
        s.identity.tool_type == 1 && (ev.code == 0x14b || ev.code == 0x14c) && s.buttons@.contains(
            ev.code as u32,
        ) && !s.ignored_buttons@.contains(ev.code) ==> {
            &&& after.pending_buttons@ == s.pending_buttons@.push((ev.code, ev.value != 0))
            &&& ev.value != 0 ==> after.held_buttons@.contains(ev.code)
            &&& after.tip == s.tip && after.prox == s.prox
        },
{
    reveal(TabletState::processed);
    reveal(TabletState::keyed);
    reveal(TipState::moved);
    if ev.value != 0 && !s.held_buttons@.contains(ev.code) {
        let held = s.held_buttons@.push(ev.code);
        assert(held[held.len() - 1] == ev.code);
    }
}

// ---------------------------------------------------------------------------
// Events
// ---------------------------------------------------------------------------
/// Whether an event tells of a tool where its tablet sensed it: every axis in
/// the field of its name, and the axes of the event before.
pub open spec fn tells_tool(
    event: LibinputEvent,
    event_type: LibinputEventType,
    device: DeviceId,
    time_usec: u64,
    tool: usize,
    near: bool,
    axes: TabletAxes,
    previous: TabletAxes,
    tip: bool,
) -> bool {
    let e = event.payload->TabletTool_0;
    &&& event.device == device
    &&& event.event_type == event_type
    &&& event.payload is TabletTool
    &&& e.time_usec == time_usec
    &&& e.tool == tool
    &&& e.proximity_state == (if near {
        1u32
    } else {
        0u32
    })
    &&& e.tip_state == (if tip {
        1u32
    } else {
        0u32
    })
    &&& e.axes.x == axes.x && e.axes.y == axes.y
    &&& e.axes.pressure == axes.pressure && e.axes.distance == axes.distance
    &&& e.axes.tilt_x == axes.tilt_x && e.axes.tilt_y == axes.tilt_y
    &&& e.axes.rotation == axes.rotation && e.axes.slider == axes.slider
    &&& e.axes.size_major == axes.size_major && e.axes.size_minor == axes.size_minor
    &&& e.previous.x == previous.x && e.previous.y == previous.y
}

/// A tablet that has a tool near it which is no mouse or lens, and that is not
/// about to change.
pub open spec fn has_tool(s: TabletState, tools: Seq<LibinputTabletTool>) -> bool {
    &&& s.wf(tools)
    &&& s.prox.tool is Some
    &&& s.prox.pending is None
    &&& !s.prox.area_suppressed
    &&& s.identity.tool_type <= 5
}

/// A frame in which axes of a tool changed is one event, at the new axes; one
/// in which the tip changed tells that instead. What was told is then measured
/// from.
pub proof fn law_tools_are_where_they_were_sensed(
    s: TabletState,
    tools: Seq<LibinputTabletTool>,
    dev: LibinputDevice,
    facts: TabletFacts,
    at: FrameTime,
    out: Seq<LibinputEvent>,
    after: TabletState,
    tools_after: Seq<LibinputTabletTool>,
    reported: Seq<LibinputEvent>,
    outcome: TabletOutcome,
)
    requires
        has_tool(s, tools),
        !s.changed.pressure,
        s.pending_buttons@.len() == 0,
        s.axes_changed || s.tip.pending is Some,
        s.processed(
            InputEvent { kind: 0, code: 0, value: 0 },
            tools,
            dev,
            facts,
            at,
            out,
            after,
            tools_after,
            reported,
            outcome,
        ),
    ensures
        reported.len() == out.len() + 1,
        reported.drop_last() == out,
        tells_tool(
            reported.last(),
            if s.tip.pending is Some {
                LibinputEventType::LIBINPUT_EVENT_TABLET_TOOL_TIP
            } else {
                LibinputEventType::LIBINPUT_EVENT_TABLET_TOOL_AXIS
            },
            dev.id,
            at.time_usec,
            s.prox.tool->0,
            true,
            s.axes,
            s.last,
            s.tip.down,
        ),
        ({
            let e = reported.last().payload->TabletTool_0;
            &&& e.wheel_discrete == s.wheel_discrete
            &&& e.tool_type == tools[s.prox.tool->0 as int].tool_type
            &&& e.changed.x == ((s.mix.x_from_x && s.changed.x) || (s.mix.x_from_y && s.changed.y))
            &&& e.changed.y == ((s.mix.y_from_x && s.changed.x) || (s.mix.y_from_y && s.changed.y))
            &&& e.changed.tilt_x == s.changed.tilt_x && e.changed.tilt_y == s.changed.tilt_y
            &&& e.changed.slider == s.changed.slider && e.changed.wheel == s.changed.wheel
            &&& e.left_handed == s.prox.left_handed
        }),
        after.axes == s.axes,
        after.last == s.axes,
        after.tip.pending is None && after.tip.down == s.tip.down,
        !after.axes_changed && !after.changed.x && !after.changed.y && after.wheel_discrete == 0,
        after.prox.tool == s.prox.tool,
        tools_after == tools,
{
    reveal(TabletState::processed);
    reveal(TabletState::watchdog);
    reveal(TabletState::cursor_moved);
    reveal(TabletState::axis_framed);
    reveal(TabletState::pressed);
    reveal(TabletState::payload);
    assert(reported.drop_last() =~= out);
}

/// Buttons of a tool are told of with their own code, pressed or released as
/// they were, after the axes of their frame.
pub proof fn law_tool_buttons_are_told_as_they_are(
    s: TabletState,
    tools: Seq<LibinputTabletTool>,
    dev: LibinputDevice,
    facts: TabletFacts,
    at: FrameTime,
    out: Seq<LibinputEvent>,
    after: TabletState,
    tools_after: Seq<LibinputTabletTool>,
    reported: Seq<LibinputEvent>,
    outcome: TabletOutcome,
    code: u16,
    pressed: bool,
)
    requires
        has_tool(s, tools),
        !s.changed.pressure && !s.axes_changed && s.tip.pending is None,
        s.pending_buttons@ == seq![(code, pressed)],
        s.processed(
            InputEvent { kind: 0, code: 0, value: 0 },
            tools,
            dev,
            facts,
            at,
            out,
            after,
            tools_after,
            reported,
            outcome,
        ),
    ensures
        reported.len() == out.len() + 1,
        reported.drop_last() == out,
        tells_tool(
            reported.last(),
            LibinputEventType::LIBINPUT_EVENT_TABLET_TOOL_BUTTON,
            dev.id,
            at.time_usec,
            s.prox.tool->0,
            true,
            s.axes,
            s.last,
            s.tip.down,
        ),
        reported.last().payload->TabletTool_0.button == code,
        reported.last().payload->TabletTool_0.button_state == (if pressed {
            1u32
        } else {
            0u32
        }),
        after.pending_buttons@.len() == 0,
        after.held_buttons == s.held_buttons,
{
    reveal(TabletState::processed);
    reveal(TabletState::watchdog);
    reveal(TabletState::cursor_moved);
    reveal(TabletState::axis_framed);
    reveal(TabletState::pressed);
    reveal(TabletState::payload);
    reveal_with_fuel(TabletState::tool_button_events, 2);
    assert(s.pending_buttons@.drop_last() =~= Seq::<(u16, bool)>::empty());
    assert(reported.drop_last() =~= out);
}

/// A tool that comes near is told of first by its proximity, where it was
/// sensed, and by the tip only after that. The tool that is told of is of the
/// kind that was sensed and has its serial number.
pub proof fn law_tools_come_near_where_they_were_sensed(
    s: TabletState,
    tools: Seq<LibinputTabletTool>,
    dev: LibinputDevice,
    facts: TabletFacts,
    at: FrameTime,
    out: Seq<LibinputEvent>,
    after: TabletState,
    tools_after: Seq<LibinputTabletTool>,
    reported: Seq<LibinputEvent>,
    outcome: TabletOutcome,
)
    requires
        s.wf(tools),
        tools.len() < usize::MAX,
        s.prox.tool is None && !s.prox.in_proximity && !s.prox.area_suppressed,
        s.prox.pending == Some(true),
        1 <= s.identity.tool_type <= 5 && s.identity.tool_type != 2,
        s.eraser.pen_out_since is None && !s.eraser.button_active,
        !(dev.area_available && facts.outside_area),
        s.processed(
            InputEvent { kind: 0, code: 0, value: 0 },
            tools,
            dev,
            facts,
            at,
            out,
            after,
            tools_after,
            reported,
            outcome,
        ),
    ensures
        reported.len() >= out.len() + 1,
        after.prox.tool is Some && after.prox.in_proximity,
        ({
            let e = reported[out.len() as int];
            let tool = after.prox.tool->0;
            &&& e.payload is TabletTool
            &&& tells_tool(
                e,
                LibinputEventType::LIBINPUT_EVENT_TABLET_TOOL_PROXIMITY,
                dev.id,
                at.time_usec,
                tool,
                true,
                s.axes,
                s.last,
                e.payload->TabletTool_0.tip_state == 1,
            )
            &&& tool < tools_after.len()
            &&& tools_after[tool as int].tool_type == s.identity.tool_type
            &&& tools_after[tool as int].in_proximity
            &&& s.identity.serial != 0 ==> tools_after[tool as int].serial == s.identity.serial
            &&& e.payload->TabletTool_0.tool_type == s.identity.tool_type
        }),
        after.axes == s.axes && after.last == s.axes,
        after.prox.left_handed == dev.left_handed,
{
    let c = s.frame_counted(at.now).decided();
    assert(exists|o: TabletOutcome|
        c.arrival_framed(
            tools,
            dev,
            facts,
            at,
            s.tip.button_changed,
            out,
            after,
            tools_after,
            reported,
            o,
        )) by {
        reveal(TabletState::processed);
        reveal(TabletState::watchdog);
        reveal(TabletState::cursor_moved);
        let o = choose|o: TabletOutcome| #[trigger]
            s.framed(tools, dev, facts, at, out, after, tools_after, reported, o) && outcome
                == o.with_area(s.outsider_gone(at.now));
        assert(c.arrival_framed(
            tools,
            dev,
            facts,
            at,
            s.tip.button_changed,
            out,
            after,
            tools_after,
            reported,
            o,
        ));
    }
    assert(c == (TabletState {
        prox: ProximityState { pending: None, ..s.watchdog(at.now) },
        tip: TipState { button_changed: false, ..s.tip },
        ..s
    }) && c.prox.tool is None && !c.prox.in_proximity && !c.prox.area_suppressed) by {
        reveal(TabletState::watchdog);
        reveal(TabletState::cursor_moved);
    }
    let o = choose|o: TabletOutcome|
        c.arrival_framed(
            tools,
            dev,
            facts,
            at,
            s.tip.button_changed,
            out,
            after,
            tools_after,
            reported,
            o,
        );
    lemma_arrival(
        c,
        tools,
        dev,
        facts,
        at,
        s.tip.button_changed,
        out,
        after,
        tools_after,
        reported,
        o,
    );
}

proof fn lemma_arrival(
    c: TabletState,
    tools: Seq<LibinputTabletTool>,
    dev: LibinputDevice,
    facts: TabletFacts,
    at: FrameTime,
    button_changed: bool,
    out: Seq<LibinputEvent>,
    after: TabletState,
    tools_after: Seq<LibinputTabletTool>,
    reported: Seq<LibinputEvent>,
    outcome: TabletOutcome,
)
    requires
        tools.len() < usize::MAX,
        c.prox.tool is None && !c.prox.in_proximity && !c.prox.area_suppressed,
        1 <= c.identity.tool_type <= 5 && c.identity.tool_type != 2,
        c.eraser.pen_out_since is None && !c.eraser.button_active,
        !(dev.area_available && facts.outside_area),
        c.arrival_framed(
            tools,
            dev,
            facts,
            at,
            button_changed,
            out,
            after,
            tools_after,
            reported,
            outcome,
        ),
    ensures
        reported.len() >= out.len() + 1,
        after.prox.tool is Some && after.prox.in_proximity,
        ({
            let e = reported[out.len() as int];
            let tool = after.prox.tool->0;
            &&& e.payload is TabletTool
            &&& tells_tool(
                e,
                LibinputEventType::LIBINPUT_EVENT_TABLET_TOOL_PROXIMITY,
                dev.id,
                at.time_usec,
                tool,
                true,
                c.axes,
                c.last,
                e.payload->TabletTool_0.tip_state == 1,
            )
            &&& tool < tools_after.len()
            &&& tools_after[tool as int].tool_type == c.identity.tool_type
            &&& tools_after[tool as int].in_proximity
            &&& c.identity.serial != 0 ==> tools_after[tool as int].serial == c.identity.serial
            &&& e.payload->TabletTool_0.tool_type == c.identity.tool_type
        }),
        after.axes == c.axes && after.last == c.axes,
        after.prox.left_handed == dev.left_handed,
{
    let w = c.wait_ended();
    let a = TabletState { prox: w.arrived(dev, facts.outside_area), ..w };
    assert(w.axes == c.axes && w.last == c.last && w.identity == c.identity && w.prox == c.prox
        && w.has == c.has && w.buttons == c.buttons && !w.eraser.button_active) by {
        reveal(TabletState::wait_ended);
    }
    assert(a.prox.tool is None && a.prox.in_proximity && !a.prox.area_suppressed
        && a.prox.left_handed == dev.left_handed) by {
        reveal(TabletState::arrived);
    }
    let (entered, k) = a.tools_entered(tools, dev.id, facts.fixed_eraser);
    assert(0 <= k < entered.len() && k < usize::MAX && entered[k].tool_type == c.identity.tool_type
        && entered[k].in_proximity && (c.identity.serial != 0 ==> entered[k].serial
        == c.identity.serial)) by {
        reveal(TabletState::tools_entered);
        law_tools_are_recognised(
            tools,
            dev.id,
            c.identity.serial,
            c.identity.tool_id,
            c.identity.tool_type,
            c.has,
            c.buttons@,
            facts.fixed_eraser,
        );
    }
    let e = a.entry_state(tools, dev, facts.fixed_eraser, button_changed);
    assert(e.axes == c.axes && e.last == c.last && e.prox.tool == Some(k as usize)
        && e.prox.in_proximity && e.prox.left_handed == dev.left_handed && e.identity == c.identity
        && !e.eraser.button_active) by {
        reveal(TabletState::pressed);
    }
    assert(!e.eraser_leaves(entered[k]) && !e.eraser_enters(entered[k]));
    reveal(TabletState::arrival_framed);
    let told = e.enter_events(
        entered,
        k as usize,
        dev.id,
        at.time_usec,
        e.enters_silently(entered[k], w.prox.in_proximity, c.pen_returns()),
        out,
    );
    assert(reported == told);
    let near = e.tool_event(
        entered,
        k as usize,
        dev.id,
        at.time_usec,
        LibinputEventType::LIBINPUT_EVENT_TABLET_TOOL_PROXIMITY,
        true,
    );
    assert(told.len() > out.len() && told[out.len() as int] == near) by {
        reveal(TabletState::enter_events);
        let pushed = out.push(near);
        let tipped = if e.tip.pending is Some {
            pushed.push(
                e.tool_event(
                    entered,
                    k as usize,
                    dev.id,
                    at.time_usec,
                    LibinputEventType::LIBINPUT_EVENT_TABLET_TOOL_TIP,
                    true,
                ),
            )
        } else {
            pushed
        };
        lemma_buttons_follow(
            e,
            entered,
            k as usize,
            dev.id,
            at.time_usec,
            e.pending_buttons@,
            tipped,
        );
        assert(tipped[out.len() as int] == near);
    }
    assert(near.payload->TabletTool_0.axes == c.axes && near.payload->TabletTool_0.previous
        == c.last && near.payload->TabletTool_0.proximity_state == 1
        && near.payload->TabletTool_0.tool == k && near.payload->TabletTool_0.time_usec
        == at.time_usec && near.payload->TabletTool_0.tool_type == c.identity.tool_type && (
    near.payload->TabletTool_0.tip_state == 0 || near.payload->TabletTool_0.tip_state == 1)) by {
        reveal(TabletState::payload);
    }
}

pub proof fn lemma_buttons_follow(
    s: TabletState,
    tools: Seq<LibinputTabletTool>,
    tool: usize,
    device: DeviceId,
    time_usec: u64,
    changes: Seq<(u16, bool)>,
    out: Seq<LibinputEvent>,
)
    ensures
        ({
            let reported = s.tool_button_events(tools, tool, device, time_usec, changes, out);
            &&& reported.len() == out.len() + changes.len()
            &&& forall|i: int| 0 <= i < out.len() ==> #[trigger] reported[i] == out[i]
        }),
    decreases changes.len(),
{
    if changes.len() > 0 {
        lemma_buttons_follow(s, tools, tool, device, time_usec, changes.drop_last(), out);
    }
}

/// A tool that leaves is told of last by its proximity, where it was told of
/// before and with its tip up; before that come its buttons and its tip.
pub proof fn law_tools_leave_where_they_were(
    s: TabletState,
    tools: Seq<LibinputTabletTool>,
    tool: usize,
    device: DeviceId,
    time_usec: u64,
    button_changed: bool,
    out: Seq<LibinputEvent>,
)
    ensures
        ({
            let l = s.leaving(tools, button_changed);
            let reported = l.leave_events(tools, tool, device, time_usec, out);
            let tip = l.tip.down || l.tip.pending == Some(false);
            &&& reported.len() == out.len() + l.pending_buttons@.len() + l.held_buttons@.len() + (
            if tip {
                2int
            } else {
                1
            })
            &&& tells_tool(
                reported.last(),
                LibinputEventType::LIBINPUT_EVENT_TABLET_TOOL_PROXIMITY,
                device,
                time_usec,
                tool,
                false,
                s.last,
                s.last,
                false,
            )
            &&& tip ==> tells_tool(
                reported[reported.len() - 2],
                LibinputEventType::LIBINPUT_EVENT_TABLET_TOOL_TIP,
                device,
                time_usec,
                tool,
                true,
                s.last,
                s.last,
                false,
            )
        }),
{
    reveal(TabletState::pressed);
    reveal(TabletState::payload);
    let l = s.leaving(tools, button_changed);
    lemma_buttons_follow(l, tools, tool, device, time_usec, l.pending_buttons@, out);
    let a = l.tool_button_events(tools, tool, device, time_usec, l.pending_buttons@, out);
    lemma_buttons_follow(
        l,
        tools,
        tool,
        device,
        time_usec,
        crate::backend::tablet::releases(l.held_buttons@),
        a,
    );
}

/// The buttons that a leaving tool still holds are released, each by its own
/// code.
pub proof fn law_leaving_tools_release_their_buttons(
    s: TabletState,
    tools: Seq<LibinputTabletTool>,
    tool: usize,
    device: DeviceId,
    time_usec: u64,
    held: Seq<u16>,
    out: Seq<LibinputEvent>,
    k: int,
)
    requires
        0 <= k < held.len(),
    ensures
        ({
            let reported = s.tool_button_events(
                tools,
                tool,
                device,
                time_usec,
                crate::backend::tablet::releases(held),
                out,
            );
            let e = reported[out.len() + k];
            &&& e.event_type == LibinputEventType::LIBINPUT_EVENT_TABLET_TOOL_BUTTON
            &&& e.device == device
            &&& e.payload is TabletTool
            &&& e.payload->TabletTool_0.button == held[k]
            &&& e.payload->TabletTool_0.button_state == 0
            &&& e.payload->TabletTool_0.tool == tool
        }),
    decreases held.len(),
{
    reveal(TabletState::payload);
    let all = crate::backend::tablet::releases(held);
    let fewer = crate::backend::tablet::releases(held.drop_last());
    assert(all.drop_last() =~= fewer);
    lemma_buttons_follow(s, tools, tool, device, time_usec, fewer, out);
    if k < held.len() - 1 {
        law_leaving_tools_release_their_buttons(
            s,
            tools,
            tool,
            device,
            time_usec,
            held.drop_last(),
            out,
            k,
        );
    }
}

// ---------------------------------------------------------------------------
// Pressure
// ---------------------------------------------------------------------------
/// Where nothing is configured, the tip of a sound tool goes down at a
/// twentieth of the range and comes up at a hundredth; pressing harder never
/// lifts it, and pressing less never presses it.
pub proof fn law_tips_follow_pressure(
    p: PressureState,
    tip: TipState,
    pressure: i32,
    harder: i32,
    most: i32,
)
    requires
        p.range == Some((0i32, most)) && most >= 100,
        p.offset is None,
        pressure <= harder,
    ensures
        ({
            let bounds = PressureBounds { low: 0, high: 0, custom: false };
            let t = p.thresholds(bounds);
            let after = tip.pressed(pressure, t);
            &&& t.maximum == most
            &&& !tip.down ==> after.down == (pressure >= most / 20)
            &&& tip.down ==> after.down == (pressure > most / 100)
            &&& after.down != tip.down ==> after.pending == Some(after.down)
            &&& after.down == tip.down ==> after == tip
            &&& after.down ==> tip.pressed(harder, t).down
        }),
{
    reveal(PressureState::thresholds);
    reveal(TipState::pressed);
    reveal(TipState::moved);
}

/// On a worn tool the tip comes up at the pressure that it reports without
/// touching, and goes down a twenty-fifth of the range above it.
pub proof fn law_worn_tips_have_an_offset(
    p: PressureState,
    tip: TipState,
    pressure: i32,
    most: i32,
    offset: i32,
    bounds: PressureBounds,
)
    requires
        p.range == Some((0i32, most)) && most >= 50,
        p.offset == Some(offset),
        0 <= offset <= most,
    ensures
        ({
            let after = tip.pressed(pressure, p.thresholds(bounds));
            &&& !tip.down ==> after.down == (pressure >= offset + most / 25)
            &&& tip.down ==> after.down == (pressure > offset)
        }),
{
    reveal(PressureState::thresholds);
    reveal(TipState::pressed);
    reveal(TipState::moved);
}

/// What is taken for the pressure of a worn tool is never more than half of the
/// range, only ever gets less, and is forgotten where pressure is configured.
pub proof fn law_offsets_are_plausible(
    p: PressureState,
    bounds: PressureBounds,
    pressure: i32,
    senses_distance: bool,
    distance: i32,
    distance_range: Option<(i32, i32)>,
    entering: bool,
    most: i32,
)
    requires
        p.range == Some((0i32, most)) && most > 0,
    ensures
        ({
            let after = p.learned(
                bounds,
                pressure,
                senses_distance,
                distance,
                distance_range,
                entering,
            );
            &&& after.range == p.range
            &&& bounds.custom ==> after.offset is None && !after.rejected
            &&& !bounds.custom && p.offset is Some ==> after.offset is Some && after.offset->0
                <= p.offset->0 && (pressure > 0 && !p.rejected ==> after.offset->0 <= pressure)
            &&& p.offset is None && after.offset is Some ==> 2 * after.offset->0 <= most
                && after.offset->0 <= pressure && entering
            &&& !p.rejected && after.rejected ==> after.offset == p.offset
            &&& pressure <= 0 && !bounds.custom ==> after == p
        }),
{
    reveal(PressureState::learned);
}

/// A pressure at rest in the upper half of the range is no wear: it is turned
/// down, and the tip stays as it was.
pub proof fn law_strong_rest_is_no_wear(p: PressureState, pressure: i32)
    ensures
        ({
            let after = p.judged(pressure);
            &&& p.over_half(pressure) ==> after.rejected && after.offset == p.offset
            &&& !p.over_half(pressure) ==> after.offset == Some(pressure) && after.rejected
                == p.rejected
        }),
{
}

} // verus!
