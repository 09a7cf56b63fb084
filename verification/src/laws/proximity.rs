//! Tablet tools that come near and leave: what clients are told, and what the
//! rest of the library is asked to do.
use vstd::prelude::*;
use crate::backend::tablet::{FrameTime, TabletFacts, TabletOutcome, TabletState};
use crate::backend::tools::LibinputTabletTool;
use crate::ffi_types::{DeviceId, LibinputDevice, LibinputEvent, LibinputEventType};
use crate::laws::pens::{law_tools_leave_where_they_were, tells_tool};

verus! {

/// The kinds of tools that stay on the tablet: mice and lenses.
pub open spec fn stays_on_the_tablet(tool_type: u32) -> bool {
    tool_type == 6 || tool_type == 7
}

/// A mouse or lens is lifted from a distance of 42 on, and comes back below
/// it. Other tools do not leave by their distance.
pub proof fn law_mice_leave_by_their_distance(s: TabletState)
    ensures
        ({
            let after = s.cursor_moved();
            let mouse = stays_on_the_tablet(s.identity.tool_type);
            &&& !mouse ==> after == s.prox
            &&& mouse && s.axes.distance >= 42 ==> after.cursor_out_of_range
            &&& mouse && s.axes.distance >= 42 && s.prox.in_proximity ==> after.pending == Some(
                false,
            )
            &&& mouse && s.axes.distance >= 42 && !s.prox.in_proximity ==> after.pending is None
                && s.cursor_drops()
            &&& mouse && 0 < s.axes.distance < 42 && s.prox.cursor_out_of_range
                && !s.prox.in_proximity ==> after.pending == Some(true)
                && !after.cursor_out_of_range
            &&& mouse && 0 < s.axes.distance < 42 && s.prox.in_proximity ==> after.pending
                == s.prox.pending
            &&& after.tool == s.prox.tool && after.in_proximity == s.prox.in_proximity
            &&& !mouse ==> !s.cursor_drops()
            &&& s.cursor_drops() ==> s.axes.distance >= 42 || s.axes.distance == 0
        }),
{
    reveal(TabletState::cursor_moved);
}

/// Where no tool is near, a pen shows itself by moving or by pressing; it does
/// not where a tool is near or about to be.
pub proof fn law_pens_show_themselves(s: TabletState)
    ensures
        ({
            let after = s.pen_noticed();
            let alone = s.prox.tool is None && s.prox.pending is None;
            &&& alone && (s.changed.x || s.changed.y) ==> after.prox.pending == Some(true)
                && after.identity.tool_type == 1
            &&& alone && s.changed.pressure && s.pressure.range is Some && s.axes.pressure
                > s.pressure.minimum() ==> after.prox.pending == Some(true)
            &&& alone && !s.changed.x && !s.changed.y && !s.changed.pressure ==> after == s
            &&& !alone ==> after == s
            &&& after.axes == s.axes && after.tip == s.tip
        }),
{
}

/// A tool that comes near takes on the hand that is set, lets touch go on, and
/// lets a new area take effect. Outside the area it is not told of until it
/// has left.
pub proof fn law_arrivals_let_touch_go_on(
    s: TabletState,
    tools: Seq<LibinputTabletTool>,
    dev: LibinputDevice,
    facts: TabletFacts,
    at: FrameTime,
    button_changed: bool,
    out: Seq<LibinputEvent>,
    after: TabletState,
    tools_after: Seq<LibinputTabletTool>,
    reported: Seq<LibinputEvent>,
    outcome: TabletOutcome,
)
    requires
        s.arrival_framed(
            tools,
            dev,
            facts,
            at,
            button_changed,
            out,
            after,
            tools_after,
            reported,
            outcome,
        ),
        s.prox.tool is None,
        !s.prox.in_proximity,
    ensures
        outcome.unblock_touch && outcome.apply_area,
        outcome.block_touch_until is None && outcome.wake_after is None,
        dev.area_available && facts.outside_area ==> reported == out && tools_after == tools
            && after.prox.area_suppressed && after.prox.tool is None && after.prox.in_proximity,
        dev.area_available && !facts.outside_area ==> after.prox.tool is Some
            && !after.prox.area_suppressed,
        after.prox.left_handed == dev.left_handed,
        after.eraser.pen_out_since is None,
{
    reveal(TabletState::arrival_framed);
    reveal(TabletState::arrived);
    reveal(TabletState::wait_ended);
    reveal(TabletState::pressed);
    reveal(TabletState::entered);
    reveal(TabletState::enter_reported);
}

/// A tool that leaves is told of where it was last told of, its buttons and its
/// tip before it; touch is blocked for 90 milliseconds, and a new area takes
/// effect.
pub proof fn law_departures_block_touch(
    s: TabletState,
    tools: Seq<LibinputTabletTool>,
    dev: LibinputDevice,
    at: FrameTime,
    button_changed: bool,
    out: Seq<LibinputEvent>,
    after: TabletState,
    tools_after: Seq<LibinputTabletTool>,
    reported: Seq<LibinputEvent>,
    outcome: TabletOutcome,
)
    requires
        s.departure_framed(
            tools,
            dev,
            at,
            button_changed,
            out,
            after,
            tools_after,
            reported,
            outcome,
        ),
        !s.prox.area_suppressed,
        s.prox.tool is Some,
        s.prox.tool->0 < tools.len(),
        tools[s.prox.tool->0 as int].eraser_button_mode != 1,
        at.now <= u64::MAX - 90_000_000,
    ensures
        ({
            let tool = s.prox.tool->0;
            &&& reported.len() > out.len()
            &&& tells_tool(
                reported.last(),
                LibinputEventType::LIBINPUT_EVENT_TABLET_TOOL_PROXIMITY,
                dev.id,
                at.time_usec,
                tool,
                false,
                s.last,
                s.last,
                false,
            )
            &&& after.prox.tool is None && !after.prox.in_proximity && !after.tip.down
            &&& after.held_buttons@.len() == 0 && after.pending_buttons@.len() == 0
            &&& outcome.block_touch_until == Some((at.now + 90_000_000) as u64)
            &&& outcome.apply_area && !outcome.unblock_touch && outcome.wake_after is None
            &&& tools_after.len() == tools.len() && !tools_after[tool as int].in_proximity
        }),
{
    reveal(TabletState::departure_framed);
    reveal(TabletState::pressed);
    law_tools_leave_where_they_were(
        s,
        tools,
        s.prox.tool->0,
        dev.id,
        at.time_usec,
        button_changed,
        out,
    );
}

/// A pen whose eraser is a button is waited for when it leaves, for 30
/// milliseconds: only the eraser's button comes up, if it was down. The tip is
/// not told of yet.
pub proof fn law_pens_with_eraser_buttons_are_waited_for(
    s: TabletState,
    tools: Seq<LibinputTabletTool>,
    dev: LibinputDevice,
    at: FrameTime,
    button_changed: bool,
    out: Seq<LibinputEvent>,
    after: TabletState,
    tools_after: Seq<LibinputTabletTool>,
    reported: Seq<LibinputEvent>,
    outcome: TabletOutcome,
)
    requires
        s.departure_framed(
            tools,
            dev,
            at,
            button_changed,
            out,
            after,
            tools_after,
            reported,
            outcome,
        ),
        !s.prox.area_suppressed,
        s.prox.tool is Some,
        tools[s.prox.tool->0 as int].tool_type == 1,
        tools[s.prox.tool->0 as int].eraser_button_mode == 1,
    ensures
        ({
            let tool = s.prox.tool->0;
            &&& after.eraser.pen_out_since == Some(at.now) && !after.eraser.button_active
            &&& after.eraser.pending_tip_up == (s.tip.pending == Some(false))
            &&& after.prox.tool == s.prox.tool && after.prox.in_proximity == s.prox.in_proximity
            &&& outcome.wake_after == Some(30_000_000u64) && outcome.block_touch_until is None
            &&& !outcome.unblock_touch && !outcome.apply_area
            &&& !s.eraser.button_active ==> reported == out
            &&& s.eraser.button_active ==> {
                let e = reported.last();
                &&& reported.len() == out.len() + 1
                &&& e.event_type == LibinputEventType::LIBINPUT_EVENT_TABLET_TOOL_BUTTON
                &&& e.device == dev.id && e.payload is TabletTool
                &&& e.payload->TabletTool_0.button == tools[tool as int].eraser_button
                    && e.payload->TabletTool_0.button_state == 0
                    && e.payload->TabletTool_0.time_usec == at.time_usec
            }
            &&& tools_after == tools
        }),
{
    reveal(TabletState::departure_framed);
    reveal(TabletState::payload);
}

/// A pen that comes back in time never left: its tip is as it was.
pub proof fn law_pens_that_return_never_left(s: TabletState)
    ensures
        ({
            let after = s.wait_ended();
            &&& after.eraser.pen_out_since is None
            &&& s.eraser.pen_out_since is Some && s.eraser.pending_tip_up ==> after.tip.down
                && after.tip.pending is None && !after.eraser.pending_tip_up
            &&& !(s.eraser.pen_out_since is Some && s.eraser.pending_tip_up) ==> after.tip == s.tip
            &&& after.prox == s.prox && after.axes == s.axes
        }),
{
    reveal(TabletState::wait_ended);
}

/// A pen is waited for in vain after 30 milliseconds, and only then; it is gone
/// then, and its tip is up if it was about to be.
pub proof fn law_waiting_ends(s: TabletState, now: u64)
    requires
        s.eraser.pen_out_since is Some,
        s.eraser.pen_out_since->0 <= now,
    ensures
        ({
            let since = s.eraser.pen_out_since->0;
            let after = s.abandoned();
            &&& s.wait_over(now) <==> s.prox.tool is Some && now - since >= 30_000_000
            &&& after.prox.tool is None && !after.prox.in_proximity
            &&& after.eraser.pen_out_since is None && !after.eraser.pending_tip_up
            &&& s.eraser.pending_tip_up ==> !after.tip.down
            &&& !s.eraser.pending_tip_up ==> after.tip == s.tip
        }),
{
    reveal(TabletState::abandoned);
}

/// A pen without a sensor is gone after 150 silent milliseconds, unless its tip
/// or a button is down.
pub proof fn law_silent_pens_are_gone(s: TabletState, now: u64)
    requires
        s.prox.zero_pressure_since is Some,
        s.prox.zero_pressure_since->0 <= now,
    ensures
        ({
            let since = s.prox.zero_pressure_since->0;
            let after = s.silenced();
            &&& s.prox.tool is Some ==> (s.silent(now) <==> s.prox.timer_enabled && !s.tip.down
                && s.held_buttons@.len() == 0 && now - since >= 150_000_000)
            &&& s.prox.tool is None ==> (s.silent(now) <==> s.prox.timer_enabled
                && s.prox.area_suppressed && s.held_buttons@.len() == 0 && now - since
                >= 150_000_000)
            &&& after.prox.tool is None && !after.prox.in_proximity
                && after.prox.zero_pressure_since is None
            &&& s.outsider_gone(now) <==> s.prox.area_suppressed && now - since >= 150_000_000
        }),
{
    reveal(TabletState::silenced);
}

/// Each frame of a watched tool starts its silence anew.
pub proof fn law_frames_break_the_silence(s: TabletState, now: u64)
    requires
        s.prox.zero_pressure_since is None || s.prox.zero_pressure_since->0 <= now,
    ensures
        ({
            let after = s.watchdog(now);
            let gone = s.prox.area_suppressed && s.prox.zero_pressure_since is Some && now
                - s.prox.zero_pressure_since->0 >= 150_000_000;
            &&& s.prox.timer_enabled && s.prox.tool is Some ==> after.zero_pressure_since == Some(
                now,
            )
            &&& s.prox.timer_enabled && s.prox.area_suppressed && !gone
                ==> after.zero_pressure_since == Some(now)
            &&& gone ==> !after.area_suppressed && !after.in_proximity
            &&& !gone ==> after.area_suppressed == s.prox.area_suppressed && after.in_proximity
                == s.prox.in_proximity
            &&& after.tool == s.prox.tool && after.pending == s.prox.pending
        }),
{
    reveal(TabletState::watchdog);
}

/// A tool that is given up is told of by its proximity, after its tip if that
/// was down; where it is, with its tip up.
pub proof fn law_tools_that_are_given_up_say_goodbye(
    s: TabletState,
    tools: Seq<LibinputTabletTool>,
    tool: usize,
    device: DeviceId,
    time_usec: u64,
    tip: bool,
    out: Seq<LibinputEvent>,
)
    ensures
        ({
            let reported = s.goodbye(tools, tool, device, time_usec, tip, out);
            &&& reported.len() == out.len() + (if tip {
                2int
            } else {
                1
            })
            &&& reported.take(out.len() as int) == out
            &&& tells_tool(
                reported.last(),
                LibinputEventType::LIBINPUT_EVENT_TABLET_TOOL_PROXIMITY,
                device,
                time_usec,
                tool,
                false,
                s.axes,
                s.last,
                if tip {
                    false
                } else {
                    s.tip.down
                },
            )
            &&& tip ==> tells_tool(
                reported[out.len() as int],
                LibinputEventType::LIBINPUT_EVENT_TABLET_TOOL_TIP,
                device,
                time_usec,
                tool,
                true,
                s.axes,
                s.last,
                false,
            )
        }),
{
    reveal(TabletState::payload);
    assert(s.goodbye(tools, tool, device, time_usec, tip, out).take(out.len() as int) =~= out);
}

/// A tablet that goes releases the buttons of its tool, then its tip, and then
/// the tool itself; a tablet without a tool has nothing to release.
pub proof fn law_tablets_that_go_release_their_tool(
    s: TabletState,
    tools: Seq<LibinputTabletTool>,
    device: DeviceId,
    time_usec: u64,
    out: Seq<LibinputEvent>,
    held: Vec<u16>,
)
    requires
        held@.len() == 0,
    ensures
        ({
            let reported = s.release_events(tools, device, time_usec, out);
            let after = s.released(held);
            &&& s.prox.tool is None ==> reported == out && after == s
            &&& s.prox.tool is Some ==> {
                &&& reported.len() == out.len() + s.held_buttons@.len() + (if s.tip.down {
                    2int
                } else {
                    1
                })
                &&& tells_tool(
                    reported.last(),
                    LibinputEventType::LIBINPUT_EVENT_TABLET_TOOL_PROXIMITY,
                    device,
                    time_usec,
                    s.prox.tool->0,
                    false,
                    s.axes,
                    s.last,
                    false,
                )
                &&& after.prox.tool is None && !after.tip.down && after.held_buttons@.len() == 0
            }
        }),
{
    if let Some(tool) = s.prox.tool {
        let changes = crate::backend::tablet::releases(s.held_buttons@);
        crate::laws::pens::lemma_buttons_follow(
            s,
            tools,
            tool,
            device,
            time_usec,
            changes,
            out,
        );
        let buttons = s.tool_button_events(tools, tool, device, time_usec, changes, out);
        law_tools_that_are_given_up_say_goodbye(
            s,
            tools,
            tool,
            device,
            time_usec,
            s.tip.down,
            buttons,
        );
    }
}

/// A frame in which nothing changed tells nothing; one in which something did
/// measures from here on.
pub proof fn law_quiet_frames_tell_nothing(
    s: TabletState,
    tools: Seq<LibinputTabletTool>,
    device: DeviceId,
    time_usec: u64,
    button_changed: bool,
    out: Seq<LibinputEvent>,
    after: TabletState,
    reported: Seq<LibinputEvent>,
)
    requires
        s.axis_framed(tools, device, time_usec, button_changed, out, after, reported),
        !s.changed.pressure,
    ensures
        s.prox.tool is None || (!s.axes_changed && s.tip.pending is None && s.pending_buttons@.len()
            == 0) ==> reported == out && after.axes == s.axes && after.last == s.last,
        s.prox.tool is Some && (s.axes_changed || s.tip.pending is Some || s.pending_buttons@.len()
            > 0) ==> reported.len() > out.len() && after.last == s.axes && !after.axes_changed
            && after.pending_buttons@.len() == 0 && after.wheel_discrete == 0,
{
    reveal(TabletState::axis_framed);
    reveal(TabletState::pressed);
    if let Some(tool) = s.prox.tool {
        let t = s.tip_reported();
        let base = if s.tip.pending is Some {
            out.push(
                t.tool_event(
                    tools,
                    tool,
                    device,
                    time_usec,
                    LibinputEventType::LIBINPUT_EVENT_TABLET_TOOL_TIP,
                    true,
                ),
            )
        } else if s.axes_changed {
            out.push(
                t.tool_event(
                    tools,
                    tool,
                    device,
                    time_usec,
                    LibinputEventType::LIBINPUT_EVENT_TABLET_TOOL_AXIS,
                    true,
                ),
            )
        } else {
            out
        };
        crate::laws::pens::lemma_buttons_follow(
            t,
            tools,
            tool,
            device,
            time_usec,
            s.pending_buttons@,
            base,
        );
    }
}

/// A frame of a mouse that is not there does not count: nothing is told and
/// nothing is asked for. A tool outside the area that was silent is gone, and a
/// new area takes effect.
pub proof fn law_void_frames_ask_for_nothing(
    s: TabletState,
    tools: Seq<LibinputTabletTool>,
    dev: LibinputDevice,
    facts: TabletFacts,
    at: FrameTime,
    out: Seq<LibinputEvent>,
    after: TabletState,
    tools_after: Seq<LibinputTabletTool>,
    reported: Seq<LibinputEvent>,
    outcome: TabletOutcome,
)
    requires
        s.framed(tools, dev, facts, at, out, after, tools_after, reported, outcome),
        s.frame_opened(at.now).cursor_drops(),
    ensures
        reported == out && tools_after == tools,
        !outcome.apply_area && !outcome.unblock_touch,
        outcome.block_touch_until is None && outcome.wake_after is None,
        !after.axes_changed && after.axes == s.axes,
        outcome.with_area(true).apply_area && outcome.with_area(false) == outcome,
{
}

/// Only a pen without a sensor is watched for silence.
pub proof fn law_only_pens_are_watched(s: TabletState, now: u64)
    ensures
        ({
            let after = s.pen_watched(now);
            &&& s.prox.timer_enabled && s.identity.tool_type == 1 ==> after.prox.zero_pressure_since
                == Some(now)
            &&& !s.prox.timer_enabled || s.identity.tool_type != 1 ==> after == s
            &&& after.prox.tool == s.prox.tool && after.axes == s.axes && after.tip == s.tip
        }),
{
}

/// An eraser that is a button goes down when the eraser comes near and comes up
/// when the pen does; no other tool presses it.
pub proof fn law_erasers_can_be_buttons(s: TabletState, tool: LibinputTabletTool)
    requires
        tool.tool_type == 1,
    ensures
        ({
            let after = s.enter_reported(tool);
            let eraser = s.identity.tool_type == 2;
            let pen = s.identity.tool_type == 1;
            &&& eraser && tool.eraser_button_mode == 1 ==> after.eraser.button_active
            &&& pen ==> !after.eraser.button_active
            &&& !eraser && !pen ==> after.eraser.button_active == s.eraser.button_active
            &&& eraser && tool.eraser_button_mode != 1 ==> after.eraser.button_active
                == s.eraser.button_active
            &&& s.eraser_enters(tool) <==> eraser && tool.eraser_button_mode == 1
                && !s.eraser.button_active
            &&& s.eraser_leaves(tool) <==> pen && s.eraser.button_active
            &&& after.tip.pending is None
        }),
{
}

/// When a tool comes near, every axis that its tablet senses counts as changed;
/// after a frame none does.
pub proof fn law_arrivals_change_every_axis(s: TabletState)
    ensures
        ({
            let all = crate::backend::tablet::all_changes(s.has);
            let none = s.rested().changed;
            &&& all.x && all.y
            &&& all.pressure == s.has.pressure && all.distance == s.has.distance
            &&& all.tilt_x == s.has.tilt && all.tilt_y == s.has.tilt
            &&& all.rotation == s.has.rotation && all.slider == s.has.slider
            &&& all.size_major == s.has.size && all.size_minor == s.has.size
            &&& all.wheel == s.has.wheel
            &&& !none.x && !none.y && !none.pressure && !none.distance && !none.tilt_x
                && !none.tilt_y && !none.rotation && !none.slider && !none.size_major
                && !none.size_minor && !none.wheel
            &&& s.dropped().changed == none && !s.dropped().axes_changed && s.dropped().last
                == s.last
        }),
{
}

} // verus!
