//! Devices of a context: which part reads an event, what events tell the
//! others, and when something is due.
use vstd::prelude::*;
use crate::api::context::LibinputContext;
use crate::backend::arbitration::arbitration_active;
use crate::backend::cycle::{debounce_left, left_spec, sooner_spec};
use crate::backend::debounce::DebounceButton;
use crate::backend::live::{
    hi_res_horizontal, hi_res_vertical, tool_seen, DeviceKind, Environment, Progress, Route,
    TrackedDevice, TrackingQuirks,
};
use crate::backend::probe::{DeviceClass, KernelDevice};
use crate::backend::state::BackendState;
use crate::backend::tablet::FrameTime;
use crate::backend::tools::LibinputTabletTool;
use crate::codes::InputEvent;
use crate::ffi_types::{LibinputDevice, LibinputEvent, TabletToolEvent};

verus! {

// ---------------------------------------------------------------------------
// Routes
// ---------------------------------------------------------------------------
/// The codes that are buttons: 0x100 to 0x15f and 0x2c0 to 0x2ff. All others
/// are keys.
pub open spec fn names_button(code: u16) -> bool {
    0x100 <= code <= 0x15f || 0x2c0 <= code <= 0x2ff
}

/// Pads read as pads, tablets as tablets, keyboards as keyboards, mice as mice;
/// what is keyboard and mouse in one gives its keys to the keyboard and all the
/// rest to the mouse. A device that is switched off reads nothing.
pub proof fn law_devices_read_what_they_are(kind: DeviceKind, dev: LibinputDevice, ev: InputEvent)
    ensures
        ({
            let route = kind.route_spec(dev, ev);
            let on = dev.send_events_mode != 1;
            let tablet = dev.has_tablet && !dev.has_touch && !dev.has_gesture;
            let plain = on && !dev.has_tablet_pad && !tablet;
            let key = ev.kind == 1 && !names_button(ev.code);
            &&& !on && !kind.is_topbuttonpad ==> route == Route::Nowhere
            &&& !on && kind.is_topbuttonpad ==> route == Route::TopButtons
            &&& on && dev.has_tablet_pad ==> route == Route::Pad
            &&& on && !dev.has_tablet_pad && tablet ==> route == Route::Tablet
            &&& plain && kind.is_keyboard && !kind.is_pointer && !kind.is_absolute
                && !kind.is_absolute_pointer ==> route == Route::Keyboard
            &&& plain && kind.is_keyboard && kind.is_pointer && key ==> route == Route::Keyboard
            &&& plain && kind.is_pointer && !kind.is_absolute && !kind.is_absolute_pointer && !(
            kind.is_keyboard && key) ==> route == Route::Relative
            &&& plain && kind.is_absolute_pointer && !(kind.is_keyboard && kind.is_pointer && key)
                ==> route == Route::AbsolutePointer
            &&& plain && kind.is_absolute && !kind.is_absolute_pointer && !(kind.is_keyboard
                && kind.is_pointer && key) ==> route == Route::Absolute
        }),
{
}

/// What a device is read as follows from what it offers: touchpads,
/// touchscreens and tablets report positions, and so does a pointer with both
/// axes (0 and 1), which is then no touchpad.
pub proof fn law_kinds_follow_what_is_offered(k: KernelDevice, class: DeviceClass, stick: bool)
    ensures
        ({
            let kind = DeviceKind::of(k, class, stick);
            let positions = k.absolute@.contains(0) && k.absolute@.contains(1);
            &&& kind.is_keyboard == class.is_keyboard
            &&& kind.is_pointer == class.is_pointer
            &&& kind.is_pointing_stick == stick
            &&& kind.is_topbuttonpad == k.props.topbuttonpad
            &&& kind.is_absolute_pointer == (class.is_pointer && positions && !class.is_touchpad)
            &&& kind.is_absolute == (class.is_touchpad || class.has_touch || class.has_tablet || (
            class.is_pointer && positions))
        }),
{
}

/// Wheels are fine where the kernel says so (11 upright, 12 sideways) and no
/// quirk denies it.
pub proof fn law_wheels_are_as_fine_as_they_say(k: KernelDevice, quirks: TrackingQuirks)
    ensures
        hi_res_vertical(k, quirks) == (k.relative@.contains(11) && !quirks.no_hi_res_vertical),
        hi_res_horizontal(k, quirks) == (k.relative@.contains(12) && !quirks.no_hi_res_horizontal),
{
}

/// A key that goes down on a keyboard is typing; nothing else is.
pub proof fn law_pressing_keys_is_typing(
    t: TrackedDevice,
    dev: LibinputDevice,
    ev: InputEvent,
    at: FrameTime,
    env: Environment,
    tools: Seq<LibinputTabletTool>,
    out: Seq<LibinputEvent>,
    after: TrackedDevice,
    dev_after: LibinputDevice,
    tools_after: Seq<LibinputTabletTool>,
    reported: Seq<LibinputEvent>,
    progress: Progress,
)
    requires
        t.processed(
            dev,
            ev,
            at,
            env,
            tools,
            out,
            after,
            dev_after,
            tools_after,
            reported,
            progress,
        ),
    ensures
        progress == Progress::Typed <==> t.kind.route_spec(dev, ev) == Route::Keyboard && ev.kind
            == 1 && ev.value == 1,
        after.device == t.device && after.fd == t.fd && after.kind == t.kind,
{
    reveal(TrackedDevice::touched);
    reveal(TrackedDevice::pointed);
}

/// An event changes its own device and no other. Typing is remembered with its
/// time; a tablet may block touch for a while or let it go on.
pub proof fn law_events_change_their_device(
    ctx: LibinputContext,
    place: int,
    ev: InputEvent,
    at: FrameTime,
    env: Environment,
    out: Seq<LibinputEvent>,
    after: LibinputContext,
    reported: Seq<LibinputEvent>,
    progress: Progress,
    other: int,
)
    requires
        ctx.event_read(place, ev, at, env, out, after, reported, progress),
        0 <= place < ctx.backend.devices@.len(),
        0 <= other < ctx.backend.devices@.len(),
        other != place,
    ensures
        after.backend.devices@[other] == ctx.backend.devices@[other],
        after.backend.devices@.len() == ctx.backend.devices@.len(),
        progress == Progress::Typed ==> after.backend.global_typing_time == Some(at.now),
        progress != Progress::Typed ==> after.backend.global_typing_time
            == ctx.backend.global_typing_time,
        !(progress is Tablet) ==> after.touch_arbitration_until == ctx.touch_arbitration_until,
        progress is Tablet && progress->Tablet_0.block_touch_until is Some
            ==> after.touch_arbitration_until == progress->Tablet_0.block_touch_until,
        progress is Tablet && progress->Tablet_0.block_touch_until is None
            && progress->Tablet_0.unblock_touch ==> after.touch_arbitration_until is None,
        after.event_queue == ctx.event_queue,
        after.seats == ctx.seats,
{
    reveal(LibinputContext::event_read);
}

/// The pointing stick is the first device that is one.
pub proof fn law_the_stick_is_the_first(ctx: LibinputContext, from: int)
    requires
        0 <= from <= ctx.backend.devices@.len(),
    ensures
        match ctx.stick_from(from) {
            Some(id) => exists|i: int|
                from <= i < ctx.backend.devices@.len() && (
                #[trigger] ctx.backend.devices@[i]).kind.is_pointing_stick
                    && ctx.backend.devices@[i].device == id,
            None => forall|i: int|
                from <= i < ctx.backend.devices@.len() ==> !(
                #[trigger] ctx.backend.devices@[i]).kind.is_pointing_stick,
        },
    decreases ctx.backend.devices@.len() - from,
{
    if from < ctx.backend.devices@.len() {
        if ctx.backend.devices@[from].kind.is_pointing_stick {
            assert(ctx.backend.devices@[from].device == ctx.stick_from(from)->0);
        } else {
            law_the_stick_is_the_first(ctx, from + 1);
            if let Some(id) = ctx.stick_from(from + 1) {
                let i = choose|i: int|
                    from + 1 <= i < ctx.backend.devices@.len() && (
                    #[trigger] ctx.backend.devices@[i]).kind.is_pointing_stick
                        && ctx.backend.devices@[i].device == id;
                assert(ctx.backend.devices@[i].kind.is_pointing_stick);
            }
        }
    }
}

/// Each contact gives way by where it is itself.
pub proof fn law_contacts_give_way_where_they_are(
    ctx: LibinputContext,
    t: TrackedDevice,
    now: u64,
    i: int,
)
    requires
        0 <= i < t.touch.slots@.len(),
    ensures
        ctx.claimed(t, now).len() == t.touch.slots@.len(),
        ctx.claimed(t, now)[i] == arbitration_active(
            ctx.touch_arbitration_until,
            now,
            ctx.devices@,
            ctx.registry@,
            t.device,
            Some((t.touch.slots@[i].x, t.touch.slots@[i].y)),
        ),
{
}

/// A tablet's last report is remembered; without a new one the old one counts.
pub proof fn law_the_last_tool_is_remembered(
    out: Seq<LibinputEvent>,
    event: LibinputEvent,
    before: int,
    known: Option<TabletToolEvent>,
)
    requires
        before <= out.len(),
    ensures
        event.payload is TabletTool ==> tool_seen(out.push(event), before, known) == Some(
            event.payload->TabletTool_0,
        ),
        out.len() == before ==> tool_seen(out, before, known) == known,
{
}

// ---------------------------------------------------------------------------
// Deadlines
// ---------------------------------------------------------------------------
/// Whether a wait of `left` ends no later than a span that began at `since`.
pub open spec fn in_time(left: Option<u64>, now: u64, since: u64, span: int) -> bool {
    &&& left is Some
    &&& since <= now < since + span ==> now + left->0 <= since + span
    &&& since <= now && now >= since + span ==> left->0 == 0
}

proof fn lemma_debounce(buttons: Seq<DebounceButton>, now: u64, k: int)
    requires
        0 <= k < buttons.len(),
        buttons[k].pending_since is Some,
    ensures
        in_time(debounce_left(buttons, now), now, buttons[k].pending_since->0, 25_000_000),
    decreases buttons.len(),
{
    if k < buttons.len() - 1 {
        assert(buttons.drop_last()[k] == buttons[k]);
        lemma_debounce(buttons.drop_last(), now, k);
    }
}

/// Nothing that is due is slept through: a press that waits for its chord (50
/// milliseconds), a change that is held back (25), an eraser (30), a tool that
/// fell silent (150), fingers that rest (40 for one or two, 180 for more), a tap
/// (180) and a drag (700).
pub proof fn law_nothing_is_slept_through(t: TrackedDevice, now: u64)
    ensures
        ({
            let left = t.next_deadline_spec(now);
            let middle = t.pointer.buttons.middle.pending_since;
            let eraser = t.tablet.eraser.pen_out_since;
            let hold = t.touch.hold;
            let tap = t.touch.tap.release_since;
            let drag = t.touch.drag.release_since;
            &&& middle is Some ==> in_time(left, now, middle->0, 50_000_000)
            &&& eraser is Some ==> in_time(left, now, eraser->0, 30_000_000)
            &&& t.tablet.prox.timer_enabled && t.tablet.prox.tool is Some && !t.tablet.tip.down
                && t.tablet.held_buttons@.len() == 0 && t.tablet.prox.zero_pressure_since is Some
                ==> in_time(left, now, t.tablet.prox.zero_pressure_since->0, 150_000_000)
            &&& hold.started_at is Some && !hold.active && !hold.blocked ==> in_time(
                left,
                now,
                hold.started_at->0,
                if hold.fingers <= 2 {
                    40_000_000
                } else {
                    180_000_000
                },
            )
            &&& tap is Some ==> in_time(left, now, tap->0, 180_000_000)
            &&& drag is Some ==> in_time(left, now, drag->0, 700_000_000)
            &&& forall|k: int|
                0 <= k < t.pointer.debouncer.known@.len() && (
                #[trigger] t.pointer.debouncer.known@[k]).pending_since is Some ==> in_time(
                    left,
                    now,
                    t.pointer.debouncer.known@[k].pending_since->0,
                    25_000_000,
                )
        }),
{
    let left = t.next_deadline_spec(now);
    assert forall|k: int|
        0 <= k < t.pointer.debouncer.known@.len() && (
        #[trigger] t.pointer.debouncer.known@[k]).pending_since is Some implies in_time(
        left,
        now,
        t.pointer.debouncer.known@[k].pending_since->0,
        25_000_000,
    ) by {
        lemma_debounce(t.pointer.debouncer.known@, now, k);
    }
}

/// Where nothing waits there is nothing to wake up for.
pub proof fn law_idle_devices_sleep(t: TrackedDevice, now: u64)
    requires
        t.pointer.buttons.middle.pending_since is None,
        t.pointer.debouncer.known@.len() == 0,
        t.tablet.prox.zero_pressure_since is None,
        t.tablet.eraser.pen_out_since is None,
        t.touch.hold.started_at is None,
        t.touch.tap.release_since is None,
        t.touch.drag.release_since is None,
    ensures
        t.next_deadline_spec(now) is None,
{
}

/// The context wakes up as soon as any of its devices has to, and not sooner.
pub proof fn law_the_first_deadline_counts(b: BackendState, now: u64, n: int)
    requires
        0 <= n <= b.devices@.len(),
    ensures
        ({
            let left = b.deadline_upto(now, n);
            &&& forall|i: int|
                0 <= i < n && (#[trigger] b.devices@[i]).next_deadline_spec(now) is Some ==> left
                    is Some && left->0 <= b.devices@[i].next_deadline_spec(now)->0
            &&& left is Some ==> exists|i: int|
                0 <= i < n && (#[trigger] b.devices@[i]).next_deadline_spec(now) == left
        }),
    decreases n,
{
    if n > 0 {
        law_the_first_deadline_counts(b, now, n - 1);
        let before = b.deadline_upto(now, n - 1);
        let left = b.deadline_upto(now, n);
        if left is Some {
            if left == b.devices@[n - 1].next_deadline_spec(now) {
                assert(b.devices@[n - 1].next_deadline_spec(now) == left);
            } else {
                let i = choose|i: int|
                    0 <= i < n - 1 && (#[trigger] b.devices@[i]).next_deadline_spec(now) == before;
                assert(b.devices@[i].next_deadline_spec(now) == left);
            }
        }
    }
}

/// The sooner of two spans is one of them and no longer than the other; of a
/// span, what has passed is not left any more.
pub proof fn law_the_sooner_comes_first(a: Option<u64>, b: Option<u64>, now: u64, since: u64, span: u64)
    requires
        since <= now,
    ensures
        ({
            let s = sooner_spec(a, b);
            &&& s == a || s == b
            &&& a is Some ==> s is Some && s->0 <= a->0
            &&& b is Some ==> s is Some && s->0 <= b->0
            &&& now - since <= span ==> left_spec(now, Some(since), span) == Some(
                (span - (now - since)) as u64,
            )
            &&& now - since >= span ==> left_spec(now, Some(since), span) == Some(0u64)
        }),
{
}

/// A pointer with positions takes its coordinates from the kernel and tells of
/// them; its buttons and wheels are those of a mouse.
pub proof fn law_positions_belong_to_the_pointer(
    t: TrackedDevice,
    dev: LibinputDevice,
    ev: InputEvent,
    at: FrameTime,
    out: Seq<LibinputEvent>,
    after: TrackedDevice,
    reported: Seq<LibinputEvent>,
)
    requires
        t.pointed(dev, ev, at, out, after, reported),
        ev.kind == 3 && (ev.code == 0 || ev.code == 1),
    ensures
        ev.code == 0 ==> after.absolute.x == Some(ev.value) && after.absolute.y == t.absolute.y,
        ev.code == 1 ==> after.absolute.y == Some(ev.value) && after.absolute.x == t.absolute.x,
        after.absolute.changed && reported == out,
        after.pointer == t.pointer && after.touch == t.touch && after.tablet == t.tablet,
{
    reveal(TrackedDevice::pointed);
}

/// Stopping ends all scrolling: with a button and with fingers.
pub proof fn law_stopping_ends_all_scrolling(t: TrackedDevice)
    ensures
        ({
            let after = t.scroll_stopped();
            &&& !after.touch.scroll.vertical && !after.touch.scroll.horizontal
            &&& after.pointer.scroll == crate::backend::scroll::ScrollState::start_spec()
            &&& after.pointer.buttons == t.pointer.buttons && after.touch.slots == t.touch.slots
                && after.held_keys == t.held_keys && after.tablet == t.tablet
        }),
{
}

/// The frame of a touchpad changes only the touchpad.
pub proof fn law_frames_stay_with_their_touchpad(
    ctx: LibinputContext,
    place: int,
    other: int,
    at: FrameTime,
    env: Environment,
    out: Seq<LibinputEvent>,
    after: LibinputContext,
    reported: Seq<LibinputEvent>,
    action: crate::backend::touchpad::FrameAction,
)
    requires
        ctx.pad_done(place, at, env, out, after, reported, action),
        0 <= place < ctx.backend.devices@.len(),
        0 <= other < ctx.backend.devices@.len(),
        other != place,
    ensures
        after.registry == ctx.registry && after.seats == ctx.seats && after.tools == ctx.tools
            && after.event_queue == ctx.event_queue,
        after.backend.devices@.len() == ctx.backend.devices@.len(),
        after.backend.devices@[other] == ctx.backend.devices@[other],
        after.backend.devices@[place].pointer == ctx.backend.devices@[place].pointer,
        after.backend.devices@[place].tablet == ctx.backend.devices@[place].tablet,
        after.backend.devices@[place].held_keys == ctx.backend.devices@[place].held_keys,
{
    reveal(LibinputContext::pad_done);
}

} // verus!
