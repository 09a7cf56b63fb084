//! The event queue: what an event is when a client gets it, and what seats
//! count.
use vstd::prelude::*;
use crate::api::context::{seat_counted, LibinputContext, SeatChange};
use crate::ffi_types::{LibinputEvent, LibinputEventType, LibinputSeat};

verus! {

/// How often a button or a key is held in a seat.
pub open spec fn held_in_seat(counts: Seq<u32>, code: u32) -> u32 {
    if code < 0x300 {
        counts[code as int]
    } else {
        0
    }
}

/// The seat that an event counts in.
pub open spec fn seat_of(ctx: LibinputContext, event: LibinputEvent) -> LibinputSeat {
    ctx.seats@[ctx.registry@[event.device as int].seat as int]
}

/// Whether `after` is one press or one release further than `before`.
pub open spec fn one_further(before: u32, down: bool, after: u32) -> bool {
    &&& down && before < u32::MAX ==> after == before + 1
    &&& !down && before > 0 ==> after == before - 1
    &&& !down && before == 0 ==> after == 0
    &&& down && before == u32::MAX ==> after == before
}

/// Whether two tables of counts are the same but for one code.
pub open spec fn same_but_for(a: Seq<u32>, b: Seq<u32>, code: u32) -> bool {
    &&& a.len() == b.len()
    &&& forall|c: int| 0 <= c < a.len() && c != code ==> #[trigger] b[c] == a[c]
}

/// A queued event goes to the end of the queue as what was reported; only its
/// count is filled in.
pub proof fn law_events_are_queued_as_reported(
    ctx: LibinputContext,
    event: LibinputEvent,
    after: LibinputContext,
)
    requires
        ctx.wf(),
        ctx.enqueued(event, after),
    ensures
        ({
            let e = after.event_queue@.last();
            &&& after.event_queue@.len() == ctx.event_queue@.len() + 1
            &&& after.event_queue@.drop_last() == ctx.event_queue@
            &&& e.event_type == event.event_type && e.device == event.device
            &&& event.payload is PointerButton ==> {
                let (b, was) = (e.payload->PointerButton_0, event.payload->PointerButton_0);
                &&& e.payload is PointerButton
                &&& b.button == was.button && b.state == was.state && b.time_usec == was.time_usec
            }
            &&& event.payload is KeyboardKey ==> {
                let (k, was) = (e.payload->KeyboardKey_0, event.payload->KeyboardKey_0);
                &&& e.payload is KeyboardKey
                &&& k.key == was.key && k.state == was.state && k.time_usec == was.time_usec
            }
            &&& event.payload is TabletTool ==> {
                let (t, was) = (e.payload->TabletTool_0, event.payload->TabletTool_0);
                &&& e.payload is TabletTool
                &&& t.button == was.button && t.button_state == was.button_state && t.time_usec
                    == was.time_usec && t.tool == was.tool && t.axes == was.axes
                    && t.proximity_state == was.proximity_state
                &&& event.event_type != LibinputEventType::LIBINPUT_EVENT_TABLET_TOOL_BUTTON
                    ==> t == was
            }
            &&& !(event.payload is PointerButton) && !(event.payload is KeyboardKey) && !(
            event.payload is TabletTool) ==> e.payload == event.payload
        }),
{
    reveal(LibinputContext::enqueued);
    assert(after.event_queue@.drop_last() =~= ctx.event_queue@);
}

/// A button counts once more in the seat of its device when it goes down and
/// once less when it comes up; the event says how often it is held then. Keys
/// and other buttons keep their counts.
pub proof fn law_buttons_count_in_their_seat(
    ctx: LibinputContext,
    event: LibinputEvent,
    after: LibinputContext,
)
    requires
        ctx.wf(),
        event.device < ctx.registry@.len(),
        ctx.enqueued(event, after),
        event.payload is PointerButton,
        event.payload->PointerButton_0.button < 0x300,
    ensures
        ({
            let b = event.payload->PointerButton_0;
            let was = held_in_seat(seat_of(ctx, event).button_counts@, b.button);
            let is = held_in_seat(seat_of(after, event).button_counts@, b.button);
            &&& one_further(was, b.state != 0, is)
            &&& after.event_queue@.last().payload->PointerButton_0.seat_button_count == is
            &&& same_but_for(
                seat_of(ctx, event).button_counts@,
                seat_of(after, event).button_counts@,
                b.button,
            )
            &&& seat_of(after, event).key_counts@ == seat_of(ctx, event).key_counts@
        }),
{
    reveal(LibinputContext::enqueued);
    reveal(crate::api::context::referenced);
    assert(ctx.registry@[event.device as int].id == event.device);
}

/// The same of a tablet tool's buttons.
pub proof fn law_tool_buttons_count_in_their_seat(
    ctx: LibinputContext,
    event: LibinputEvent,
    after: LibinputContext,
)
    requires
        ctx.wf(),
        event.device < ctx.registry@.len(),
        ctx.enqueued(event, after),
        event.payload is TabletTool,
        event.event_type == LibinputEventType::LIBINPUT_EVENT_TABLET_TOOL_BUTTON,
        event.payload->TabletTool_0.button < 0x300,
    ensures
        ({
            let t = event.payload->TabletTool_0;
            let was = held_in_seat(seat_of(ctx, event).button_counts@, t.button);
            let is = held_in_seat(seat_of(after, event).button_counts@, t.button);
            &&& one_further(was, t.button_state != 0, is)
            &&& after.event_queue@.last().payload->TabletTool_0.seat_button_count == is
            &&& same_but_for(
                seat_of(ctx, event).button_counts@,
                seat_of(after, event).button_counts@,
                t.button,
            )
            &&& seat_of(after, event).key_counts@ == seat_of(ctx, event).key_counts@
        }),
{
    reveal(LibinputContext::enqueued);
    reveal(crate::api::context::referenced);
    assert(ctx.registry@[event.device as int].id == event.device);
}

/// A key counts once more in the seat of its device when it goes down and once
/// less when it comes up; a repeat changes no count. The event says how often
/// the key is held then. Buttons and other keys keep their counts.
pub proof fn law_keys_count_in_their_seat(
    ctx: LibinputContext,
    event: LibinputEvent,
    after: LibinputContext,
)
    requires
        ctx.wf(),
        event.device < ctx.registry@.len(),
        ctx.enqueued(event, after),
        event.payload is KeyboardKey,
        event.payload->KeyboardKey_0.key < 0x300,
    ensures
        ({
            let k = event.payload->KeyboardKey_0;
            let was = held_in_seat(seat_of(ctx, event).key_counts@, k.key);
            let is = held_in_seat(seat_of(after, event).key_counts@, k.key);
            &&& k.state <= 1 ==> one_further(was, k.state == 1, is)
            &&& k.state > 1 ==> is == was
            &&& after.event_queue@.last().payload->KeyboardKey_0.seat_key_count == is
            &&& same_but_for(
                seat_of(ctx, event).key_counts@,
                seat_of(after, event).key_counts@,
                k.key,
            )
            &&& seat_of(after, event).button_counts@ == seat_of(ctx, event).button_counts@
        }),
{
    reveal(LibinputContext::enqueued);
    reveal(crate::api::context::referenced);
    assert(ctx.registry@[event.device as int].id == event.device);
}

/// Everything else leaves the counts of every seat alone, and no event touches
/// the counts of another seat.
pub proof fn law_other_events_count_nowhere(
    ctx: LibinputContext,
    event: LibinputEvent,
    after: LibinputContext,
    s: int,
)
    requires
        ctx.wf(),
        event.device < ctx.registry@.len(),
        ctx.enqueued(event, after),
        0 <= s < ctx.seats@.len(),
        s != ctx.registry@[event.device as int].seat || (!(event.payload is PointerButton) && !(
        event.payload is KeyboardKey) && !(event.payload is TabletTool && event.event_type
            == LibinputEventType::LIBINPUT_EVENT_TABLET_TOOL_BUTTON)),
    ensures
        after.seats@[s].button_counts@ == ctx.seats@[s].button_counts@,
        after.seats@[s].key_counts@ == ctx.seats@[s].key_counts@,
{
    reveal(LibinputContext::enqueued);
}

/// A queued event of a tool holds on to the tool once more, and every event but
/// that of a removal holds on to its device once more; nothing else is held on
/// to.
pub proof fn law_events_hold_on_to_their_tools(
    ctx: LibinputContext,
    event: LibinputEvent,
    after: LibinputContext,
    k: int,
    d: int,
)
    requires
        ctx.wf(),
        crate::api::context::can_enqueue(ctx, event),
        ctx.enqueued(event, after),
        0 <= k < ctx.tools.tools@.len(),
        0 <= d < ctx.registry@.len(),
    ensures
        event.payload is TabletTool && event.payload->TabletTool_0.tool == k
            ==> after.tools.tools@[k].refcount == ctx.tools.tools@[k].refcount + 1,
        !(event.payload is TabletTool && event.payload->TabletTool_0.tool == k)
            ==> after.tools.tools@[k] == ctx.tools.tools@[k],
        event.device == d && event.event_type
            != LibinputEventType::LIBINPUT_EVENT_DEVICE_REMOVED ==> after.registry@[d].refcount
            == ctx.registry@[d].refcount + 1,
        event.device != d || event.event_type == LibinputEventType::LIBINPUT_EVENT_DEVICE_REMOVED
            ==> after.registry@[d] == ctx.registry@[d],
{
    reveal(LibinputContext::enqueued);
    reveal(crate::api::context::referenced);
}

/// Counting in a seat changes nothing else of it.
pub proof fn law_counting_keeps_the_seat(
    seat: LibinputSeat,
    change: SeatChange,
    after: LibinputSeat,
)
    requires
        seat_counted(seat, change, after),
    ensures
        after.refcount == seat.refcount,
        after.physical_name == seat.physical_name && after.logical_name == seat.logical_name,
{
}

} // verus!
