//! Contexts: their seats, devices and groups, and the events they queue.
use std::collections::VecDeque;
use vstd::prelude::*;
use vstd::utf8::encode_utf8;
use crate::backend::state::BackendState;
use crate::backend::tools::{LibinputTabletTool, ToolSet};
use crate::evtrans::{seat_count, seat_counts_after, update_seat_count};
use crate::ffi_types::{
    BackendKind, DeviceId, EventPayload, KeyboardKeyEvent, LibinputDevice, LibinputDeviceGroup,
    LibinputEvent, LibinputEventType, LibinputSeat, PointerButtonEvent, TabletToolEvent,
};

verus! {

/// The longest name of a seat, in bytes.
pub const SEAT_NAME_MAX: usize = 255;

/// The longest path of a device, in bytes.
pub const PATH_MAX: usize = 4096;

pub const EINVAL: i32 = 22;
pub const ENOSYS: i32 = 38;

/// A context. Devices, seats and groups are named by their places in its
/// lists; `devices` holds the devices that are attached.
pub struct LibinputContext {
    pub user_data: usize,
    pub refcount: i32,
    pub log_priority: u32,
    pub backend_kind: BackendKind,
    pub backend: BackendState,
    pub event_queue: VecDeque<LibinputEvent>,
    pub registry: Vec<LibinputDevice>,
    pub devices: Vec<DeviceId>,
    pub seats: Vec<LibinputSeat>,
    pub groups: Vec<LibinputDeviceGroup>,
    pub tools: ToolSet,
    pub touch_seat_slots: Vec<bool>,
    pub touch_arbitration_until: Option<u64>,
    pub seat_assigned: bool,
    pub plugin_paths: Vec<String>,
    pub plugins_loaded: bool,
}

impl LibinputContext {
    /// Whether every device that is named exists, and has a seat and a group.
    pub open spec fn wf(self) -> bool {
        &&& self.tools.wf()
        &&& self.seats@.len() > 0
        &&& self.backend.wf(self.registry@, self.tools.tools@)
        &&& forall|i: int| 0 <= i < self.devices@.len() ==> #[trigger] self.devices@[i]
            < self.registry@.len()
        &&& forall|i: int|
            0 <= i < self.registry@.len() ==> (#[trigger] self.registry@[i]).id == i
                && self.registry@[i].seat < self.seats@.len() && self.registry@[i].group
                < self.groups@.len()
    }

    /// Whether this is a context that has no devices yet, only its seat.
    pub open spec fn is_new(self, user_data: usize, backend_kind: BackendKind) -> bool {
        &&& self.user_data == user_data
        &&& self.backend_kind == backend_kind
        &&& self.refcount == 1
        &&& self.log_priority == 30
        &&& self.event_queue@.len() == 0
        &&& self.registry@.len() == 0
        &&& self.devices@.len() == 0
        &&& self.groups@.len() == 0
        &&& self.tools.tools@.len() == 0
        &&& self.tools.buttons@.len() == 0
        &&& self.touch_seat_slots@.len() == 0
        &&& self.touch_arbitration_until is None
        &&& !self.seat_assigned
        &&& self.plugin_paths@.len() == 0
        &&& !self.plugins_loaded
        &&& self.seats@.len() == 1
        &&& self.seats@[0].is_new("seat0"@, "default"@)
        &&& self.backend.devices@.len() == 0
        &&& self.backend.requested_paths@.len() == 0
        &&& self.backend.global_typing_time is None
        &&& !self.backend.suspended
    }

    pub fn new(user_data: usize, backend_kind: BackendKind) -> (ctx: LibinputContext)
        ensures
            ctx.wf(),
            ctx.is_new(user_data, backend_kind),
    {
        let mut seats: Vec<LibinputSeat> = Vec::new();
        seats.push(LibinputSeat::new("seat0".to_owned(), "default".to_owned()));
        LibinputContext {
            user_data,
            refcount: 1,
            log_priority: 30,
            backend_kind,
            backend: BackendState::new(),
            event_queue: VecDeque::new(),
            registry: Vec::new(),
            devices: Vec::new(),
            seats,
            groups: Vec::new(),
            tools: ToolSet::new(),
            touch_seat_slots: Vec::new(),
            touch_arbitration_until: None,
            seat_assigned: false,
            plugin_paths: Vec::new(),
            plugins_loaded: false,
        }
    }
}

/// Creates a context that finds its own devices. It takes an interface and a
/// connection to udev.
pub fn libinput_udev_create_context(interface: bool, user_data: usize, udev: bool) -> (ctx: Option<
    LibinputContext,
>)
    ensures
        ctx is Some <==> interface && udev,
        ctx matches Some(c) ==> c.wf() && c.is_new(user_data, BackendKind::Udev),
{
    if interface && udev {
        Some(LibinputContext::new(user_data, BackendKind::Udev))
    } else {
        None
    }
}

/// Creates a context whose clients name the devices. It takes an interface.
pub fn libinput_path_create_context(interface: bool, user_data: usize) -> (ctx: Option<
    LibinputContext,
>)
    ensures
        ctx is Some <==> interface,
        ctx matches Some(c) ==> c.wf() && c.is_new(user_data, BackendKind::Path),
{
    if interface {
        Some(LibinputContext::new(user_data, BackendKind::Path))
    } else {
        None
    }
}

/// Adds a reference to a context.
pub fn libinput_ref(ctx: Option<&mut LibinputContext>) -> (there: bool)
    requires
        ctx matches Some(c) ==> c.refcount < i32::MAX,
    ensures
        there == ctx is Some,
        ctx matches Some(c) ==> *final(c) == (LibinputContext {
            refcount: (c.refcount + 1) as i32,
            ..*c
        }),
{
    match ctx {
        None => false,
        Some(c) => {
            c.refcount = c.refcount + 1;
            true
        },
    }
}

/// Drops a reference to a context. Tells whether the context lives on.
pub fn libinput_unref(ctx: Option<&mut LibinputContext>) -> (alive: bool)
    requires
        ctx matches Some(c) ==> c.refcount > i32::MIN,
    ensures
        match ctx {
            None => !alive,
            Some(c) => {
                &&& *final(c) == (LibinputContext { refcount: (c.refcount - 1) as i32, ..*c })
                &&& alive == (c.refcount != 1)
            },
        },
{
    match ctx {
        None => false,
        Some(c) => {
            c.refcount = c.refcount - 1;
            c.refcount != 0
        },
    }
}

// ---------------------------------------------------------------------------
// Seats
// ---------------------------------------------------------------------------
/// The number of bytes of a text.
pub open spec fn byte_len(text: Seq<char>) -> nat {
    encode_utf8(text).len()
}

/// Whether a seat can be assigned to a context: once, and only if it finds its
/// own devices.
pub open spec fn can_assign(ctx: LibinputContext, name: Seq<char>) -> bool {
    ctx.backend_kind == BackendKind::Udev && !ctx.seat_assigned && byte_len(name) <= SEAT_NAME_MAX
}

fn rename_seat(seats: &mut Vec<LibinputSeat>, name: &str)
    requires
        old(seats)@.len() > 0,
    ensures
        final(seats)@.len() == old(seats)@.len(),
        final(seats)@[0].physical_name@ == name@,
        final(seats)@[0] == (LibinputSeat {
            physical_name: final(seats)@[0].physical_name,
            ..old(seats)@[0]
        }),
        forall|i: int| 0 < i < old(seats)@.len() ==> #[trigger] final(seats)@[i] == old(seats)@[i],
{
    seats[0].physical_name = name.to_owned();
}

/// Assigns a seat to a context. On success the caller looks for the devices
/// of the seat.
pub fn libinput_udev_assign_seat(ctx: Option<&mut LibinputContext>, seat_name: Option<&str>) -> (
status: i32)
    requires
        ctx matches Some(c) ==> c.wf(),
    ensures
        status == 0 <==> ctx is Some && seat_name is Some && can_assign(*ctx->0, (seat_name->0)@),
        status == 0 || status == -1,
        ctx matches Some(c) ==> {
            &&& final(c).wf()
            &&& status != 0 ==> *final(c) == *c
            &&& status == 0 ==> {
                &&& final(c).seats@.len() == c.seats@.len()
                &&& final(c).seats@[0].physical_name@ == (seat_name->0)@
                &&& final(c).seats@[0] == (LibinputSeat {
                    physical_name: final(c).seats@[0].physical_name,
                    ..c.seats@[0]
                })
                &&& forall|i: int|
                    0 < i < c.seats@.len() ==> #[trigger] final(c).seats@[i] == c.seats@[i]
                &&& *final(c) == (LibinputContext {
                    seats: final(c).seats,
                    seat_assigned: true,
                    plugins_loaded: true,
                    ..*c
                })
            }
        },
{
    match ctx {
        None => -1,
        Some(c) => {
            let name: &str = match seat_name {
                Some(name) => name,
                None => {
                    return -1;
                },
            };
            let finds = match c.backend_kind {
                BackendKind::Udev => true,
                BackendKind::Path => false,
            };
            if !finds || c.seat_assigned || name.as_bytes().len() > SEAT_NAME_MAX {
                return -1;
            }
            rename_seat(&mut c.seats, name);
            c.seat_assigned = true;
            c.plugins_loaded = true;
            0
        },
    }
}

/// A seat is assigned once: whatever is asked for afterwards is refused.
pub proof fn law_seats_are_assigned_once(ctx: LibinputContext, name: Seq<char>)
    requires
        ctx.seat_assigned,
    ensures
        !can_assign(ctx, name),
{
}

// ---------------------------------------------------------------------------
// The event queue
// ---------------------------------------------------------------------------
/// A code as seats count it; one that is no code at all is counted nowhere.
pub open spec fn seat_code(code: u32) -> u16 {
    if code <= 0xffff {
        code as u16
    } else {
        0xffff
    }
}

fn code_for_seat(code: u32) -> (c: u16)
    ensures
        c == seat_code(code),
{
    if code <= 0xffff {
        code as u16
    } else {
        0xffff
    }
}

/// What an event changes in the seat's counts.
#[derive(Clone, Copy, Debug, PartialEq, Eq, Structural)]
pub enum SeatChange {
    Nothing,
    Button { code: u16, pressed: bool },
    Key { code: u16, pressed: bool },
    /// A key that repeats: it is counted already.
    Repeat { code: u16 },
}

pub open spec fn seat_change_spec(event: LibinputEvent) -> SeatChange {
    match event.payload {
        EventPayload::PointerButton(b) => SeatChange::Button {
            code: seat_code(b.button),
            pressed: b.state != 0,
        },
        EventPayload::KeyboardKey(k) => if k.state <= 1 {
            SeatChange::Key { code: seat_code(k.key), pressed: k.state == 1 }
        } else {
            SeatChange::Repeat { code: seat_code(k.key) }
        },
        EventPayload::TabletTool(t) => if event.event_type
            == LibinputEventType::LIBINPUT_EVENT_TABLET_TOOL_BUTTON {
            SeatChange::Button { code: seat_code(t.button), pressed: t.button_state != 0 }
        } else {
            SeatChange::Nothing
        },
        _ => SeatChange::Nothing,
    }
}

fn seat_change(event: &LibinputEvent) -> (change: SeatChange)
    ensures
        change == seat_change_spec(*event),
{
    match event.payload {
        EventPayload::PointerButton(b) => SeatChange::Button {
            code: code_for_seat(b.button),
            pressed: b.state != 0,
        },
        EventPayload::KeyboardKey(k) => if k.state <= 1 {
            SeatChange::Key { code: code_for_seat(k.key), pressed: k.state == 1 }
        } else {
            SeatChange::Repeat { code: code_for_seat(k.key) }
        },
        EventPayload::TabletTool(t) => if event.event_type
            == LibinputEventType::LIBINPUT_EVENT_TABLET_TOOL_BUTTON {
            SeatChange::Button { code: code_for_seat(t.button), pressed: t.button_state != 0 }
        } else {
            SeatChange::Nothing
        },
        _ => SeatChange::Nothing,
    }
}

/// Whether `after` is a seat once a change was counted.
pub open spec fn seat_counted(seat: LibinputSeat, change: SeatChange, after: LibinputSeat) -> bool {
    &&& after == (LibinputSeat {
        button_counts: after.button_counts,
        key_counts: after.key_counts,
        ..seat
    })
    &&& after.button_counts@ == (match change {
        SeatChange::Button { code, pressed } => seat_counts_after(
            seat.button_counts@,
            code,
            pressed,
        ),
        _ => seat.button_counts@,
    })
    &&& after.key_counts@ == (match change {
        SeatChange::Key { code, pressed } => seat_counts_after(seat.key_counts@, code, pressed),
        _ => seat.key_counts@,
    })
}

/// The count that an event carries after it was counted.
pub open spec fn count_after(seat: LibinputSeat, change: SeatChange) -> u32 {
    match change {
        SeatChange::Nothing => 0,
        SeatChange::Button { code, pressed } => seat_count(
            seat_counts_after(seat.button_counts@, code, pressed),
            code,
        ),
        SeatChange::Key { code, pressed } => seat_count(
            seat_counts_after(seat.key_counts@, code, pressed),
            code,
        ),
        SeatChange::Repeat { code } => seat_count(seat.key_counts@, code),
    }
}

/// An event with its seat-wide count filled in.
pub open spec fn with_count(event: LibinputEvent, change: SeatChange, count: u32) -> LibinputEvent {
    if change == SeatChange::Nothing {
        event
    } else {
        LibinputEvent {
            payload: match event.payload {
                EventPayload::PointerButton(b) => EventPayload::PointerButton(
                    PointerButtonEvent { seat_button_count: count, ..b },
                ),
                EventPayload::KeyboardKey(k) => EventPayload::KeyboardKey(
                    KeyboardKeyEvent { seat_key_count: count, ..k },
                ),
                EventPayload::TabletTool(t) => EventPayload::TabletTool(
                    TabletToolEvent { seat_button_count: count, ..t },
                ),
                other => other,
            },
            ..event
        }
    }
}

fn fill_count(event: LibinputEvent, change: SeatChange, count: u32) -> (e: LibinputEvent)
    ensures
        e == with_count(event, change, count),
{
    if change == SeatChange::Nothing {
        return event;
    }
    let payload = match event.payload {
        EventPayload::PointerButton(b) => EventPayload::PointerButton(
            PointerButtonEvent { seat_button_count: count, ..b },
        ),
        EventPayload::KeyboardKey(k) => EventPayload::KeyboardKey(
            KeyboardKeyEvent { seat_key_count: count, ..k },
        ),
        EventPayload::TabletTool(t) => EventPayload::TabletTool(
            TabletToolEvent { seat_button_count: count, ..t },
        ),
        other => other,
    };
    LibinputEvent { payload, ..event }
}

impl LibinputSeat {
    /// Counts what an event changes and gives back the count that it carries.
    pub fn count(&mut self, change: SeatChange) -> (count: u32)
        ensures
            seat_counted(*old(self), change, *final(self)),
            count == count_after(*old(self), change),
    {
        match change {
            SeatChange::Nothing => 0,
            SeatChange::Button { code, pressed } => update_seat_count(
                &mut self.button_counts,
                code,
                pressed,
            ),
            SeatChange::Key { code, pressed } => update_seat_count(
                &mut self.key_counts,
                code,
                pressed,
            ),
            SeatChange::Repeat { code } => {
                let index: usize = code as usize;
                if index < 0x300 {
                    self.key_counts[index]
                } else {
                    0
                }
            },
        }
    }
}

/// The tool that an event speaks of.
pub open spec fn tool_of(event: LibinputEvent) -> Option<usize> {
    match event.payload {
        EventPayload::TabletTool(t) => Some(t.tool),
        _ => None,
    }
}

fn event_tool(event: &LibinputEvent) -> (tool: Option<usize>)
    ensures
        tool == tool_of(*event),
{
    match event.payload {
        EventPayload::TabletTool(t) => Some(t.tool),
        _ => None,
    }
}

/// The tools once an event holds on to one of them.
pub open spec fn tools_retained(tools: Seq<LibinputTabletTool>, tool: Option<usize>) -> Seq<
    LibinputTabletTool,
> {
    match tool {
        Some(k) => tools.update(
            k as int,
            LibinputTabletTool {
                refcount: (tools[k as int].refcount + 1) as i32,
                ..tools[k as int]
            },
        ),
        None => tools,
    }
}

/// A device that is held on to `refcount` times.
#[verifier::opaque]
pub open spec fn referenced(d: LibinputDevice, refcount: i32) -> LibinputDevice {
    LibinputDevice { refcount, ..d }
}

/// Nothing but the count changes when a device is held on to or let go.
pub proof fn lemma_referenced(d: LibinputDevice, a: i32, b: i32)
    ensures
        referenced(referenced(d, a), b) == referenced(d, b),
        referenced(d, d.refcount) == d,
        referenced(d, a).refcount == a,
        referenced(d, a).id == d.id,
        referenced(d, a).seat == d.seat,
        referenced(d, a).group == d.group,
{
    reveal(referenced);
}

/// The registry once an event holds on to its device. The event of a removal
/// takes over the reference that the context had.
pub open spec fn devices_retained(registry: Seq<LibinputDevice>, event: LibinputEvent) -> Seq<
    LibinputDevice,
> {
    if event.event_type == LibinputEventType::LIBINPUT_EVENT_DEVICE_REMOVED {
        registry
    } else {
        let d = registry[event.device as int];
        registry.update(event.device as int, referenced(d, (d.refcount + 1) as i32))
    }
}

/// Whether everything that an event speaks of exists, and can be held on to.
pub open spec fn can_enqueue(ctx: LibinputContext, event: LibinputEvent) -> bool {
    &&& event.device < ctx.registry@.len()
    &&& ctx.registry@[event.device as int].refcount < i32::MAX
    &&& tool_of(event) matches Some(k) ==> k < ctx.tools.tools@.len() && ctx.tools.tools@[k as int].refcount
        < i32::MAX
}

fn set_refcount(dev: &mut LibinputDevice, refcount: i32)
    ensures
        *final(dev) == referenced(*old(dev), refcount),
        final(dev).id == old(dev).id,
        final(dev).seat == old(dev).seat,
        final(dev).group == old(dev).group,
{
    reveal(referenced);
    dev.refcount = refcount;
}

/// Whether two registries hold the same devices in the same seats and groups.
pub open spec fn same_places(a: Seq<LibinputDevice>, b: Seq<LibinputDevice>) -> bool {
    &&& a.len() == b.len()
    &&& forall|i: int|
        0 <= i < a.len() ==> (#[trigger] b[i]).id == a[i].id && b[i].seat == a[i].seat && b[i].group
            == a[i].group
}

fn retain_device(registry: &mut Vec<LibinputDevice>, event: &LibinputEvent)
    requires
        event.device < old(registry)@.len(),
        old(registry)@[event.device as int].refcount < i32::MAX,
    ensures
        final(registry)@ == devices_retained(old(registry)@, *event),
        same_places(old(registry)@, final(registry)@),
{
    if event.event_type != LibinputEventType::LIBINPUT_EVENT_DEVICE_REMOVED {
        assert(event.device < registry.len());
        let place: usize = event.device as usize;
        let count: i32 = registry[place].refcount;
        set_refcount(&mut registry[place], count + 1);
    }
}

fn retain_tool(tools: &mut ToolSet, tool: Option<usize>)
    requires
        old(tools).wf(),
        tool matches Some(k) ==> k < old(tools).tools@.len() && old(tools).tools@[k as int].refcount
            < i32::MAX,
    ensures
        final(tools).wf(),
        final(tools).tools@ == tools_retained(old(tools).tools@, tool),
        final(tools).buttons == old(tools).buttons,
{
    if let Some(k) = tool {
        let t = tools.tools[k];
        tools.tools.set(k, LibinputTabletTool { refcount: t.refcount + 1, ..t });
    }
}

impl LibinputContext {
    /// Whether queueing an event leaves this context behind.
    #[verifier::opaque]
    pub open spec fn enqueued(self, event: LibinputEvent, after: LibinputContext) -> bool {
        let seat = self.registry@[event.device as int].seat as int;
        let change = seat_change_spec(event);
        &&& after.registry@ == devices_retained(self.registry@, event)
        &&& after.tools.tools@ == tools_retained(self.tools.tools@, tool_of(event))
        &&& after.tools.buttons == self.tools.buttons
        &&& after.seats@.len() == self.seats@.len()
        &&& seat_counted(self.seats@[seat], change, after.seats@[seat])
        &&& forall|i: int|
            0 <= i < self.seats@.len() && i != seat ==> #[trigger] after.seats@[i] == self.seats@[i]
        &&& after.event_queue@ == self.event_queue@.push(
            with_count(event, change, count_after(self.seats@[seat], change)),
        )
        &&& after == (LibinputContext {
            registry: after.registry,
            tools: after.tools,
            seats: after.seats,
            event_queue: after.event_queue,
            ..self
        })
    }

    /// Queues an event: it holds on to its device and its tool, and counts in
    /// the seat of its device.
    pub fn enqueue_event(&mut self, event: LibinputEvent)
        requires
            old(self).wf(),
            can_enqueue(*old(self), event),
        ensures
            final(self).wf(),
            old(self).enqueued(event, *final(self)),
    {
        reveal(LibinputContext::enqueued);
        assert(event.device < self.registry.len());
        let place: usize = event.device as usize;
        assert(self.registry@[place as int].id == place);
        let seat: usize = self.registry[place].seat;
        let change = seat_change(&event);
        let count: u32 = self.seats[seat].count(change);
        retain_device(&mut self.registry, &event);
        let tool = event_tool(&event);
        retain_tool(&mut self.tools, tool);
        self.event_queue.push_back(fill_count(event, change, count));
    }
}

impl LibinputContext {
    /// Whether queueing the first `n` events leaves this context behind.
    pub open spec fn enqueued_upto(
        self,
        events: Seq<LibinputEvent>,
        n: int,
        after: LibinputContext,
    ) -> bool
        decreases n,
    {
        if n <= 0 {
            after == self
        } else {
            exists|middle: LibinputContext|
                self.enqueued_upto(events, n - 1, middle) && #[trigger] middle.enqueued(
                    events[n - 1],
                    after,
                )
        }
    }

    /// Whether everything that an event speaks of exists.
    pub open spec fn knows(self, event: LibinputEvent) -> bool {
        &&& event.device < self.registry@.len()
        &&& tool_of(event) matches Some(k) ==> k < self.tools.tools@.len()
    }

    /// Whether devices and tools can be held on to `n` more times.
    pub open spec fn can_hold(self, n: int) -> bool {
        &&& forall|i: int|
            0 <= i < self.registry@.len() ==> (#[trigger] self.registry@[i]).refcount + n <= i32::MAX
        &&& forall|i: int|
            0 <= i < self.tools.tools@.len() ==> (#[trigger] self.tools.tools@[i]).refcount + n
                <= i32::MAX
    }

    /// Whether events can be queued: all that they speak of exists, and can be
    /// held on to.
    pub open spec fn can_enqueue_all(self, events: Seq<LibinputEvent>) -> bool {
        &&& forall|i: int| 0 <= i < events.len() ==> self.knows(#[trigger] events[i])
        &&& self.can_hold(events.len() as int)
    }

    pub fn accepts(&self, events: &Vec<LibinputEvent>) -> (can: bool)
        ensures
            can == self.can_enqueue_all(events@),
    {
        let most: i128 = i32::MAX as i128 - events.len() as i128;
        let mut i: usize = 0;
        while i < events.len()
            invariant
                i <= events@.len(),
                forall|j: int| 0 <= j < i ==> self.knows(#[trigger] events@[j]),
            decreases events.len() - i,
        {
            let known = events[i].device < self.registry.len() as u64 && match event_tool(
                &events[i],
            ) {
                Some(k) => k < self.tools.tools.len(),
                None => true,
            };
            if !known {
                assert(!self.knows(events@[i as int]));
                return false;
            }
            i += 1;
        }
        let mut j: usize = 0;
        while j < self.registry.len()
            invariant
                j <= self.registry@.len(),
                most == i32::MAX - events@.len(),
                forall|k: int| 0 <= k < j ==> (#[trigger] self.registry@[k]).refcount <= most,
            decreases self.registry.len() - j,
        {
            if self.registry[j].refcount as i128 > most {
                assert(self.registry@[j as int].refcount + events@.len() > i32::MAX);
                return false;
            }
            j += 1;
        }
        let mut l: usize = 0;
        while l < self.tools.tools.len()
            invariant
                l <= self.tools.tools@.len(),
                most == i32::MAX - events@.len(),
                forall|k: int| 0 <= k < l ==> (#[trigger] self.tools.tools@[k]).refcount <= most,
            decreases self.tools.tools.len() - l,
        {
            if self.tools.tools[l].refcount as i128 > most {
                assert(self.tools.tools@[l as int].refcount + events@.len() > i32::MAX);
                return false;
            }
            l += 1;
        }
        true
    }

    /// Queues events in their order.
    pub fn enqueue_events(&mut self, events: &Vec<LibinputEvent>)
        requires
            old(self).wf(),
            old(self).can_enqueue_all(events@),
        ensures
            final(self).wf(),
            old(self).enqueued_upto(events@, events@.len() as int, *final(self)),
    {
        let mut i: usize = 0;
        while i < events.len()
            invariant
                self.wf(),
                i <= events@.len(),
                self.can_hold(events@.len() - i),
                forall|j: int| 0 <= j < events@.len() ==> self.knows(#[trigger] events@[j]),
                old(self).enqueued_upto(events@, i as int, *self),
            decreases events.len() - i,
        {
            let ghost middle = *self;
            assert(self.knows(events@[i as int]));
            self.enqueue_event(events[i]);
            proof {
                lemma_enqueued_counts(middle, events@[i as int], *self, events@.len() - i);
            }
            i += 1;
            assert(middle.enqueued(events@[i - 1], *self));
            assert forall|j: int| 0 <= j < events@.len() implies self.knows(
                #[trigger] events@[j],
            ) by {
                assert(middle.knows(events@[j]));
            }
        }
    }
}

proof fn lemma_enqueued_counts(
    ctx: LibinputContext,
    event: LibinputEvent,
    after: LibinputContext,
    n: int,
)
    requires
        ctx.knows(event),
        ctx.enqueued(event, after),
        ctx.can_hold(n),
        n > 0,
    ensures
        after.can_hold(n - 1),
        after.registry@.len() == ctx.registry@.len(),
        after.tools.tools@.len() == ctx.tools.tools@.len(),
{
    reveal(LibinputContext::enqueued);
    let d = ctx.registry@[event.device as int];
    lemma_referenced(d, (d.refcount + 1) as i32, 0);
    assert forall|i: int| 0 <= i < after.registry@.len() implies (
    #[trigger] after.registry@[i]).refcount + (n - 1) <= i32::MAX by {
        assert(ctx.registry@[i].refcount + n <= i32::MAX);
    }
    assert forall|i: int| 0 <= i < after.tools.tools@.len() implies (
    #[trigger] after.tools.tools@[i]).refcount + (n - 1) <= i32::MAX by {
        assert(ctx.tools.tools@[i].refcount + n <= i32::MAX);
    }
}

/// The next event of a context, which the caller then owns.
pub fn libinput_get_event(ctx: Option<&mut LibinputContext>) -> (event: Option<LibinputEvent>)
    requires
        ctx matches Some(c) ==> c.wf(),
    ensures
        match ctx {
            None => event is None,
            Some(c) => {
                &&& final(c).wf()
                &&& c.event_queue@.len() == 0 ==> event is None && *final(c) == *c
                &&& c.event_queue@.len() > 0 ==> {
                    &&& event == Some(c.event_queue@[0])
                    &&& final(c).event_queue@ == c.event_queue@.skip(1)
                    &&& *final(c) == (LibinputContext { event_queue: final(c).event_queue, ..*c })
                }
            },
        },
{
    match ctx {
        None => None,
        Some(c) => {
            if c.event_queue.len() == 0 {
                return None;
            }
            let ghost before = c.event_queue@;
            let event = c.event_queue.pop_front();
            proof {
                assert(c.event_queue@ =~= before.skip(1));
            }
            event
        },
    }
}

/// The type of the next event.
pub fn libinput_next_event_type(ctx: Option<&LibinputContext>) -> (event_type: LibinputEventType)
    ensures
        event_type == (match ctx {
            None => LibinputEventType::LIBINPUT_EVENT_NONE,
            Some(c) => if c.event_queue@.len() == 0 {
                LibinputEventType::LIBINPUT_EVENT_NONE
            } else {
                c.event_queue@[0].event_type
            },
        }),
{
    match ctx {
        None => LibinputEventType::LIBINPUT_EVENT_NONE,
        Some(c) => if c.event_queue.len() == 0 {
            LibinputEventType::LIBINPUT_EVENT_NONE
        } else {
            c.event_queue[0].event_type
        },
    }
}

// ---------------------------------------------------------------------------
// References
// ---------------------------------------------------------------------------
impl LibinputContext {
    /// Whether dropping a reference to a device can be counted.
    pub open spec fn can_release(self, device: DeviceId) -> bool {
        &&& device < self.registry@.len()
        &&& self.registry@[device as int].refcount > i32::MIN
        &&& self.seats@[self.registry@[device as int].seat as int].refcount > i32::MIN
        &&& self.groups@[self.registry@[device as int].group as int].refcount > i32::MIN
    }

    /// The registry after a reference to a device was dropped.
    pub open spec fn device_released(self, device: DeviceId) -> Seq<LibinputDevice> {
        let d = self.registry@[device as int];
        self.registry@.update(device as int, referenced(d, (d.refcount - 1) as i32))
    }

    /// Whether dropping a reference to a device leaves this context behind.
    /// The last reference takes those of the device to its seat and its group
    /// along.
    #[verifier::opaque]
    pub open spec fn released(self, device: DeviceId, after: LibinputContext) -> bool {
        let d = self.registry@[device as int];
        let dies = d.refcount <= 1;
        &&& after.registry@ == self.device_released(device)
        &&& after.seats@.len() == self.seats@.len()
        &&& forall|i: int|
            0 <= i < self.seats@.len() ==> #[trigger] after.seats@[i] == (if dies && i == d.seat {
                LibinputSeat {
                    refcount: (self.seats@[i].refcount - 1) as i32,
                    ..self.seats@[i]
                }
            } else {
                self.seats@[i]
            })
        &&& after.groups@ == (if dies {
            self.groups@.update(
                d.group as int,
                LibinputDeviceGroup {
                    refcount: (self.groups@[d.group as int].refcount - 1) as i32,
                    ..self.groups@[d.group as int]
                },
            )
        } else {
            self.groups@
        })
        &&& after == (LibinputContext {
            registry: after.registry,
            seats: after.seats,
            groups: after.groups,
            ..self
        })
    }

    fn drop_owner(&mut self, seat: usize, group: usize)
        requires
            seat < old(self).seats@.len(),
            group < old(self).groups@.len(),
            old(self).seats@[seat as int].refcount > i32::MIN,
            old(self).groups@[group as int].refcount > i32::MIN,
        ensures
            final(self).seats@.len() == old(self).seats@.len(),
            forall|i: int|
                0 <= i < old(self).seats@.len() ==> #[trigger] final(self).seats@[i] == (if i
                    == seat {
                    LibinputSeat {
                        refcount: (old(self).seats@[i].refcount - 1) as i32,
                        ..old(self).seats@[i]
                    }
                } else {
                    old(self).seats@[i]
                }),
            final(self).groups@ == old(self).groups@.update(
                group as int,
                LibinputDeviceGroup {
                    refcount: (old(self).groups@[group as int].refcount - 1) as i32,
                    ..old(self).groups@[group as int]
                },
            ),
            *final(self) == (LibinputContext {
                seats: final(self).seats,
                groups: final(self).groups,
                ..*old(self)
            }),
    {
        let count: i32 = self.seats[seat].refcount;
        self.seats[seat].refcount = count - 1;
        let g = self.groups[group];
        self.groups.set(group, LibinputDeviceGroup { refcount: g.refcount - 1, ..g });
    }

    /// Adds a reference to a device.
    pub fn libinput_device_ref(&mut self, device: DeviceId)
        requires
            old(self).wf(),
            device < old(self).registry@.len(),
            old(self).registry@[device as int].refcount < i32::MAX,
        ensures
            final(self).wf(),
            final(self).registry@ == old(self).registry@.update(
                device as int,
                referenced(
                    old(self).registry@[device as int],
                    (old(self).registry@[device as int].refcount + 1) as i32,
                ),
            ),
            *final(self) == (LibinputContext { registry: final(self).registry, ..*old(self) }),
    {
        assert(device < self.registry.len());
        let place: usize = device as usize;
        let count: i32 = self.registry[place].refcount;
        set_refcount(&mut self.registry[place], count + 1);
    }

    /// Drops a reference to a device. Tells whether the device lives on.
    pub fn libinput_device_unref(&mut self, device: DeviceId) -> (alive: bool)
        requires
            old(self).wf(),
            old(self).can_release(device),
        ensures
            final(self).wf(),
            alive == (old(self).registry@[device as int].refcount > 1),
            old(self).released(device, *final(self)),
    {
        reveal(LibinputContext::released);
        assert(device < self.registry.len());
        let place: usize = device as usize;
        assert(self.registry@[place as int].id == place);
        let count: i32 = self.registry[place].refcount;
        let seat: usize = self.registry[place].seat;
        let group: usize = self.registry[place].group;
        set_refcount(&mut self.registry[place], count - 1);
        if count <= 1 {
            self.drop_owner(seat, group);
        }
        count > 1
    }

    /// Drops an event: its device and its tool lose the reference that it had.
    pub fn libinput_event_destroy(&mut self, event: LibinputEvent)
        requires
            old(self).wf(),
            old(self).can_release(event.device),
            tool_of(event) matches Some(k) ==> k < old(self).tools.tools@.len()
                && old(self).tools.tools@[k as int].refcount > i32::MIN,
        ensures
            final(self).wf(),
            exists|middle: LibinputContext| #[trigger]
                old(self).released(event.device, middle) && final(self).tools.tools@
                    == tools_released(old(self).tools.tools@, tool_of(event)) && *final(self) == (
                LibinputContext { tools: final(self).tools, ..middle }),
    {
        self.libinput_device_unref(event.device);
        let ghost middle = *self;
        proof {
            reveal(LibinputContext::released);
        }
        if let Some(k) = event_tool(&event) {
            let t = self.tools.tools[k];
            self.tools.tools.set(k, LibinputTabletTool { refcount: t.refcount - 1, ..t });
        }
        assert(old(self).released(event.device, middle));
    }
}

/// The tools once an event let go of one of them.
pub open spec fn tools_released(tools: Seq<LibinputTabletTool>, tool: Option<usize>) -> Seq<
    LibinputTabletTool,
> {
    match tool {
        Some(k) => tools.update(
            k as int,
            LibinputTabletTool {
                refcount: (tools[k as int].refcount - 1) as i32,
                ..tools[k as int]
            },
        ),
        None => tools,
    }
}

/// A queued event keeps its device alive: what it held is given back when it
/// is dropped, and not before.
pub proof fn law_events_hold_on_to_their_devices(
    ctx: LibinputContext,
    event: LibinputEvent,
    queued: LibinputContext,
    dropped: LibinputContext,
)
    requires
        event.device < ctx.registry@.len(),
        ctx.registry@[event.device as int].refcount < i32::MAX,
        event.event_type != LibinputEventType::LIBINPUT_EVENT_DEVICE_REMOVED,
        ctx.enqueued(event, queued),
        queued.released(event.device, dropped),
    ensures
        queued.registry@[event.device as int].refcount == ctx.registry@[event.device as int].refcount
            + 1,
        dropped.registry@ == ctx.registry@,
{
    lemma_enqueued_registry(ctx, event, queued);
    lemma_released_registry(queued, event.device, dropped);
    let d = ctx.registry@[event.device as int];
    lemma_referenced(d, (d.refcount + 1) as i32, d.refcount);
    assert(dropped.registry@ =~= ctx.registry@);
}

proof fn lemma_enqueued_registry(ctx: LibinputContext, event: LibinputEvent, after: LibinputContext)
    requires
        ctx.enqueued(event, after),
    ensures
        after.registry@ == devices_retained(ctx.registry@, event),
{
    reveal(LibinputContext::enqueued);
}

proof fn lemma_released_registry(ctx: LibinputContext, device: DeviceId, after: LibinputContext)
    requires
        ctx.released(device, after),
    ensures
        after.registry@ == ctx.device_released(device),
{
    reveal(LibinputContext::released);
}

/// Events wait in the order in which they were queued, behind those that
/// waited already, and none is lost.
pub proof fn law_events_keep_their_order(
    ctx: LibinputContext,
    events: Seq<LibinputEvent>,
    n: int,
    after: LibinputContext,
)
    requires
        0 <= n <= events.len(),
        ctx.enqueued_upto(events, n, after),
    ensures
        after.event_queue@.len() == ctx.event_queue@.len() + n,
        forall|i: int|
            0 <= i < ctx.event_queue@.len() ==> #[trigger] after.event_queue@[i]
                == ctx.event_queue@[i],
        forall|i: int|
            #![trigger events[i]]
            0 <= i < n ==> {
                let waiting = after.event_queue@[ctx.event_queue@.len() + i];
                waiting.event_type == events[i].event_type && waiting.device == events[i].device
            },
    decreases n,
{
    if n > 0 {
        let middle = choose|middle: LibinputContext|
            ctx.enqueued_upto(events, n - 1, middle) && #[trigger] middle.enqueued(
                events[n - 1],
                after,
            );
        law_events_keep_their_order(ctx, events, n - 1, middle);
        lemma_enqueued_queue(middle, events[n - 1], after);
    }
}

proof fn lemma_enqueued_queue(ctx: LibinputContext, event: LibinputEvent, after: LibinputContext)
    requires
        ctx.enqueued(event, after),
    ensures
        after.event_queue@.len() == ctx.event_queue@.len() + 1,
        after.event_queue@.last().event_type == event.event_type,
        after.event_queue@.last().device == event.device,
        forall|i: int|
            0 <= i < ctx.event_queue@.len() ==> #[trigger] after.event_queue@[i]
                == ctx.event_queue@[i],
{
    reveal(LibinputContext::enqueued);
}

} // verus!
