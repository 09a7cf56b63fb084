//! All open devices of a context.
use vstd::prelude::*;
use crate::backend::cycle::{sooner, sooner_spec, Phase};
use crate::backend::live::{note_tool, tool_seen, DeviceKind, TrackedDevice};
use crate::backend::tablet::FrameTime;
use crate::backend::tools::{tool_left, LibinputTabletTool, ToolSet};
use crate::ffi_types::{BackendKind, DeviceId, LibinputDevice, LibinputEvent};
use crate::text::equal;

verus! {

/// The open devices, the paths that clients asked for, the last typing, and
/// whether the context is suspended.
pub struct BackendState {
    pub devices: Vec<TrackedDevice>,
    pub requested_paths: Vec<String>,
    pub global_typing_time: Option<u64>,
    pub suspended: bool,
}

/// The description of an open device.
pub open spec fn described(registry: Seq<LibinputDevice>, t: TrackedDevice) -> LibinputDevice {
    registry[t.device as int]
}

/// Whether every open device is in the registry, under its own name.
pub open spec fn is_registered(registry: Seq<LibinputDevice>, t: TrackedDevice) -> bool {
    t.device < registry.len() && registry[t.device as int].id == t.device
}

/// Whether a device points by moving, and is no pointing stick.
pub open spec fn is_mouse(kind: DeviceKind) -> bool {
    kind.is_pointer && !kind.is_absolute && !kind.is_pointing_stick
}

impl BackendState {
    pub open spec fn wf(self, registry: Seq<LibinputDevice>, tools: Seq<LibinputTabletTool>) -> bool {
        forall|i: int|
            0 <= i < self.devices@.len() ==> (#[trigger] self.devices@[i]).wf(tools)
                && is_registered(registry, self.devices@[i])
    }

    pub fn new() -> (b: BackendState)
        ensures
            b.devices@.len() == 0,
            b.requested_paths@.len() == 0,
            b.global_typing_time is None,
            !b.suspended,
    {
        BackendState {
            devices: Vec::new(),
            requested_paths: Vec::new(),
            global_typing_time: None,
            suspended: false,
        }
    }

    /// The events of a step after the first `n` devices.
    pub open spec fn phase_upto(
        self,
        registry: Seq<LibinputDevice>,
        phase: Phase,
        at: FrameTime,
        out: Seq<LibinputEvent>,
        n: int,
    ) -> Seq<LibinputEvent>
        decreases n,
    {
        if n <= 0 {
            out
        } else {
            self.devices@[n - 1].phase_events(
                phase,
                described(registry, self.devices@[n - 1]),
                at,
                self.phase_upto(registry, phase, at, out, n - 1),
            )
        }
    }

    /// Whether a step of all devices leaves these behind.
    pub open spec fn stepped(
        self,
        registry: Seq<LibinputDevice>,
        phase: Phase,
        at: FrameTime,
        out: Seq<LibinputEvent>,
        after: BackendState,
        reported: Seq<LibinputEvent>,
    ) -> bool {
        &&& after == (BackendState { devices: after.devices, ..self })
        &&& after.devices@.len() == self.devices@.len()
        &&& forall|i: int|
            0 <= i < self.devices@.len() ==> (#[trigger] self.devices@[i]).phase_done(
                phase,
                described(registry, self.devices@[i]),
                at,
                self.phase_upto(registry, phase, at, out, i),
                after.devices@[i],
            )
        &&& reported == self.phase_upto(registry, phase, at, out, self.devices@.len() as int)
    }

    /// Takes one step with every device, in their order.
    pub fn run_phase(
        &mut self,
        registry: &Vec<LibinputDevice>,
        tools: &ToolSet,
        phase: Phase,
        at: FrameTime,
        out: &mut Vec<LibinputEvent>,
    )
        requires
            old(self).wf(registry@, tools.tools@),
        ensures
            final(self).wf(registry@, tools.tools@),
            old(self).stepped(registry@, phase, at, old(out)@, *final(self), final(out)@),
    {
        let ghost start = *self;
        let ghost first = out@;
        let mut i: usize = 0;
        while i < self.devices.len()
            invariant
                i <= self.devices.len() == start.devices@.len(),
                start == *old(self),
                first == old(out)@,
                start.wf(registry@, tools.tools@),
                *self == (BackendState { devices: self.devices, ..start }),
                self.wf(registry@, tools.tools@),
                out@ == start.phase_upto(registry@, phase, at, first, i as int),
                forall|j: int|
                    0 <= j < i ==> (#[trigger] start.devices@[j]).phase_done(
                        phase,
                        described(registry@, start.devices@[j]),
                        at,
                        start.phase_upto(registry@, phase, at, first, j),
                        self.devices@[j],
                    ),
                forall|j: int| i <= j < start.devices@.len() ==> self.devices@[j] == #[trigger] start.devices@[j],
            decreases self.devices.len() - i,
        {
            assert(self.devices@[i as int] == start.devices@[i as int]);
            assert(is_registered(registry@, start.devices@[i as int]));
            assert(self.devices@[i as int].device < registry.len());
            let place: usize = self.devices[i].device as usize;
            self.devices[i].run_phase(phase, &registry[place], at, out);
            i += 1;
        }
    }

    /// The time until something happens to the first `n` devices.
    pub open spec fn deadline_upto(self, now: u64, n: int) -> Option<u64>
        decreases n,
    {
        if n <= 0 {
            None
        } else {
            sooner_spec(
                self.deadline_upto(now, n - 1),
                self.devices@[n - 1].next_deadline_spec(now),
            )
        }
    }

    /// The time until something happens without an event.
    pub fn next_timeout(&self, now: u64) -> (left: Option<u64>)
        ensures
            left == self.deadline_upto(now, self.devices@.len() as int),
    {
        let mut left: Option<u64> = None;
        let mut i: usize = 0;
        while i < self.devices.len()
            invariant
                i <= self.devices.len(),
                left == self.deadline_upto(now, i as int),
            decreases self.devices.len() - i,
        {
            left = sooner(left, self.devices[i].next_deadline(now));
            i += 1;
        }
        left
    }
}

// ---------------------------------------------------------------------------
// Cycles
// ---------------------------------------------------------------------------
impl BackendState {
    /// Whether two steps after each other leave these behind.
    pub open spec fn stepped_twice(
        self,
        registry: Seq<LibinputDevice>,
        first: Phase,
        second: Phase,
        at: FrameTime,
        out: Seq<LibinputEvent>,
        after: BackendState,
        reported: Seq<LibinputEvent>,
    ) -> bool {
        exists|middle: BackendState, between: Seq<LibinputEvent>| #[trigger]
            self.stepped(registry, first, at, out, middle, between) && middle.stepped(
                registry,
                second,
                at,
                between,
                after,
                reported,
            )
    }

    fn run_two(
        &mut self,
        registry: &Vec<LibinputDevice>,
        tools: &ToolSet,
        first: Phase,
        second: Phase,
        at: FrameTime,
        out: &mut Vec<LibinputEvent>,
    )
        requires
            old(self).wf(registry@, tools.tools@),
        ensures
            final(self).wf(registry@, tools.tools@),
            old(self).stepped_twice(
                registry@,
                first,
                second,
                at,
                old(out)@,
                *final(self),
                final(out)@,
            ),
    {
        self.run_phase(registry, tools, first, at, out);
        self.run_phase(registry, tools, second, at, out);
    }

    /// Whether the steps before new events are read leave these behind.
    pub open spec fn cycle_begun(
        self,
        registry: Seq<LibinputDevice>,
        at: FrameTime,
        out: Seq<LibinputEvent>,
        after: BackendState,
        reported: Seq<LibinputEvent>,
    ) -> bool {
        exists|middle: BackendState, between: Seq<LibinputEvent>| #[trigger]
            self.stepped(registry, Phase::Repeat, at, out, middle, between)
                && middle.stepped_twice(
                registry,
                Phase::Middle,
                Phase::Debounce,
                at,
                between,
                after,
                reported,
            )
    }

    /// What comes before new events are read: keys repeat, and buttons that
    /// waited are delivered, so that they precede newer input.
    pub fn begin_cycle(
        &mut self,
        registry: &Vec<LibinputDevice>,
        tools: &ToolSet,
        at: FrameTime,
        out: &mut Vec<LibinputEvent>,
    )
        requires
            old(self).wf(registry@, tools.tools@),
        ensures
            final(self).wf(registry@, tools.tools@),
            old(self).cycle_begun(registry@, at, old(out)@, *final(self), final(out)@),
    {
        self.run_phase(registry, tools, Phase::Repeat, at, out);
        self.run_two(registry, tools, Phase::Middle, Phase::Debounce, at, out);
    }

    /// Whether the steps after new events were read leave these behind.
    pub open spec fn cycle_ended(
        self,
        registry: Seq<LibinputDevice>,
        at: FrameTime,
        out: Seq<LibinputEvent>,
        after: BackendState,
        reported: Seq<LibinputEvent>,
    ) -> bool {
        exists|middle: BackendState, between: Seq<LibinputEvent>| #[trigger]
            self.stepped_twice(
                registry,
                Phase::ResolveHold,
                Phase::RipenHold,
                at,
                out,
                middle,
                between,
            ) && middle.stepped_twice(
                registry,
                Phase::Tap,
                Phase::Drag,
                at,
                between,
                after,
                reported,
            )
    }

    /// What comes after new events were read, so that they are not overtaken:
    /// holds end and begin, taps and drags are released.
    pub fn end_cycle(
        &mut self,
        registry: &Vec<LibinputDevice>,
        tools: &ToolSet,
        at: FrameTime,
        out: &mut Vec<LibinputEvent>,
    )
        requires
            old(self).wf(registry@, tools.tools@),
        ensures
            final(self).wf(registry@, tools.tools@),
            old(self).cycle_ended(registry@, at, old(out)@, *final(self), final(out)@),
    {
        self.run_two(registry, tools, Phase::ResolveHold, Phase::RipenHold, at, out);
        self.run_two(registry, tools, Phase::Tap, Phase::Drag, at, out);
    }
}

// ---------------------------------------------------------------------------
// Tools that fell silent
// ---------------------------------------------------------------------------
/// What the tablets of a context change when tools are given up.
#[verifier::ext_equal]
pub struct ForcedStep {
    pub registry: Seq<LibinputDevice>,
    pub tools: Seq<LibinputTabletTool>,
    pub out: Seq<LibinputEvent>,
}

impl ForcedStep {
    /// A tablet's device once its tool is out of proximity.
    pub open spec fn without_tool(
        self,
        device: DeviceId,
        reported: Seq<LibinputEvent>,
    ) -> Seq<LibinputDevice> {
        let dev = self.registry[device as int];
        self.registry.update(
            device as int,
            LibinputDevice {
                tablet_in_proximity: false,
                tablet_current: tool_seen(reported, self.out.len() as int, dev.tablet_current),
                ..dev
            },
        )
    }

    /// A pen that was waited for in vain.
    #[verifier::opaque]
    pub open spec fn eraser(self, t: TrackedDevice, at: FrameTime) -> ForcedStep {
        if t.tablet.wait_over(at.now) {
            let tool = t.tablet.prox.tool->0;
            let out = t.tablet.goodbye(
                self.tools,
                tool,
                t.device,
                at.time_usec,
                t.tablet.eraser.pending_tip_up,
                self.out,
            );
            ForcedStep {
                registry: self.without_tool(t.device, out),
                tools: self.tools.update(tool as int, tool_left(self.tools[tool as int])),
                out,
            }
        } else {
            self
        }
    }

    /// A pen that fell silent.
    #[verifier::opaque]
    pub open spec fn silence(self, t: TrackedDevice, at: FrameTime) -> ForcedStep {
        if t.tablet.silent(at.now) {
            let out = match t.tablet.prox.tool {
                Some(tool) => t.tablet.goodbye(
                    self.tools,
                    tool,
                    t.device,
                    at.time_usec,
                    false,
                    self.out,
                ),
                None => self.out,
            };
            ForcedStep { registry: self.without_tool(t.device, out), out, ..self }
        } else {
            self
        }
    }

    pub open spec fn erasers(self, devices: Seq<TrackedDevice>, at: FrameTime, n: int) -> ForcedStep
        decreases n,
    {
        if n <= 0 {
            self
        } else {
            self.erasers(devices, at, n - 1).eraser(devices[n - 1], at)
        }
    }

    pub open spec fn silences(self, devices: Seq<TrackedDevice>, at: FrameTime, n: int) -> ForcedStep
        decreases n,
    {
        if n <= 0 {
            self
        } else {
            self.silences(devices, at, n - 1).silence(devices[n - 1], at)
        }
    }
}

impl TrackedDevice {
    /// The device once a pen was waited for in vain.
    pub open spec fn eraser_given_up(self, now: u64) -> TrackedDevice {
        if self.tablet.wait_over(now) {
            TrackedDevice { tablet: self.tablet.abandoned(), ..self }
        } else {
            self
        }
    }

    /// The device once a silent pen was given up.
    pub open spec fn pen_given_up(self, now: u64) -> TrackedDevice {
        if self.tablet.silent(now) {
            TrackedDevice { tablet: self.tablet.silenced(), ..self }
        } else {
            self
        }
    }

    fn give_up_eraser(
        &mut self,
        registry: &mut Vec<LibinputDevice>,
        tools: &mut ToolSet,
        at: FrameTime,
        out: &mut Vec<LibinputEvent>,
    ) -> (gone: bool)
        requires
            old(tools).wf(),
            old(self).wf(old(tools).tools@),
            is_registered(old(registry)@, *old(self)),
        ensures
            final(tools).wf(),
            final(self).wf(final(tools).tools@),
            final(tools).tools.len() == old(tools).tools.len(),
            gone == old(self).tablet.wait_over(at.now),
            *final(self) == old(self).eraser_given_up(at.now),
            (ForcedStep {
                registry: final(registry)@,
                tools: final(tools).tools@,
                out: final(out)@,
            }) == (ForcedStep {
                registry: old(registry)@,
                tools: old(tools).tools@,
                out: old(out)@,
            }).eraser(*old(self), at),
    {
        reveal(ForcedStep::eraser);
        let before: usize = out.len();
        let id: DeviceId = self.device;
        let gone = self.tablet.expire_eraser_wait(tools, id, at, out);
        if gone {
            assert(id < registry.len());
            lose_tool(registry, id, out, before);
        }
        gone
    }

    fn give_up_pen(
        &mut self,
        registry: &mut Vec<LibinputDevice>,
        tools: &ToolSet,
        at: FrameTime,
        out: &mut Vec<LibinputEvent>,
    ) -> (gone: bool)
        requires
            old(self).wf(tools.tools@),
            is_registered(old(registry)@, *old(self)),
        ensures
            final(self).wf(tools.tools@),
            gone == old(self).tablet.silent(at.now),
            *final(self) == old(self).pen_given_up(at.now),
            (ForcedStep {
                registry: final(registry)@,
                tools: tools.tools@,
                out: final(out)@,
            }) == (ForcedStep {
                registry: old(registry)@,
                tools: tools.tools@,
                out: old(out)@,
            }).silence(*old(self), at),
    {
        reveal(ForcedStep::silence);
        let before: usize = out.len();
        let id: DeviceId = self.device;
        let gone = self.tablet.expire_proximity(tools, id, at, out);
        if gone {
            assert(id < registry.len());
            lose_tool(registry, id, out, before);
        }
        gone
    }
}

fn lose_tool(registry: &mut Vec<LibinputDevice>, id: DeviceId, out: &Vec<LibinputEvent>, before: usize)
    requires
        id < old(registry).len(),
    ensures
        final(registry)@ == old(registry)@.update(
            id as int,
            LibinputDevice {
                tablet_in_proximity: false,
                tablet_current: tool_seen(
                    out@,
                    before as int,
                    old(registry)@[id as int].tablet_current,
                ),
                ..old(registry)@[id as int]
            },
        ),
{
    let place: usize = id as usize;
    note_tool(&mut registry[place], false, out, before);
}

/// Whether two registries name the same devices.
pub open spec fn same_names(a: Seq<LibinputDevice>, b: Seq<LibinputDevice>) -> bool {
    &&& a.len() == b.len()
    &&& forall|i: int|
        0 <= i < a.len() ==> (#[trigger] a[i]).id == b[i].id && a[i].seat == b[i].seat && a[i].group
            == b[i].group
}

proof fn lemma_names_kept(step: ForcedStep, t: TrackedDevice, at: FrameTime)
    requires
        t.device < step.registry.len(),
    ensures
        same_names(step.registry, step.eraser(t, at).registry),
        same_names(step.registry, step.silence(t, at).registry),
{
    reveal(ForcedStep::eraser);
    reveal(ForcedStep::silence);
}

/// The devices whose tool was given up, among the first `n`.
pub open spec fn eraser_losses(devices: Seq<TrackedDevice>, now: u64, n: int) -> Seq<DeviceId>
    decreases n,
{
    if n <= 0 {
        Seq::empty()
    } else if devices[n - 1].tablet.wait_over(now) {
        eraser_losses(devices, now, n - 1).push(devices[n - 1].device)
    } else {
        eraser_losses(devices, now, n - 1)
    }
}

pub open spec fn silence_losses(devices: Seq<TrackedDevice>, now: u64, n: int) -> Seq<DeviceId>
    decreases n,
{
    if n <= 0 {
        Seq::empty()
    } else if devices[n - 1].tablet.silent(now) {
        silence_losses(devices, now, n - 1).push(devices[n - 1].device)
    } else {
        silence_losses(devices, now, n - 1)
    }
}

impl BackendState {
    fn give_up_erasers(
        &mut self,
        registry: &mut Vec<LibinputDevice>,
        tools: &mut ToolSet,
        at: FrameTime,
        out: &mut Vec<LibinputEvent>,
    ) -> (lost: Vec<DeviceId>)
        requires
            old(tools).wf(),
            old(self).wf(old(registry)@, old(tools).tools@),
        ensures
            final(tools).wf(),
            final(self).wf(final(registry)@, final(tools).tools@),
            final(tools).tools.len() == old(tools).tools.len(),
            same_names(old(registry)@, final(registry)@),
            *final(self) == (BackendState { devices: final(self).devices, ..*old(self) }),
            final(self).devices@ == Seq::new(
                old(self).devices@.len(),
                |i: int| old(self).devices@[i].eraser_given_up(at.now),
            ),
            lost@ == eraser_losses(old(self).devices@, at.now, old(self).devices@.len() as int),
            (ForcedStep {
                registry: final(registry)@,
                tools: final(tools).tools@,
                out: final(out)@,
            }) == (ForcedStep {
                registry: old(registry)@,
                tools: old(tools).tools@,
                out: old(out)@,
            }).erasers(old(self).devices@, at, old(self).devices@.len() as int),
    {
        let ghost start = self.devices@;
        let ghost step = ForcedStep { registry: registry@, tools: tools.tools@, out: out@ };
        let mut lost: Vec<DeviceId> = Vec::new();
        let mut i: usize = 0;
        while i < self.devices.len()
            invariant
                i <= self.devices.len() == start.len(),
                start == old(self).devices@,
                step == (ForcedStep {
                    registry: old(registry)@,
                    tools: old(tools).tools@,
                    out: old(out)@,
                }),
                *self == (BackendState { devices: self.devices, ..*old(self) }),
                tools.wf(),
                tools.tools.len() == old(tools).tools.len(),
                self.wf(registry@, tools.tools@),
                same_names(old(registry)@, registry@),
                (ForcedStep { registry: registry@, tools: tools.tools@, out: out@ })
                    == step.erasers(start, at, i as int),
                lost@ == eraser_losses(start, at.now, i as int),
                forall|j: int|
                    0 <= j < i ==> self.devices@[j] == (#[trigger] start[j]).eraser_given_up(at.now),
                forall|j: int| i <= j < start.len() ==> self.devices@[j] == #[trigger] start[j],
            decreases self.devices.len() - i,
        {
            let ghost devices = self.devices@;
            assert(self.devices@[i as int] == start[i as int]);
            assert(self.devices@[i as int].wf(tools.tools@));
            proof {
                lemma_names_kept(
                    ForcedStep { registry: registry@, tools: tools.tools@, out: out@ },
                    start[i as int],
                    at,
                );
            }
            let id: DeviceId = self.devices[i].device;
            let gone = self.devices[i].give_up_eraser(registry, tools, at, out);
            if gone {
                lost.push(id);
            }
            proof {
                assert forall|j: int| 0 <= j < self.devices@.len() implies (
                #[trigger] self.devices@[j]).wf(tools.tools@) && is_registered(
                    registry@,
                    self.devices@[j],
                ) by {
                    assert(is_registered(registry@, devices[j]));
                }
            }
            i += 1;
        }
        assert(self.devices@ =~= Seq::new(
            start.len(),
            |i: int| start[i].eraser_given_up(at.now),
        ));
        lost
    }
}

impl BackendState {
    fn give_up_pens(
        &mut self,
        registry: &mut Vec<LibinputDevice>,
        tools: &ToolSet,
        at: FrameTime,
        out: &mut Vec<LibinputEvent>,
    ) -> (lost: Vec<DeviceId>)
        requires
            old(self).wf(old(registry)@, tools.tools@),
        ensures
            final(self).wf(final(registry)@, tools.tools@),
            same_names(old(registry)@, final(registry)@),
            *final(self) == (BackendState { devices: final(self).devices, ..*old(self) }),
            final(self).devices@ == Seq::new(
                old(self).devices@.len(),
                |i: int| old(self).devices@[i].pen_given_up(at.now),
            ),
            lost@ == silence_losses(old(self).devices@, at.now, old(self).devices@.len() as int),
            (ForcedStep { registry: final(registry)@, tools: tools.tools@, out: final(out)@ }) == (
            ForcedStep {
                registry: old(registry)@,
                tools: tools.tools@,
                out: old(out)@,
            }).silences(old(self).devices@, at, old(self).devices@.len() as int),
    {
        let ghost start = self.devices@;
        let ghost step = ForcedStep { registry: registry@, tools: tools.tools@, out: out@ };
        let mut lost: Vec<DeviceId> = Vec::new();
        let mut i: usize = 0;
        while i < self.devices.len()
            invariant
                i <= self.devices.len() == start.len(),
                start == old(self).devices@,
                step == (ForcedStep {
                    registry: old(registry)@,
                    tools: tools.tools@,
                    out: old(out)@,
                }),
                *self == (BackendState { devices: self.devices, ..*old(self) }),
                self.wf(registry@, tools.tools@),
                same_names(old(registry)@, registry@),
                (ForcedStep { registry: registry@, tools: tools.tools@, out: out@ })
                    == step.silences(start, at, i as int),
                lost@ == silence_losses(start, at.now, i as int),
                forall|j: int|
                    0 <= j < i ==> self.devices@[j] == (#[trigger] start[j]).pen_given_up(at.now),
                forall|j: int| i <= j < start.len() ==> self.devices@[j] == #[trigger] start[j],
            decreases self.devices.len() - i,
        {
            let ghost devices = self.devices@;
            assert(self.devices@[i as int] == start[i as int]);
            assert(self.devices@[i as int].wf(tools.tools@));
            proof {
                lemma_names_kept(
                    ForcedStep { registry: registry@, tools: tools.tools@, out: out@ },
                    start[i as int],
                    at,
                );
            }
            let id: DeviceId = self.devices[i].device;
            let gone = self.devices[i].give_up_pen(registry, tools, at, out);
            if gone {
                lost.push(id);
            }
            proof {
                assert forall|j: int| 0 <= j < self.devices@.len() implies (
                #[trigger] self.devices@[j]).wf(tools.tools@) && is_registered(
                    registry@,
                    self.devices@[j],
                ) by {
                    assert(is_registered(registry@, devices[j]));
                }
            }
            i += 1;
        }
        assert(self.devices@ =~= Seq::new(start.len(), |i: int| start[i].pen_given_up(at.now)));
        lost
    }

    /// The devices after tools were given up.
    pub open spec fn tools_given_up(self, now: u64) -> Seq<TrackedDevice> {
        Seq::new(
            self.devices@.len(),
            |i: int| self.devices@[i].eraser_given_up(now).pen_given_up(now),
        )
    }

    /// The devices once waiting for pens is over.
    pub open spec fn erasers_given_up(self, now: u64) -> Seq<TrackedDevice> {
        Seq::new(self.devices@.len(), |i: int| self.devices@[i].eraser_given_up(now))
    }

    /// Takes tools out of proximity that were waited for in vain or that fell
    /// silent. The result lists the tablets whose newly configured area takes
    /// effect.
    pub fn emit_forced_tablet_proximity_out(
        &mut self,
        registry: &mut Vec<LibinputDevice>,
        tools: &mut ToolSet,
        at: FrameTime,
        out: &mut Vec<LibinputEvent>,
    ) -> (lost: Vec<DeviceId>)
        requires
            old(tools).wf(),
            old(self).wf(old(registry)@, old(tools).tools@),
        ensures
            final(tools).wf(),
            final(self).wf(final(registry)@, final(tools).tools@),
            same_names(old(registry)@, final(registry)@),
            *final(self) == (BackendState { devices: final(self).devices, ..*old(self) }),
            final(self).devices@ == old(self).tools_given_up(at.now),
            ({
                let n = old(self).devices@.len() as int;
                let waited = old(self).erasers_given_up(at.now);
                &&& lost@ == eraser_losses(old(self).devices@, at.now, n) + silence_losses(
                    waited,
                    at.now,
                    n,
                )
                &&& (ForcedStep {
                    registry: final(registry)@,
                    tools: final(tools).tools@,
                    out: final(out)@,
                }) == (ForcedStep {
                    registry: old(registry)@,
                    tools: old(tools).tools@,
                    out: old(out)@,
                }).erasers(old(self).devices@, at, n).silences(waited, at, n)
            }),
    {
        let mut lost = self.give_up_erasers(registry, tools, at, out);
        let ghost first = lost@;
        let mut more = self.give_up_pens(registry, tools, at, out);
        lost.append(&mut more);
        assert(self.devices@ =~= old(self).tools_given_up(at.now));
        lost
    }

    // -----------------------------------------------------------------------
    // Finding and removing
    // -----------------------------------------------------------------------
    /// The place of a device among the open ones, from `from` on.
    pub open spec fn place_from(self, device: DeviceId, from: int) -> Option<int>
        decreases self.devices@.len() - from,
    {
        if from >= self.devices@.len() {
            None
        } else if self.devices@[from].device == device {
            Some(from)
        } else {
            self.place_from(device, from + 1)
        }
    }

    pub fn find_device(&self, device: DeviceId) -> (place: Option<usize>)
        ensures
            match place {
                Some(i) => self.place_from(device, 0) == Some(i as int) && i < self.devices.len()
                    && self.devices@[i as int].device == device,
                None => self.place_from(device, 0) is None,
            },
    {
        let mut i: usize = 0;
        while i < self.devices.len()
            invariant
                i <= self.devices.len(),
                self.place_from(device, 0) == self.place_from(device, i as int),
            decreases self.devices.len() - i,
        {
            if self.devices[i].device == device {
                return Some(i);
            }
            i += 1;
        }
        None
    }

    /// Whether a path is open already.
    pub open spec fn is_open(self, path: Seq<char>) -> bool {
        exists|i: int| 0 <= i < self.devices@.len() && (#[trigger] self.devices@[i]).path@ == path
    }

    pub fn tracks_path(&self, path: &str) -> (open: bool)
        ensures
            open == self.is_open(path@),
    {
        let mut i: usize = 0;
        while i < self.devices.len()
            invariant
                i <= self.devices.len(),
                forall|j: int| 0 <= j < i ==> (#[trigger] self.devices@[j]).path@ != path@,
            decreases self.devices.len() - i,
        {
            if equal(self.devices[i].path.as_str(), path) {
                assert(self.devices@[i as int].path@ == path@);
                return true;
            }
            i += 1;
        }
        false
    }

    /// Whether a node is to be opened at all: a context that finds its own
    /// devices opens each of them once.
    pub fn wants_path(&self, kind: BackendKind, path: &str) -> (wants: bool)
        ensures
            wants == !(kind == BackendKind::Udev && self.is_open(path@)),
    {
        match kind {
            BackendKind::Udev => !self.tracks_path(path),
            BackendKind::Path => true,
        }
    }

    /// Whether a notification makes the context look for new devices: never
    /// while it is suspended, and never if its clients name the devices.
    pub fn hotplug_scans(&self, kind: BackendKind, notified: bool) -> (scans: bool)
        ensures
            scans == (!self.suspended && notified && kind == BackendKind::Udev),
    {
        match kind {
            BackendKind::Udev => !self.suspended && notified,
            BackendKind::Path => false,
        }
    }

    /// Whether there is a mouse besides touchpads and pointing sticks.
    pub open spec fn sees_mouse(self) -> bool {
        exists|i: int| 0 <= i < self.devices@.len() && is_mouse((#[trigger] self.devices@[i]).kind)
    }

    pub fn has_external_mouse(&self) -> (has: bool)
        ensures
            has == self.sees_mouse(),
    {
        let mut i: usize = 0;
        while i < self.devices.len()
            invariant
                i <= self.devices.len(),
                forall|j: int| 0 <= j < i ==> !is_mouse((#[trigger] self.devices@[j]).kind),
            decreases self.devices.len() - i,
        {
            let kind = self.devices[i].kind;
            if kind.is_pointer && !kind.is_absolute && !kind.is_pointing_stick {
                assert(is_mouse(self.devices@[i as int].kind));
                return true;
            }
            i += 1;
        }
        false
    }

    /// The first place of a requested path from `from` on.
    pub open spec fn request_from(self, path: Seq<char>, from: int) -> Option<int>
        decreases self.requested_paths@.len() - from,
    {
        if from >= self.requested_paths@.len() {
            None
        } else if self.requested_paths@[from]@ == path {
            Some(from)
        } else {
            self.request_from(path, from + 1)
        }
    }

    /// A path is not asked for any more. If it was asked for several times,
    /// one request is taken back.
    pub fn forget_path(&mut self, path: &str)
        ensures
            final(self).requested_paths@ == (match old(self).request_from(path@, 0) {
                Some(i) => old(self).requested_paths@.remove(i),
                None => old(self).requested_paths@,
            }),
            *final(self) == (BackendState {
                requested_paths: final(self).requested_paths,
                ..*old(self)
            }),
    {
        let mut i: usize = 0;
        while i < self.requested_paths.len()
            invariant
                i <= self.requested_paths.len(),
                *self == *old(self),
                self.request_from(path@, 0) == self.request_from(path@, i as int),
            decreases self.requested_paths.len() - i,
        {
            if equal(self.requested_paths[i].as_str(), path) {
                self.requested_paths.remove(i);
                return;
            }
            i += 1;
        }
    }

    /// A path is asked for.
    pub fn remember_path(&mut self, path: String)
        ensures
            final(self).requested_paths@ == old(self).requested_paths@.push(path),
            *final(self) == (BackendState {
                requested_paths: final(self).requested_paths,
                ..*old(self)
            }),
    {
        self.requested_paths.push(path);
    }
}

/// Forgetting a path takes back one request for it and no other.
pub proof fn law_forgetting_undoes_remembering(b: BackendState, path: Seq<char>, requested: Seq<String>)
    requires
        b.request_from(path, 0) is None,
        requested.len() == b.requested_paths@.len() + 1,
        requested.drop_last() == b.requested_paths@,
        requested.last()@ == path,
    ensures
        forall|after: BackendState|
            after.requested_paths@ == requested ==> #[trigger] after.request_from(path, 0) == Some(
                b.requested_paths@.len() as int,
            ),
        requested.remove(b.requested_paths@.len() as int) == b.requested_paths@,
{
    let n = b.requested_paths@.len() as int;
    assert(requested.remove(n) =~= b.requested_paths@);
    assert forall|after: BackendState| after.requested_paths@ == requested implies #[trigger] after.request_from(
        path,
        0,
    ) == Some(n) by {
        lemma_requests(b, after, path, 0);
    }
}

proof fn lemma_requests(b: BackendState, after: BackendState, path: Seq<char>, from: int)
    requires
        0 <= from <= b.requested_paths@.len(),
        b.request_from(path, from) is None,
        after.requested_paths@.len() == b.requested_paths@.len() + 1,
        after.requested_paths@.drop_last() == b.requested_paths@,
        after.requested_paths@.last()@ == path,
    ensures
        after.request_from(path, from) == Some(b.requested_paths@.len() as int),
    decreases b.requested_paths@.len() - from,
{
    if from < b.requested_paths@.len() {
        assert(after.requested_paths@[from] == after.requested_paths@.drop_last()[from]);
        lemma_requests(b, after, path, from + 1);
    }
}

} // verus!
