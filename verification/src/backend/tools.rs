//! Tablet tools: pens, erasers, cursors and totems, remembered across
//! proximity.
use vstd::prelude::*;
use crate::ffi_types::DeviceId;

verus! {

pub const TOOL_PEN: u32 = 1;
pub const TOOL_ERASER: u32 = 2;
pub const TOOL_MOUSE: u32 = 6;
pub const TOOL_LENS: u32 = 7;
pub const TOOL_TOTEM: u32 = 8;

/// What a tablet can sense of its tools.
#[derive(Clone, Copy, Debug, PartialEq, Eq, Structural)]
pub struct ToolCapabilities {
    pub pressure: bool,
    pub distance: bool,
    pub tilt: bool,
    pub rotation: bool,
    pub slider: bool,
    pub wheel: bool,
    pub size: bool,
}

/// The pressure range that a tool works in, as distances from the start of
/// the tablet's own range. `custom` says that it is not the whole range.
#[derive(Clone, Copy, Debug, PartialEq, Eq, Structural)]
pub struct PressureBounds {
    pub low: i32,
    pub high: i32,
    pub custom: bool,
}

/// A tool. Configuration that a user wants takes effect when the tool is out
/// of proximity.
#[derive(Clone, Copy, Debug, PartialEq, Eq, Structural)]
pub struct LibinputTabletTool {
    pub refcount: i32,
    pub user_data: usize,
    pub serial: u64,
    pub tool_id: u64,
    pub tool_type: u32,
    pub device: DeviceId,
    pub has: ToolCapabilities,
    pub pressure: PressureBounds,
    pub wanted_pressure: PressureBounds,
    pub eraser_button_modes: u32,
    pub eraser_button_mode: u32,
    pub wanted_eraser_button_mode: u32,
    pub eraser_button: u32,
    pub wanted_eraser_button: u32,
    pub default_eraser_button: u32,
    pub in_proximity: bool,
}

/// All tools that a context has seen, each with the buttons it has.
pub struct ToolSet {
    pub tools: Vec<LibinputTabletTool>,
    pub buttons: Vec<Vec<u32>>,
}

pub open spec fn is_cursor(tool_type: u32) -> bool {
    tool_type == TOOL_MOUSE || tool_type == TOOL_LENS
}

/// Whether a tool of this kind can have the button.
pub open spec fn tool_takes_button(tool_type: u32, button: u32) -> bool {
    if is_cursor(tool_type) {
        0x110 <= button <= 0x117
    } else if tool_type == TOOL_TOTEM {
        button == 0x100
    } else {
        button == 0x149 || button == 0x14b || button == 0x14c
    }
}

/// The tablet's buttons that belong to a tool of this kind.
pub open spec fn tool_buttons(buttons: Seq<u32>, tool_type: u32) -> Seq<u32>
    decreases buttons.len(),
{
    if buttons.len() == 0 {
        Seq::empty()
    } else if tool_takes_button(tool_type, buttons.last()) {
        tool_buttons(buttons.drop_last(), tool_type).push(buttons.last())
    } else {
        tool_buttons(buttons.drop_last(), tool_type)
    }
}

/// The stylus button that an eraser is turned into by default: the first one
/// that the tool does not have.
pub open spec fn default_eraser_button_spec(buttons: Seq<u32>) -> u32 {
    if !buttons.contains(0x14b) {
        0x14b
    } else if !buttons.contains(0x14c) {
        0x14c
    } else {
        0x149
    }
}

/// Whether a known tool is the one in front of the tablet: by its serial
/// number, or, without one, by the tablet that it was last used on.
pub open spec fn is_same_tool(
    tool: LibinputTabletTool,
    device: DeviceId,
    serial: u64,
    tool_type: u32,
) -> bool {
    &&& tool.tool_type == tool_type
    &&& if serial == 0 {
        tool.serial == 0 && tool.device == device
    } else {
        tool.serial == serial
    }
}

/// A tool that left takes on the configuration that was waiting.
pub open spec fn tool_left(tool: LibinputTabletTool) -> LibinputTabletTool {
    LibinputTabletTool {
        in_proximity: false,
        eraser_button_mode: tool.wanted_eraser_button_mode,
        eraser_button: tool.wanted_eraser_button,
        ..tool
    }
}

/// The first tool from `from` on that is the one in front of the tablet.
/// With `as_button`, only a tool whose eraser is a button counts.
pub open spec fn known_tool(
    tools: Seq<LibinputTabletTool>,
    device: DeviceId,
    serial: u64,
    tool_type: u32,
    as_button: bool,
    from: int,
) -> Option<int>
    decreases tools.len() - from,
{
    if from >= tools.len() {
        None
    } else if is_same_tool(tools[from], device, serial, tool_type) && (as_button
        ==> tools[from].eraser_button_mode == 1) {
        Some(from)
    } else {
        known_tool(tools, device, serial, tool_type, as_button, from + 1)
    }
}

/// The known tool that comes into proximity. An eraser that is configured to
/// be a button of its pen is that pen.
pub open spec fn tool_index(
    tools: Seq<LibinputTabletTool>,
    device: DeviceId,
    serial: u64,
    tool_type: u32,
) -> Option<int> {
    let pen = known_tool(tools, device, serial, TOOL_PEN, true, 0);
    if tool_type == TOOL_ERASER && pen is Some {
        pen
    } else {
        known_tool(tools, device, serial, tool_type, false, 0)
    }
}

/// A tool that is seen for the first time. `fixed_eraser` says that its
/// eraser is known not to be usable as a button.
pub open spec fn new_tool(
    device: DeviceId,
    serial: u64,
    tool_id: u64,
    tool_type: u32,
    has: ToolCapabilities,
    buttons: Seq<u32>,
    fixed_eraser: bool,
) -> LibinputTabletTool {
    LibinputTabletTool {
        refcount: 1,
        user_data: 0,
        serial,
        tool_id,
        tool_type,
        device,
        has: ToolCapabilities {
            tilt: has.tilt && !is_cursor(tool_type),
            rotation: has.rotation || (has.tilt && is_cursor(tool_type)),
            ..has
        },
        pressure: PressureBounds { low: 0, high: 0, custom: false },
        wanted_pressure: PressureBounds { low: 0, high: 0, custom: false },
        eraser_button_modes: if tool_type == TOOL_PEN && !fixed_eraser {
            1
        } else {
            0
        },
        eraser_button_mode: 0,
        wanted_eraser_button_mode: 0,
        eraser_button: default_eraser_button_spec(tool_buttons(buttons, tool_type)),
        wanted_eraser_button: default_eraser_button_spec(tool_buttons(buttons, tool_type)),
        default_eraser_button: default_eraser_button_spec(tool_buttons(buttons, tool_type)),
        in_proximity: false,
    }
}

/// The tools once the one in front of the tablet is among them, and its
/// place.
#[verifier::opaque]
pub open spec fn tools_with(
    tools: Seq<LibinputTabletTool>,
    device: DeviceId,
    serial: u64,
    tool_id: u64,
    tool_type: u32,
    has: ToolCapabilities,
    buttons: Seq<u32>,
    fixed_eraser: bool,
) -> (Seq<LibinputTabletTool>, int) {
    match tool_index(tools, device, serial, tool_type) {
        Some(i) => (tools.update(i, LibinputTabletTool { device, ..tools[i] }), i),
        None => (
            tools.push(
                new_tool(device, serial, tool_id, tool_type, has, buttons, fixed_eraser),
            ),
            tools.len() as int,
        ),
    }
}

pub proof fn lemma_known_tool(
    tools: Seq<LibinputTabletTool>,
    device: DeviceId,
    serial: u64,
    tool_type: u32,
    as_button: bool,
    from: int,
)
    requires
        0 <= from,
    ensures
        known_tool(tools, device, serial, tool_type, as_button, from) matches Some(i) ==> from <= i
            < tools.len() && is_same_tool(tools[i], device, serial, tool_type),
    decreases tools.len() - from,
{
    if from < tools.len() {
        lemma_known_tool(tools, device, serial, tool_type, as_button, from + 1);
    }
}

/// A tool that left and returns is recognised as the same one, whatever else
/// was seen in between: looking for it again finds a tool of its kind with
/// its serial number.
pub proof fn law_tools_are_recognised(
    tools: Seq<LibinputTabletTool>,
    device: DeviceId,
    serial: u64,
    tool_id: u64,
    tool_type: u32,
    has: ToolCapabilities,
    buttons: Seq<u32>,
    fixed_eraser: bool,
)
    ensures
        ({
            let (after, i) = tools_with(
                tools,
                device,
                serial,
                tool_id,
                tool_type,
                has,
                buttons,
                fixed_eraser,
            );
            &&& 0 <= i < after.len()
            &&& is_same_tool(after[i], device, serial, after[i].tool_type)
            &&& after[i].device == device
            &&& after[i].tool_type == tool_type || (tool_type == TOOL_ERASER
                && after[i].tool_type == TOOL_PEN && after[i].eraser_button_mode == 1)
            &&& after.len() <= tools.len() + 1
            &&& forall|j: int| 0 <= j < tools.len() && j != i ==> after[j] == tools[j]
        }),
{
    reveal(tools_with);
    lemma_known_tool(tools, device, serial, TOOL_PEN, true, 0);
    lemma_known_tool(tools, device, serial, tool_type, false, 0);
    lemma_known_mode(tools, device, serial, TOOL_PEN, 0);
}

proof fn lemma_known_mode(
    tools: Seq<LibinputTabletTool>,
    device: DeviceId,
    serial: u64,
    tool_type: u32,
    from: int,
)
    requires
        0 <= from,
    ensures
        known_tool(tools, device, serial, tool_type, true, from) matches Some(i)
            ==> tools[i].eraser_button_mode == 1,
    decreases tools.len() - from,
{
    if from < tools.len() {
        lemma_known_mode(tools, device, serial, tool_type, from + 1);
    }
}

fn takes_button(tool_type: u32, button: u32) -> (takes: bool)
    ensures
        takes == tool_takes_button(tool_type, button),
{
    if tool_type == TOOL_MOUSE || tool_type == TOOL_LENS {
        0x110 <= button && button <= 0x117
    } else if tool_type == TOOL_TOTEM {
        button == 0x100
    } else {
        button == 0x149 || button == 0x14b || button == 0x14c
    }
}

fn buttons_of_tool(buttons: &Vec<u32>, tool_type: u32) -> (own: Vec<u32>)
    ensures
        own@ == tool_buttons(buttons@, tool_type),
{
    let mut own: Vec<u32> = Vec::new();
    let mut i: usize = 0;
    assert(buttons@.take(0) =~= Seq::<u32>::empty());
    while i < buttons.len()
        invariant
            i <= buttons.len(),
            own@ == tool_buttons(buttons@.take(i as int), tool_type),
        decreases buttons.len() - i,
    {
        let button: u32 = buttons[i];
        proof {
            assert(buttons@.take(i + 1).drop_last() =~= buttons@.take(i as int));
        }
        if takes_button(tool_type, button) {
            own.push(button);
        }
        i += 1;
    }
    assert(buttons@.take(i as int) =~= buttons@);
    own
}

pub fn contains_button(buttons: &Vec<u32>, button: u32) -> (found: bool)
    ensures
        found == buttons@.contains(button),
{
    let mut i: usize = 0;
    while i < buttons.len()
        invariant
            i <= buttons.len(),
            forall|j: int| 0 <= j < i ==> buttons@[j] != button,
        decreases buttons.len() - i,
    {
        if buttons[i] == button {
            assert(buttons@[i as int] == button);
            return true;
        }
        i += 1;
    }
    false
}

impl ToolSet {
    pub open spec fn wf(self) -> bool {
        self.tools.len() == self.buttons.len()
    }

    pub fn new() -> (s: ToolSet)
        ensures
            s.wf(),
            s.tools@.len() == 0,
    {
        ToolSet { tools: Vec::new(), buttons: Vec::new() }
    }

    /// A tool leaves the tablet.
    pub fn dismiss(&mut self, tool: usize)
        requires
            old(self).wf(),
            tool < old(self).tools.len(),
        ensures
            final(self).wf(),
            final(self).buttons == old(self).buttons,
            final(self).tools@ == old(self).tools@.update(
                tool as int,
                tool_left(old(self).tools@[tool as int]),
            ),
    {
        let t = self.tools[tool];
        self.tools.set(
            tool,
            LibinputTabletTool {
                in_proximity: false,
                eraser_button_mode: t.wanted_eraser_button_mode,
                eraser_button: t.wanted_eraser_button,
                ..t
            },
        );
    }

    fn find(&self, device: DeviceId, serial: u64, tool_type: u32, as_button: bool) -> (found:
        Option<usize>)
        ensures
            match found {
                Some(i) => known_tool(self.tools@, device, serial, tool_type, as_button, 0)
                    == Some(i as int) && i < self.tools.len(),
                None => known_tool(self.tools@, device, serial, tool_type, as_button, 0) is None,
            },
    {
        let mut i: usize = 0;
        while i < self.tools.len()
            invariant
                i <= self.tools.len(),
                known_tool(self.tools@, device, serial, tool_type, as_button, 0) == known_tool(
                    self.tools@,
                    device,
                    serial,
                    tool_type,
                    as_button,
                    i as int,
                ),
            decreases self.tools.len() - i,
        {
            let tool = self.tools[i];
            let same = tool.tool_type == tool_type && if serial == 0 {
                tool.serial == 0 && tool.device == device
            } else {
                tool.serial == serial
            };
            if same && (!as_button || tool.eraser_button_mode == 1) {
                return Some(i);
            }
            i += 1;
        }
        None
    }

    /// The place of the tool in front of the tablet; a tool seen for the
    /// first time is added.
    pub fn tablet_tool_for(
        &mut self,
        device: DeviceId,
        serial: u64,
        tool_id: u64,
        tool_type: u32,
        has: ToolCapabilities,
        buttons: &Vec<u32>,
        fixed_eraser: bool,
    ) -> (index: usize)
        requires
            old(self).wf(),
        ensures
            final(self).wf(),
            (final(self).tools@, index as int) == tools_with(
                old(self).tools@,
                device,
                serial,
                tool_id,
                tool_type,
                has,
                buttons@,
                fixed_eraser,
            ),
            index < final(self).tools.len(),
            old(self).tools.len() <= final(self).tools.len(),
            final(self).buttons@ == (if index < old(self).tools.len() {
                old(self).buttons@
            } else {
                old(self).buttons@.push(final(self).buttons@.last())
            }),
            index == old(self).tools.len() ==> final(self).buttons@.last()@ == tool_buttons(
                buttons@,
                tool_type,
            ),
    {
        reveal(tools_with);
        let mut known: Option<usize> = None;
        if tool_type == TOOL_ERASER {
            known = self.find(device, serial, TOOL_PEN, true);
        }
        if known.is_none() {
            known = self.find(device, serial, tool_type, false);
        }
        if let Some(i) = known {
            let tool = self.tools[i];
            self.tools.set(i, LibinputTabletTool { device, ..tool });
            return i;
        }
        let own = buttons_of_tool(buttons, tool_type);
        let cursor = tool_type == TOOL_MOUSE || tool_type == TOOL_LENS;
        let eraser_button: u32 = if !contains_button(&own, 0x14b) {
            0x14b
        } else if !contains_button(&own, 0x14c) {
            0x14c
        } else {
            0x149
        };
        self.tools.push(
            LibinputTabletTool {
                refcount: 1,
                user_data: 0,
                serial,
                tool_id,
                tool_type,
                device,
                has: ToolCapabilities {
                    tilt: has.tilt && !cursor,
                    rotation: has.rotation || (has.tilt && cursor),
                    ..has
                },
                pressure: PressureBounds { low: 0, high: 0, custom: false },
                wanted_pressure: PressureBounds { low: 0, high: 0, custom: false },
                eraser_button_modes: if tool_type == TOOL_PEN && !fixed_eraser {
                    1
                } else {
                    0
                },
                eraser_button_mode: 0,
                wanted_eraser_button_mode: 0,
                eraser_button,
                wanted_eraser_button: eraser_button,
                default_eraser_button: eraser_button,
                in_proximity: false,
            },
        );
        self.buttons.push(own);
        self.tools.len() - 1
    }
}

} // verus!
