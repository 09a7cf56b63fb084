//! Tablets: axes, pressure, tip, buttons and proximity of the tool in use.
use vstd::prelude::*;
use crate::backend::pointer::truncated;
use crate::backend::tools::{
    contains_button, tool_left, tools_with, LibinputTabletTool, PressureBounds, ToolCapabilities, ToolSet,
    TOOL_ERASER, TOOL_LENS, TOOL_MOUSE, TOOL_PEN, TOOL_TOTEM,
};
use crate::clock::{later, later_spec, passed, passed_spec, MILLISECOND};
use crate::codes::{
    InputEvent, ABS_DISTANCE, ABS_MISC, ABS_MT_ORIENTATION, ABS_MT_POSITION_X, ABS_MT_POSITION_Y,
    ABS_MT_TOOL_TYPE, ABS_MT_TOUCH_MAJOR, ABS_MT_TOUCH_MINOR, ABS_MT_TRACKING_ID, ABS_PRESSURE,
    ABS_TILT_X, ABS_TILT_Y, ABS_WHEEL, ABS_X, ABS_Y, ABS_Z, BTN_TOOL_AIRBRUSH, BTN_TOOL_BRUSH,
    BTN_TOOL_LENS, BTN_TOOL_MOUSE, BTN_TOOL_PEN, BTN_TOOL_PENCIL, BTN_TOOL_RUBBER, BTN_TOUCH,
    EV_ABS, EV_KEY, EV_MSC, EV_REL, EV_SYN, REL_WHEEL, SYN_REPORT,
};
use crate::evtrans::{
    contains_code, held_after, law_transitions_keep_buttons_unique, remove_code,
    transition_button, without,
};
use crate::ffi_types::{
    AxisChanges, AxisMix, DeviceId, EventPayload, LibinputDevice, LibinputEvent, LibinputEventType,
    TabletAxes, TabletToolEvent,
};

verus! {

/// A pen without a proximity sensor is gone when it has been silent for this
/// long.
pub const PROXIMITY_TIMEOUT: u64 = 150 * MILLISECOND;

/// How long a pen that left is waited for when its eraser is a button.
pub const ERASER_TIMEOUT: u64 = 30 * MILLISECOND;

/// How long touch stays blocked after a tool left.
pub const TOUCH_ARBITRATION_TIMEOUT: u64 = 90 * MILLISECOND;

/// A cursor tool counts as lifted from this distance on.
pub const CURSOR_PROXIMITY_THRESHOLD: i32 = 42;

// ---------------------------------------------------------------------------
// Pressure
// ---------------------------------------------------------------------------
/// What is known of a tablet's pressure: its range, the pressure that a worn
/// tool reports without touching, and how that was found out.
#[derive(Clone, Copy, Debug, PartialEq, Eq)]
pub struct PressureState {
    pub range: Option<(i32, i32)>,
    pub offset: Option<i32>,
    pub candidate: Option<i32>,
    pub samples: u8,
    pub rejected: bool,
}

/// Below `lower` the tip is up, from `upper` on it is down; `maximum` is full
/// pressure.
#[derive(Clone, Copy, Debug, PartialEq, Eq, Structural)]
pub struct Thresholds {
    pub lower: i64,
    pub upper: i64,
    pub maximum: i64,
}

impl PressureState {
    pub open spec fn minimum(self) -> int {
        match self.range {
            Some((minimum, _)) => minimum as int,
            None => 0,
        }
    }

    pub open spec fn maximum(self) -> int {
        match self.range {
            Some((_, maximum)) => maximum as int,
            None => 0,
        }
    }

    /// The thresholds: 1% and 5% of the configured range, or, on a worn tool,
    /// its offset and 4% of the whole range above it.
    #[verifier::opaque]
    pub open spec fn thresholds(self, bounds: PressureBounds) -> Thresholds {
        let span = self.maximum() - self.minimum();
        match self.offset {
            Some(offset) => {
                let gap = truncated(span, 25);
                Thresholds {
                    lower: offset as i64,
                    upper: (offset + if gap > 1 {
                        gap
                    } else {
                        1
                    }) as i64,
                    maximum: self.maximum() as i64,
                }
            },
            None => {
                let low = self.minimum() + if bounds.custom {
                    bounds.low as int
                } else {
                    0
                };
                let high = self.minimum() + if bounds.custom {
                    bounds.high as int
                } else {
                    span
                };
                Thresholds {
                    lower: (low + truncated(high - low, 100)) as i64,
                    upper: (low + truncated(high - low, 20)) as i64,
                    maximum: high as i64,
                }
            },
        }
    }

    /// Whether a pressure lies in the upper half of the range.
    pub open spec fn over_half(self, pressure: i32) -> bool {
        &&& self.minimum() <= self.maximum()
        &&& 2 * (pressure - self.minimum()) > self.maximum() - self.minimum()
    }

    /// The pressure is taken for the offset of a worn tool, unless it is
    /// implausibly high.
    pub open spec fn judged(self, pressure: i32) -> PressureState {
        if self.over_half(pressure) {
            PressureState { rejected: true, ..self }
        } else {
            PressureState { offset: Some(pressure), ..self }
        }
    }

    /// The state after a new pressure. Tablets that sense distance see an
    /// offset when a tool approaches from afar; others take the least
    /// pressure of three approaches. A lower pressure always lowers the
    /// offset.
    #[verifier::opaque]
    pub open spec fn learned(
        self,
        bounds: PressureBounds,
        pressure: i32,
        senses_distance: bool,
        distance: i32,
        distance_range: Option<(i32, i32)>,
        entering: bool,
    ) -> PressureState {
        if bounds.custom {
            PressureState {
                offset: None,
                candidate: None,
                samples: 0,
                rejected: false,
                ..self
            }
        } else if self.range is None || pressure <= self.minimum() || self.rejected {
            self
        } else if self.offset is Some {
            PressureState {
                offset: if pressure < self.offset->0 {
                    Some(pressure)
                } else {
                    self.offset
                },
                ..self
            }
        } else if senses_distance {
            match distance_range {
                Some((near, far)) => if entering && 2 * distance >= near + far {
                    self.judged(pressure)
                } else {
                    self
                },
                None => self,
            }
        } else {
            let least = match self.candidate {
                Some(candidate) if candidate < pressure => candidate,
                _ => pressure,
            };
            let s = PressureState { candidate: Some(least), ..self };
            if !entering {
                s
            } else {
                let s = PressureState {
                    samples: if s.samples < 255 {
                        (s.samples + 1) as u8
                    } else {
                        s.samples
                    },
                    ..s
                };
                if s.samples >= 3 {
                    s.judged(least)
                } else {
                    s
                }
            }
        }
    }

    /// The pressures at which the tip changes state.
    pub fn tablet_pressure_thresholds(&self, bounds: &PressureBounds) -> (t: Thresholds)
        ensures
            t == self.thresholds(*bounds),
    {
        reveal(PressureState::thresholds);
        let (minimum, maximum): (i64, i64) = match self.range {
            Some((low, high)) => (low as i64, high as i64),
            None => (0, 0),
        };
        let span: i64 = maximum - minimum;
        if let Some(offset) = self.offset {
            let share: i64 = if span >= 0 {
                span / 25
            } else {
                -((-span) / 25)
            };
            let gap: i64 = if share > 1 {
                share
            } else {
                1
            };
            return Thresholds {
                lower: offset as i64,
                upper: offset as i64 + gap,
                maximum,
            };
        }
        let low: i64 = minimum + if bounds.custom {
            bounds.low as i64
        } else {
            0
        };
        let high: i64 = minimum + if bounds.custom {
            bounds.high as i64
        } else {
            span
        };
        let width: i64 = high - low;
        let (hundredth, twentieth): (i64, i64) = if width >= 0 {
            (width / 100, width / 20)
        } else {
            (-((-width) / 100), -((-width) / 20))
        };
        Thresholds { lower: low + hundredth, upper: low + twentieth, maximum: high }
    }

    fn judge(self, pressure: i32) -> (s: PressureState)
        ensures
            s == self.judged(pressure),
    {
        let (minimum, maximum): (i64, i64) = match self.range {
            Some((low, high)) => (low as i64, high as i64),
            None => (0, 0),
        };
        if minimum <= maximum && 2 * (pressure as i64 - minimum) > maximum - minimum {
            PressureState { rejected: true, ..self }
        } else {
            PressureState { offset: Some(pressure), ..self }
        }
    }

    /// Learns the pressure offset of a worn tool.
    pub fn update_tablet_pressure_offset(
        self,
        bounds: &PressureBounds,
        pressure: i32,
        senses_distance: bool,
        distance: i32,
        distance_range: Option<(i32, i32)>,
        entering: bool,
    ) -> (s: PressureState)
        ensures
            s == self.learned(
                *bounds,
                pressure,
                senses_distance,
                distance,
                distance_range,
                entering,
            ),
    {
        reveal(PressureState::learned);
        if bounds.custom {
            return PressureState {
                offset: None,
                candidate: None,
                samples: 0,
                rejected: false,
                ..self
            };
        }
        let minimum: i32 = match self.range {
            Some((low, _)) => low,
            None => {
                return self;
            },
        };
        if pressure <= minimum || self.rejected {
            return self;
        }
        if let Some(offset) = self.offset {
            if pressure < offset {
                return PressureState { offset: Some(pressure), ..self };
            }
            return self;
        }
        if senses_distance {
            if let Some((near, far)) = distance_range {
                if entering && 2 * (distance as i64) >= near as i64 + far as i64 {
                    return self.judge(pressure);
                }
            }
            return self;
        }
        let least: i32 = match self.candidate {
            Some(candidate) => if candidate < pressure {
                candidate
            } else {
                pressure
            },
            None => pressure,
        };
        let s = PressureState { candidate: Some(least), ..self };
        if !entering {
            return s;
        }
        let samples: u8 = if s.samples < 255 {
            s.samples + 1
        } else {
            s.samples
        };
        let s = PressureState { samples, ..s };
        if samples >= 3 {
            s.judge(least)
        } else {
            s
        }
    }
}

// ---------------------------------------------------------------------------
// State
// ---------------------------------------------------------------------------
#[derive(Clone, Copy, Debug, PartialEq, Eq, Structural)]
pub struct TipState {
    pub down: bool,
    pub pending: Option<bool>,
    pub button_changed: bool,
}

/// An eraser that is used as a button of its pen.
#[derive(Clone, Copy, Debug, PartialEq, Eq, Structural)]
pub struct EraserState {
    pub button_active: bool,
    pub pen_out_since: Option<u64>,
    pub pending_tip_up: bool,
}

/// Whether a tool is near the tablet, and which one.
#[derive(Clone, Copy, Debug, PartialEq, Eq, Structural)]
pub struct ProximityState {
    pub tool: Option<usize>,
    pub pending: Option<bool>,
    pub in_proximity: bool,
    pub area_suppressed: bool,
    pub left_handed: bool,
    pub cursor_out_of_range: bool,
    pub zero_pressure_since: Option<u64>,
    pub timer_enabled: bool,
}

/// The identity of the tool in front of the tablet.
#[derive(Clone, Copy, Debug, PartialEq, Eq, Structural)]
pub struct ToolIdentity {
    pub serial: u64,
    pub tool_id: u64,
    pub tool_type: u32,
}

pub struct TabletState {
    pub axes: TabletAxes,
    pub last: TabletAxes,
    pub changed: AxisChanges,
    pub axes_changed: bool,
    pub wheel_discrete: i32,
    pub pressure: PressureState,
    pub tip: TipState,
    pub eraser: EraserState,
    pub prox: ProximityState,
    pub identity: ToolIdentity,
    pub has: ToolCapabilities,
    pub mix: AxisMix,
    pub distance_range: Option<(i32, i32)>,
    pub active_tool_keys: Vec<u16>,
    pub buttons: Vec<u32>,
    pub held_buttons: Vec<u16>,
    pub ignored_buttons: Vec<u16>,
    pub pending_buttons: Vec<(u16, bool)>,
}

pub open spec fn no_changes() -> AxisChanges {
    AxisChanges {
        x: false,
        y: false,
        pressure: false,
        distance: false,
        tilt_x: false,
        tilt_y: false,
        rotation: false,
        slider: false,
        size_major: false,
        size_minor: false,
        wheel: false,
    }
}

pub fn nothing_changed() -> (c: AxisChanges)
    ensures
        c == no_changes(),
{
    AxisChanges {
        x: false,
        y: false,
        pressure: false,
        distance: false,
        tilt_x: false,
        tilt_y: false,
        rotation: false,
        slider: false,
        size_major: false,
        size_minor: false,
        wheel: false,
    }
}

/// All axes that a tablet senses count as changed when a tool arrives.
pub open spec fn all_changes(has: ToolCapabilities) -> AxisChanges {
    AxisChanges {
        x: true,
        y: true,
        pressure: has.pressure,
        distance: has.distance,
        tilt_x: has.tilt,
        tilt_y: has.tilt,
        rotation: has.rotation,
        slider: has.slider,
        size_major: has.size,
        size_minor: has.size,
        wheel: has.wheel,
    }
}

fn everything_changed(has: &ToolCapabilities) -> (c: AxisChanges)
    ensures
        c == all_changes(*has),
{
    AxisChanges {
        x: true,
        y: true,
        pressure: has.pressure,
        distance: has.distance,
        tilt_x: has.tilt,
        tilt_y: has.tilt,
        rotation: has.rotation,
        slider: has.slider,
        size_major: has.size,
        size_minor: has.size,
        wheel: has.wheel,
    }
}

// ---------------------------------------------------------------------------
// Axes
// ---------------------------------------------------------------------------
#[verifier::opaque]
pub open spec fn axes_after(axes: TabletAxes, code: u16, value: i32) -> TabletAxes {
    if code == ABS_X || code == ABS_MT_POSITION_X {
        TabletAxes { x: value, ..axes }
    } else if code == ABS_Y || code == ABS_MT_POSITION_Y {
        TabletAxes { y: value, ..axes }
    } else if code == ABS_PRESSURE {
        TabletAxes { pressure: value, ..axes }
    } else if code == ABS_DISTANCE {
        TabletAxes { distance: value, ..axes }
    } else if code == ABS_TILT_X {
        TabletAxes { tilt_x: value, ..axes }
    } else if code == ABS_TILT_Y {
        TabletAxes { tilt_y: value, ..axes }
    } else if code == ABS_Z || code == ABS_MT_ORIENTATION {
        TabletAxes { rotation: value, ..axes }
    } else if code == ABS_WHEEL {
        TabletAxes { slider: value, ..axes }
    } else if code == ABS_MT_TOUCH_MAJOR {
        TabletAxes { size_major: value, ..axes }
    } else if code == ABS_MT_TOUCH_MINOR {
        TabletAxes { size_minor: value, ..axes }
    } else {
        axes
    }
}

fn set_axis(axes: TabletAxes, code: u16, value: i32) -> (a: TabletAxes)
    ensures
        a == axes_after(axes, code, value),
{
    reveal(axes_after);
    if code == ABS_X || code == ABS_MT_POSITION_X {
        TabletAxes { x: value, ..axes }
    } else if code == ABS_Y || code == ABS_MT_POSITION_Y {
        TabletAxes { y: value, ..axes }
    } else if code == ABS_PRESSURE {
        TabletAxes { pressure: value, ..axes }
    } else if code == ABS_DISTANCE {
        TabletAxes { distance: value, ..axes }
    } else if code == ABS_TILT_X {
        TabletAxes { tilt_x: value, ..axes }
    } else if code == ABS_TILT_Y {
        TabletAxes { tilt_y: value, ..axes }
    } else if code == ABS_Z || code == ABS_MT_ORIENTATION {
        TabletAxes { rotation: value, ..axes }
    } else if code == ABS_WHEEL {
        TabletAxes { slider: value, ..axes }
    } else if code == ABS_MT_TOUCH_MAJOR {
        TabletAxes { size_major: value, ..axes }
    } else if code == ABS_MT_TOUCH_MINOR {
        TabletAxes { size_minor: value, ..axes }
    } else {
        axes
    }
}

#[verifier::opaque]
pub open spec fn changes_after(changed: AxisChanges, code: u16) -> AxisChanges {
    if code == ABS_X || code == ABS_MT_POSITION_X {
        AxisChanges { x: true, ..changed }
    } else if code == ABS_Y || code == ABS_MT_POSITION_Y {
        AxisChanges { y: true, ..changed }
    } else if code == ABS_PRESSURE {
        AxisChanges { pressure: true, ..changed }
    } else if code == ABS_DISTANCE {
        AxisChanges { distance: true, ..changed }
    } else if code == ABS_TILT_X {
        AxisChanges { tilt_x: true, ..changed }
    } else if code == ABS_TILT_Y {
        AxisChanges { tilt_y: true, ..changed }
    } else if code == ABS_Z || code == ABS_MT_ORIENTATION {
        AxisChanges { rotation: true, ..changed }
    } else if code == ABS_WHEEL {
        AxisChanges { slider: true, ..changed }
    } else if code == ABS_MT_TOUCH_MAJOR {
        AxisChanges { size_major: true, ..changed }
    } else if code == ABS_MT_TOUCH_MINOR {
        AxisChanges { size_minor: true, ..changed }
    } else {
        changed
    }
}

fn note_change(changed: AxisChanges, code: u16) -> (c: AxisChanges)
    ensures
        c == changes_after(changed, code),
{
    reveal(changes_after);
    if code == ABS_X || code == ABS_MT_POSITION_X {
        AxisChanges { x: true, ..changed }
    } else if code == ABS_Y || code == ABS_MT_POSITION_Y {
        AxisChanges { y: true, ..changed }
    } else if code == ABS_PRESSURE {
        AxisChanges { pressure: true, ..changed }
    } else if code == ABS_DISTANCE {
        AxisChanges { distance: true, ..changed }
    } else if code == ABS_TILT_X {
        AxisChanges { tilt_x: true, ..changed }
    } else if code == ABS_TILT_Y {
        AxisChanges { tilt_y: true, ..changed }
    } else if code == ABS_Z || code == ABS_MT_ORIENTATION {
        AxisChanges { rotation: true, ..changed }
    } else if code == ABS_WHEEL {
        AxisChanges { slider: true, ..changed }
    } else if code == ABS_MT_TOUCH_MAJOR {
        AxisChanges { size_major: true, ..changed }
    } else if code == ABS_MT_TOUCH_MINOR {
        AxisChanges { size_minor: true, ..changed }
    } else {
        changed
    }
}

impl ProximityState {
    /// The watchdog for pens without a proximity sensor is off.
    pub open spec fn watched(self) -> ProximityState {
        ProximityState { timer_enabled: false, zero_pressure_since: None, ..self }
    }

    fn stop_watchdog(self) -> (p: ProximityState)
        ensures
            p == self.watched(),
    {
        ProximityState { timer_enabled: false, zero_pressure_since: None, ..self }
    }
}

impl TipState {
    /// The tip is reported as being in a state.
    #[verifier::opaque]
    pub open spec fn moved(self, down: bool) -> TipState {
        if down != self.down {
            TipState { down, pending: Some(down), ..self }
        } else {
            self
        }
    }

    fn set(self, down: bool) -> (t: TipState)
        ensures
            t == self.moved(down),
    {
        reveal(TipState::moved);
        if down != self.down {
            TipState { down, pending: Some(down), ..self }
        } else {
            self
        }
    }

    /// The tip follows the pressure, with different thresholds for going
    /// down and coming up.
    #[verifier::opaque]
    pub open spec fn pressed(self, pressure: i32, t: Thresholds) -> TipState {
        self.moved(
            if self.down {
                pressure > t.lower
            } else {
                pressure >= t.upper
            },
        )
    }

    fn press(self, pressure: i32, t: &Thresholds) -> (s: TipState)
        ensures
            s == self.pressed(pressure, *t),
    {
        reveal(TipState::pressed);
        let down = if self.down {
            pressure as i64 > t.lower
        } else {
            pressure as i64 >= t.upper
        };
        self.set(down)
    }
}

impl TabletState {
    /// The state after one axis event. A totem announces itself by its axes:
    /// its contact is its tip.
    pub open spec fn axis_moved(self, code: u16, value: i32) -> TabletState {
        let s = TabletState {
            axes: axes_after(self.axes, code, value),
            changed: changes_after(self.changed, code),
            axes_changed: true,
            ..self
        };
        if code == ABS_MISC && value >= 0 {
            TabletState { identity: ToolIdentity { tool_id: value as u64, ..self.identity }, ..s }
        } else if code == ABS_MT_TOOL_TYPE && value == 10 {
            TabletState {
                identity: ToolIdentity { tool_type: TOOL_TOTEM, ..self.identity },
                prox: self.prox.watched(),
                ..s
            }
        } else if code == ABS_MT_TRACKING_ID {
            TabletState {
                identity: ToolIdentity { tool_type: TOOL_TOTEM, ..self.identity },
                prox: ProximityState { pending: Some(value >= 0), ..self.prox.watched() },
                tip: self.tip.moved(value >= 0),
                ..s
            }
        } else {
            s
        }
    }

    fn move_axis(&mut self, code: u16, value: i32)
        ensures
            *final(self) == old(self).axis_moved(code, value),
    {
        let identity = self.identity;
        self.axes = set_axis(self.axes, code, value);
        self.changed = note_change(self.changed, code);
        self.axes_changed = true;
        if code == ABS_MISC && value >= 0 {
            self.identity = ToolIdentity { tool_id: value as u64, ..identity };
        } else if code == ABS_MT_TOOL_TYPE && value == 10 {
            self.identity = ToolIdentity { tool_type: TOOL_TOTEM, ..identity };
            self.prox = self.prox.stop_watchdog();
        } else if code == ABS_MT_TRACKING_ID {
            let prox = self.prox.stop_watchdog();
            self.identity = ToolIdentity { tool_type: TOOL_TOTEM, ..identity };
            self.prox = ProximityState { pending: Some(value >= 0), ..prox };
            self.tip = self.tip.set(value >= 0);
        }
    }
}

// ---------------------------------------------------------------------------
// Keys
// ---------------------------------------------------------------------------
/// The kind of tool that a key announces.
pub open spec fn tool_type_for_key_spec(code: u16) -> Option<u32> {
    if code == BTN_TOOL_RUBBER {
        Some(2)
    } else if code == BTN_TOOL_BRUSH {
        Some(3)
    } else if code == BTN_TOOL_PENCIL {
        Some(4)
    } else if code == BTN_TOOL_AIRBRUSH {
        Some(5)
    } else if code == BTN_TOOL_MOUSE {
        Some(6)
    } else if code == BTN_TOOL_LENS {
        Some(7)
    } else if code == BTN_TOOL_PEN {
        Some(1)
    } else {
        None
    }
}

pub fn tool_type_for_key(code: u16) -> (tool_type: Option<u32>)
    ensures
        tool_type == tool_type_for_key_spec(code),
{
    if code == BTN_TOOL_RUBBER {
        Some(2)
    } else if code == BTN_TOOL_BRUSH {
        Some(3)
    } else if code == BTN_TOOL_PENCIL {
        Some(4)
    } else if code == BTN_TOOL_AIRBRUSH {
        Some(5)
    } else if code == BTN_TOOL_MOUSE {
        Some(6)
    } else if code == BTN_TOOL_LENS {
        Some(7)
    } else if code == BTN_TOOL_PEN {
        Some(1)
    } else {
        None
    }
}

/// The tool that counts when several tool keys are down: the pen only comes
/// last.
#[verifier::opaque]
pub open spec fn selected_tool(keys: Seq<u16>, otherwise: u32) -> u32 {
    if keys.contains(BTN_TOOL_RUBBER) {
        2
    } else if keys.contains(BTN_TOOL_BRUSH) {
        3
    } else if keys.contains(BTN_TOOL_PENCIL) {
        4
    } else if keys.contains(BTN_TOOL_AIRBRUSH) {
        5
    } else if keys.contains(BTN_TOOL_MOUSE) {
        6
    } else if keys.contains(BTN_TOOL_LENS) {
        7
    } else if keys.contains(BTN_TOOL_PEN) {
        1
    } else {
        otherwise
    }
}

fn select_tool(keys: &Vec<u16>, otherwise: u32) -> (tool_type: u32)
    ensures
        tool_type == selected_tool(keys@, otherwise),
{
    reveal(selected_tool);
    if contains_code(keys, BTN_TOOL_RUBBER) {
        2
    } else if contains_code(keys, BTN_TOOL_BRUSH) {
        3
    } else if contains_code(keys, BTN_TOOL_PENCIL) {
        4
    } else if contains_code(keys, BTN_TOOL_AIRBRUSH) {
        5
    } else if contains_code(keys, BTN_TOOL_MOUSE) {
        6
    } else if contains_code(keys, BTN_TOOL_LENS) {
        7
    } else if contains_code(keys, BTN_TOOL_PEN) {
        1
    } else {
        otherwise
    }
}

impl TabletState {
    pub open spec fn wf(self, tools: Seq<LibinputTabletTool>) -> bool {
        &&& self.active_tool_keys@.no_duplicates()
        &&& self.held_buttons@.no_duplicates()
        &&& self.ignored_buttons@.no_duplicates()
        &&& self.prox.tool matches Some(i) ==> i < tools.len()
    }

    /// Whether a key is a button of the tool in use.
    pub open spec fn is_tool_button(self, code: u16) -> bool {
        self.buttons@.contains(code as u32) && if self.identity.tool_type == TOOL_TOTEM {
            code == 0x100
        } else {
            code == 0x149 || code == 0x14b || code == 0x14c || 0x110 <= code <= 0x117
        }
    }

    fn has_tool_button(&self, code: u16) -> (own: bool)
        ensures
            own == self.is_tool_button(code),
    {
        contains_button(&self.buttons, code as u32) && if self.identity.tool_type == TOOL_TOTEM {
            code == 0x100
        } else {
            code == 0x149 || code == 0x14b || code == 0x14c || (0x110 <= code && code <= 0x117)
        }
    }

    /// What the tool keys decide: the most specific key that is down selects
    /// the tool; releasing the key of the tool in use takes it away.
    pub open spec fn tool_keyed(
        self,
        keys: Vec<u16>,
        key_type: u32,
        pressed: bool,
    ) -> TabletState {
        let prox = if key_type != TOOL_PEN || !pressed {
            self.prox.watched()
        } else {
            self.prox
        };
        let selected = selected_tool(keys@, key_type);
        let s = TabletState { active_tool_keys: keys, prox, ..self };
        if pressed && (selected != self.identity.tool_type || (!prox.in_proximity && prox.tool
            is None)) {
            TabletState {
                identity: ToolIdentity { tool_type: selected, ..self.identity },
                prox: ProximityState { pending: Some(true), ..prox },
                ..s
            }
        } else if !pressed && key_type == self.identity.tool_type {
            TabletState { prox: ProximityState { pending: Some(false), ..prox }, ..s }
        } else {
            s
        }
    }

    fn press_tool_key(&mut self, code: u16, key_type: u32, pressed: bool)
        ensures
            final(self).active_tool_keys@ == held_after(
                old(self).active_tool_keys@,
                code,
                pressed,
            ),
            *final(self) == old(self).tool_keyed(
                final(self).active_tool_keys,
                key_type,
                pressed,
            ),
    {
        proof {
            crate::evtrans::lemma_without(self.active_tool_keys@, code);
        }
        transition_button(&mut self.active_tool_keys, code, pressed);
        let identity = self.identity;
        let prox = if key_type != TOOL_PEN || !pressed {
            self.prox.stop_watchdog()
        } else {
            self.prox
        };
        self.prox = prox;
        if pressed {
            let selected: u32 = select_tool(&self.active_tool_keys, key_type);
            if selected != identity.tool_type || (!prox.in_proximity && prox.tool.is_none()) {
                self.identity = ToolIdentity { tool_type: selected, ..identity };
                self.prox = ProximityState { pending: Some(true), ..prox };
            }
        } else if key_type == identity.tool_type {
            self.prox = ProximityState { pending: Some(false), ..prox };
        }
    }

    /// A button of the tool. Buttons that were down before the tablet was
    /// opened are ignored until they come up.
    fn press_tool_button(&mut self, code: u16, pressed: bool)
        requires
            old(self).ignored_buttons@.no_duplicates(),
        ensures
            old(self).ignored_buttons@.contains(code) ==> {
                &&& final(self).ignored_buttons@ == (if pressed {
                    old(self).ignored_buttons@
                } else {
                    without(old(self).ignored_buttons@, code)
                })
                &&& *final(self) == (TabletState {
                    ignored_buttons: final(self).ignored_buttons,
                    ..*old(self)
                })
            },
            !old(self).ignored_buttons@.contains(code) ==> {
                &&& final(self).held_buttons@ == held_after(old(self).held_buttons@, code, pressed)
                &&& final(self).pending_buttons@ == old(self).pending_buttons@.push((code, pressed))
                &&& *final(self) == (TabletState {
                    held_buttons: final(self).held_buttons,
                    pending_buttons: final(self).pending_buttons,
                    ..*old(self)
                })
            },
    {
        if contains_code(&self.ignored_buttons, code) {
            if !pressed {
                remove_code(&mut self.ignored_buttons, code);
            }
            return;
        }
        proof {
            crate::evtrans::lemma_without(self.held_buttons@, code);
        }
        transition_button(&mut self.held_buttons, code, pressed);
        self.pending_buttons.push((code, pressed));
    }
}

// ---------------------------------------------------------------------------
// Events
// ---------------------------------------------------------------------------
impl TabletState {
    /// What an event says of the tool: pressure and distance exclude each
    /// other, a cursor turns by tilting, and a coordinate changes with every
    /// axis that it is made of.
    #[verifier::opaque]
    pub open spec fn payload(
        self,
        tools: Seq<LibinputTabletTool>,
        tool: usize,
        time_usec: u64,
        proximity: bool,
    ) -> TabletToolEvent {
        let t = tools[tool as int];
        let limits = self.pressure.thresholds(t.pressure);
        let pressed = self.axes.pressure > limits.lower;
        TabletToolEvent {
            time_usec,
            tool,
            tool_type: t.tool_type,
            proximity_state: if proximity {
                1
            } else {
                0
            },
            axes: self.axes,
            previous: self.last,
            changed: AxisChanges {
                x: self.mix.x_moves(self.changed.x, self.changed.y),
                y: self.mix.y_moves(self.changed.x, self.changed.y),
                pressure: self.changed.pressure && pressed,
                distance: self.changed.distance && !pressed,
                rotation: if crate::backend::tools::is_cursor(t.tool_type) {
                    self.changed.tilt_x || self.changed.tilt_y
                } else {
                    self.changed.rotation
                },
                ..self.changed
            },
            left_handed: self.prox.left_handed,
            pressure_min: limits.lower,
            pressure_max: limits.maximum,
            wheel_discrete: self.wheel_discrete,
            tip_state: if self.tip.down {
                1
            } else {
                0
            },
            button: 0,
            button_state: 0,
            seat_button_count: 0,
        }
    }

    /// An event of the tool in use.
    pub open spec fn tool_event(
        self,
        tools: Seq<LibinputTabletTool>,
        tool: usize,
        device: DeviceId,
        time_usec: u64,
        event_type: LibinputEventType,
        proximity: bool,
    ) -> LibinputEvent {
        LibinputEvent {
            event_type,
            payload: EventPayload::TabletTool(self.payload(tools, tool, time_usec, proximity)),
            device,
        }
    }

    pub open spec fn tool_button_event(
        self,
        tools: Seq<LibinputTabletTool>,
        tool: usize,
        device: DeviceId,
        time_usec: u64,
        button: u32,
        pressed: bool,
    ) -> LibinputEvent {
        LibinputEvent {
            event_type: LibinputEventType::LIBINPUT_EVENT_TABLET_TOOL_BUTTON,
            payload: EventPayload::TabletTool(
                TabletToolEvent {
                    button,
                    button_state: if pressed {
                        1
                    } else {
                        0
                    },
                    ..self.payload(tools, tool, time_usec, true)
                },
            ),
            device,
        }
    }

    /// The events of button changes in their order.
    pub open spec fn tool_button_events(
        self,
        tools: Seq<LibinputTabletTool>,
        tool: usize,
        device: DeviceId,
        time_usec: u64,
        changes: Seq<(u16, bool)>,
        out: Seq<LibinputEvent>,
    ) -> Seq<LibinputEvent>
        decreases changes.len(),
    {
        if changes.len() == 0 {
            out
        } else {
            self.tool_button_events(
                tools,
                tool,
                device,
                time_usec,
                changes.drop_last(),
                out,
            ).push(
                self.tool_button_event(
                    tools,
                    tool,
                    device,
                    time_usec,
                    changes.last().0 as u32,
                    changes.last().1,
                ),
            )
        }
    }

    /// The contents of an event of the tool in use.
    pub fn tablet_tool_payload(
        &self,
        tools: &ToolSet,
        tool: usize,
        time_usec: u64,
        proximity: bool,
    ) -> (event: TabletToolEvent)
        requires
            tool < tools.tools.len(),
        ensures
            event == self.payload(tools.tools@, tool, time_usec, proximity),
    {
        reveal(TabletState::payload);
        let t = tools.tools[tool];
        let limits = self.pressure.tablet_pressure_thresholds(&t.pressure);
        let pressed = self.axes.pressure as i64 > limits.lower;
        TabletToolEvent {
            time_usec,
            tool,
            tool_type: t.tool_type,
            proximity_state: if proximity {
                1
            } else {
                0
            },
            axes: self.axes,
            previous: self.last,
            changed: AxisChanges {
                x: (self.mix.x_from_x && self.changed.x) || (self.mix.x_from_y && self.changed.y),
                y: (self.mix.y_from_x && self.changed.x) || (self.mix.y_from_y && self.changed.y),
                pressure: self.changed.pressure && pressed,
                distance: self.changed.distance && !pressed,
                rotation: if t.tool_type == TOOL_MOUSE || t.tool_type == TOOL_LENS {
                    self.changed.tilt_x || self.changed.tilt_y
                } else {
                    self.changed.rotation
                },
                ..self.changed
            },
            left_handed: self.prox.left_handed,
            pressure_min: limits.lower,
            pressure_max: limits.maximum,
            wheel_discrete: self.wheel_discrete,
            tip_state: if self.tip.down {
                1
            } else {
                0
            },
            button: 0,
            button_state: 0,
            seat_button_count: 0,
        }
    }

    fn push_tool_event(
        &self,
        tools: &ToolSet,
        tool: usize,
        device: DeviceId,
        time_usec: u64,
        event_type: LibinputEventType,
        proximity: bool,
        out: &mut Vec<LibinputEvent>,
    )
        requires
            tool < tools.tools.len(),
        ensures
            final(out)@ == old(out)@.push(
                self.tool_event(tools.tools@, tool, device, time_usec, event_type, proximity),
            ),
    {
        let payload = self.tablet_tool_payload(tools, tool, time_usec, proximity);
        out.push(LibinputEvent { event_type, payload: EventPayload::TabletTool(payload), device });
    }

    /// Queues one button change of the tool in use.
    pub fn push_tablet_tool_button(
        &self,
        tools: &ToolSet,
        tool: usize,
        device: DeviceId,
        time_usec: u64,
        button: u32,
        pressed: bool,
        out: &mut Vec<LibinputEvent>,
    )
        requires
            tool < tools.tools.len(),
        ensures
            final(out)@ == old(out)@.push(
                self.tool_button_event(tools.tools@, tool, device, time_usec, button, pressed),
            ),
    {
        let payload = self.tablet_tool_payload(tools, tool, time_usec, true);
        out.push(
            LibinputEvent {
                event_type: LibinputEventType::LIBINPUT_EVENT_TABLET_TOOL_BUTTON,
                payload: EventPayload::TabletTool(
                    TabletToolEvent {
                        button,
                        button_state: if pressed {
                            1
                        } else {
                            0
                        },
                        ..payload
                    },
                ),
                device,
            },
        );
    }

    fn push_tool_buttons(
        &self,
        tools: &ToolSet,
        tool: usize,
        device: DeviceId,
        time_usec: u64,
        changes: &Vec<(u16, bool)>,
        out: &mut Vec<LibinputEvent>,
    )
        requires
            tool < tools.tools.len(),
        ensures
            final(out)@ == self.tool_button_events(
                tools.tools@,
                tool,
                device,
                time_usec,
                changes@,
                old(out)@,
            ),
    {
        let ghost before = out@;
        let mut i: usize = 0;
        assert(changes@.take(0) =~= Seq::<(u16, bool)>::empty());
        while i < changes.len()
            invariant
                i <= changes.len(),
                tool < tools.tools.len(),
                out@ == self.tool_button_events(
                    tools.tools@,
                    tool,
                    device,
                    time_usec,
                    changes@.take(i as int),
                    before,
                ),
            decreases changes.len() - i,
        {
            let change = changes[i];
            proof {
                assert(changes@.take(i + 1).drop_last() =~= changes@.take(i as int));
            }
            self.push_tablet_tool_button(
                tools,
                tool,
                device,
                time_usec,
                change.0 as u32,
                change.1,
                out,
            );
            i += 1;
        }
        assert(changes@.take(i as int) =~= changes@);
    }
}

/// The releases of all held buttons.
pub open spec fn releases(held: Seq<u16>) -> Seq<(u16, bool)> {
    Seq::new(held.len(), |i: int| (held[i], false))
}

fn all_releases(held: &Vec<u16>) -> (changes: Vec<(u16, bool)>)
    ensures
        changes@ == releases(held@),
{
    let mut changes: Vec<(u16, bool)> = Vec::new();
    let mut i: usize = 0;
    while i < held.len()
        invariant
            i <= held.len(),
            changes.len() == i,
            forall|j: int| 0 <= j < i ==> #[trigger] changes@[j] == (held@[j], false),
        decreases held.len() - i,
    {
        changes.push((held[i], false));
        i += 1;
    }
    assert(changes@ =~= releases(held@));
    changes
}

// ---------------------------------------------------------------------------
// Frames
// ---------------------------------------------------------------------------
/// What a frame asks of the caller: to let a newly configured area take
/// effect, to block or unblock touch, and to wake the tablet up later.
#[derive(Clone, Copy, Debug, PartialEq, Eq, Structural)]
pub struct TabletOutcome {
    pub apply_area: bool,
    pub unblock_touch: bool,
    pub block_touch_until: Option<u64>,
    pub wake_after: Option<u64>,
}

impl TabletOutcome {
    pub open spec fn with_area(self, also: bool) -> TabletOutcome {
        TabletOutcome { apply_area: also || self.apply_area, ..self }
    }
}

pub open spec fn no_outcome() -> TabletOutcome {
    TabletOutcome {
        apply_area: false,
        unblock_touch: false,
        block_touch_until: None,
        wake_after: None,
    }
}

fn nothing_to_do() -> (o: TabletOutcome)
    ensures
        o == no_outcome(),
{
    TabletOutcome {
        apply_area: false,
        unblock_touch: false,
        block_touch_until: None,
        wake_after: None,
    }
}

/// What the caller knows at the end of a frame: whether the tool is outside
/// the configured area, and whether a new pen's eraser is known not to be
/// usable as a button.
#[derive(Clone, Copy, Debug, PartialEq, Eq, Structural)]
pub struct TabletFacts {
    pub outside_area: bool,
    pub fixed_eraser: bool,
}

impl TabletState {
    /// Pressure and tip after a new pressure.
    #[verifier::opaque]
    pub open spec fn pressed(
        self,
        tools: Seq<LibinputTabletTool>,
        entering: bool,
        button_changed: bool,
    ) -> TabletState {
        if self.prox.tool is Some && self.changed.pressure {
            let bounds = tools[self.prox.tool->0 as int].pressure;
            let pressure = self.pressure.learned(
                bounds,
                self.axes.pressure,
                self.has.distance,
                self.axes.distance,
                self.distance_range,
                entering,
            );
            TabletState {
                pressure,
                tip: if button_changed || pressure.range is None {
                    self.tip
                } else {
                    self.tip.pressed(self.axes.pressure, pressure.thresholds(bounds))
                },
                ..self
            }
        } else {
            self
        }
    }

    fn follow_pressure(&mut self, tools: &ToolSet, entering: bool, button_changed: bool)
        requires
            old(self).wf(tools.tools@),
        ensures
            final(self).wf(tools.tools@),
            *final(self) == old(self).pressed(tools.tools@, entering, button_changed),
            final(self).prox == old(self).prox,
            final(self).axes == old(self).axes,
            final(self).last == old(self).last,
            final(self).eraser == old(self).eraser,
    {
        reveal(TabletState::pressed);
        if let Some(k) = self.prox.tool {
            if self.changed.pressure {
                let bounds = tools.tools[k].pressure;
                let pressure = self.pressure.update_tablet_pressure_offset(
                    &bounds,
                    self.axes.pressure,
                    self.has.distance,
                    self.axes.distance,
                    self.distance_range,
                    entering,
                );
                if !button_changed && pressure.range.is_some() {
                    let limits = pressure.tablet_pressure_thresholds(&bounds);
                    self.tip = self.tip.press(self.axes.pressure, &limits);
                }
                self.pressure = pressure;
            }
        }
    }

    /// Everything reported: the next event is measured from here.
    pub open spec fn rested(self) -> TabletState {
        TabletState {
            last: self.axes,
            changed: no_changes(),
            wheel_discrete: 0,
            axes_changed: false,
            ..self
        }
    }

    fn rest(&mut self)
        ensures
            *final(self) == old(self).rested(),
    {
        self.last = self.axes;
        self.changed = nothing_changed();
        self.wheel_discrete = 0;
        self.axes_changed = false;
    }

    /// The frame is dropped.
    pub open spec fn dropped(self) -> TabletState {
        TabletState { changed: no_changes(), axes_changed: false, ..self }
    }

    fn drop_frame(&mut self)
        ensures
            *final(self) == old(self).dropped(),
    {
        self.changed = nothing_changed();
        self.axes_changed = false;
    }

    // --- before the frame ----------------------------------------------------
    /// A tool outside the area that has been silent for long is gone.
    pub open spec fn outsider_gone(self, now: u64) -> bool {
        self.prox.area_suppressed && passed_spec(
            now,
            self.prox.zero_pressure_since,
            PROXIMITY_TIMEOUT,
        )
    }

    /// The proximity watchdog at the start of a frame.
    #[verifier::opaque]
    pub open spec fn watchdog(self, now: u64) -> ProximityState {
        let p = if self.outsider_gone(now) {
            ProximityState {
                area_suppressed: false,
                zero_pressure_since: None,
                in_proximity: false,
                ..self.prox
            }
        } else {
            self.prox
        };
        if p.timer_enabled && (p.tool is Some || p.area_suppressed) {
            ProximityState { zero_pressure_since: Some(now), ..p }
        } else {
            p
        }
    }

    fn run_watchdog(&mut self, now: u64) -> (gone: bool)
        ensures
            *final(self) == (TabletState { prox: old(self).watchdog(now), ..*old(self) }),
            gone == old(self).outsider_gone(now),
            final(self).prox.tool == old(self).prox.tool,
    {
        reveal(TabletState::watchdog);
        let prox = self.prox;
        let gone = prox.area_suppressed && passed(
            now,
            prox.zero_pressure_since,
            PROXIMITY_TIMEOUT,
        );
        let p = if gone {
            ProximityState {
                area_suppressed: false,
                zero_pressure_since: None,
                in_proximity: false,
                ..prox
            }
        } else {
            prox
        };
        if p.timer_enabled && (p.tool.is_some() || p.area_suppressed) {
            self.prox = ProximityState { zero_pressure_since: Some(now), ..p };
        } else {
            self.prox = p;
        }
        gone
    }

    /// Whether a cursor tool that is lifted makes the frame void.
    pub open spec fn cursor_drops(self) -> bool {
        &&& crate::backend::tools::is_cursor(self.identity.tool_type)
        &&& if self.axes.distance >= CURSOR_PROXIMITY_THRESHOLD {
            !self.prox.in_proximity
        } else {
            self.axes.distance == 0 && self.prox.cursor_out_of_range && self.prox.pending == Some(
                false,
            )
        }
    }

    /// A cursor tool leaves and returns by its distance.
    #[verifier::opaque]
    pub open spec fn cursor_moved(self) -> ProximityState {
        if !crate::backend::tools::is_cursor(self.identity.tool_type) {
            self.prox
        } else if self.axes.distance >= CURSOR_PROXIMITY_THRESHOLD {
            ProximityState {
                pending: if self.prox.in_proximity {
                    Some(false)
                } else {
                    None
                },
                cursor_out_of_range: true,
                ..self.prox
            }
        } else if self.axes.distance > 0 && self.prox.cursor_out_of_range
            && !self.prox.in_proximity {
            ProximityState { cursor_out_of_range: false, pending: Some(true), ..self.prox }
        } else if self.cursor_drops() {
            ProximityState { cursor_out_of_range: false, pending: None, ..self.prox }
        } else {
            self.prox
        }
    }

    fn follow_cursor(&mut self) -> (drops: bool)
        ensures
            *final(self) == (TabletState { prox: old(self).cursor_moved(), ..*old(self) }),
            drops == old(self).cursor_drops(),
            final(self).prox.tool == old(self).prox.tool,
    {
        reveal(TabletState::cursor_moved);
        if self.identity.tool_type != TOOL_MOUSE && self.identity.tool_type != TOOL_LENS {
            return false;
        }
        let prox = self.prox;
        let leaving = match prox.pending {
            Some(entering) => !entering,
            None => false,
        };
        if self.axes.distance >= CURSOR_PROXIMITY_THRESHOLD {
            self.prox = ProximityState {
                pending: if prox.in_proximity {
                    Some(false)
                } else {
                    None
                },
                cursor_out_of_range: true,
                ..prox
            };
            return !prox.in_proximity;
        }
        if self.axes.distance > 0 && prox.cursor_out_of_range && !prox.in_proximity {
            self.prox = ProximityState {
                cursor_out_of_range: false,
                pending: Some(true),
                ..prox
            };
            return false;
        }
        if self.axes.distance == 0 && prox.cursor_out_of_range && leaving {
            self.prox = ProximityState { cursor_out_of_range: false, pending: None, ..prox };
            return true;
        }
        false
    }

    /// Whether axes that move without a tool announce a pen: tablets without
    /// tool keys have no other way.
    pub open spec fn pen_appears(self) -> bool {
        &&& self.prox.tool is None
        &&& self.prox.pending is None
        &&& self.changed.x || self.changed.y || (self.changed.pressure && self.pressure.range is Some
            && self.axes.pressure > self.pressure.minimum())
    }

    pub open spec fn pen_noticed(self) -> TabletState {
        if self.pen_appears() {
            TabletState {
                identity: ToolIdentity { tool_type: TOOL_PEN, ..self.identity },
                prox: ProximityState { pending: Some(true), ..self.prox },
                ..self
            }
        } else {
            self
        }
    }

    fn notice_pen(&mut self)
        ensures
            *final(self) == old(self).pen_noticed(),
    {
        let pressed = match self.pressure.range {
            Some((minimum, _)) => self.axes.pressure > minimum,
            None => false,
        };
        if self.prox.tool.is_none() && self.prox.pending.is_none() && (self.changed.x
            || self.changed.y || (self.changed.pressure && pressed)) {
            let identity = ToolIdentity { tool_type: TOOL_PEN, ..self.identity };
            let prox = ProximityState { pending: Some(true), ..self.prox };
            self.identity = identity;
            self.prox = prox;
        }
    }

    // --- a frame without a change of proximity --------------------------------
    /// Whether such a frame has nothing to report.
    pub open spec fn idle(self) -> bool {
        self.prox.tool is None || (!self.axes_changed && self.tip.pending is None
            && self.pending_buttons@.len() == 0)
    }

    pub open spec fn tip_reported(self) -> TabletState {
        TabletState { tip: TipState { pending: None, ..self.tip }, ..self }
    }

    /// The events of a frame: tip or axes first, then the buttons.
    pub open spec fn axis_events(
        self,
        tools: Seq<LibinputTabletTool>,
        device: DeviceId,
        time_usec: u64,
        out: Seq<LibinputEvent>,
    ) -> Seq<LibinputEvent> {
        let s = self.tip_reported();
        let tool = self.prox.tool->0;
        let out = if self.tip.pending is Some {
            out.push(
                s.tool_event(
                    tools,
                    tool,
                    device,
                    time_usec,
                    LibinputEventType::LIBINPUT_EVENT_TABLET_TOOL_TIP,
                    true,
                ),
            )
        } else if self.axes_changed {
            out.push(
                s.tool_event(
                    tools,
                    tool,
                    device,
                    time_usec,
                    LibinputEventType::LIBINPUT_EVENT_TABLET_TOOL_AXIS,
                    true,
                ),
            )
        } else {
            out
        };
        s.tool_button_events(tools, tool, device, time_usec, self.pending_buttons@, out)
    }

    fn axis_frame(
        &mut self,
        tools: &ToolSet,
        device: DeviceId,
        time_usec: u64,
        button_changed: bool,
        out: &mut Vec<LibinputEvent>,
    )
        requires
            old(self).wf(tools.tools@),
        ensures
            final(self).wf(tools.tools@),
            old(self).axis_framed(
                tools.tools@,
                device,
                time_usec,
                button_changed,
                old(out)@,
                *final(self),
                final(out)@,
            ),
    {
        reveal(TabletState::axis_framed);
        self.follow_pressure(tools, false, button_changed);
        let tip = self.tip;
        let tip_event = tip.pending.is_some();
        self.tip = TipState { pending: None, ..tip };
        if let Some(tool) = self.prox.tool {
            if !self.axes_changed && !tip_event && self.pending_buttons.len() == 0 {
                return;
            }
            if tip_event {
                self.push_tool_event(
                    tools,
                    tool,
                    device,
                    time_usec,
                    LibinputEventType::LIBINPUT_EVENT_TABLET_TOOL_TIP,
                    true,
                    out,
                );
            } else if self.axes_changed {
                self.push_tool_event(
                    tools,
                    tool,
                    device,
                    time_usec,
                    LibinputEventType::LIBINPUT_EVENT_TABLET_TOOL_AXIS,
                    true,
                    out,
                );
            }
            self.push_tool_buttons(tools, tool, device, time_usec, &self.pending_buttons, out);
            self.rest();
            self.pending_buttons = Vec::new();
        }
    }
}

// ---------------------------------------------------------------------------
// Proximity
// ---------------------------------------------------------------------------
impl TabletState {
    /// Whether a pen returns before its absence was reported.
    pub open spec fn pen_returns(self) -> bool {
        self.eraser.pen_out_since is Some
    }

    /// A tool that enters ends the wait for a pen, whose tip never left.
    #[verifier::opaque]
    pub open spec fn wait_ended(self) -> TabletState {
        if self.pen_returns() && self.eraser.pending_tip_up {
            TabletState {
                tip: TipState { down: true, pending: None, ..self.tip },
                eraser: EraserState {
                    pen_out_since: None,
                    pending_tip_up: false,
                    ..self.eraser
                },
                ..self
            }
        } else {
            TabletState { eraser: EraserState { pen_out_since: None, ..self.eraser }, ..self }
        }
    }

    fn end_wait(&mut self)
        ensures
            *final(self) == old(self).wait_ended(),
            final(self).prox == old(self).prox,
    {
        reveal(TabletState::wait_ended);
        let eraser = self.eraser;
        let tip = self.tip;
        if eraser.pen_out_since.is_some() && eraser.pending_tip_up {
            self.tip = TipState { down: true, pending: None, ..tip };
            self.eraser = EraserState { pen_out_since: None, pending_tip_up: false, ..eraser };
        } else {
            self.eraser = EraserState { pen_out_since: None, ..eraser };
        }
    }

    /// Whether a tool arrives that was not there before.
    pub open spec fn arrives(self) -> bool {
        self.prox.tool is None && !self.prox.in_proximity
    }

    /// A tool arrives: configuration takes effect, and a tool outside the
    /// configured area is ignored until it leaves.
    #[verifier::opaque]
    pub open spec fn arrived(self, dev: LibinputDevice, outside_area: bool) -> ProximityState {
        if self.arrives() {
            ProximityState {
                left_handed: dev.left_handed,
                in_proximity: true,
                area_suppressed: if dev.area_available {
                    outside_area
                } else {
                    self.prox.area_suppressed
                },
                ..self.prox
            }
        } else {
            self.prox
        }
    }

    fn arrive(&mut self, dev: &LibinputDevice, outside_area: bool) -> (arrives: bool)
        ensures
            *final(self) == (TabletState {
                prox: old(self).arrived(*dev, outside_area),
                ..*old(self)
            }),
            arrives == old(self).arrives(),
            final(self).prox.tool == old(self).prox.tool,
    {
        reveal(TabletState::arrived);
        let prox = self.prox;
        if prox.tool.is_none() && !prox.in_proximity {
            self.prox = ProximityState {
                left_handed: dev.left_handed,
                in_proximity: true,
                area_suppressed: if dev.area_available {
                    outside_area
                } else {
                    prox.area_suppressed
                },
                ..prox
            };
            return true;
        }
        false
    }

    /// A change of proximity outside the area: only leaving has an effect.
    pub open spec fn outside_moved(self, now: u64, entering: bool) -> TabletState {
        let p = if self.prox.timer_enabled && self.prox.zero_pressure_since is None {
            ProximityState { zero_pressure_since: Some(now), ..self.prox }
        } else {
            self.prox
        };
        if entering {
            TabletState { prox: p, ..self }.dropped()
        } else {
            (TabletState {
                prox: ProximityState { area_suppressed: false, in_proximity: false, ..p },
                tip: TipState { down: false, pending: None, ..self.tip },
                ..self
            }).dropped()
        }
    }

    fn move_outside(&mut self, now: u64, entering: bool)
        ensures
            *final(self) == old(self).outside_moved(now, entering),
            final(self).prox.tool == old(self).prox.tool,
    {
        let prox = self.prox;
        let tip = self.tip;
        let p = if prox.timer_enabled && prox.zero_pressure_since.is_none() {
            ProximityState { zero_pressure_since: Some(now), ..prox }
        } else {
            prox
        };
        if entering {
            self.prox = p;
        } else {
            self.prox = ProximityState { area_suppressed: false, in_proximity: false, ..p };
            self.tip = TipState { down: false, pending: None, ..tip };
        }
        self.drop_frame();
    }

    /// Whether the tool in use is a pen whose eraser is a button: when it
    /// leaves, its eraser may follow.
    pub open spec fn eraser_is_button(self, tools: Seq<LibinputTabletTool>) -> bool {
        self.prox.tool matches Some(k) && tools[k as int].tool_type == TOOL_PEN
            && tools[k as int].eraser_button_mode == 1
    }

    /// Such a pen leaves: its absence is not reported yet.
    pub open spec fn pen_awaited(self, now: u64) -> TabletState {
        let tip_up = self.tip.pending == Some(false);
        (TabletState {
            eraser: EraserState {
                button_active: false,
                pending_tip_up: tip_up,
                pen_out_since: Some(now),
            },
            tip: if tip_up {
                TipState { down: true, pending: None, ..self.tip }
            } else {
                self.tip
            },
            ..self
        }).dropped()
    }

    fn await_pen(
        &mut self,
        tools: &ToolSet,
        tool: usize,
        device: DeviceId,
        time_usec: u64,
        now: u64,
        out: &mut Vec<LibinputEvent>,
    )
        requires
            tool < tools.tools.len(),
        ensures
            *final(self) == old(self).pen_awaited(now),
            final(out)@ == (if old(self).eraser.button_active {
                old(out)@.push(
                    old(self).tool_button_event(
                        tools.tools@,
                        tool,
                        device,
                        time_usec,
                        tools.tools@[tool as int].eraser_button,
                        false,
                    ),
                )
            } else {
                old(out)@
            }),
    {
        if self.eraser.button_active {
            let button: u32 = tools.tools[tool].eraser_button;
            self.push_tablet_tool_button(tools, tool, device, time_usec, button, false, out);
        }
        let tip = self.tip;
        let tip_up = match tip.pending {
            Some(down) => !down,
            None => false,
        };
        self.eraser = EraserState {
            button_active: false,
            pending_tip_up: tip_up,
            pen_out_since: Some(now),
        };
        if tip_up {
            self.tip = TipState { down: true, pending: None, ..tip };
        }
        self.drop_frame();
    }

    // --- leaving ---------------------------------------------------------------
    /// The state in which the last events of a leaving tool are reported: at
    /// the axes of the event before.
    pub open spec fn leaving(
        self,
        tools: Seq<LibinputTabletTool>,
        button_changed: bool,
    ) -> TabletState {
        TabletState {
            axes: self.last,
            changed: no_changes(),
            ..self.pressed(tools, false, button_changed)
        }
    }

    /// Whether the tip is still down, or came up just now.
    pub open spec fn tip_leaves(self) -> bool {
        self.tip.down || self.tip.pending == Some(false)
    }

    pub open spec fn tip_lifted(self) -> TabletState {
        TabletState {
            tip: TipState {
                down: if self.tip_leaves() {
                    false
                } else {
                    self.tip.down
                },
                pending: if self.tip_leaves() {
                    None
                } else {
                    self.tip.pending
                },
                ..self.tip
            },
            ..self
        }
    }

    /// The events of a leaving tool: button changes, the release of every
    /// button that is still held, the tip coming up, and proximity last.
    pub open spec fn leave_events(
        self,
        tools: Seq<LibinputTabletTool>,
        tool: usize,
        device: DeviceId,
        time_usec: u64,
        out: Seq<LibinputEvent>,
    ) -> Seq<LibinputEvent> {
        let out = self.tool_button_events(
            tools,
            tool,
            device,
            time_usec,
            self.pending_buttons@,
            out,
        );
        let out = self.tool_button_events(
            tools,
            tool,
            device,
            time_usec,
            releases(self.held_buttons@),
            out,
        );
        let s = self.tip_lifted();
        let out = if self.tip_leaves() {
            out.push(
                s.tool_event(
                    tools,
                    tool,
                    device,
                    time_usec,
                    LibinputEventType::LIBINPUT_EVENT_TABLET_TOOL_TIP,
                    true,
                ),
            )
        } else {
            out
        };
        out.push(
            s.tool_event(
                tools,
                tool,
                device,
                time_usec,
                LibinputEventType::LIBINPUT_EVENT_TABLET_TOOL_PROXIMITY,
                false,
            ),
        )
    }

    /// The state after the tool left.
    pub open spec fn left(
        self,
        tools: Seq<LibinputTabletTool>,
        button_changed: bool,
        held: Vec<u16>,
        pending: Vec<(u16, bool)>,
    ) -> TabletState {
        let s = self.leaving(tools, button_changed).tip_lifted();
        (TabletState {
            axes: self.axes,
            prox: ProximityState {
                tool: None,
                zero_pressure_since: None,
                in_proximity: false,
                ..s.prox
            },
            held_buttons: held,
            pending_buttons: pending,
            ..s
        }).rested()
    }

    fn push_leave_events(
        &mut self,
        tools: &ToolSet,
        tool: usize,
        device: DeviceId,
        time_usec: u64,
        out: &mut Vec<LibinputEvent>,
    )
        requires
            tool < tools.tools.len(),
        ensures
            *final(self) == old(self).tip_lifted(),
            final(out)@ == old(self).leave_events(
                tools.tools@,
                tool,
                device,
                time_usec,
                old(out)@,
            ),
    {
        self.push_tool_buttons(tools, tool, device, time_usec, &self.pending_buttons, out);
        let released = all_releases(&self.held_buttons);
        self.push_tool_buttons(tools, tool, device, time_usec, &released, out);
        let tip = self.tip;
        let leaves = tip.down || match tip.pending {
            Some(down) => !down,
            None => false,
        };
        if leaves {
            self.tip = TipState { down: false, pending: None, ..tip };
            self.push_tool_event(
                tools,
                tool,
                device,
                time_usec,
                LibinputEventType::LIBINPUT_EVENT_TABLET_TOOL_TIP,
                true,
                out,
            );
        }
        self.push_tool_event(
            tools,
            tool,
            device,
            time_usec,
            LibinputEventType::LIBINPUT_EVENT_TABLET_TOOL_PROXIMITY,
            false,
            out,
        );
    }

    fn leave(
        &mut self,
        tools: &mut ToolSet,
        tool: usize,
        device: DeviceId,
        time_usec: u64,
        button_changed: bool,
        out: &mut Vec<LibinputEvent>,
    )
        requires
            old(tools).wf(),
            old(self).wf(old(tools).tools@),
            old(self).prox.tool == Some(tool),
        ensures
            final(tools).wf(),
            final(tools).tools@.len() >= old(tools).tools@.len(),
            final(self).wf(final(tools).tools@),
            final(self).held_buttons@.len() == 0,
            final(self).pending_buttons@.len() == 0,
            *final(self) == old(self).left(
                old(tools).tools@,
                button_changed,
                final(self).held_buttons,
                final(self).pending_buttons,
            ),
            final(tools).tools@ == old(tools).tools@.update(
                tool as int,
                tool_left(old(tools).tools@[tool as int]),
            ),
            final(tools).buttons == old(tools).buttons,
            final(out)@ == old(self).leaving(old(tools).tools@, button_changed).leave_events(
                old(tools).tools@,
                tool,
                device,
                time_usec,
                old(out)@,
            ),
    {
        let raw = self.axes;
        self.follow_pressure(tools, false, button_changed);
        self.axes = self.last;
        self.changed = nothing_changed();
        self.push_leave_events(tools, tool, device, time_usec, out);
        tools.dismiss(tool);
        let prox = self.prox;
        self.prox = ProximityState {
            tool: None,
            zero_pressure_since: None,
            in_proximity: false,
            ..prox
        };
        self.axes = raw;
        self.held_buttons = Vec::new();
        self.pending_buttons = Vec::new();
        self.rest();
    }
}

/// A leaving tool's last event takes it out of proximity, and every button
/// that it held is released before.
pub proof fn law_leaving_releases_everything(
    s: TabletState,
    tools: Seq<LibinputTabletTool>,
    tool: usize,
    device: DeviceId,
    time_usec: u64,
    out: Seq<LibinputEvent>,
    button: int,
)
    requires
        0 <= button < s.held_buttons@.len(),
    ensures
        ({
            let events = s.leave_events(tools, tool, device, time_usec, out);
            let release = s.tool_button_event(
                tools,
                tool,
                device,
                time_usec,
                s.held_buttons@[button] as u32,
                false,
            );
            &&& events.last().event_type
                == LibinputEventType::LIBINPUT_EVENT_TABLET_TOOL_PROXIMITY
            &&& events.drop_last().contains(release)
        }),
{
    let first = s.tool_button_events(tools, tool, device, time_usec, s.pending_buttons@, out);
    let changes = releases(s.held_buttons@);
    let second = s.tool_button_events(tools, tool, device, time_usec, changes, first);
    lemma_button_event_present(s, tools, tool, device, time_usec, changes, first, button);
    let release = s.tool_button_event(
        tools,
        tool,
        device,
        time_usec,
        s.held_buttons@[button] as u32,
        false,
    );
    let i = choose|i: int| 0 <= i < second.len() && second[i] == release;
    let events = s.leave_events(tools, tool, device, time_usec, out);
    assert(events.drop_last()[i] == release);
}

proof fn lemma_button_event_present(
    s: TabletState,
    tools: Seq<LibinputTabletTool>,
    tool: usize,
    device: DeviceId,
    time_usec: u64,
    changes: Seq<(u16, bool)>,
    out: Seq<LibinputEvent>,
    k: int,
)
    requires
        0 <= k < changes.len(),
    ensures
        s.tool_button_events(tools, tool, device, time_usec, changes, out).contains(
            s.tool_button_event(
                tools,
                tool,
                device,
                time_usec,
                changes[k].0 as u32,
                changes[k].1,
            ),
        ),
    decreases changes.len(),
{
    let all = s.tool_button_events(tools, tool, device, time_usec, changes, out);
    let event = s.tool_button_event(
        tools,
        tool,
        device,
        time_usec,
        changes[k].0 as u32,
        changes[k].1,
    );
    if k == changes.len() - 1 {
        assert(all[all.len() - 1] == event);
    } else {
        lemma_button_event_present(
            s,
            tools,
            tool,
            device,
            time_usec,
            changes.drop_last(),
            out,
            k,
        );
        let rest = s.tool_button_events(
            tools,
            tool,
            device,
            time_usec,
            changes.drop_last(),
            out,
        );
        let i = choose|i: int| 0 <= i < rest.len() && rest[i] == event;
        assert(all[i] == event);
    }
}

impl TabletState {
    // --- entering --------------------------------------------------------------
    /// Whether another tool is in use that has to leave first. An eraser that
    /// is a button of the pen in use is no other tool.
    pub open spec fn switches(self, tools: Seq<LibinputTabletTool>) -> bool {
        self.prox.tool matches Some(k) && tools[k as int].tool_type != self.identity.tool_type && !(
        self.identity.tool_type == TOOL_ERASER && self.eraser_is_button(tools))
    }

    pub open spec fn switch_events(
        self,
        tools: Seq<LibinputTabletTool>,
        device: DeviceId,
        time_usec: u64,
        out: Seq<LibinputEvent>,
    ) -> Seq<LibinputEvent> {
        if self.switches(tools) {
            out.push(
                self.tool_event(
                    tools,
                    self.prox.tool->0,
                    device,
                    time_usec,
                    LibinputEventType::LIBINPUT_EVENT_TABLET_TOOL_PROXIMITY,
                    false,
                ),
            )
        } else {
            out
        }
    }

    /// The state in which a tool's arrival is reported, `tool` being its
    /// place.
    pub open spec fn entered(
        self,
        tools: Seq<LibinputTabletTool>,
        left_handed: bool,
        tool: usize,
    ) -> TabletState {
        let fresh = self.prox.tool is None || self.switches(tools);
        TabletState {
            prox: ProximityState {
                tool: Some(tool),
                left_handed: if fresh {
                    left_handed
                } else {
                    self.prox.left_handed
                },
                ..self.prox
            },
            changed: all_changes(self.has),
            ..self
        }
    }

    /// The tools after one entered, and its place: its configured pressure
    /// range takes effect.
    #[verifier::opaque]
    pub open spec fn tools_entered(
        self,
        tools: Seq<LibinputTabletTool>,
        device: DeviceId,
        fixed_eraser: bool,
    ) -> (Seq<LibinputTabletTool>, int) {
        let (after, k) = tools_with(
            tools,
            device,
            self.identity.serial,
            self.identity.tool_id,
            self.identity.tool_type,
            self.has,
            self.buttons@,
            fixed_eraser,
        );
        (
            after.update(
                k,
                LibinputTabletTool {
                    pressure: after[k].wanted_pressure,
                    in_proximity: true,
                    ..after[k]
                },
            ),
            k,
        )
    }

    fn enter_tool(
        &mut self,
        tools: &mut ToolSet,
        dev: &LibinputDevice,
        time_usec: u64,
        fixed_eraser: bool,
        out: &mut Vec<LibinputEvent>,
    ) -> (tool: usize)
        requires
            old(tools).wf(),
            old(self).wf(old(tools).tools@),
        ensures
            final(tools).wf(),
            final(tools).tools@.len() >= old(tools).tools@.len(),
            final(self).wf(final(tools).tools@),
            tool < final(tools).tools.len(),
            (final(tools).tools@, tool as int) == old(self).tools_entered(
                old(tools).tools@,
                dev.id,
                fixed_eraser,
            ),
            *final(self) == old(self).entered(old(tools).tools@, dev.left_handed, tool),
            final(out)@ == old(self).switch_events(
                old(tools).tools@,
                dev.id,
                time_usec,
                old(out)@,
            ),
    {
        reveal(TabletState::tools_entered);
        let prox = self.prox;
        let mut fresh = true;
        if let Some(k) = prox.tool {
            let current = tools.tools[k];
            let as_button = self.identity.tool_type == TOOL_ERASER && current.tool_type
                == TOOL_PEN && current.eraser_button_mode == 1;
            if current.tool_type != self.identity.tool_type && !as_button {
                self.push_tool_event(
                    tools,
                    k,
                    dev.id,
                    time_usec,
                    LibinputEventType::LIBINPUT_EVENT_TABLET_TOOL_PROXIMITY,
                    false,
                    out,
                );
            } else {
                fresh = false;
            }
        }
        let identity = self.identity;
        let tool: usize = tools.tablet_tool_for(
            dev.id,
            identity.serial,
            identity.tool_id,
            identity.tool_type,
            self.has,
            &self.buttons,
            fixed_eraser,
        );
        let t = tools.tools[tool];
        tools.tools.set(
            tool,
            LibinputTabletTool { pressure: t.wanted_pressure, in_proximity: true, ..t },
        );
        self.prox = ProximityState {
            tool: Some(tool),
            left_handed: if fresh {
                dev.left_handed
            } else {
                prox.left_handed
            },
            ..prox
        };
        self.changed = everything_changed(&self.has);
        tool
    }

    /// Whether an eraser that is a button goes down.
    pub open spec fn eraser_enters(self, tool: LibinputTabletTool) -> bool {
        self.identity.tool_type == TOOL_ERASER && tool.tool_type == TOOL_PEN
            && tool.eraser_button_mode == 1 && !self.eraser.button_active
    }

    /// Whether an eraser that is a button comes up because its pen returns.
    pub open spec fn eraser_leaves(self, tool: LibinputTabletTool) -> bool {
        self.identity.tool_type == TOOL_PEN && tool.tool_type == TOOL_PEN
            && self.eraser.button_active
    }

    pub open spec fn with_eraser(self, active: bool) -> TabletState {
        TabletState { eraser: EraserState { button_active: active, ..self.eraser }, ..self }
    }

    /// The state after the events of an arrival.
    pub open spec fn enter_reported(self, tool: LibinputTabletTool) -> TabletState {
        self.with_eraser(
            self.eraser_enters(tool) || (self.eraser.button_active && !self.eraser_leaves(tool)),
        ).tip_reported()
    }

    /// The events of an arriving tool: an eraser button that comes up,
    /// proximity unless the tool never really left, an eraser button that
    /// goes down, the tip, and the buttons.
    #[verifier::opaque]
    pub open spec fn enter_events(
        self,
        tools: Seq<LibinputTabletTool>,
        tool: usize,
        device: DeviceId,
        time_usec: u64,
        silent: bool,
        out: Seq<LibinputEvent>,
    ) -> Seq<LibinputEvent> {
        let t = tools[tool as int];
        let out = if self.eraser_leaves(t) {
            out.push(
                self.tool_button_event(tools, tool, device, time_usec, t.eraser_button, false),
            )
        } else {
            out
        };
        let out = if silent {
            out
        } else {
            out.push(
                self.tool_event(
                    tools,
                    tool,
                    device,
                    time_usec,
                    LibinputEventType::LIBINPUT_EVENT_TABLET_TOOL_PROXIMITY,
                    true,
                ),
            )
        };
        let out = if self.eraser_enters(t) {
            out.push(self.tool_button_event(tools, tool, device, time_usec, t.eraser_button, true))
        } else {
            out
        };
        let out = if self.tip.pending is Some {
            out.push(
                self.tool_event(
                    tools,
                    tool,
                    device,
                    time_usec,
                    LibinputEventType::LIBINPUT_EVENT_TABLET_TOOL_TIP,
                    true,
                ),
            )
        } else {
            out
        };
        self.tool_button_events(tools, tool, device, time_usec, self.pending_buttons@, out)
    }

    fn push_entry(
        &self,
        tools: &ToolSet,
        tool: usize,
        device: DeviceId,
        time_usec: u64,
        silent: bool,
        out: &mut Vec<LibinputEvent>,
    )
        requires
            tool < tools.tools.len(),
        ensures
            final(out)@ == self.enter_events(
                tools.tools@,
                tool,
                device,
                time_usec,
                silent,
                old(out)@,
            ),
    {
        reveal(TabletState::enter_events);
        let t = tools.tools[tool];
        let button: u32 = t.eraser_button;
        if self.does_eraser_leave(&t) {
            self.push_tablet_tool_button(tools, tool, device, time_usec, button, false, out);
        }
        if !silent {
            self.push_tool_event(
                tools,
                tool,
                device,
                time_usec,
                LibinputEventType::LIBINPUT_EVENT_TABLET_TOOL_PROXIMITY,
                true,
                out,
            );
        }
        if self.does_eraser_enter(&t) {
            self.push_tablet_tool_button(tools, tool, device, time_usec, button, true, out);
        }
        if self.tip.pending.is_some() {
            self.push_tool_event(
                tools,
                tool,
                device,
                time_usec,
                LibinputEventType::LIBINPUT_EVENT_TABLET_TOOL_TIP,
                true,
                out,
            );
        }
        self.push_tool_buttons(tools, tool, device, time_usec, &self.pending_buttons, out);
    }

    fn does_eraser_enter(&self, t: &LibinputTabletTool) -> (enters: bool)
        ensures
            enters == self.eraser_enters(*t),
    {
        self.identity.tool_type == TOOL_ERASER && t.tool_type == TOOL_PEN && t.eraser_button_mode
            == 1 && !self.eraser.button_active
    }

    fn does_eraser_leave(&self, t: &LibinputTabletTool) -> (leaves: bool)
        ensures
            leaves == self.eraser_leaves(*t),
    {
        self.identity.tool_type == TOOL_PEN && t.tool_type == TOOL_PEN && self.eraser.button_active
    }

    fn finish_entry(&mut self, t: &LibinputTabletTool, now: u64)
        ensures
            *final(self) == old(self).enter_reported(*t).pen_watched(now).rested(),
            final(self).prox.tool == old(self).prox.tool,
            final(self).active_tool_keys == old(self).active_tool_keys,
            final(self).held_buttons == old(self).held_buttons,
            final(self).ignored_buttons == old(self).ignored_buttons,
    {
        let enters = self.does_eraser_enter(t);
        let leaves = self.does_eraser_leave(t);
        let eraser = self.eraser;
        let tip = self.tip;
        let prox = self.prox;
        self.eraser = EraserState {
            button_active: enters || (eraser.button_active && !leaves),
            ..eraser
        };
        self.tip = TipState { pending: None, ..tip };
        if prox.timer_enabled && self.identity.tool_type == TOOL_PEN {
            self.prox = ProximityState { zero_pressure_since: Some(now), ..prox };
        }
        self.rest();
    }

    /// Whether an arrival goes unreported: the tablet was in proximity all
    /// the time, and only an eraser button changed or a pen came back.
    pub open spec fn enters_silently(
        self,
        tool: LibinputTabletTool,
        was_in_proximity: bool,
        returned: bool,
    ) -> bool {
        was_in_proximity && (self.eraser_enters(tool) || self.eraser_leaves(tool) || returned)
    }

    /// A pen that entered is watched if it has no proximity sensor.
    pub open spec fn pen_watched(self, now: u64) -> TabletState {
        if self.prox.timer_enabled && self.identity.tool_type == TOOL_PEN {
            TabletState {
                prox: ProximityState { zero_pressure_since: Some(now), ..self.prox },
                ..self
            }
        } else {
            self
        }
    }

    /// The state that the events of an arrival speak of.
    pub open spec fn entry_state(
        self,
        tools: Seq<LibinputTabletTool>,
        dev: LibinputDevice,
        fixed_eraser: bool,
        button_changed: bool,
    ) -> TabletState {
        let (after, k) = self.tools_entered(tools, dev.id, fixed_eraser);
        self.entered(tools, dev.left_handed, k as usize).pressed(after, true, button_changed)
    }

    fn enter(
        &mut self,
        tools: &mut ToolSet,
        dev: &LibinputDevice,
        time_usec: u64,
        now: u64,
        fixed_eraser: bool,
        was_in_proximity: bool,
        returned: bool,
        button_changed: bool,
        out: &mut Vec<LibinputEvent>,
    )
        requires
            old(tools).wf(),
            old(self).wf(old(tools).tools@),
        ensures
            final(tools).wf(),
            final(tools).tools@.len() >= old(tools).tools@.len(),
            final(self).wf(final(tools).tools@),
            final(self).pending_buttons@.len() == 0,
            ({
                let (after, k) = old(self).tools_entered(
                    old(tools).tools@,
                    dev.id,
                    fixed_eraser,
                );
                let s = old(self).entry_state(
                    old(tools).tools@,
                    *dev,
                    fixed_eraser,
                    button_changed,
                );
                &&& final(tools).tools@ == after
                &&& 0 <= k < after.len()
                &&& *final(self) == (TabletState {
                    pending_buttons: final(self).pending_buttons,
                    ..s.enter_reported(after[k]).pen_watched(now).rested()
                })
                &&& final(out)@ == s.enter_events(
                    after,
                    k as usize,
                    dev.id,
                    time_usec,
                    s.enters_silently(after[k], was_in_proximity, returned),
                    old(self).switch_events(old(tools).tools@, dev.id, time_usec, old(out)@),
                )
            }),
    {
        let tool: usize = self.enter_tool(tools, dev, time_usec, fixed_eraser, out);
        self.follow_pressure(tools, true, button_changed);
        let t = tools.tools[tool];
        let silent = was_in_proximity && (self.does_eraser_enter(&t) || self.does_eraser_leave(&t)
            || returned);
        self.push_entry(tools, tool, dev.id, time_usec, silent, out);
        self.finish_entry(&t, now);
        self.pending_buttons = Vec::new();
    }
}


// ---------------------------------------------------------------------------
// Whole frames
// ---------------------------------------------------------------------------
/// When a frame comes: the time stamp of its events and the clock's reading.
#[derive(Clone, Copy, Debug, PartialEq, Eq, Structural)]
pub struct FrameTime {
    pub time_usec: u64,
    pub now: u64,
}

impl TabletState {
    /// The state after the checks that precede every frame.
    pub open spec fn frame_opened(self, now: u64) -> TabletState {
        TabletState {
            prox: self.watchdog(now),
            tip: TipState { button_changed: false, ..self.tip },
            ..self
        }
    }

    /// The state of a frame that counts: the cursor and a pen that shows
    /// itself by its axes are seen to.
    pub open spec fn frame_counted(self, now: u64) -> TabletState {
        let s = self.frame_opened(now);
        (TabletState { prox: s.cursor_moved(), ..s }).pen_noticed()
    }

    /// The state after a frame that does not count.
    pub open spec fn frame_void(self, now: u64) -> TabletState {
        let s = self.frame_opened(now);
        (TabletState { prox: s.cursor_moved(), ..s }).dropped()
    }

    pub open spec fn decided(self) -> TabletState {
        TabletState { prox: ProximityState { pending: None, ..self.prox }, ..self }
    }

    /// Whether `after` and `reported` are what a frame without a change of
    /// proximity leaves behind.
    #[verifier::opaque]
    pub open spec fn axis_framed(
        self,
        tools: Seq<LibinputTabletTool>,
        device: DeviceId,
        time_usec: u64,
        button_changed: bool,
        out: Seq<LibinputEvent>,
        after: TabletState,
        reported: Seq<LibinputEvent>,
    ) -> bool {
        let s = self.pressed(tools, false, button_changed);
        if s.idle() {
            &&& after == s.tip_reported()
            &&& reported == out
        } else {
            &&& after.pending_buttons@.len() == 0
            &&& after == (TabletState {
                pending_buttons: after.pending_buttons,
                ..s.tip_reported().rested()
            })
            &&& reported == s.axis_events(tools, device, time_usec, out)
        }
    }

    /// Whether a tool that arrives, or moves while it is in use, leaves these
    /// behind. A tool outside the area is not reported.
    #[verifier::opaque]
    pub open spec fn arrival_framed(
        self,
        tools: Seq<LibinputTabletTool>,
        dev: LibinputDevice,
        facts: TabletFacts,
        at: FrameTime,
        button_changed: bool,
        out: Seq<LibinputEvent>,
        after: TabletState,
        tools_after: Seq<LibinputTabletTool>,
        reported: Seq<LibinputEvent>,
        outcome: TabletOutcome,
    ) -> bool {
        let s = self.wait_ended();
        let a = TabletState { prox: s.arrived(dev, facts.outside_area), ..s };
        &&& outcome == (TabletOutcome {
            unblock_touch: s.arrives(),
            apply_area: s.arrives(),
            ..no_outcome()
        })
        &&& if a.prox.area_suppressed {
            &&& after == a.outside_moved(at.now, true)
            &&& tools_after == tools
            &&& reported == out
        } else {
            let (entered, k) = a.tools_entered(tools, dev.id, facts.fixed_eraser);
            let e = a.entry_state(tools, dev, facts.fixed_eraser, button_changed);
            &&& tools_after == entered
            &&& 0 <= k < entered.len()
            &&& after.pending_buttons@.len() == 0
            &&& after == (TabletState {
                pending_buttons: after.pending_buttons,
                ..e.enter_reported(entered[k]).pen_watched(at.now).rested()
            })
            &&& reported == e.enter_events(
                entered,
                k as usize,
                dev.id,
                at.time_usec,
                e.enters_silently(entered[k], s.prox.in_proximity, self.pen_returns()),
                a.switch_events(tools, dev.id, at.time_usec, out),
            )
        }
    }

    /// Whether a tool that goes away leaves these behind. A pen whose eraser
    /// is a button is waited for.
    #[verifier::opaque]
    pub open spec fn departure_framed(
        self,
        tools: Seq<LibinputTabletTool>,
        dev: LibinputDevice,
        at: FrameTime,
        button_changed: bool,
        out: Seq<LibinputEvent>,
        after: TabletState,
        tools_after: Seq<LibinputTabletTool>,
        reported: Seq<LibinputEvent>,
        outcome: TabletOutcome,
    ) -> bool {
        if self.prox.area_suppressed {
            &&& after == self.outside_moved(at.now, false)
            &&& tools_after == tools
            &&& reported == out
            &&& outcome == (TabletOutcome { apply_area: true, ..no_outcome() })
        } else {
            match self.prox.tool {
                None => {
                    &&& after == self
                    &&& tools_after == tools
                    &&& reported == out
                    &&& outcome == no_outcome()
                },
                Some(tool) => if self.eraser_is_button(tools) {
                    &&& after == self.pen_awaited(at.now)
                    &&& tools_after == tools
                    &&& reported == (if self.eraser.button_active {
                        out.push(
                            self.tool_button_event(
                                tools,
                                tool,
                                dev.id,
                                at.time_usec,
                                tools[tool as int].eraser_button,
                                false,
                            ),
                        )
                    } else {
                        out
                    })
                    &&& outcome == (TabletOutcome {
                        wake_after: Some(ERASER_TIMEOUT),
                        ..no_outcome()
                    })
                } else {
                    &&& after.held_buttons@.len() == 0
                    &&& after.pending_buttons@.len() == 0
                    &&& after == self.left(
                        tools,
                        button_changed,
                        after.held_buttons,
                        after.pending_buttons,
                    )
                    &&& tools_after == tools.update(
                        tool as int,
                        tool_left(tools[tool as int]),
                    )
                    &&& reported == self.leaving(tools, button_changed).leave_events(
                        tools,
                        tool,
                        dev.id,
                        at.time_usec,
                        out,
                    )
                    &&& outcome == (TabletOutcome {
                        block_touch_until: Some(
                            later_spec(at.now, TOUCH_ARBITRATION_TIMEOUT),
                        ),
                        apply_area: true,
                        ..no_outcome()
                    })
                },
            }
        }
    }
}


impl TabletState {
    fn arrival_frame(
        &mut self,
        tools: &mut ToolSet,
        dev: &LibinputDevice,
        facts: TabletFacts,
        at: FrameTime,
        button_changed: bool,
        out: &mut Vec<LibinputEvent>,
    ) -> (outcome: TabletOutcome)
        requires
            old(tools).wf(),
            old(self).wf(old(tools).tools@),
        ensures
            final(tools).wf(),
            final(tools).tools@.len() >= old(tools).tools@.len(),
            final(self).wf(final(tools).tools@),
            old(self).arrival_framed(
                old(tools).tools@,
                *dev,
                facts,
                at,
                button_changed,
                old(out)@,
                *final(self),
                final(tools).tools@,
                final(out)@,
                outcome,
            ),
    {
        let returned = self.eraser.pen_out_since.is_some();
        proof {
            reveal(TabletState::wait_ended);
            reveal(TabletState::arrival_framed);
        }
        self.end_wait();
        let was_in_proximity = self.prox.in_proximity;
        let arrives = self.arrive(dev, facts.outside_area);
        let outcome = TabletOutcome {
            unblock_touch: arrives,
            apply_area: arrives,
            ..nothing_to_do()
        };
        if self.prox.area_suppressed {
            self.move_outside(at.now, true);
        } else {
            self.enter(
                tools,
                dev,
                at.time_usec,
                at.now,
                facts.fixed_eraser,
                was_in_proximity,
                returned,
                button_changed,
                out,
            );
        }
        outcome
    }

    fn departure_frame(
        &mut self,
        tools: &mut ToolSet,
        dev: &LibinputDevice,
        at: FrameTime,
        button_changed: bool,
        out: &mut Vec<LibinputEvent>,
    ) -> (outcome: TabletOutcome)
        requires
            old(tools).wf(),
            old(self).wf(old(tools).tools@),
        ensures
            final(tools).wf(),
            final(tools).tools@.len() >= old(tools).tools@.len(),
            final(self).wf(final(tools).tools@),
            old(self).departure_framed(
                old(tools).tools@,
                *dev,
                at,
                button_changed,
                old(out)@,
                *final(self),
                final(tools).tools@,
                final(out)@,
                outcome,
            ),
    {
        reveal(TabletState::departure_framed);
        if self.prox.area_suppressed {
            self.move_outside(at.now, false);
            return TabletOutcome { apply_area: true, ..nothing_to_do() };
        }
        let tool: usize = match self.prox.tool {
            Some(tool) => tool,
            None => {
                return nothing_to_do();
            },
        };
        let t = tools.tools[tool];
        if t.tool_type == TOOL_PEN && t.eraser_button_mode == 1 {
            self.await_pen(tools, tool, dev.id, at.time_usec, at.now, out);
            return TabletOutcome { wake_after: Some(ERASER_TIMEOUT), ..nothing_to_do() };
        }
        self.leave(tools, tool, dev.id, at.time_usec, button_changed, out);
        TabletOutcome {
            block_touch_until: Some(later(at.now, TOUCH_ARBITRATION_TIMEOUT)),
            apply_area: true,
            ..nothing_to_do()
        }
    }

    /// Whether a frame that counts leaves these behind.
    pub open spec fn settled(
        self,
        tools: Seq<LibinputTabletTool>,
        dev: LibinputDevice,
        facts: TabletFacts,
        at: FrameTime,
        button_changed: bool,
        out: Seq<LibinputEvent>,
        after: TabletState,
        tools_after: Seq<LibinputTabletTool>,
        reported: Seq<LibinputEvent>,
        outcome: TabletOutcome,
    ) -> bool {
        match self.prox.pending {
            None => {
                &&& self.axis_framed(
                    tools,
                    dev.id,
                    at.time_usec,
                    button_changed,
                    out,
                    after,
                    reported,
                )
                &&& tools_after == tools
                &&& outcome == no_outcome()
            },
            Some(true) => self.decided().arrival_framed(
                tools,
                dev,
                facts,
                at,
                button_changed,
                out,
                after,
                tools_after,
                reported,
                outcome,
            ),
            Some(false) => self.decided().departure_framed(
                tools,
                dev,
                at,
                button_changed,
                out,
                after,
                tools_after,
                reported,
                outcome,
            ),
        }
    }

    fn settle_frame(
        &mut self,
        tools: &mut ToolSet,
        dev: &LibinputDevice,
        facts: TabletFacts,
        at: FrameTime,
        button_changed: bool,
        out: &mut Vec<LibinputEvent>,
    ) -> (outcome: TabletOutcome)
        requires
            old(tools).wf(),
            old(self).wf(old(tools).tools@),
        ensures
            final(tools).wf(),
            final(tools).tools@.len() >= old(tools).tools@.len(),
            final(self).wf(final(tools).tools@),
            old(self).settled(
                old(tools).tools@,
                *dev,
                facts,
                at,
                button_changed,
                old(out)@,
                *final(self),
                final(tools).tools@,
                final(out)@,
                outcome,
            ),
    {
        let prox = self.prox;
        match prox.pending {
            None => {
                self.axis_frame(tools, dev.id, at.time_usec, button_changed, out);
                nothing_to_do()
            },
            Some(entering) => {
                self.prox = ProximityState { pending: None, ..prox };
                if entering {
                    self.arrival_frame(tools, dev, facts, at, button_changed, out)
                } else {
                    self.departure_frame(tools, dev, at, button_changed, out)
                }
            },
        }
    }

    /// What precedes the reports of a frame. Tells whether the frame is void.
    fn open_frame(&mut self, now: u64) -> (void: bool)
        ensures
            void == old(self).frame_opened(now).cursor_drops(),
            *final(self) == (if void {
                old(self).frame_void(now)
            } else {
                old(self).frame_counted(now)
            }),
            forall|tools: Seq<LibinputTabletTool>| #[trigger]
                old(self).wf(tools) ==> final(self).wf(tools),
    {
        self.run_watchdog(now);
        let tip = self.tip;
        self.tip = TipState { button_changed: false, ..tip };
        let void = self.follow_cursor();
        if void {
            self.drop_frame();
        } else {
            self.notice_pen();
        }
        void
    }

    /// Whether a frame leaves these behind.
    pub open spec fn framed(
        self,
        tools: Seq<LibinputTabletTool>,
        dev: LibinputDevice,
        facts: TabletFacts,
        at: FrameTime,
        out: Seq<LibinputEvent>,
        after: TabletState,
        tools_after: Seq<LibinputTabletTool>,
        reported: Seq<LibinputEvent>,
        outcome: TabletOutcome,
    ) -> bool {
        if self.frame_opened(at.now).cursor_drops() {
            &&& after == self.frame_void(at.now)
            &&& tools_after == tools
            &&& reported == out
            &&& outcome == no_outcome()
        } else {
            self.frame_counted(at.now).settled(
                tools,
                dev,
                facts,
                at,
                self.tip.button_changed,
                out,
                after,
                tools_after,
                reported,
                outcome,
            )
        }
    }

    /// The end of a frame. Besides what the outcome says, the newly
    /// configured area takes effect if a tool outside the area is found to be
    /// gone.
    pub fn finish_tablet_frame(
        &mut self,
        tools: &mut ToolSet,
        dev: &LibinputDevice,
        facts: TabletFacts,
        at: FrameTime,
        out: &mut Vec<LibinputEvent>,
    ) -> (outcome: TabletOutcome)
        requires
            old(tools).wf(),
            old(self).wf(old(tools).tools@),
        ensures
            final(tools).wf(),
            final(tools).tools@.len() >= old(tools).tools@.len(),
            final(self).wf(final(tools).tools@),
            exists|o: TabletOutcome| #[trigger]
                old(self).framed(
                    old(tools).tools@,
                    *dev,
                    facts,
                    at,
                    old(out)@,
                    *final(self),
                    final(tools).tools@,
                    final(out)@,
                    o,
                ) && outcome == o.with_area(old(self).outsider_gone(at.now)),
    {
        let button_changed = self.tip.button_changed;
        let gone = self.prox.area_suppressed && passed(
            at.now,
            self.prox.zero_pressure_since,
            PROXIMITY_TIMEOUT,
        );
        let o = if self.open_frame(at.now) {
            nothing_to_do()
        } else {
            self.settle_frame(tools, dev, facts, at, button_changed, out)
        };
        proof {
            assert(old(self).framed(
                old(tools).tools@,
                *dev,
                facts,
                at,
                old(out)@,
                *self,
                tools.tools@,
                out@,
                o,
            ));
        }
        TabletOutcome { apply_area: gone || o.apply_area, ..o }
    }
}


// ---------------------------------------------------------------------------
// Single events
// ---------------------------------------------------------------------------
impl TabletState {
    pub open spec fn wheel_turned(self, value: i32) -> TabletState {
        TabletState {
            wheel_discrete: (-value) as i32,
            changed: AxisChanges { wheel: true, ..self.changed },
            axes_changed: true,
            ..self
        }
    }

    fn turn_wheel(&mut self, value: i32)
        requires
            value > i32::MIN,
        ensures
            *final(self) == old(self).wheel_turned(value),
    {
        let changed = self.changed;
        self.wheel_discrete = -value;
        self.changed = AxisChanges { wheel: true, ..changed };
        self.axes_changed = true;
    }

    /// What a key does: the touch key is the tip, a button of the tool waits
    /// for the end of the frame, a tool key selects the tool.
    #[verifier::opaque]
    pub open spec fn keyed(self, code: u16, pressed: bool, after: TabletState) -> bool {
        if code == BTN_TOUCH {
            after == (TabletState {
                tip: TipState { button_changed: true, ..self.tip.moved(pressed) },
                ..self
            })
        } else if self.is_tool_button(code) {
            if self.ignored_buttons@.contains(code) {
                &&& after.ignored_buttons@ == (if pressed {
                    self.ignored_buttons@
                } else {
                    without(self.ignored_buttons@, code)
                })
                &&& after == (TabletState { ignored_buttons: after.ignored_buttons, ..self })
            } else {
                &&& after.held_buttons@ == held_after(self.held_buttons@, code, pressed)
                &&& after.pending_buttons@ == self.pending_buttons@.push((code, pressed))
                &&& after == (TabletState {
                    held_buttons: after.held_buttons,
                    pending_buttons: after.pending_buttons,
                    ..self
                })
            }
        } else {
            match tool_type_for_key_spec(code) {
                Some(key_type) => {
                    &&& after.active_tool_keys@ == held_after(
                        self.active_tool_keys@,
                        code,
                        pressed,
                    )
                    &&& after == self.tool_keyed(after.active_tool_keys, key_type, pressed)
                },
                None => after == self,
            }
        }
    }

    fn press_key(&mut self, code: u16, pressed: bool, tools: &ToolSet)
        requires
            old(self).wf(tools.tools@),
        ensures
            final(self).wf(tools.tools@),
            old(self).keyed(code, pressed, *final(self)),
    {
        reveal(TabletState::keyed);
        proof {
            law_transitions_keep_buttons_unique(self.held_buttons@, code, pressed);
            law_transitions_keep_buttons_unique(self.active_tool_keys@, code, pressed);
            law_transitions_keep_buttons_unique(self.ignored_buttons@, code, false);
        }
        if code == BTN_TOUCH {
            let tip = self.tip.set(pressed);
            self.tip = TipState { button_changed: true, ..tip };
        } else if self.has_tool_button(code) {
            self.press_tool_button(code, pressed);
        } else if let Some(key_type) = tool_type_for_key(code) {
            self.press_tool_key(code, key_type, pressed);
        }
    }

    /// Whether one kernel event leaves these behind.
    #[verifier::opaque]
    pub open spec fn processed(
        self,
        ev: InputEvent,
        tools: Seq<LibinputTabletTool>,
        dev: LibinputDevice,
        facts: TabletFacts,
        at: FrameTime,
        out: Seq<LibinputEvent>,
        after: TabletState,
        tools_after: Seq<LibinputTabletTool>,
        reported: Seq<LibinputEvent>,
        outcome: TabletOutcome,
    ) -> bool {
        if ev.kind == EV_SYN && ev.code == SYN_REPORT {
            exists|o: TabletOutcome| #[trigger]
                self.framed(tools, dev, facts, at, out, after, tools_after, reported, o) && outcome
                    == o.with_area(self.outsider_gone(at.now))
        } else {
            &&& tools_after == tools
            &&& reported == out
            &&& outcome == no_outcome()
            &&& if ev.kind == EV_ABS {
                after == self.axis_moved(ev.code, ev.value)
            } else if ev.kind == EV_REL && ev.code == REL_WHEEL {
                after == self.wheel_turned(ev.value)
            } else if ev.kind == EV_KEY {
                self.keyed(ev.code, ev.value != 0, after)
            } else if ev.kind == EV_MSC && ev.code == 0 && ev.value >= 0 {
                after == (TabletState {
                    identity: ToolIdentity { serial: ev.value as u64, ..self.identity },
                    ..self
                })
            } else {
                after == self
            }
        }
    }

    /// Takes in one kernel event of a tablet.
    pub fn process_tablet_tool_event(
        &mut self,
        ev: &InputEvent,
        tools: &mut ToolSet,
        dev: &LibinputDevice,
        facts: TabletFacts,
        at: FrameTime,
        out: &mut Vec<LibinputEvent>,
    ) -> (outcome: TabletOutcome)
        requires
            old(tools).wf(),
            old(self).wf(old(tools).tools@),
            ev.kind == EV_REL && ev.code == REL_WHEEL ==> ev.value > i32::MIN,
        ensures
            final(tools).wf(),
            final(tools).tools@.len() >= old(tools).tools@.len(),
            final(self).wf(final(tools).tools@),
            old(self).processed(
                *ev,
                old(tools).tools@,
                *dev,
                facts,
                at,
                old(out)@,
                *final(self),
                final(tools).tools@,
                final(out)@,
                outcome,
            ),
    {
        reveal(TabletState::processed);
        if ev.kind == EV_SYN && ev.code == SYN_REPORT {
            return self.finish_tablet_frame(tools, dev, facts, at, out);
        }
        if ev.kind == EV_ABS {
            self.move_axis(ev.code, ev.value);
        } else if ev.kind == EV_REL && ev.code == REL_WHEEL {
            self.turn_wheel(ev.value);
        } else if ev.kind == EV_KEY {
            self.press_key(ev.code, ev.value != 0, tools);
        } else if ev.kind == EV_MSC && ev.code == 0 && ev.value >= 0 {
            let identity = self.identity;
            self.identity = ToolIdentity { serial: ev.value as u64, ..identity };
        }
        nothing_to_do()
    }
}


// ---------------------------------------------------------------------------
// Without an event
// ---------------------------------------------------------------------------
impl TabletState {
    /// The state in which a tip that is up is reported.
    pub open spec fn tip_raised(self) -> TabletState {
        TabletState { tip: TipState { down: false, pending: None, ..self.tip }, ..self }
    }

    /// The tip coming up, where `tip` says so, and the tool leaving.
    pub open spec fn goodbye(
        self,
        tools: Seq<LibinputTabletTool>,
        tool: usize,
        device: DeviceId,
        time_usec: u64,
        tip: bool,
        out: Seq<LibinputEvent>,
    ) -> Seq<LibinputEvent> {
        let s = if tip {
            self.tip_raised()
        } else {
            self
        };
        let out = if tip {
            out.push(
                s.tool_event(
                    tools,
                    tool,
                    device,
                    time_usec,
                    LibinputEventType::LIBINPUT_EVENT_TABLET_TOOL_TIP,
                    true,
                ),
            )
        } else {
            out
        };
        out.push(
            s.tool_event(
                tools,
                tool,
                device,
                time_usec,
                LibinputEventType::LIBINPUT_EVENT_TABLET_TOOL_PROXIMITY,
                false,
            ),
        )
    }

    fn say_goodbye(
        &mut self,
        tools: &ToolSet,
        tool: usize,
        device: DeviceId,
        time_usec: u64,
        tip: bool,
        out: &mut Vec<LibinputEvent>,
    )
        requires
            tool < tools.tools.len(),
        ensures
            *final(self) == (if tip {
                old(self).tip_raised()
            } else {
                *old(self)
            }),
            final(out)@ == old(self).goodbye(
                tools.tools@,
                tool,
                device,
                time_usec,
                tip,
                old(out)@,
            ),
    {
        if tip {
            let t = self.tip;
            self.tip = TipState { down: false, pending: None, ..t };
            self.push_tool_event(
                tools,
                tool,
                device,
                time_usec,
                LibinputEventType::LIBINPUT_EVENT_TABLET_TOOL_TIP,
                true,
                out,
            );
        }
        self.push_tool_event(
            tools,
            tool,
            device,
            time_usec,
            LibinputEventType::LIBINPUT_EVENT_TABLET_TOOL_PROXIMITY,
            false,
            out,
        );
    }

    /// Whether a pen has been waited for in vain.
    pub open spec fn wait_over(self, now: u64) -> bool {
        passed_spec(now, self.eraser.pen_out_since, ERASER_TIMEOUT) && self.prox.tool is Some
    }

    /// The state after a pen was waited for in vain.
    #[verifier::opaque]
    pub open spec fn abandoned(self) -> TabletState {
        let s = if self.eraser.pending_tip_up {
            self.tip_raised()
        } else {
            self
        };
        TabletState {
            prox: ProximityState { tool: None, in_proximity: false, ..self.prox },
            eraser: EraserState { pen_out_since: None, pending_tip_up: false, ..self.eraser },
            ..s
        }
    }

    /// Reports the absence of a pen that was waited for in vain. If it does,
    /// a newly configured area takes effect.
    pub fn expire_eraser_wait(
        &mut self,
        tools: &mut ToolSet,
        device: DeviceId,
        at: FrameTime,
        out: &mut Vec<LibinputEvent>,
    ) -> (gone: bool)
        requires
            old(tools).wf(),
            old(self).wf(old(tools).tools@),
        ensures
            final(tools).wf(),
            final(tools).tools@.len() >= old(tools).tools@.len(),
            final(self).wf(final(tools).tools@),
            gone == old(self).wait_over(at.now),
            final(tools).buttons == old(tools).buttons,
            gone ==> {
                let tool = old(self).prox.tool->0;
                &&& *final(self) == old(self).abandoned()
                &&& final(tools).tools@ == old(tools).tools@.update(
                    tool as int,
                    tool_left(old(tools).tools@[tool as int]),
                )
                &&& final(out)@ == old(self).goodbye(
                    old(tools).tools@,
                    tool,
                    device,
                    at.time_usec,
                    old(self).eraser.pending_tip_up,
                    old(out)@,
                )
            },
            !gone ==> *final(self) == *old(self) && final(tools).tools@ == old(tools).tools@
                && final(out)@ == old(out)@,
    {
        reveal(TabletState::abandoned);
        let prox = self.prox;
        let eraser = self.eraser;
        if !passed(at.now, eraser.pen_out_since, ERASER_TIMEOUT) {
            return false;
        }
        let tool: usize = match prox.tool {
            Some(tool) => tool,
            None => {
                return false;
            },
        };
        self.say_goodbye(tools, tool, device, at.time_usec, eraser.pending_tip_up, out);
        tools.dismiss(tool);
        self.prox = ProximityState { tool: None, in_proximity: false, ..prox };
        self.eraser = EraserState { pen_out_since: None, pending_tip_up: false, ..eraser };
        true
    }

    /// Whether a pen without a proximity sensor has been silent for long
    /// enough to be taken for gone, whether it is in use or outside the area.
    pub open spec fn silent(self, now: u64) -> bool {
        &&& self.prox.timer_enabled
        &&& self.held_buttons@.len() == 0
        &&& passed_spec(now, self.prox.zero_pressure_since, PROXIMITY_TIMEOUT)
        &&& if self.prox.tool is None {
            self.prox.area_suppressed
        } else {
            !self.tip.down
        }
    }

    /// The state after a silent pen was taken for gone.
    #[verifier::opaque]
    pub open spec fn silenced(self) -> TabletState {
        TabletState {
            prox: ProximityState {
                tool: None,
                area_suppressed: self.prox.tool is Some && self.prox.area_suppressed,
                zero_pressure_since: None,
                in_proximity: false,
                ..self.prox
            },
            ..self
        }
    }

    /// Reports the absence of a pen that has been silent. If it does, a newly
    /// configured area takes effect.
    pub fn expire_proximity(
        &mut self,
        tools: &ToolSet,
        device: DeviceId,
        at: FrameTime,
        out: &mut Vec<LibinputEvent>,
    ) -> (gone: bool)
        requires
            old(self).wf(tools.tools@),
        ensures
            final(self).wf(tools.tools@),
            gone == old(self).silent(at.now),
            gone ==> {
                &&& *final(self) == old(self).silenced()
                &&& final(out)@ == (match old(self).prox.tool {
                    Some(tool) => old(self).goodbye(
                        tools.tools@,
                        tool,
                        device,
                        at.time_usec,
                        false,
                        old(out)@,
                    ),
                    None => old(out)@,
                })
            },
            !gone ==> *final(self) == *old(self) && final(out)@ == old(out)@,
    {
        reveal(TabletState::silenced);
        let prox = self.prox;
        if !prox.timer_enabled || self.held_buttons.len() != 0 || !passed(
            at.now,
            prox.zero_pressure_since,
            PROXIMITY_TIMEOUT,
        ) {
            return false;
        }
        match prox.tool {
            Some(tool) => {
                if self.tip.down {
                    return false;
                }
                self.say_goodbye(tools, tool, device, at.time_usec, false, out);
                self.prox = ProximityState {
                    tool: None,
                    zero_pressure_since: None,
                    in_proximity: false,
                    ..prox
                };
                true
            },
            None => {
                if !prox.area_suppressed {
                    return false;
                }
                self.prox = ProximityState {
                    area_suppressed: false,
                    zero_pressure_since: None,
                    in_proximity: false,
                    ..prox
                };
                true
            },
        }
    }

    /// The state after everything was released.
    pub open spec fn released(self, held: Vec<u16>) -> TabletState {
        if self.prox.tool is Some {
            let s = if self.tip.down {
                self.tip_raised()
            } else {
                self
            };
            TabletState {
                held_buttons: held,
                prox: ProximityState { tool: None, zero_pressure_since: None, ..self.prox },
                ..s
            }
        } else {
            self
        }
    }

    /// The events that release everything: the buttons, the tip and the tool
    /// itself.
    pub open spec fn release_events(
        self,
        tools: Seq<LibinputTabletTool>,
        device: DeviceId,
        time_usec: u64,
        out: Seq<LibinputEvent>,
    ) -> Seq<LibinputEvent> {
        match self.prox.tool {
            Some(tool) => self.goodbye(
                tools,
                tool,
                device,
                time_usec,
                self.tip.down,
                self.tool_button_events(
                    tools,
                    tool,
                    device,
                    time_usec,
                    releases(self.held_buttons@),
                    out,
                ),
            ),
            None => out,
        }
    }

    /// Releases whatever the tool in use holds, and the tool itself.
    pub fn release(
        &mut self,
        tools: &mut ToolSet,
        device: DeviceId,
        time_usec: u64,
        out: &mut Vec<LibinputEvent>,
    )
        requires
            old(tools).wf(),
            old(self).wf(old(tools).tools@),
        ensures
            final(tools).wf(),
            final(tools).tools@.len() >= old(tools).tools@.len(),
            final(self).wf(final(tools).tools@),
            final(tools).buttons == old(tools).buttons,
            *final(self) == old(self).released(final(self).held_buttons),
            old(self).prox.tool is Some ==> final(self).held_buttons@.len() == 0,
            final(out)@ == old(self).release_events(
                old(tools).tools@,
                device,
                time_usec,
                old(out)@,
            ),
            final(tools).tools@ == (match old(self).prox.tool {
                Some(tool) => old(tools).tools@.update(
                    tool as int,
                    tool_left(old(tools).tools@[tool as int]),
                ),
                None => old(tools).tools@,
            }),
    {
        let prox = self.prox;
        if let Some(tool) = prox.tool {
            let released = all_releases(&self.held_buttons);
            self.push_tool_buttons(tools, tool, device, time_usec, &released, out);
            let down = self.tip.down;
            self.say_goodbye(tools, tool, device, time_usec, down, out);
            tools.dismiss(tool);
            self.prox = ProximityState { tool: None, zero_pressure_since: None, ..prox };
            self.held_buttons = Vec::new();
        }
    }
}

} // verus!
