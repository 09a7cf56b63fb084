//! Events, devices and seats as plain values.
//!
//! Quantities that the kernel reports as integers stay integers here.
//! Scaling to millimetres, degrees or acceleration factors is left to the
//! caller, which knows the device's floating-point calibration.
use vstd::prelude::*;
use crate::backend::probe::AxisInfo;
use crate::evtrans::{empty_seat_code_counts, SeatCodeCounts, SEAT_CODES};
use crate::text::letters;

verus! {

#[derive(Clone, Copy, Debug, PartialEq, Eq, Structural)]
pub enum BackendKind {
    Udev,
    Path,
}

#[allow(non_camel_case_types)]
#[derive(Clone, Copy, Debug, PartialEq, Eq, Structural)]
pub enum LibinputEventType {
    LIBINPUT_EVENT_NONE,
    LIBINPUT_EVENT_DEVICE_ADDED,
    LIBINPUT_EVENT_DEVICE_REMOVED,
    LIBINPUT_EVENT_KEYBOARD_KEY,
    LIBINPUT_EVENT_POINTER_MOTION,
    LIBINPUT_EVENT_POINTER_MOTION_ABSOLUTE,
    LIBINPUT_EVENT_POINTER_BUTTON,
    LIBINPUT_EVENT_POINTER_AXIS,
    LIBINPUT_EVENT_POINTER_SCROLL_WHEEL,
    LIBINPUT_EVENT_POINTER_SCROLL_FINGER,
    LIBINPUT_EVENT_POINTER_SCROLL_CONTINUOUS,
    LIBINPUT_EVENT_TOUCH_DOWN,
    LIBINPUT_EVENT_TOUCH_UP,
    LIBINPUT_EVENT_TOUCH_MOTION,
    LIBINPUT_EVENT_TOUCH_CANCEL,
    LIBINPUT_EVENT_TOUCH_FRAME,
    LIBINPUT_EVENT_TABLET_TOOL_AXIS,
    LIBINPUT_EVENT_TABLET_TOOL_PROXIMITY,
    LIBINPUT_EVENT_TABLET_TOOL_TIP,
    LIBINPUT_EVENT_TABLET_TOOL_BUTTON,
    LIBINPUT_EVENT_TABLET_PAD_BUTTON,
    LIBINPUT_EVENT_TABLET_PAD_RING,
    LIBINPUT_EVENT_TABLET_PAD_STRIP,
    LIBINPUT_EVENT_TABLET_PAD_KEY,
    LIBINPUT_EVENT_TABLET_PAD_DIAL,
    LIBINPUT_EVENT_GESTURE_SWIPE_BEGIN,
    LIBINPUT_EVENT_GESTURE_SWIPE_UPDATE,
    LIBINPUT_EVENT_GESTURE_SWIPE_END,
    LIBINPUT_EVENT_GESTURE_PINCH_BEGIN,
    LIBINPUT_EVENT_GESTURE_PINCH_UPDATE,
    LIBINPUT_EVENT_GESTURE_PINCH_END,
    LIBINPUT_EVENT_GESTURE_HOLD_BEGIN,
    LIBINPUT_EVENT_GESTURE_HOLD_END,
    LIBINPUT_EVENT_SWITCH_TOGGLE,
}

/// The number by which the C interface knows an event type.
pub open spec fn event_type_number(event_type: LibinputEventType) -> u32 {
    match event_type {
        LibinputEventType::LIBINPUT_EVENT_NONE => 0,
        LibinputEventType::LIBINPUT_EVENT_DEVICE_ADDED => 1,
        LibinputEventType::LIBINPUT_EVENT_DEVICE_REMOVED => 2,
        LibinputEventType::LIBINPUT_EVENT_KEYBOARD_KEY => 300,
        LibinputEventType::LIBINPUT_EVENT_POINTER_MOTION => 400,
        LibinputEventType::LIBINPUT_EVENT_POINTER_MOTION_ABSOLUTE => 401,
        LibinputEventType::LIBINPUT_EVENT_POINTER_BUTTON => 402,
        LibinputEventType::LIBINPUT_EVENT_POINTER_AXIS => 403,
        LibinputEventType::LIBINPUT_EVENT_POINTER_SCROLL_WHEEL => 404,
        LibinputEventType::LIBINPUT_EVENT_POINTER_SCROLL_FINGER => 405,
        LibinputEventType::LIBINPUT_EVENT_POINTER_SCROLL_CONTINUOUS => 406,
        LibinputEventType::LIBINPUT_EVENT_TOUCH_DOWN => 500,
        LibinputEventType::LIBINPUT_EVENT_TOUCH_UP => 501,
        LibinputEventType::LIBINPUT_EVENT_TOUCH_MOTION => 502,
        LibinputEventType::LIBINPUT_EVENT_TOUCH_CANCEL => 503,
        LibinputEventType::LIBINPUT_EVENT_TOUCH_FRAME => 504,
        LibinputEventType::LIBINPUT_EVENT_TABLET_TOOL_AXIS => 600,
        LibinputEventType::LIBINPUT_EVENT_TABLET_TOOL_PROXIMITY => 601,
        LibinputEventType::LIBINPUT_EVENT_TABLET_TOOL_TIP => 602,
        LibinputEventType::LIBINPUT_EVENT_TABLET_TOOL_BUTTON => 603,
        LibinputEventType::LIBINPUT_EVENT_TABLET_PAD_BUTTON => 700,
        LibinputEventType::LIBINPUT_EVENT_TABLET_PAD_RING => 701,
        LibinputEventType::LIBINPUT_EVENT_TABLET_PAD_STRIP => 702,
        LibinputEventType::LIBINPUT_EVENT_TABLET_PAD_KEY => 703,
        LibinputEventType::LIBINPUT_EVENT_TABLET_PAD_DIAL => 704,
        LibinputEventType::LIBINPUT_EVENT_GESTURE_SWIPE_BEGIN => 800,
        LibinputEventType::LIBINPUT_EVENT_GESTURE_SWIPE_UPDATE => 801,
        LibinputEventType::LIBINPUT_EVENT_GESTURE_SWIPE_END => 802,
        LibinputEventType::LIBINPUT_EVENT_GESTURE_PINCH_BEGIN => 803,
        LibinputEventType::LIBINPUT_EVENT_GESTURE_PINCH_UPDATE => 804,
        LibinputEventType::LIBINPUT_EVENT_GESTURE_PINCH_END => 805,
        LibinputEventType::LIBINPUT_EVENT_GESTURE_HOLD_BEGIN => 806,
        LibinputEventType::LIBINPUT_EVENT_GESTURE_HOLD_END => 807,
        LibinputEventType::LIBINPUT_EVENT_SWITCH_TOGGLE => 900,
    }
}

impl LibinputEventType {
    pub fn number(self) -> (n: u32)
        ensures
            n == event_type_number(self),
    {
        match self {
            LibinputEventType::LIBINPUT_EVENT_NONE => 0,
            LibinputEventType::LIBINPUT_EVENT_DEVICE_ADDED => 1,
            LibinputEventType::LIBINPUT_EVENT_DEVICE_REMOVED => 2,
            LibinputEventType::LIBINPUT_EVENT_KEYBOARD_KEY => 300,
            LibinputEventType::LIBINPUT_EVENT_POINTER_MOTION => 400,
            LibinputEventType::LIBINPUT_EVENT_POINTER_MOTION_ABSOLUTE => 401,
            LibinputEventType::LIBINPUT_EVENT_POINTER_BUTTON => 402,
            LibinputEventType::LIBINPUT_EVENT_POINTER_AXIS => 403,
            LibinputEventType::LIBINPUT_EVENT_POINTER_SCROLL_WHEEL => 404,
            LibinputEventType::LIBINPUT_EVENT_POINTER_SCROLL_FINGER => 405,
            LibinputEventType::LIBINPUT_EVENT_POINTER_SCROLL_CONTINUOUS => 406,
            LibinputEventType::LIBINPUT_EVENT_TOUCH_DOWN => 500,
            LibinputEventType::LIBINPUT_EVENT_TOUCH_UP => 501,
            LibinputEventType::LIBINPUT_EVENT_TOUCH_MOTION => 502,
            LibinputEventType::LIBINPUT_EVENT_TOUCH_CANCEL => 503,
            LibinputEventType::LIBINPUT_EVENT_TOUCH_FRAME => 504,
            LibinputEventType::LIBINPUT_EVENT_TABLET_TOOL_AXIS => 600,
            LibinputEventType::LIBINPUT_EVENT_TABLET_TOOL_PROXIMITY => 601,
            LibinputEventType::LIBINPUT_EVENT_TABLET_TOOL_TIP => 602,
            LibinputEventType::LIBINPUT_EVENT_TABLET_TOOL_BUTTON => 603,
            LibinputEventType::LIBINPUT_EVENT_TABLET_PAD_BUTTON => 700,
            LibinputEventType::LIBINPUT_EVENT_TABLET_PAD_RING => 701,
            LibinputEventType::LIBINPUT_EVENT_TABLET_PAD_STRIP => 702,
            LibinputEventType::LIBINPUT_EVENT_TABLET_PAD_KEY => 703,
            LibinputEventType::LIBINPUT_EVENT_TABLET_PAD_DIAL => 704,
            LibinputEventType::LIBINPUT_EVENT_GESTURE_SWIPE_BEGIN => 800,
            LibinputEventType::LIBINPUT_EVENT_GESTURE_SWIPE_UPDATE => 801,
            LibinputEventType::LIBINPUT_EVENT_GESTURE_SWIPE_END => 802,
            LibinputEventType::LIBINPUT_EVENT_GESTURE_PINCH_BEGIN => 803,
            LibinputEventType::LIBINPUT_EVENT_GESTURE_PINCH_UPDATE => 804,
            LibinputEventType::LIBINPUT_EVENT_GESTURE_PINCH_END => 805,
            LibinputEventType::LIBINPUT_EVENT_GESTURE_HOLD_BEGIN => 806,
            LibinputEventType::LIBINPUT_EVENT_GESTURE_HOLD_END => 807,
            LibinputEventType::LIBINPUT_EVENT_SWITCH_TOGGLE => 900,
        }
    }
}

/// How the four distances of a motion event are to be read.
#[derive(Clone, Copy, Debug, PartialEq, Eq, Structural)]
pub enum MotionUnits {
    /// All four are final.
    Device,
    /// All four are touchpad units, still to be scaled.
    TouchpadDrag,
    /// `dx` and `dy` are final; the unaccelerated pair is in touchpad units.
    TouchpadFiltered,
}

#[derive(Clone, Copy, Debug, PartialEq, Eq, Structural)]
pub struct PointerMotionEvent {
    pub time_usec: u64,
    pub dx: i64,
    pub dy: i64,
    pub dx_unaccel: i64,
    pub dy_unaccel: i64,
    pub units: MotionUnits,
}

#[derive(Clone, Copy, Debug, PartialEq, Eq, Structural)]
pub struct PointerMotionAbsoluteEvent {
    pub time_usec: u64,
    pub abs_x: i32,
    pub abs_y: i32,
    pub x_min: i32,
    pub x_max: i32,
    pub y_min: i32,
    pub y_max: i32,
}

/// A button press or release. The seat-wide count is filled in when the
/// event is queued.
#[derive(Clone, Copy, Debug, PartialEq, Eq, Structural)]
pub struct PointerButtonEvent {
    pub time_usec: u64,
    pub button: u32,
    pub state: u32,
    pub seat_button_count: u32,
}

/// Wheel scrolling.
pub const AXIS_SOURCE_WHEEL: u32 = 1;

/// Two-finger scrolling on a touchpad.
pub const AXIS_SOURCE_FINGER: u32 = 2;

/// Scrolling by moving the pointer while a button is held.
pub const AXIS_SOURCE_CONTINUOUS: u32 = 3;

/// Vertical scrolling is axis 0, horizontal scrolling axis 1. `value` is the
/// distance for finger and continuous scrolling. For wheels it is 0: there
/// the distance is `value_v120 / 120` clicks times the wheel's click angle.
#[derive(Clone, Copy, Debug, PartialEq, Eq, Structural)]
pub struct PointerAxisEvent {
    pub time_usec: u64,
    pub axis: u32,
    pub value: i64,
    pub value_discrete: i32,
    pub value_v120: i64,
    pub source: u32,
}

/// A key press, release or repeat. The seat-wide count is filled in when the
/// event is queued.
#[derive(Clone, Copy, Debug, PartialEq, Eq, Structural)]
pub struct KeyboardKeyEvent {
    pub time_usec: u64,
    pub key: u32,
    pub state: u32,
    pub seat_key_count: u32,
}

#[derive(Clone, Copy, Debug, PartialEq, Eq, Structural)]
pub struct TouchEvent {
    pub time_usec: u64,
    pub slot: i32,
    pub seat_slot: i32,
    pub x: i32,
    pub y: i32,
}

/// The vector from the first active contact to the second.
#[derive(Clone, Copy, Debug, PartialEq, Eq, Structural)]
pub struct Span {
    pub dx: i64,
    pub dy: i64,
}

/// What scale and angle of a pinch are measured from: the span when the
/// fingers came down, and the span now, if two contacts are still tracked.
#[derive(Clone, Copy, Debug, PartialEq, Eq, Structural)]
pub struct PinchGeometry {
    pub base: Span,
    pub span: Option<Span>,
}

/// Gesture distances are in touchpad units. Without a `pinch` geometry the
/// scale is 1 and the angle 0.
#[derive(Clone, Copy, Debug, PartialEq, Eq, Structural)]
pub struct GestureEvent {
    pub time_usec: u64,
    pub finger_count: i32,
    pub dx: i32,
    pub dy: i32,
    pub pinch: Option<PinchGeometry>,
    pub cancelled: bool,
}

#[derive(Clone, Copy, Debug, PartialEq, Eq, Structural)]
pub struct SwitchEvent {
    pub time_usec: u64,
    pub switch: u32,
    pub state: u32,
}

/// The axes of a tablet tool, in device units.
#[derive(Clone, Copy, Debug, PartialEq, Eq, Structural)]
pub struct TabletAxes {
    pub x: i32,
    pub y: i32,
    pub pressure: i32,
    pub distance: i32,
    pub tilt_x: i32,
    pub tilt_y: i32,
    pub rotation: i32,
    pub slider: i32,
    pub size_major: i32,
    pub size_minor: i32,
}

/// Which axes of a tablet tool changed since its last event. Of `x` and `y` it
/// is the calibrated coordinates that count.
#[derive(Clone, Copy, Debug, PartialEq, Eq, Structural)]
pub struct AxisChanges {
    pub x: bool,
    pub y: bool,
    pub pressure: bool,
    pub distance: bool,
    pub tilt_x: bool,
    pub tilt_y: bool,
    pub rotation: bool,
    pub slider: bool,
    pub size_major: bool,
    pub size_minor: bool,
    pub wheel: bool,
}

/// Which axes of a tablet each coordinate of its tools is made of, once they
/// are calibrated.
#[derive(Clone, Copy, Debug, PartialEq, Eq, Structural)]
pub struct AxisMix {
    pub x_from_x: bool,
    pub x_from_y: bool,
    pub y_from_x: bool,
    pub y_from_y: bool,
}

impl AxisMix {
    /// Every coordinate is made of its own axis.
    pub open spec fn is_plain(self) -> bool {
        self.x_from_x && !self.x_from_y && !self.y_from_x && self.y_from_y
    }

    pub fn plain() -> (mix: AxisMix)
        ensures
            mix.is_plain(),
    {
        AxisMix { x_from_x: true, x_from_y: false, y_from_x: false, y_from_y: true }
    }

    /// Whether a coordinate changed when these axes did.
    pub open spec fn x_moves(self, x: bool, y: bool) -> bool {
        (self.x_from_x && x) || (self.x_from_y && y)
    }

    pub open spec fn y_moves(self, x: bool, y: bool) -> bool {
        (self.y_from_x && x) || (self.y_from_y && y)
    }
}

/// A tablet tool event. `tool` is the tool's place in the context's list.
/// `previous` holds the axes of the event before, `left_handed` says that
/// coordinates are to be mirrored. The distance counts only while
/// `pressure <= pressure_min`.
#[derive(Clone, Copy, Debug, PartialEq, Eq, Structural)]
pub struct TabletToolEvent {
    pub time_usec: u64,
    pub tool: usize,
    pub tool_type: u32,
    pub proximity_state: u32,
    pub axes: TabletAxes,
    pub previous: TabletAxes,
    pub changed: AxisChanges,
    pub left_handed: bool,
    pub pressure_min: i64,
    pub pressure_max: i64,
    pub wheel_discrete: i32,
    pub tip_state: u32,
    pub button: u32,
    pub button_state: u32,
    pub seat_button_count: u32,
}

/// The raw reading behind a ring or strip position. `lifted` means that the
/// finger left it.
#[derive(Clone, Copy, Debug, PartialEq, Eq)]
pub struct PadReading {
    pub value: i32,
    pub range: Option<(i32, i32)>,
    pub lifted: bool,
    pub left_handed: bool,
}

/// A tablet pad event. `mode_group` is the group's place in the device's
/// list.
#[derive(Clone, Copy, Debug, PartialEq, Eq)]
pub struct TabletPadEvent {
    pub time_usec: u64,
    pub button: u32,
    pub button_state: u32,
    pub key: u32,
    pub key_state: u32,
    pub dial_delta_v120: i64,
    pub dial_number: u32,
    pub mode: u32,
    pub mode_group: Option<usize>,
    pub ring_number: u32,
    pub ring: Option<PadReading>,
    pub ring_source: u32,
    pub strip_number: u32,
    pub strip: Option<PadReading>,
    pub strip_source: u32,
}

#[derive(Clone, Copy, Debug, PartialEq, Eq)]
pub enum EventPayload {
    PointerMotion(PointerMotionEvent),
    PointerMotionAbsolute(PointerMotionAbsoluteEvent),
    PointerButton(PointerButtonEvent),
    PointerAxis(PointerAxisEvent),
    KeyboardKey(KeyboardKeyEvent),
    TouchDown(TouchEvent),
    TouchUp(TouchEvent),
    TouchMotion(TouchEvent),
    TouchCancel(TouchEvent),
    TouchFrame { time_usec: u64 },
    GestureSwipeBegin(GestureEvent),
    GestureSwipeUpdate(GestureEvent),
    GestureSwipeEnd(GestureEvent),
    GesturePinchBegin(GestureEvent),
    GesturePinchUpdate(GestureEvent),
    GesturePinchEnd(GestureEvent),
    GestureHoldBegin(GestureEvent),
    GestureHoldEnd(GestureEvent),
    SwitchToggle(SwitchEvent),
    TabletTool(TabletToolEvent),
    TabletPad(TabletPadEvent),
    DeviceAdded,
    DeviceRemoved,
}

/// Names a device for as long as its context lives.
pub type DeviceId = u64;

/// One event, addressed to the device that it is reported for.
#[derive(Clone, Copy, Debug, PartialEq, Eq)]
pub struct LibinputEvent {
    pub event_type: LibinputEventType,
    pub payload: EventPayload,
    pub device: DeviceId,
}

/// A tablet pad's mode group: the controls that switch mode together.
#[derive(Clone, Copy, Debug, PartialEq, Eq, Structural)]
pub struct LibinputTabletPadModeGroup {
    pub refcount: i32,
    pub user_data: usize,
    pub index: u32,
    pub num_modes: u32,
    pub current_mode: u32,
    pub button_mask: u32,
    pub dial_mask: u32,
    pub ring_mask: u32,
    pub strip_mask: u32,
    pub toggle_button_mask: u32,
}

/// A seat: devices that are used together. It counts how many of its devices
/// hold each button and each key down.
pub struct LibinputSeat {
    pub physical_name: String,
    pub logical_name: String,
    pub refcount: i32,
    pub user_data: usize,
    pub button_counts: SeatCodeCounts,
    pub key_counts: SeatCodeCounts,
}

impl LibinputSeat {
    /// Whether this is a seat of that name on which nothing is held yet.
    pub open spec fn is_new(self, physical_name: Seq<char>, logical_name: Seq<char>) -> bool {
        &&& self.physical_name@ == physical_name
        &&& self.logical_name@ == logical_name
        &&& self.refcount == 1
        &&& self.user_data == 0
        &&& self.button_counts@ == Seq::new(SEAT_CODES as nat, |i: int| 0u32)
        &&& self.key_counts@ == Seq::new(SEAT_CODES as nat, |i: int| 0u32)
    }

    pub fn new(physical_name: String, logical_name: String) -> (s: LibinputSeat)
        ensures
            s.is_new(physical_name@, logical_name@),
    {
        LibinputSeat {
            physical_name,
            logical_name,
            refcount: 1,
            user_data: 0,
            button_counts: empty_seat_code_counts(),
            key_counts: empty_seat_code_counts(),
        }
    }
}

/// Devices that belong to one piece of hardware.
#[derive(Clone, Copy, Debug, PartialEq, Eq, Structural)]
pub struct LibinputDeviceGroup {
    pub refcount: i32,
    pub user_data: usize,
}

impl LibinputDeviceGroup {
    pub fn new() -> (g: LibinputDeviceGroup)
        ensures
            g == (LibinputDeviceGroup { refcount: 1, user_data: 0 }),
    {
        LibinputDeviceGroup { refcount: 1, user_data: 0 }
    }
}

/// A device as clients see it: its identity, its capabilities and its
/// configuration. `seat` and `group` are the places of
/// its seat and its group in the context's lists.
pub struct LibinputDevice {
    pub id: DeviceId,
    pub name: String,
    pub sysname: String,
    pub devnode: String,
    pub output_name: Option<String>,
    /// The name under which udev groups devices that belong together.
    pub udev_group: Option<String>,
    pub vendor_id: u32,
    pub product_id: u32,
    pub bus_type: u32,
    pub has_keyboard: bool,
    pub has_pointer: bool,
    pub has_touch: bool,
    pub has_gesture: bool,
    pub has_switch: bool,
    pub has_tablet: bool,
    pub has_tablet_pad: bool,
    pub accel_available: bool,
    pub supports_button_scroll: bool,
    pub event_codes: Vec<u16>,
    pub switch_codes: Vec<u16>,
    pub touch_count: i32,
    pub mt_slot_count: i32,
    pub abs_x_range: Option<(i32, i32)>,
    pub abs_y_range: Option<(i32, i32)>,
    pub abs_x_resolution: Option<i32>,
    pub abs_y_resolution: Option<i32>,
    /// All absolute axes as the kernel describes them.
    pub axes: Vec<AxisInfo>,
    pub send_events_modes: u32,
    pub send_events_mode: u32,
    pub tap_finger_count: i32,
    pub tap_enabled: bool,
    pub tap_default_enabled: bool,
    pub tap_drag_enabled: bool,
    pub tap_drag_lock_enabled: u32,
    pub tap_button_map: u32,
    pub drag_3fg_enabled: u32,
    pub natural_scroll: bool,
    pub accel_profile: u32,
    pub left_handed_available: bool,
    pub left_handed: bool,
    pub scroll_methods: u32,
    pub scroll_method: u32,
    pub scroll_default_method: u32,
    pub scroll_button: u32,
    pub scroll_default_button: u32,
    pub scroll_button_lock: u32,
    pub click_methods: u32,
    pub click_method: u32,
    pub click_default_method: u32,
    pub clickfinger_button_map: u32,
    pub clickfinger_default_button_map: u32,
    pub middle_emulation_available: bool,
    pub middle_emulation: bool,
    pub middle_emulation_default: bool,
    pub dwt_available: bool,
    pub dwt_enabled: bool,
    pub dwt_timeout: u32,
    pub dwtp_available: bool,
    pub dwtp_enabled: bool,
    pub dwtp_timeout: u32,
    pub calibration_available: bool,
    pub area_available: bool,
    pub rotation_available: bool,
    pub rotation_angle: u32,
    pub tablet_in_proximity: bool,
    pub tablet_current: Option<TabletToolEvent>,
    pub tablet_pad_button_codes: Vec<u16>,
    pub tablet_pad_num_dials: u32,
    pub tablet_pad_num_rings: u32,
    pub tablet_pad_num_strips: u32,
    pub tablet_pad_mode_groups: Vec<LibinputTabletPadModeGroup>,
    pub refcount: i32,
    pub user_data: usize,
    pub seat: usize,
    pub group: usize,
}

/// A text as clients can read it: one that holds a zero character is replaced.
pub open spec fn text_or(text: Seq<char>, otherwise: Seq<char>) -> Seq<char> {
    if text.contains('\0') {
        otherwise
    } else {
        text
    }
}

pub fn usable_text(text: &str, otherwise: &str) -> (out: String)
    ensures
        out@ == text_or(text@, otherwise@),
{
    let chars = letters(text);
    let mut i: usize = 0;
    while i < chars.len()
        invariant
            i <= chars.len(),
            chars@ == text@,
            forall|j: int| 0 <= j < i ==> #[trigger] text@[j] != '\0',
        decreases chars.len() - i,
    {
        if chars[i] == '\0' {
            assert(text@[i as int] == '\0');
            return otherwise.to_owned();
        }
        i += 1;
    }
    text.to_owned()
}

impl LibinputDevice {
    /// Whether nothing but its names is known of a device.
    #[verifier::opaque]
    pub open spec fn is_new(
        self,
        id: DeviceId,
        name: Seq<char>,
        devnode: Seq<char>,
        seat: usize,
        group: usize,
    ) -> bool {
        &&& self.name@ == text_or(name, "Unknown"@)
        &&& self.sysname@.len() == 0
        &&& self.axes@.len() == 0
        &&& self.devnode@ == text_or(devnode, ""@)
        &&& self.event_codes@.len() == 0
        &&& self.switch_codes@.len() == 0
        &&& self.tablet_pad_button_codes@.len() == 0
        &&& self.tablet_pad_mode_groups@.len() == 0
        &&& self == (LibinputDevice {
            id,
            name: self.name,
            sysname: self.sysname,
            devnode: self.devnode,
            output_name: None,
            udev_group: None,
            vendor_id: 0,
            product_id: 0,
            bus_type: 0,
            has_keyboard: false,
            has_pointer: false,
            has_touch: false,
            has_gesture: false,
            has_switch: false,
            has_tablet: false,
            has_tablet_pad: false,
            accel_available: false,
            supports_button_scroll: false,
            event_codes: self.event_codes,
            switch_codes: self.switch_codes,
            touch_count: 0,
            mt_slot_count: 0,
            abs_x_range: None,
            abs_y_range: None,
            abs_x_resolution: None,
            abs_y_resolution: None,
            axes: self.axes,
            send_events_modes: 1,
            send_events_mode: 0,
            tap_finger_count: 0,
            tap_enabled: false,
            tap_default_enabled: false,
            tap_drag_enabled: false,
            tap_drag_lock_enabled: 0,
            tap_button_map: 0,
            drag_3fg_enabled: 0,
            natural_scroll: false,
            accel_profile: 2,
            left_handed_available: false,
            left_handed: false,
            scroll_methods: 0,
            scroll_method: 2,
            scroll_default_method: 2,
            scroll_button: 0,
            scroll_default_button: 0,
            scroll_button_lock: 0,
            click_methods: 0,
            click_method: 1,
            click_default_method: 1,
            clickfinger_button_map: 0,
            clickfinger_default_button_map: 0,
            middle_emulation_available: false,
            middle_emulation: false,
            middle_emulation_default: false,
            dwt_available: false,
            dwt_enabled: true,
            dwt_timeout: 500,
            dwtp_available: false,
            dwtp_enabled: true,
            dwtp_timeout: 300,
            calibration_available: false,
            area_available: false,
            rotation_available: false,
            rotation_angle: 0,
            tablet_in_proximity: false,
            tablet_current: None,
            tablet_pad_button_codes: self.tablet_pad_button_codes,
            tablet_pad_num_dials: 0,
            tablet_pad_num_rings: 0,
            tablet_pad_num_strips: 0,
            tablet_pad_mode_groups: self.tablet_pad_mode_groups,
            refcount: 1,
            user_data: 0,
            seat,
            group,
        })
    }

    /// A device of which nothing but its names is known yet.
    pub fn new(id: DeviceId, name: &str, devnode: &str, seat: usize, group: usize) -> (d:
        LibinputDevice)
        ensures
            d.id == id,
            d.seat == seat,
            d.group == group,
            d.refcount == 1,
            d.is_new(id, name@, devnode@, seat, group),
    {
        reveal(LibinputDevice::is_new);
        LibinputDevice {
            id,
            name: usable_text(name, "Unknown"),
            sysname: String::new(),
            devnode: usable_text(devnode, ""),
            output_name: None,
            udev_group: None,
            vendor_id: 0,
            product_id: 0,
            bus_type: 0,
            has_keyboard: false,
            has_pointer: false,
            has_touch: false,
            has_gesture: false,
            has_switch: false,
            has_tablet: false,
            has_tablet_pad: false,
            accel_available: false,
            supports_button_scroll: false,
            event_codes: Vec::new(),
            switch_codes: Vec::new(),
            touch_count: 0,
            mt_slot_count: 0,
            abs_x_range: None,
            abs_y_range: None,
            abs_x_resolution: None,
            abs_y_resolution: None,
            axes: Vec::new(),
            send_events_modes: 1,
            send_events_mode: 0,
            tap_finger_count: 0,
            tap_enabled: false,
            tap_default_enabled: false,
            tap_drag_enabled: false,
            tap_drag_lock_enabled: 0,
            tap_button_map: 0,
            drag_3fg_enabled: 0,
            natural_scroll: false,
            accel_profile: 2,
            left_handed_available: false,
            left_handed: false,
            scroll_methods: 0,
            scroll_method: 2,
            scroll_default_method: 2,
            scroll_button: 0,
            scroll_default_button: 0,
            scroll_button_lock: 0,
            click_methods: 0,
            click_method: 1,
            click_default_method: 1,
            clickfinger_button_map: 0,
            clickfinger_default_button_map: 0,
            middle_emulation_available: false,
            middle_emulation: false,
            middle_emulation_default: false,
            dwt_available: false,
            dwt_enabled: true,
            dwt_timeout: 500,
            dwtp_available: false,
            dwtp_enabled: true,
            dwtp_timeout: 300,
            calibration_available: false,
            area_available: false,
            rotation_available: false,
            rotation_angle: 0,
            tablet_in_proximity: false,
            tablet_current: None,
            tablet_pad_button_codes: Vec::new(),
            tablet_pad_num_dials: 0,
            tablet_pad_num_rings: 0,
            tablet_pad_num_strips: 0,
            tablet_pad_mode_groups: Vec::new(),
            refcount: 1,
            user_data: 0,
            seat,
            group,
        }
    }
}

} // verus!
