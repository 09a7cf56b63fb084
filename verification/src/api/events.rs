//! What clients read off an event.
//!
//! An event that is not of the kind asked for reads as zero, or as nothing.
use vstd::prelude::*;
use crate::ffi_types::{
    DeviceId, EventPayload, GestureEvent, KeyboardKeyEvent, LibinputEvent, LibinputEventType,
    PointerAxisEvent, PointerButtonEvent, SwitchEvent, TabletPadEvent, TabletToolEvent, TouchEvent,
};

verus! {

pub open spec fn flag_spec(b: bool) -> i32 {
    if b {
        1
    } else {
        0
    }
}

pub fn flag(b: bool) -> (n: i32)
    ensures
        n == flag_spec(b),
{
    if b {
        1
    } else {
        0
    }
}

/// Microseconds as milliseconds, on a clock that starts again after 2^32 of
/// them.
pub open spec fn millis_spec(time_usec: u64) -> u32 {
    (time_usec as int / 1000 % 0x1_0000_0000) as u32
}

pub fn millis(time_usec: u64) -> (ms: u32)
    ensures
        ms == millis_spec(time_usec),
{
    (time_usec / 1000 % 0x1_0000_0000) as u32
}

// ---------------------------------------------------------------------------
// Any event
// ---------------------------------------------------------------------------
pub fn libinput_event_get_type(event: Option<&LibinputEvent>) -> (event_type: LibinputEventType)
    ensures
        event_type == (match event {
            Some(e) => e.event_type,
            None => LibinputEventType::LIBINPUT_EVENT_NONE,
        }),
{
    match event {
        Some(e) => e.event_type,
        None => LibinputEventType::LIBINPUT_EVENT_NONE,
    }
}

pub fn libinput_event_get_device(event: Option<&LibinputEvent>) -> (device: Option<DeviceId>)
    ensures
        device == (match event {
            Some(e) => Some(e.device),
            None => None,
        }),
{
    match event {
        Some(e) => Some(e.device),
        None => None,
    }
}

/// Whether an event is that of a device that came or went.
pub open spec fn is_device_notify(e: LibinputEvent) -> bool {
    e.event_type == LibinputEventType::LIBINPUT_EVENT_DEVICE_ADDED
        || e.event_type == LibinputEventType::LIBINPUT_EVENT_DEVICE_REMOVED
}

/// The event, if it is that of a device that came or went.
pub fn libinput_event_get_device_notify_event<'a>(event: Option<&'a LibinputEvent>) -> (r: Option<
    &'a LibinputEvent,
>)
    ensures
        r == (match event {
            Some(e) => if is_device_notify(*e) {
                event
            } else {
                None
            },
            None => None,
        }),
{
    match event {
        Some(e) => if e.event_type == LibinputEventType::LIBINPUT_EVENT_DEVICE_ADDED
            || e.event_type == LibinputEventType::LIBINPUT_EVENT_DEVICE_REMOVED {
            event
        } else {
            None
        },
        None => None,
    }
}

pub fn libinput_event_device_notify_get_base_event<'a>(event: Option<&'a LibinputEvent>) -> (r: Option<
    &'a LibinputEvent,
>)
    ensures
        r == event,
{
    event
}

/// Whether an event is that of a pointer.
pub open spec fn is_pointer(e: LibinputEvent) -> bool {
    e.event_type == LibinputEventType::LIBINPUT_EVENT_POINTER_MOTION
        || e.event_type == LibinputEventType::LIBINPUT_EVENT_POINTER_MOTION_ABSOLUTE
        || e.event_type == LibinputEventType::LIBINPUT_EVENT_POINTER_BUTTON
        || e.event_type == LibinputEventType::LIBINPUT_EVENT_POINTER_AXIS
        || e.event_type == LibinputEventType::LIBINPUT_EVENT_POINTER_SCROLL_WHEEL
        || e.event_type == LibinputEventType::LIBINPUT_EVENT_POINTER_SCROLL_FINGER
        || e.event_type == LibinputEventType::LIBINPUT_EVENT_POINTER_SCROLL_CONTINUOUS
}

/// The event, if it is that of a pointer.
pub fn libinput_event_get_pointer_event<'a>(event: Option<&'a LibinputEvent>) -> (r: Option<
    &'a LibinputEvent,
>)
    ensures
        r == (match event {
            Some(e) => if is_pointer(*e) {
                event
            } else {
                None
            },
            None => None,
        }),
{
    match event {
        Some(e) => if e.event_type == LibinputEventType::LIBINPUT_EVENT_POINTER_MOTION
            || e.event_type == LibinputEventType::LIBINPUT_EVENT_POINTER_MOTION_ABSOLUTE
            || e.event_type == LibinputEventType::LIBINPUT_EVENT_POINTER_BUTTON
            || e.event_type == LibinputEventType::LIBINPUT_EVENT_POINTER_AXIS
            || e.event_type == LibinputEventType::LIBINPUT_EVENT_POINTER_SCROLL_WHEEL
            || e.event_type == LibinputEventType::LIBINPUT_EVENT_POINTER_SCROLL_FINGER
            || e.event_type == LibinputEventType::LIBINPUT_EVENT_POINTER_SCROLL_CONTINUOUS {
            event
        } else {
            None
        },
        None => None,
    }
}

pub fn libinput_event_pointer_get_base_event<'a>(event: Option<&'a LibinputEvent>) -> (r: Option<
    &'a LibinputEvent,
>)
    ensures
        r == event,
{
    event
}

/// Whether an event is that of a keyboard.
pub open spec fn is_keyboard(e: LibinputEvent) -> bool {
    e.event_type == LibinputEventType::LIBINPUT_EVENT_KEYBOARD_KEY
}

/// The event, if it is that of a keyboard.
pub fn libinput_event_get_keyboard_event<'a>(event: Option<&'a LibinputEvent>) -> (r: Option<
    &'a LibinputEvent,
>)
    ensures
        r == (match event {
            Some(e) => if is_keyboard(*e) {
                event
            } else {
                None
            },
            None => None,
        }),
{
    match event {
        Some(e) => if e.event_type == LibinputEventType::LIBINPUT_EVENT_KEYBOARD_KEY {
            event
        } else {
            None
        },
        None => None,
    }
}

pub fn libinput_event_keyboard_get_base_event<'a>(event: Option<&'a LibinputEvent>) -> (r: Option<
    &'a LibinputEvent,
>)
    ensures
        r == event,
{
    event
}

/// Whether an event is that of a touchscreen.
pub open spec fn is_touch(e: LibinputEvent) -> bool {
    e.event_type == LibinputEventType::LIBINPUT_EVENT_TOUCH_DOWN
        || e.event_type == LibinputEventType::LIBINPUT_EVENT_TOUCH_UP
        || e.event_type == LibinputEventType::LIBINPUT_EVENT_TOUCH_MOTION
        || e.event_type == LibinputEventType::LIBINPUT_EVENT_TOUCH_CANCEL
        || e.event_type == LibinputEventType::LIBINPUT_EVENT_TOUCH_FRAME
}

/// The event, if it is that of a touchscreen.
pub fn libinput_event_get_touch_event<'a>(event: Option<&'a LibinputEvent>) -> (r: Option<
    &'a LibinputEvent,
>)
    ensures
        r == (match event {
            Some(e) => if is_touch(*e) {
                event
            } else {
                None
            },
            None => None,
        }),
{
    match event {
        Some(e) => if e.event_type == LibinputEventType::LIBINPUT_EVENT_TOUCH_DOWN
            || e.event_type == LibinputEventType::LIBINPUT_EVENT_TOUCH_UP
            || e.event_type == LibinputEventType::LIBINPUT_EVENT_TOUCH_MOTION
            || e.event_type == LibinputEventType::LIBINPUT_EVENT_TOUCH_CANCEL
            || e.event_type == LibinputEventType::LIBINPUT_EVENT_TOUCH_FRAME {
            event
        } else {
            None
        },
        None => None,
    }
}

pub fn libinput_event_touch_get_base_event<'a>(event: Option<&'a LibinputEvent>) -> (r: Option<
    &'a LibinputEvent,
>)
    ensures
        r == event,
{
    event
}

/// Whether an event is that of a gesture.
pub open spec fn is_gesture(e: LibinputEvent) -> bool {
    e.event_type == LibinputEventType::LIBINPUT_EVENT_GESTURE_SWIPE_BEGIN
        || e.event_type == LibinputEventType::LIBINPUT_EVENT_GESTURE_SWIPE_UPDATE
        || e.event_type == LibinputEventType::LIBINPUT_EVENT_GESTURE_SWIPE_END
        || e.event_type == LibinputEventType::LIBINPUT_EVENT_GESTURE_PINCH_BEGIN
        || e.event_type == LibinputEventType::LIBINPUT_EVENT_GESTURE_PINCH_UPDATE
        || e.event_type == LibinputEventType::LIBINPUT_EVENT_GESTURE_PINCH_END
        || e.event_type == LibinputEventType::LIBINPUT_EVENT_GESTURE_HOLD_BEGIN
        || e.event_type == LibinputEventType::LIBINPUT_EVENT_GESTURE_HOLD_END
}

/// The event, if it is that of a gesture.
pub fn libinput_event_get_gesture_event<'a>(event: Option<&'a LibinputEvent>) -> (r: Option<
    &'a LibinputEvent,
>)
    ensures
        r == (match event {
            Some(e) => if is_gesture(*e) {
                event
            } else {
                None
            },
            None => None,
        }),
{
    match event {
        Some(e) => if e.event_type == LibinputEventType::LIBINPUT_EVENT_GESTURE_SWIPE_BEGIN
            || e.event_type == LibinputEventType::LIBINPUT_EVENT_GESTURE_SWIPE_UPDATE
            || e.event_type == LibinputEventType::LIBINPUT_EVENT_GESTURE_SWIPE_END
            || e.event_type == LibinputEventType::LIBINPUT_EVENT_GESTURE_PINCH_BEGIN
            || e.event_type == LibinputEventType::LIBINPUT_EVENT_GESTURE_PINCH_UPDATE
            || e.event_type == LibinputEventType::LIBINPUT_EVENT_GESTURE_PINCH_END
            || e.event_type == LibinputEventType::LIBINPUT_EVENT_GESTURE_HOLD_BEGIN
            || e.event_type == LibinputEventType::LIBINPUT_EVENT_GESTURE_HOLD_END {
            event
        } else {
            None
        },
        None => None,
    }
}

pub fn libinput_event_gesture_get_base_event<'a>(event: Option<&'a LibinputEvent>) -> (r: Option<
    &'a LibinputEvent,
>)
    ensures
        r == event,
{
    event
}

/// Whether an event is that of a switch.
pub open spec fn is_switch(e: LibinputEvent) -> bool {
    e.event_type == LibinputEventType::LIBINPUT_EVENT_SWITCH_TOGGLE
}

/// The event, if it is that of a switch.
pub fn libinput_event_get_switch_event<'a>(event: Option<&'a LibinputEvent>) -> (r: Option<
    &'a LibinputEvent,
>)
    ensures
        r == (match event {
            Some(e) => if is_switch(*e) {
                event
            } else {
                None
            },
            None => None,
        }),
{
    match event {
        Some(e) => if e.event_type == LibinputEventType::LIBINPUT_EVENT_SWITCH_TOGGLE {
            event
        } else {
            None
        },
        None => None,
    }
}

pub fn libinput_event_switch_get_base_event<'a>(event: Option<&'a LibinputEvent>) -> (r: Option<
    &'a LibinputEvent,
>)
    ensures
        r == event,
{
    event
}

/// Whether an event is that of a tablet tool.
pub open spec fn is_tablet_tool(e: LibinputEvent) -> bool {
    e.event_type == LibinputEventType::LIBINPUT_EVENT_TABLET_TOOL_AXIS
        || e.event_type == LibinputEventType::LIBINPUT_EVENT_TABLET_TOOL_PROXIMITY
        || e.event_type == LibinputEventType::LIBINPUT_EVENT_TABLET_TOOL_TIP
        || e.event_type == LibinputEventType::LIBINPUT_EVENT_TABLET_TOOL_BUTTON
}

/// The event, if it is that of a tablet tool.
pub fn libinput_event_get_tablet_tool_event<'a>(event: Option<&'a LibinputEvent>) -> (r: Option<
    &'a LibinputEvent,
>)
    ensures
        r == (match event {
            Some(e) => if is_tablet_tool(*e) {
                event
            } else {
                None
            },
            None => None,
        }),
{
    match event {
        Some(e) => if e.event_type == LibinputEventType::LIBINPUT_EVENT_TABLET_TOOL_AXIS
            || e.event_type == LibinputEventType::LIBINPUT_EVENT_TABLET_TOOL_PROXIMITY
            || e.event_type == LibinputEventType::LIBINPUT_EVENT_TABLET_TOOL_TIP
            || e.event_type == LibinputEventType::LIBINPUT_EVENT_TABLET_TOOL_BUTTON {
            event
        } else {
            None
        },
        None => None,
    }
}

pub fn libinput_event_tablet_tool_get_base_event<'a>(event: Option<&'a LibinputEvent>) -> (r: Option<
    &'a LibinputEvent,
>)
    ensures
        r == event,
{
    event
}

/// Whether an event is that of a tablet pad.
pub open spec fn is_tablet_pad(e: LibinputEvent) -> bool {
    e.event_type == LibinputEventType::LIBINPUT_EVENT_TABLET_PAD_BUTTON
        || e.event_type == LibinputEventType::LIBINPUT_EVENT_TABLET_PAD_RING
        || e.event_type == LibinputEventType::LIBINPUT_EVENT_TABLET_PAD_STRIP
        || e.event_type == LibinputEventType::LIBINPUT_EVENT_TABLET_PAD_KEY
        || e.event_type == LibinputEventType::LIBINPUT_EVENT_TABLET_PAD_DIAL
}

/// The event, if it is that of a tablet pad.
pub fn libinput_event_get_tablet_pad_event<'a>(event: Option<&'a LibinputEvent>) -> (r: Option<
    &'a LibinputEvent,
>)
    ensures
        r == (match event {
            Some(e) => if is_tablet_pad(*e) {
                event
            } else {
                None
            },
            None => None,
        }),
{
    match event {
        Some(e) => if e.event_type == LibinputEventType::LIBINPUT_EVENT_TABLET_PAD_BUTTON
            || e.event_type == LibinputEventType::LIBINPUT_EVENT_TABLET_PAD_RING
            || e.event_type == LibinputEventType::LIBINPUT_EVENT_TABLET_PAD_STRIP
            || e.event_type == LibinputEventType::LIBINPUT_EVENT_TABLET_PAD_KEY
            || e.event_type == LibinputEventType::LIBINPUT_EVENT_TABLET_PAD_DIAL {
            event
        } else {
            None
        },
        None => None,
    }
}

pub fn libinput_event_tablet_pad_get_base_event<'a>(event: Option<&'a LibinputEvent>) -> (r: Option<
    &'a LibinputEvent,
>)
    ensures
        r == event,
{
    event
}

// ---------------------------------------------------------------------------
// What an event holds
// ---------------------------------------------------------------------------
/// What a button event holds.
pub open spec fn button_of(event: Option<&LibinputEvent>) -> Option<PointerButtonEvent> {
    match event {
        Some(e) => match e.payload {
            EventPayload::PointerButton(x) => Some(x),
            _ => None,
        },
        None => None,
    }
}

fn button_in(event: Option<&LibinputEvent>) -> (held: Option<PointerButtonEvent>)
    ensures
        held == button_of(event),
{
    match event {
        Some(e) => match e.payload {
            EventPayload::PointerButton(x) => Some(x),
            _ => None,
        },
        None => None,
    }
}

/// What a scroll event holds.
pub open spec fn axis_of(event: Option<&LibinputEvent>) -> Option<PointerAxisEvent> {
    match event {
        Some(e) => match e.payload {
            EventPayload::PointerAxis(x) => Some(x),
            _ => None,
        },
        None => None,
    }
}

fn axis_in(event: Option<&LibinputEvent>) -> (held: Option<PointerAxisEvent>)
    ensures
        held == axis_of(event),
{
    match event {
        Some(e) => match e.payload {
            EventPayload::PointerAxis(x) => Some(x),
            _ => None,
        },
        None => None,
    }
}

/// What a key event holds.
pub open spec fn key_of(event: Option<&LibinputEvent>) -> Option<KeyboardKeyEvent> {
    match event {
        Some(e) => match e.payload {
            EventPayload::KeyboardKey(x) => Some(x),
            _ => None,
        },
        None => None,
    }
}

fn key_in(event: Option<&LibinputEvent>) -> (held: Option<KeyboardKeyEvent>)
    ensures
        held == key_of(event),
{
    match event {
        Some(e) => match e.payload {
            EventPayload::KeyboardKey(x) => Some(x),
            _ => None,
        },
        None => None,
    }
}

/// What a contact that came, moved or left holds.
pub open spec fn contact_of(event: Option<&LibinputEvent>) -> Option<TouchEvent> {
    match event {
        Some(e) => match e.payload {
            EventPayload::TouchDown(x) => Some(x),
            EventPayload::TouchMotion(x) => Some(x),
            EventPayload::TouchUp(x) => Some(x),
            _ => None,
        },
        None => None,
    }
}

fn contact_in(event: Option<&LibinputEvent>) -> (held: Option<TouchEvent>)
    ensures
        held == contact_of(event),
{
    match event {
        Some(e) => match e.payload {
            EventPayload::TouchDown(x) => Some(x),
            EventPayload::TouchMotion(x) => Some(x),
            EventPayload::TouchUp(x) => Some(x),
            _ => None,
        },
        None => None,
    }
}

/// What a gesture holds.
pub open spec fn gesture_of(event: Option<&LibinputEvent>) -> Option<GestureEvent> {
    match event {
        Some(e) => match e.payload {
            EventPayload::GestureSwipeBegin(x) => Some(x),
            EventPayload::GestureSwipeUpdate(x) => Some(x),
            EventPayload::GestureSwipeEnd(x) => Some(x),
            EventPayload::GesturePinchBegin(x) => Some(x),
            EventPayload::GesturePinchUpdate(x) => Some(x),
            EventPayload::GesturePinchEnd(x) => Some(x),
            EventPayload::GestureHoldBegin(x) => Some(x),
            EventPayload::GestureHoldEnd(x) => Some(x),
            _ => None,
        },
        None => None,
    }
}

fn gesture_in(event: Option<&LibinputEvent>) -> (held: Option<GestureEvent>)
    ensures
        held == gesture_of(event),
{
    match event {
        Some(e) => match e.payload {
            EventPayload::GestureSwipeBegin(x) => Some(x),
            EventPayload::GestureSwipeUpdate(x) => Some(x),
            EventPayload::GestureSwipeEnd(x) => Some(x),
            EventPayload::GesturePinchBegin(x) => Some(x),
            EventPayload::GesturePinchUpdate(x) => Some(x),
            EventPayload::GesturePinchEnd(x) => Some(x),
            EventPayload::GestureHoldBegin(x) => Some(x),
            EventPayload::GestureHoldEnd(x) => Some(x),
            _ => None,
        },
        None => None,
    }
}

/// What the end of a gesture holds.
pub open spec fn gesture_end_of(event: Option<&LibinputEvent>) -> Option<GestureEvent> {
    match event {
        Some(e) => match e.payload {
            EventPayload::GestureSwipeEnd(x) => Some(x),
            EventPayload::GesturePinchEnd(x) => Some(x),
            EventPayload::GestureHoldEnd(x) => Some(x),
            _ => None,
        },
        None => None,
    }
}

fn gesture_end_in(event: Option<&LibinputEvent>) -> (held: Option<GestureEvent>)
    ensures
        held == gesture_end_of(event),
{
    match event {
        Some(e) => match e.payload {
            EventPayload::GestureSwipeEnd(x) => Some(x),
            EventPayload::GesturePinchEnd(x) => Some(x),
            EventPayload::GestureHoldEnd(x) => Some(x),
            _ => None,
        },
        None => None,
    }
}

/// What a switch event holds.
pub open spec fn toggle_of(event: Option<&LibinputEvent>) -> Option<SwitchEvent> {
    match event {
        Some(e) => match e.payload {
            EventPayload::SwitchToggle(x) => Some(x),
            _ => None,
        },
        None => None,
    }
}

fn toggle_in(event: Option<&LibinputEvent>) -> (held: Option<SwitchEvent>)
    ensures
        held == toggle_of(event),
{
    match event {
        Some(e) => match e.payload {
            EventPayload::SwitchToggle(x) => Some(x),
            _ => None,
        },
        None => None,
    }
}

/// What an event of a tablet tool holds.
pub open spec fn tool_of(event: Option<&LibinputEvent>) -> Option<TabletToolEvent> {
    match event {
        Some(e) => match e.payload {
            EventPayload::TabletTool(x) => Some(x),
            _ => None,
        },
        None => None,
    }
}

fn tool_in(event: Option<&LibinputEvent>) -> (held: Option<TabletToolEvent>)
    ensures
        held == tool_of(event),
{
    match event {
        Some(e) => match e.payload {
            EventPayload::TabletTool(x) => Some(x),
            _ => None,
        },
        None => None,
    }
}

/// What an event of a tablet pad holds.
pub open spec fn pad_of(event: Option<&LibinputEvent>) -> Option<TabletPadEvent> {
    match event {
        Some(e) => match e.payload {
            EventPayload::TabletPad(x) => Some(x),
            _ => None,
        },
        None => None,
    }
}

fn pad_in(event: Option<&LibinputEvent>) -> (held: Option<TabletPadEvent>)
    ensures
        held == pad_of(event),
{
    match event {
        Some(e) => match e.payload {
            EventPayload::TabletPad(x) => Some(x),
            _ => None,
        },
        None => None,
    }
}

// ---------------------------------------------------------------------------
// Times
// ---------------------------------------------------------------------------
/// When an event of the kind happened, in microseconds.
pub open spec fn pointer_time(event: Option<&LibinputEvent>) -> u64 {
    match event {
        Some(e) => match e.payload {
            EventPayload::PointerMotion(x) => x.time_usec,
            EventPayload::PointerMotionAbsolute(x) => x.time_usec,
            EventPayload::PointerButton(x) => x.time_usec,
            EventPayload::PointerAxis(x) => x.time_usec,
            _ => 0,
        },
        None => 0,
    }
}

pub fn libinput_event_pointer_get_time_usec(event: Option<&LibinputEvent>) -> (time_usec: u64)
    ensures
        time_usec == pointer_time(event),
{
    match event {
        Some(e) => match e.payload {
            EventPayload::PointerMotion(x) => x.time_usec,
            EventPayload::PointerMotionAbsolute(x) => x.time_usec,
            EventPayload::PointerButton(x) => x.time_usec,
            EventPayload::PointerAxis(x) => x.time_usec,
            _ => 0,
        },
        None => 0,
    }
}

pub fn libinput_event_pointer_get_time(event: Option<&LibinputEvent>) -> (time: u32)
    ensures
        time == millis_spec(pointer_time(event)),
{
    millis(libinput_event_pointer_get_time_usec(event))
}

/// When an event of the kind happened, in microseconds.
pub open spec fn keyboard_time(event: Option<&LibinputEvent>) -> u64 {
    match event {
        Some(e) => match e.payload {
            EventPayload::KeyboardKey(x) => x.time_usec,
            _ => 0,
        },
        None => 0,
    }
}

pub fn libinput_event_keyboard_get_time_usec(event: Option<&LibinputEvent>) -> (time_usec: u64)
    ensures
        time_usec == keyboard_time(event),
{
    match event {
        Some(e) => match e.payload {
            EventPayload::KeyboardKey(x) => x.time_usec,
            _ => 0,
        },
        None => 0,
    }
}

pub fn libinput_event_keyboard_get_time(event: Option<&LibinputEvent>) -> (time: u32)
    ensures
        time == millis_spec(keyboard_time(event)),
{
    millis(libinput_event_keyboard_get_time_usec(event))
}

/// When an event of the kind happened, in microseconds.
pub open spec fn touch_time(event: Option<&LibinputEvent>) -> u64 {
    match event {
        Some(e) => match e.payload {
            EventPayload::TouchDown(x) => x.time_usec,
            EventPayload::TouchUp(x) => x.time_usec,
            EventPayload::TouchMotion(x) => x.time_usec,
            EventPayload::TouchCancel(x) => x.time_usec,
            EventPayload::TouchFrame { time_usec } => time_usec,
            _ => 0,
        },
        None => 0,
    }
}

pub fn libinput_event_touch_get_time_usec(event: Option<&LibinputEvent>) -> (time_usec: u64)
    ensures
        time_usec == touch_time(event),
{
    match event {
        Some(e) => match e.payload {
            EventPayload::TouchDown(x) => x.time_usec,
            EventPayload::TouchUp(x) => x.time_usec,
            EventPayload::TouchMotion(x) => x.time_usec,
            EventPayload::TouchCancel(x) => x.time_usec,
            EventPayload::TouchFrame { time_usec } => time_usec,
            _ => 0,
        },
        None => 0,
    }
}

pub fn libinput_event_touch_get_time(event: Option<&LibinputEvent>) -> (time: u32)
    ensures
        time == millis_spec(touch_time(event)),
{
    millis(libinput_event_touch_get_time_usec(event))
}

/// When an event of the kind happened, in microseconds.
pub open spec fn gesture_time(event: Option<&LibinputEvent>) -> u64 {
    match event {
        Some(e) => match e.payload {
            EventPayload::GestureSwipeBegin(x) => x.time_usec,
            EventPayload::GestureSwipeUpdate(x) => x.time_usec,
            EventPayload::GestureSwipeEnd(x) => x.time_usec,
            EventPayload::GesturePinchBegin(x) => x.time_usec,
            EventPayload::GesturePinchUpdate(x) => x.time_usec,
            EventPayload::GesturePinchEnd(x) => x.time_usec,
            EventPayload::GestureHoldBegin(x) => x.time_usec,
            EventPayload::GestureHoldEnd(x) => x.time_usec,
            _ => 0,
        },
        None => 0,
    }
}

pub fn libinput_event_gesture_get_time_usec(event: Option<&LibinputEvent>) -> (time_usec: u64)
    ensures
        time_usec == gesture_time(event),
{
    match event {
        Some(e) => match e.payload {
            EventPayload::GestureSwipeBegin(x) => x.time_usec,
            EventPayload::GestureSwipeUpdate(x) => x.time_usec,
            EventPayload::GestureSwipeEnd(x) => x.time_usec,
            EventPayload::GesturePinchBegin(x) => x.time_usec,
            EventPayload::GesturePinchUpdate(x) => x.time_usec,
            EventPayload::GesturePinchEnd(x) => x.time_usec,
            EventPayload::GestureHoldBegin(x) => x.time_usec,
            EventPayload::GestureHoldEnd(x) => x.time_usec,
            _ => 0,
        },
        None => 0,
    }
}

pub fn libinput_event_gesture_get_time(event: Option<&LibinputEvent>) -> (time: u32)
    ensures
        time == millis_spec(gesture_time(event)),
{
    millis(libinput_event_gesture_get_time_usec(event))
}

/// When an event of the kind happened, in microseconds.
pub open spec fn switch_time(event: Option<&LibinputEvent>) -> u64 {
    match event {
        Some(e) => match e.payload {
            EventPayload::SwitchToggle(x) => x.time_usec,
            _ => 0,
        },
        None => 0,
    }
}

pub fn libinput_event_switch_get_time_usec(event: Option<&LibinputEvent>) -> (time_usec: u64)
    ensures
        time_usec == switch_time(event),
{
    match event {
        Some(e) => match e.payload {
            EventPayload::SwitchToggle(x) => x.time_usec,
            _ => 0,
        },
        None => 0,
    }
}

pub fn libinput_event_switch_get_time(event: Option<&LibinputEvent>) -> (time: u32)
    ensures
        time == millis_spec(switch_time(event)),
{
    millis(libinput_event_switch_get_time_usec(event))
}

/// When an event of the kind happened, in microseconds.
pub open spec fn tablet_tool_time(event: Option<&LibinputEvent>) -> u64 {
    match event {
        Some(e) => match e.payload {
            EventPayload::TabletTool(x) => x.time_usec,
            _ => 0,
        },
        None => 0,
    }
}

pub fn libinput_event_tablet_tool_get_time_usec(event: Option<&LibinputEvent>) -> (time_usec: u64)
    ensures
        time_usec == tablet_tool_time(event),
{
    match event {
        Some(e) => match e.payload {
            EventPayload::TabletTool(x) => x.time_usec,
            _ => 0,
        },
        None => 0,
    }
}

pub fn libinput_event_tablet_tool_get_time(event: Option<&LibinputEvent>) -> (time: u32)
    ensures
        time == millis_spec(tablet_tool_time(event)),
{
    millis(libinput_event_tablet_tool_get_time_usec(event))
}

/// When an event of the kind happened, in microseconds.
pub open spec fn tablet_pad_time(event: Option<&LibinputEvent>) -> u64 {
    match event {
        Some(e) => match e.payload {
            EventPayload::TabletPad(x) => x.time_usec,
            _ => 0,
        },
        None => 0,
    }
}

pub fn libinput_event_tablet_pad_get_time_usec(event: Option<&LibinputEvent>) -> (time_usec: u64)
    ensures
        time_usec == tablet_pad_time(event),
{
    match event {
        Some(e) => match e.payload {
            EventPayload::TabletPad(x) => x.time_usec,
            _ => 0,
        },
        None => 0,
    }
}

pub fn libinput_event_tablet_pad_get_time(event: Option<&LibinputEvent>) -> (time: u32)
    ensures
        time == millis_spec(tablet_pad_time(event)),
{
    millis(libinput_event_tablet_pad_get_time_usec(event))
}

// ---------------------------------------------------------------------------
// Pointers
// ---------------------------------------------------------------------------
pub fn libinput_event_pointer_get_button(event: Option<&LibinputEvent>) -> (r: u32)
    ensures
        r == (match button_of(event) {
            Some(x) => x.button,
            None => 0,
        }),
{
    match button_in(event) {
        Some(x) => x.button,
        None => 0,
    }
}

pub fn libinput_event_pointer_get_button_state(event: Option<&LibinputEvent>) -> (r: u32)
    ensures
        r == (match button_of(event) {
            Some(x) => x.state,
            None => 0,
        }),
{
    match button_in(event) {
        Some(x) => x.state,
        None => 0,
    }
}

/// How many devices of the seat hold the button down.
pub fn libinput_event_pointer_get_seat_button_count(event: Option<&LibinputEvent>) -> (r: u32)
    ensures
        r == (match button_of(event) {
            Some(x) => x.seat_button_count,
            None => 0,
        }),
{
    match button_in(event) {
        Some(x) => x.seat_button_count,
        None => 0,
    }
}

pub fn libinput_event_pointer_get_axis_source(event: Option<&LibinputEvent>) -> (r: u32)
    ensures
        r == (match axis_of(event) {
            Some(x) => x.source,
            None => 0,
        }),
{
    match axis_in(event) {
        Some(x) => x.source,
        None => 0,
    }
}

/// Whether a scroll event moves along an axis.
pub open spec fn moves_along(event: Option<&LibinputEvent>, axis: u32) -> bool {
    axis_of(event) matches Some(x) && x.axis == axis
}

pub fn libinput_event_pointer_has_axis(event: Option<&LibinputEvent>, axis: u32) -> (r: i32)
    ensures
        r == flag_spec(moves_along(event, axis)),
{
    match axis_in(event) {
        Some(x) => flag(x.axis == axis),
        None => 0,
    }
}

/// How many clicks a scroll event moves along an axis.
pub fn libinput_event_pointer_get_axis_value_discrete(event: Option<&LibinputEvent>, axis: u32) -> (
r: i32)
    ensures
        r == (if moves_along(event, axis) {
            (axis_of(event)->0).value_discrete
        } else {
            0
        }),
{
    match axis_in(event) {
        Some(x) => if x.axis == axis {
            x.value_discrete
        } else {
            0
        },
        None => 0,
    }
}

/// How far a scroll event moves along an axis, in parts of a click of which
/// 120 make a whole one.
pub fn libinput_event_pointer_get_scroll_value_v120(event: Option<&LibinputEvent>, axis: u32) -> (
r: i64)
    ensures
        r == (if moves_along(event, axis) {
            (axis_of(event)->0).value_v120
        } else {
            0
        }),
{
    match axis_in(event) {
        Some(x) => if x.axis == axis {
            x.value_v120
        } else {
            0
        },
        None => 0,
    }
}

// ---------------------------------------------------------------------------
// Keyboards
// ---------------------------------------------------------------------------
pub fn libinput_event_keyboard_get_key(event: Option<&LibinputEvent>) -> (r: u32)
    ensures
        r == (match key_of(event) {
            Some(x) => x.key,
            None => 0,
        }),
{
    match key_in(event) {
        Some(x) => x.key,
        None => 0,
    }
}

pub fn libinput_event_keyboard_get_key_state(event: Option<&LibinputEvent>) -> (r: u32)
    ensures
        r == (match key_of(event) {
            Some(x) => x.state,
            None => 0,
        }),
{
    match key_in(event) {
        Some(x) => x.state,
        None => 0,
    }
}

/// How many devices of the seat hold the key down.
pub fn libinput_event_keyboard_get_seat_key_count(event: Option<&LibinputEvent>) -> (r: u32)
    ensures
        r == (match key_of(event) {
            Some(x) => x.seat_key_count,
            None => 0,
        }),
{
    match key_in(event) {
        Some(x) => x.seat_key_count,
        None => 0,
    }
}

// ---------------------------------------------------------------------------
// Touchscreens
// ---------------------------------------------------------------------------
pub fn libinput_event_touch_get_slot(event: Option<&LibinputEvent>) -> (r: i32)
    ensures
        r == (match contact_of(event) {
            Some(x) => x.slot as int,
            None => -1,
        }),
{
    match contact_in(event) {
        Some(x) => x.slot,
        None => -1,
    }
}

pub fn libinput_event_touch_get_seat_slot(event: Option<&LibinputEvent>) -> (r: i32)
    ensures
        r == (match contact_of(event) {
            Some(x) => x.seat_slot as int,
            None => -1,
        }),
{
    match contact_in(event) {
        Some(x) => x.seat_slot,
        None => -1,
    }
}

// ---------------------------------------------------------------------------
// Gestures
// ---------------------------------------------------------------------------
pub fn libinput_event_gesture_get_finger_count(event: Option<&LibinputEvent>) -> (r: i32)
    ensures
        r == (match gesture_of(event) {
            Some(x) => x.finger_count,
            None => 0,
        }),
{
    match gesture_in(event) {
        Some(x) => x.finger_count,
        None => 0,
    }
}

pub fn libinput_event_gesture_get_cancelled(event: Option<&LibinputEvent>) -> (r: i32)
    ensures
        r == (match gesture_end_of(event) {
            Some(x) => flag_spec(x.cancelled),
            None => 0,
        }),
{
    match gesture_end_in(event) {
        Some(x) => flag(x.cancelled),
        None => 0,
    }
}

// ---------------------------------------------------------------------------
// Switches
// ---------------------------------------------------------------------------
pub fn libinput_event_switch_get_switch(event: Option<&LibinputEvent>) -> (r: u32)
    ensures
        r == (match toggle_of(event) {
            Some(x) => x.switch,
            None => 0,
        }),
{
    match toggle_in(event) {
        Some(x) => x.switch,
        None => 0,
    }
}

pub fn libinput_event_switch_get_switch_state(event: Option<&LibinputEvent>) -> (r: u32)
    ensures
        r == (match toggle_of(event) {
            Some(x) => x.state,
            None => 0,
        }),
{
    match toggle_in(event) {
        Some(x) => x.state,
        None => 0,
    }
}

// ---------------------------------------------------------------------------
// Tablet pads
// ---------------------------------------------------------------------------
pub fn libinput_event_tablet_pad_get_button_number(event: Option<&LibinputEvent>) -> (r: u32)
    ensures
        r == (match pad_of(event) {
            Some(x) => x.button,
            None => 0,
        }),
{
    match pad_in(event) {
        Some(x) => x.button,
        None => 0,
    }
}

pub fn libinput_event_tablet_pad_get_button_state(event: Option<&LibinputEvent>) -> (r: u32)
    ensures
        r == (match pad_of(event) {
            Some(x) => x.button_state,
            None => 0,
        }),
{
    match pad_in(event) {
        Some(x) => x.button_state,
        None => 0,
    }
}

pub fn libinput_event_tablet_pad_get_key(event: Option<&LibinputEvent>) -> (r: u32)
    ensures
        r == (match pad_of(event) {
            Some(x) => x.key,
            None => 0,
        }),
{
    match pad_in(event) {
        Some(x) => x.key,
        None => 0,
    }
}

pub fn libinput_event_tablet_pad_get_key_state(event: Option<&LibinputEvent>) -> (r: u32)
    ensures
        r == (match pad_of(event) {
            Some(x) => x.key_state,
            None => 0,
        }),
{
    match pad_in(event) {
        Some(x) => x.key_state,
        None => 0,
    }
}

pub fn libinput_event_tablet_pad_get_dial_delta_v120(event: Option<&LibinputEvent>) -> (r: i64)
    ensures
        r == (match pad_of(event) {
            Some(x) => x.dial_delta_v120,
            None => 0,
        }),
{
    match pad_in(event) {
        Some(x) => x.dial_delta_v120,
        None => 0,
    }
}

pub fn libinput_event_tablet_pad_get_dial_number(event: Option<&LibinputEvent>) -> (r: u32)
    ensures
        r == (match pad_of(event) {
            Some(x) => x.dial_number,
            None => 0,
        }),
{
    match pad_in(event) {
        Some(x) => x.dial_number,
        None => 0,
    }
}

pub fn libinput_event_tablet_pad_get_mode(event: Option<&LibinputEvent>) -> (r: u32)
    ensures
        r == (match pad_of(event) {
            Some(x) => x.mode,
            None => 0,
        }),
{
    match pad_in(event) {
        Some(x) => x.mode,
        None => 0,
    }
}

pub fn libinput_event_tablet_pad_get_ring_number(event: Option<&LibinputEvent>) -> (r: u32)
    ensures
        r == (match pad_of(event) {
            Some(x) => x.ring_number,
            None => 0,
        }),
{
    match pad_in(event) {
        Some(x) => x.ring_number,
        None => 0,
    }
}

pub fn libinput_event_tablet_pad_get_ring_source(event: Option<&LibinputEvent>) -> (r: u32)
    ensures
        r == (match pad_of(event) {
            Some(x) => x.ring_source,
            None => 0,
        }),
{
    match pad_in(event) {
        Some(x) => x.ring_source,
        None => 0,
    }
}

pub fn libinput_event_tablet_pad_get_strip_number(event: Option<&LibinputEvent>) -> (r: u32)
    ensures
        r == (match pad_of(event) {
            Some(x) => x.strip_number,
            None => 0,
        }),
{
    match pad_in(event) {
        Some(x) => x.strip_number,
        None => 0,
    }
}

pub fn libinput_event_tablet_pad_get_strip_source(event: Option<&LibinputEvent>) -> (r: u32)
    ensures
        r == (match pad_of(event) {
            Some(x) => x.strip_source,
            None => 0,
        }),
{
    match pad_in(event) {
        Some(x) => x.strip_source,
        None => 0,
    }
}

/// The place of the pad's mode group in its device's list.
pub fn libinput_event_tablet_pad_get_mode_group(event: Option<&LibinputEvent>) -> (r: Option<usize>)
    ensures
        r == (match pad_of(event) {
            Some(x) => x.mode_group,
            None => None,
        }),
{
    match pad_in(event) {
        Some(x) => x.mode_group,
        None => None,
    }
}

// ---------------------------------------------------------------------------
// Tablet tools
// ---------------------------------------------------------------------------
pub fn libinput_event_tablet_tool_get_button(event: Option<&LibinputEvent>) -> (r: u32)
    ensures
        r == (match tool_of(event) {
            Some(x) => x.button,
            None => 0,
        }),
{
    match tool_in(event) {
        Some(x) => x.button,
        None => 0,
    }
}

pub fn libinput_event_tablet_tool_get_button_state(event: Option<&LibinputEvent>) -> (r: u32)
    ensures
        r == (match tool_of(event) {
            Some(x) => x.button_state,
            None => 0,
        }),
{
    match tool_in(event) {
        Some(x) => x.button_state,
        None => 0,
    }
}

pub fn libinput_event_tablet_tool_get_seat_button_count(event: Option<&LibinputEvent>) -> (r: u32)
    ensures
        r == (match tool_of(event) {
            Some(x) => x.seat_button_count,
            None => 0,
        }),
{
    match tool_in(event) {
        Some(x) => x.seat_button_count,
        None => 0,
    }
}

pub fn libinput_event_tablet_tool_get_proximity_state(event: Option<&LibinputEvent>) -> (r: u32)
    ensures
        r == (match tool_of(event) {
            Some(x) => x.proximity_state,
            None => 0,
        }),
{
    match tool_in(event) {
        Some(x) => x.proximity_state,
        None => 0,
    }
}

pub fn libinput_event_tablet_tool_get_wheel_delta_discrete(event: Option<&LibinputEvent>) -> (r: i32)
    ensures
        r == (match tool_of(event) {
            Some(x) => x.wheel_discrete,
            None => 0,
        }),
{
    match tool_in(event) {
        Some(x) => x.wheel_discrete,
        None => 0,
    }
}

pub fn libinput_event_tablet_tool_get_tip_state(event: Option<&LibinputEvent>) -> (r: u32)
    ensures
        r == (match tool_of(event) {
            Some(x) => x.tip_state,
            None => 0,
        }),
{
    match tool_in(event) {
        Some(x) => x.tip_state,
        None => 0,
    }
}

/// The tool's place in the context's list.
pub fn libinput_event_tablet_tool_get_tool(event: Option<&LibinputEvent>) -> (r: Option<usize>)
    ensures
        r == (match tool_of(event) {
            Some(x) => Some(x.tool),
            None => None,
        }),
{
    match tool_in(event) {
        Some(x) => Some(x.tool),
        None => None,
    }
}

pub fn libinput_event_tablet_tool_x_has_changed(event: Option<&LibinputEvent>) -> (r: i32)
    ensures
        r == (match tool_of(event) {
            Some(x) => flag_spec(x.changed.x),
            None => 0,
        }),
{
    match tool_in(event) {
        Some(x) => flag(x.changed.x),
        None => 0,
    }
}

pub fn libinput_event_tablet_tool_y_has_changed(event: Option<&LibinputEvent>) -> (r: i32)
    ensures
        r == (match tool_of(event) {
            Some(x) => flag_spec(x.changed.y),
            None => 0,
        }),
{
    match tool_in(event) {
        Some(x) => flag(x.changed.y),
        None => 0,
    }
}

pub fn libinput_event_tablet_tool_pressure_has_changed(event: Option<&LibinputEvent>) -> (r: i32)
    ensures
        r == (match tool_of(event) {
            Some(x) => flag_spec(x.changed.pressure),
            None => 0,
        }),
{
    match tool_in(event) {
        Some(x) => flag(x.changed.pressure),
        None => 0,
    }
}

pub fn libinput_event_tablet_tool_distance_has_changed(event: Option<&LibinputEvent>) -> (r: i32)
    ensures
        r == (match tool_of(event) {
            Some(x) => flag_spec(x.changed.distance),
            None => 0,
        }),
{
    match tool_in(event) {
        Some(x) => flag(x.changed.distance),
        None => 0,
    }
}

pub fn libinput_event_tablet_tool_tilt_x_has_changed(event: Option<&LibinputEvent>) -> (r: i32)
    ensures
        r == (match tool_of(event) {
            Some(x) => flag_spec(x.changed.tilt_x),
            None => 0,
        }),
{
    match tool_in(event) {
        Some(x) => flag(x.changed.tilt_x),
        None => 0,
    }
}

pub fn libinput_event_tablet_tool_tilt_y_has_changed(event: Option<&LibinputEvent>) -> (r: i32)
    ensures
        r == (match tool_of(event) {
            Some(x) => flag_spec(x.changed.tilt_y),
            None => 0,
        }),
{
    match tool_in(event) {
        Some(x) => flag(x.changed.tilt_y),
        None => 0,
    }
}

pub fn libinput_event_tablet_tool_rotation_has_changed(event: Option<&LibinputEvent>) -> (r: i32)
    ensures
        r == (match tool_of(event) {
            Some(x) => flag_spec(x.changed.rotation),
            None => 0,
        }),
{
    match tool_in(event) {
        Some(x) => flag(x.changed.rotation),
        None => 0,
    }
}

pub fn libinput_event_tablet_tool_slider_has_changed(event: Option<&LibinputEvent>) -> (r: i32)
    ensures
        r == (match tool_of(event) {
            Some(x) => flag_spec(x.changed.slider),
            None => 0,
        }),
{
    match tool_in(event) {
        Some(x) => flag(x.changed.slider),
        None => 0,
    }
}

pub fn libinput_event_tablet_tool_wheel_has_changed(event: Option<&LibinputEvent>) -> (r: i32)
    ensures
        r == (match tool_of(event) {
            Some(x) => flag_spec(x.changed.wheel),
            None => 0,
        }),
{
    match tool_in(event) {
        Some(x) => flag(x.changed.wheel),
        None => 0,
    }
}

pub fn libinput_event_tablet_tool_size_major_has_changed(event: Option<&LibinputEvent>) -> (r: i32)
    ensures
        r == (match tool_of(event) {
            Some(x) => flag_spec(x.changed.size_major),
            None => 0,
        }),
{
    match tool_in(event) {
        Some(x) => flag(x.changed.size_major),
        None => 0,
    }
}

pub fn libinput_event_tablet_tool_size_minor_has_changed(event: Option<&LibinputEvent>) -> (r: i32)
    ensures
        r == (match tool_of(event) {
            Some(x) => flag_spec(x.changed.size_minor),
            None => 0,
        }),
{
    match tool_in(event) {
        Some(x) => flag(x.changed.size_minor),
        None => 0,
    }
}

} // verus!
