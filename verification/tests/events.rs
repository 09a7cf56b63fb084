use libinput_rs::api::events::{
    libinput_event_get_gesture_event, libinput_event_get_keyboard_event,
    libinput_event_get_pointer_event, libinput_event_get_touch_event, libinput_event_get_type,
    libinput_event_gesture_get_cancelled, libinput_event_gesture_get_finger_count,
    libinput_event_keyboard_get_key, libinput_event_keyboard_get_time,
    libinput_event_keyboard_get_time_usec, libinput_event_pointer_get_axis_source,
    libinput_event_pointer_get_axis_value_discrete, libinput_event_pointer_get_button,
    libinput_event_pointer_get_scroll_value_v120, libinput_event_pointer_has_axis,
    libinput_event_switch_get_switch_state, libinput_event_touch_get_slot,
    libinput_event_touch_get_time_usec,
};
use libinput_rs::ffi_types::{
    EventPayload, GestureEvent, KeyboardKeyEvent, LibinputEvent, LibinputEventType,
    PointerAxisEvent, SwitchEvent, TouchEvent, AXIS_SOURCE_WHEEL,
};

fn event(event_type: LibinputEventType, payload: EventPayload) -> LibinputEvent {
    LibinputEvent { event_type, payload, device: 0 }
}

fn key() -> LibinputEvent {
    event(
        LibinputEventType::LIBINPUT_EVENT_KEYBOARD_KEY,
        EventPayload::KeyboardKey(KeyboardKeyEvent {
            time_usec: 4_294_967_296_000 + 5_500,
            key: 30,
            state: 1,
            seat_key_count: 1,
        }),
    )
}

#[test]
fn events_are_only_read_as_what_they_are() {
    let e = key();
    assert!(libinput_event_get_keyboard_event(Some(&e)).is_some());
    assert!(libinput_event_get_pointer_event(Some(&e)).is_none());
    assert!(libinput_event_get_keyboard_event(None).is_none());
    assert_eq!(libinput_event_keyboard_get_key(Some(&e)), 30);
    assert_eq!(libinput_event_pointer_get_button(Some(&e)), 0);
    assert_eq!(libinput_event_get_type(Some(&e)).number(), 300);
    assert_eq!(libinput_event_get_type(None), LibinputEventType::LIBINPUT_EVENT_NONE);
}

#[test]
fn milliseconds_start_again_after_they_overflow() {
    let e = key();
    assert_eq!(libinput_event_keyboard_get_time_usec(Some(&e)), 4_294_967_301_500);
    assert_eq!(libinput_event_keyboard_get_time(Some(&e)), 5);
}

#[test]
fn scroll_events_move_along_one_axis() {
    let e = event(
        LibinputEventType::LIBINPUT_EVENT_POINTER_SCROLL_WHEEL,
        EventPayload::PointerAxis(PointerAxisEvent {
            time_usec: 1,
            axis: 1,
            value: 0,
            value_discrete: -2,
            value_v120: -240,
            source: AXIS_SOURCE_WHEEL,
        }),
    );
    assert_eq!(libinput_event_pointer_has_axis(Some(&e), 1), 1);
    assert_eq!(libinput_event_pointer_has_axis(Some(&e), 0), 0);
    assert_eq!(libinput_event_pointer_get_axis_value_discrete(Some(&e), 1), -2);
    assert_eq!(libinput_event_pointer_get_axis_value_discrete(Some(&e), 0), 0);
    assert_eq!(libinput_event_pointer_get_scroll_value_v120(Some(&e), 1), -240);
    assert_eq!(libinput_event_pointer_get_axis_source(Some(&e)), AXIS_SOURCE_WHEEL);
}

#[test]
fn cancelled_contacts_have_a_time_but_no_slot() {
    let touch = TouchEvent { time_usec: 9, slot: 2, seat_slot: 3, x: 0, y: 0 };
    let up = event(
        LibinputEventType::LIBINPUT_EVENT_TOUCH_UP,
        EventPayload::TouchUp(touch),
    );
    let cancel = event(
        LibinputEventType::LIBINPUT_EVENT_TOUCH_CANCEL,
        EventPayload::TouchCancel(touch),
    );
    assert_eq!(libinput_event_touch_get_slot(Some(&up)), 2);
    assert_eq!(libinput_event_touch_get_slot(Some(&cancel)), -1);
    assert_eq!(libinput_event_touch_get_time_usec(Some(&cancel)), 9);
    assert!(libinput_event_get_touch_event(Some(&cancel)).is_some());
}

#[test]
fn only_ends_of_gestures_are_cancelled() {
    let gesture = GestureEvent {
        time_usec: 1,
        finger_count: 3,
        dx: 0,
        dy: 0,
        pinch: None,
        cancelled: true,
    };
    let begin = event(
        LibinputEventType::LIBINPUT_EVENT_GESTURE_SWIPE_BEGIN,
        EventPayload::GestureSwipeBegin(gesture),
    );
    let end = event(
        LibinputEventType::LIBINPUT_EVENT_GESTURE_SWIPE_END,
        EventPayload::GestureSwipeEnd(gesture),
    );
    assert_eq!(libinput_event_gesture_get_cancelled(Some(&begin)), 0);
    assert_eq!(libinput_event_gesture_get_cancelled(Some(&end)), 1);
    assert_eq!(libinput_event_gesture_get_finger_count(Some(&begin)), 3);
    assert!(libinput_event_get_gesture_event(Some(&begin)).is_some());
}

#[test]
fn switches_have_states() {
    let e = event(
        LibinputEventType::LIBINPUT_EVENT_SWITCH_TOGGLE,
        EventPayload::SwitchToggle(SwitchEvent { time_usec: 1, switch: 1, state: 1 }),
    );
    assert_eq!(libinput_event_switch_get_switch_state(Some(&e)), 1);
    assert_eq!(libinput_event_switch_get_switch_state(None), 0);
}
