use libinput_rs::codes::{InputEvent, ABS_X, ABS_Y, BTN_LEFT, BTN_TOUCH, EV_ABS, EV_KEY, EV_SYN};
use libinput_rs::config::InputConfig;
use libinput_rs::device::{
    adopt, finish_motion, finish_scroll, should_suppress_new_touch, Adoption, Appearance,
    DeviceWrapper, FrameWork, DWT_TIMEOUT,
};
use libinput_rs::virtual_device::VirtualDevice;

const MILLISECOND: u64 = 1_000_000;

#[test]
fn dwt_only_suppresses_touches_that_begin_inside_the_timeout() {
    assert!(should_suppress_new_touch(true, Some(DWT_TIMEOUT - MILLISECOND)));
    assert!(!should_suppress_new_touch(true, Some(DWT_TIMEOUT)));
    assert!(!should_suppress_new_touch(true, None));
    assert!(!should_suppress_new_touch(false, Some(0)));
}

fn touchpad() -> Appearance {
    Appearance {
        is_companion: false,
        has_absolute: true,
        has_touch_button: true,
        is_pointer: true,
        is_buttonpad: false,
        has_keys: true,
        has_letter_a: false,
    }
}

#[test]
fn nothing_is_grabbed_before_there_is_an_output() {
    assert_eq!(adopt(false, &touchpad()), Adoption::Ignore);
    assert_eq!(adopt(true, &touchpad()), Adoption::Grab);
    assert_eq!(
        adopt(true, &Appearance { is_companion: true, ..touchpad() }),
        Adoption::Ignore
    );
    let keyboard = Appearance { has_absolute: false, has_letter_a: true, ..touchpad() };
    assert_eq!(adopt(true, &keyboard), Adoption::Observe);
}

fn event(kind: u16, code: u16, value: i32) -> InputEvent {
    InputEvent { kind, code, value }
}

#[test]
fn one_finger_moves_the_pointer() {
    let config = InputConfig::default();
    let mut out = VirtualDevice::new();
    let mut pad = DeviceWrapper::new(true, false);
    let mut now = 1_000 * MILLISECOND;
    for ev in [
        event(EV_KEY, BTN_TOUCH, 1),
        event(EV_ABS, ABS_X, 100),
        event(EV_ABS, ABS_Y, 100),
    ] {
        pad.process_event(&ev, &config, None, now, &mut out);
    }
    pad.process_event(&event(EV_SYN, 0, 0), &config, None, now, &mut out);
    now += 10 * MILLISECOND;
    pad.process_event(&event(EV_ABS, ABS_X, 130), &config, None, now, &mut out);
    let work = pad.process_event(&event(EV_SYN, 0, 0), &config, None, now, &mut out);
    assert_eq!(work, FrameWork::Move { dx: 30, dy: 0 });
    out.pending.clear();
    finish_motion(&event(EV_SYN, 0, 0), 12, 0, &mut out);
    assert_eq!(out.pending[0], event(2, 0, 12));
}

#[test]
fn a_quick_touch_is_a_tap() {
    let config = InputConfig::default();
    let mut out = VirtualDevice::new();
    let mut pad = DeviceWrapper::new(true, false);
    let now = 1_000 * MILLISECOND;
    pad.process_event(&event(EV_KEY, BTN_TOUCH, 1), &config, None, now, &mut out);
    pad.process_event(
        &event(EV_KEY, BTN_TOUCH, 0),
        &config,
        None,
        now + 50 * MILLISECOND,
        &mut out,
    );
    assert!(out.pending.iter().any(|ev| *ev == event(EV_KEY, BTN_LEFT, 1)));
    assert!(out.pending.iter().any(|ev| *ev == event(EV_KEY, BTN_LEFT, 0)));
}

#[test]
fn natural_scrolling_turns_the_wheel_around() {
    let mut out = VirtualDevice::new();
    finish_scroll(&event(EV_SYN, 0, 0), false, 2, &mut out);
    let plain = out.pending[0].value;
    let mut out = VirtualDevice::new();
    finish_scroll(&event(EV_SYN, 0, 0), true, 2, &mut out);
    assert_eq!(out.pending[0].value, -plain);
}

#[test]
fn keyboards_are_only_observed() {
    let config = InputConfig::default();
    let now = 1_000 * MILLISECOND;
    for is_absolute in [false, true] {
        let mut out = VirtualDevice::new();
        let mut keyboard = DeviceWrapper::new(is_absolute, true);
        for ev in [
            event(EV_SYN, 0, 0),
            event(EV_ABS, ABS_X, 5),
            event(2, 0, 3),
            event(EV_KEY, 30, 0),
        ] {
            let work = keyboard.process_event(&ev, &config, None, now, &mut out);
            assert_eq!(work, FrameWork::Done);
            assert_eq!(keyboard.last_typing_time, None);
        }
        keyboard.process_event(&event(EV_KEY, 30, 1), &config, None, now, &mut out);
        keyboard.process_event(&event(EV_SYN, 0, 0), &config, None, now + 1, &mut out);
        assert_eq!(keyboard.last_typing_time, Some(now));
        assert!(out.pending.is_empty());
    }
}
