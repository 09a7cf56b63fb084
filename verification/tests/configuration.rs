use libinput_rs::api::device_config::{
    libinput_config_status_to_str, libinput_device_config_3fg_drag_get_default_enabled,
    libinput_device_config_3fg_drag_get_enabled, libinput_device_config_3fg_drag_get_finger_count,
    libinput_device_config_3fg_drag_set_enabled, libinput_device_config_accel_apply,
    libinput_device_config_accel_get_default_profile, libinput_device_config_accel_get_profile,
    libinput_device_config_accel_get_profiles, libinput_device_config_accel_is_available,
    libinput_device_config_accel_set_profile,
    libinput_device_config_click_get_clickfinger_button_map,
    libinput_device_config_click_get_method, libinput_device_config_click_set_clickfinger_button_map,
    libinput_device_config_click_set_method, libinput_device_config_dwt_get_default_timeout,
    libinput_device_config_dwt_get_enabled, libinput_device_config_dwt_get_timeout,
    libinput_device_config_dwt_set_enabled, libinput_device_config_dwt_set_timeout,
    libinput_device_config_dwtp_get_default_timeout, libinput_device_config_dwtp_set_timeout,
    libinput_device_config_left_handed_get, libinput_device_config_left_handed_set,
    libinput_device_config_middle_emulation_get_enabled,
    libinput_device_config_middle_emulation_set_enabled,
    libinput_device_config_rotation_get_angle, libinput_device_config_rotation_set_angle,
    libinput_device_config_scroll_get_button, libinput_device_config_scroll_get_button_lock,
    libinput_device_config_scroll_get_default_natural_scroll_enabled,
    libinput_device_config_scroll_get_method,
    libinput_device_config_scroll_get_natural_scroll_enabled,
    libinput_device_config_scroll_set_button, libinput_device_config_scroll_set_button_lock,
    libinput_device_config_scroll_set_method,
    libinput_device_config_scroll_set_natural_scroll_enabled,
    libinput_device_config_send_events_get_mode, libinput_device_config_send_events_set_mode,
    libinput_device_config_tap_get_button_map, libinput_device_config_tap_get_default_drag_enabled,
    libinput_device_config_tap_get_drag_lock_enabled, libinput_device_config_tap_get_enabled,
    libinput_device_config_tap_set_button_map, libinput_device_config_tap_set_drag_lock_enabled,
    libinput_device_config_tap_set_enabled, CONFIG_INVALID,
    CONFIG_SUCCESS, CONFIG_UNSUPPORTED,
};
use libinput_rs::api::device_info::{
    libinput_device_get_devnode, libinput_device_get_name, libinput_device_get_output_name,
    libinput_device_get_user_data, libinput_device_has_capability,
    libinput_device_keyboard_has_key, libinput_device_pointer_has_button,
    libinput_device_set_user_data, libinput_device_switch_has_switch,
    libinput_device_tablet_pad_get_mode_group, libinput_device_tablet_pad_get_num_buttons,
    libinput_device_tablet_pad_get_num_rings, libinput_device_tablet_pad_has_key,
    libinput_device_touch_get_touch_count,
};
use libinput_rs::ffi_types::{LibinputDevice, LibinputTabletPadModeGroup};

fn device() -> LibinputDevice {
    LibinputDevice::new(0, "some device", "/dev/input/event3", 0, 0)
}

#[test]
fn statuses_have_names() {
    assert_eq!(libinput_config_status_to_str(0), Some("success"));
    assert_eq!(libinput_config_status_to_str(1), Some("unsupported"));
    assert_eq!(libinput_config_status_to_str(2), Some("invalid"));
    assert_eq!(libinput_config_status_to_str(3), None);
}

#[test]
fn tapping_is_set_and_read_back() {
    let mut d = device();
    assert_eq!(libinput_device_config_tap_set_enabled(None, 1), CONFIG_UNSUPPORTED);
    assert_eq!(libinput_device_config_tap_set_enabled(Some(&mut d), 1), CONFIG_UNSUPPORTED);
    assert_eq!(libinput_device_config_tap_set_enabled(Some(&mut d), 0), CONFIG_SUCCESS);
    d.tap_finger_count = 3;
    assert_eq!(libinput_device_config_tap_set_enabled(Some(&mut d), 2), CONFIG_INVALID);
    assert_eq!(libinput_device_config_tap_set_enabled(Some(&mut d), 1), CONFIG_SUCCESS);
    assert_eq!(libinput_device_config_tap_get_enabled(Some(&d)), 1);
    assert_eq!(libinput_device_config_tap_get_default_drag_enabled(Some(&d)), 1);
    assert_eq!(libinput_device_config_tap_set_drag_lock_enabled(Some(&mut d), 2), 0);
    assert_eq!(libinput_device_config_tap_get_drag_lock_enabled(Some(&d)), 2);
    assert_eq!(libinput_device_config_tap_set_drag_lock_enabled(Some(&mut d), 3), 2);
    assert_eq!(libinput_device_config_tap_set_button_map(Some(&mut d), 1), 0);
    assert_eq!(libinput_device_config_tap_get_button_map(Some(&d)), 1);
    assert_eq!(libinput_device_config_tap_set_button_map(Some(&mut d), 2), 2);
    assert_eq!(libinput_device_config_tap_get_button_map(Some(&d)), 1);
}

#[test]
fn three_fingers_drag_where_there_are_as_many() {
    let mut d = device();
    d.mt_slot_count = 5;
    assert_eq!(libinput_device_config_3fg_drag_get_finger_count(Some(&d)), 0);
    assert_eq!(libinput_device_config_3fg_drag_set_enabled(Some(&mut d), 1), 1);
    d.has_gesture = true;
    assert_eq!(libinput_device_config_3fg_drag_get_finger_count(Some(&d)), 5);
    assert_eq!(libinput_device_config_3fg_drag_set_enabled(Some(&mut d), 3), 2);
    assert_eq!(libinput_device_config_3fg_drag_set_enabled(Some(&mut d), 2), 0);
    assert_eq!(libinput_device_config_3fg_drag_get_enabled(Some(&d)), 2);
    assert_eq!(libinput_device_config_3fg_drag_get_default_enabled(Some(&d)), 0);
}

#[test]
fn acceleration_profiles_are_chosen_one_at_a_time() {
    let mut d = device();
    assert_eq!(libinput_device_config_accel_is_available(Some(&d)), 0);
    assert_eq!(libinput_device_config_accel_set_profile(Some(&mut d), 1), 1);
    d.accel_available = true;
    assert_eq!(libinput_device_config_accel_get_profiles(Some(&d)), 7);
    assert_eq!(libinput_device_config_accel_get_default_profile(Some(&d)), 2);
    assert_eq!(libinput_device_config_accel_set_profile(Some(&mut d), 3), 2);
    assert_eq!(libinput_device_config_accel_set_profile(Some(&mut d), 0), 2);
    assert_eq!(libinput_device_config_accel_set_profile(Some(&mut d), 4), 0);
    assert_eq!(libinput_device_config_accel_get_profile(Some(&d)), 4);
    assert_eq!(libinput_device_config_accel_apply(Some(&mut d), None), 2);
    assert_eq!(libinput_device_config_accel_apply(Some(&mut d), Some(1)), 0);
    assert_eq!(libinput_device_config_accel_get_profile(Some(&d)), 1);
    d.has_tablet = true;
    assert_eq!(libinput_device_config_accel_get_profiles(Some(&d)), 0);
    assert_eq!(libinput_device_config_accel_apply(Some(&mut d), Some(1)), 1);
    assert_eq!(libinput_device_config_accel_apply(None, Some(1)), 2);
}

#[test]
fn natural_scrolling_and_left_handed_use() {
    let mut d = device();
    assert_eq!(libinput_device_config_scroll_set_natural_scroll_enabled(Some(&mut d), 1), 1);
    d.has_pointer = true;
    assert_eq!(libinput_device_config_scroll_set_natural_scroll_enabled(Some(&mut d), 5), 0);
    assert_eq!(libinput_device_config_scroll_get_natural_scroll_enabled(Some(&d)), 1);
    d.scroll_methods = 2;
    d.vendor_id = 0x05ac;
    assert_eq!(
        libinput_device_config_scroll_get_default_natural_scroll_enabled(Some(&d)),
        1
    );
    assert_eq!(libinput_device_config_left_handed_set(Some(&mut d), 1), 1);
    d.left_handed_available = true;
    assert_eq!(libinput_device_config_left_handed_set(Some(&mut d), 1), 0);
    assert_eq!(libinput_device_config_left_handed_get(Some(&d)), 1);
}

#[test]
fn scroll_methods_are_those_of_the_device() {
    let mut d = device();
    d.scroll_methods = 4;
    assert_eq!(libinput_device_config_scroll_set_method(Some(&mut d), 3), 2);
    assert_eq!(libinput_device_config_scroll_set_method(Some(&mut d), 1), 1);
    assert_eq!(libinput_device_config_scroll_set_method(Some(&mut d), 4), 0);
    assert_eq!(libinput_device_config_scroll_get_method(Some(&d)), 4);
    d.event_codes = vec![0x112];
    assert_eq!(libinput_device_config_scroll_set_button(Some(&mut d), 0x112), 1);
    d.supports_button_scroll = true;
    assert_eq!(libinput_device_config_scroll_set_button(Some(&mut d), 0x113), 2);
    assert_eq!(libinput_device_config_scroll_set_button(Some(&mut d), 0x1_0112), 2);
    assert_eq!(libinput_device_config_scroll_set_button(Some(&mut d), 0x112), 0);
    assert_eq!(libinput_device_config_scroll_get_button(Some(&d)), 0x112);
    assert_eq!(libinput_device_config_scroll_set_button_lock(Some(&mut d), 2), 2);
    assert_eq!(libinput_device_config_scroll_set_button_lock(Some(&mut d), 1), 0);
    assert_eq!(libinput_device_config_scroll_get_button_lock(Some(&d)), 1);
}

#[test]
fn click_methods_are_those_of_the_device() {
    let mut d = device();
    d.click_methods = 1;
    assert_eq!(libinput_device_config_click_set_method(Some(&mut d), 4), 2);
    assert_eq!(libinput_device_config_click_set_method(Some(&mut d), 2), 1);
    assert_eq!(libinput_device_config_click_set_method(Some(&mut d), 0), 0);
    assert_eq!(libinput_device_config_click_get_method(Some(&d)), 0);
    assert_eq!(libinput_device_config_click_set_clickfinger_button_map(Some(&mut d), 1), 1);
    d.click_methods = 3;
    assert_eq!(libinput_device_config_click_set_clickfinger_button_map(Some(&mut d), 1), 0);
    assert_eq!(libinput_device_config_click_get_clickfinger_button_map(Some(&d)), 1);
}

#[test]
fn middle_emulation_can_always_be_off() {
    let mut d = device();
    assert_eq!(libinput_device_config_middle_emulation_set_enabled(Some(&mut d), 0), 0);
    assert_eq!(libinput_device_config_middle_emulation_set_enabled(Some(&mut d), 1), 1);
    assert_eq!(libinput_device_config_middle_emulation_set_enabled(Some(&mut d), 2), 2);
    d.middle_emulation_available = true;
    assert_eq!(libinput_device_config_middle_emulation_set_enabled(Some(&mut d), 1), 0);
    assert_eq!(libinput_device_config_middle_emulation_get_enabled(Some(&d)), 1);
}

#[test]
fn typing_timeouts_are_limited() {
    let mut d = device();
    assert_eq!(libinput_device_config_dwt_set_timeout(Some(&mut d), 0), 2);
    assert_eq!(libinput_device_config_dwt_set_timeout(Some(&mut d), 200), 1);
    assert_eq!(libinput_device_config_dwt_set_enabled(Some(&mut d), 1), 1);
    assert_eq!(libinput_device_config_dwt_get_default_timeout(Some(&d)), 0);
    d.dwt_available = true;
    d.dwtp_available = true;
    assert_eq!(libinput_device_config_dwt_set_timeout(Some(&mut d), 99), 2);
    assert_eq!(libinput_device_config_dwt_set_timeout(Some(&mut d), 5001), 2);
    assert_eq!(libinput_device_config_dwt_set_timeout(Some(&mut d), 5000), 0);
    assert_eq!(libinput_device_config_dwt_get_timeout(Some(&d)), 5000);
    assert_eq!(libinput_device_config_dwt_set_enabled(Some(&mut d), 0), 0);
    assert_eq!(libinput_device_config_dwt_get_enabled(Some(&d)), 0);
    assert_eq!(libinput_device_config_dwt_get_default_timeout(Some(&d)), 500);
    assert_eq!(libinput_device_config_dwtp_get_default_timeout(Some(&d)), 300);
    assert_eq!(libinput_device_config_dwtp_set_timeout(Some(&mut d), 100), 0);
    assert_eq!(d.dwtp_timeout, 100);
}

#[test]
fn rotation_stays_within_a_circle() {
    let mut d = device();
    assert_eq!(libinput_device_config_rotation_set_angle(Some(&mut d), 360), 2);
    assert_eq!(libinput_device_config_rotation_set_angle(Some(&mut d), 90), 1);
    assert_eq!(libinput_device_config_rotation_set_angle(Some(&mut d), 0), 0);
    d.rotation_available = true;
    assert_eq!(libinput_device_config_rotation_set_angle(Some(&mut d), 359), 0);
    assert_eq!(libinput_device_config_rotation_get_angle(Some(&d)), 359);
}

#[test]
fn switching_off_prevails_and_lets_go() {
    let mut d = device();
    d.send_events_modes = 3;
    assert_eq!(libinput_device_config_send_events_set_mode(Some(&mut d), 4, false), (1, false));
    assert_eq!(libinput_device_config_send_events_set_mode(Some(&mut d), 3, false), (0, true));
    assert_eq!(libinput_device_config_send_events_get_mode(Some(&d)), 1);
    assert_eq!(libinput_device_config_send_events_set_mode(Some(&mut d), 1, false), (0, false));
    assert_eq!(libinput_device_config_send_events_set_mode(Some(&mut d), 2, false), (0, false));
    d.send_events_mode = 0;
    assert_eq!(libinput_device_config_send_events_set_mode(Some(&mut d), 2, true), (0, true));
    assert_eq!(libinput_device_config_send_events_set_mode(None, 0, true), (1, false));
}

#[test]
fn capabilities_are_numbered() {
    let mut d = device();
    d.has_gesture = true;
    d.has_switch = true;
    assert_eq!(libinput_device_has_capability(Some(&d), 0), 0);
    assert_eq!(libinput_device_has_capability(Some(&d), 5), 1);
    assert_eq!(libinput_device_has_capability(Some(&d), 6), 1);
    assert_eq!(libinput_device_has_capability(Some(&d), 7), 0);
    assert_eq!(libinput_device_has_capability(None, 5), 0);
    assert_eq!(libinput_device_get_name(Some(&d)), Some("some device"));
    assert_eq!(libinput_device_get_devnode(Some(&d)), Some("/dev/input/event3"));
    assert_eq!(libinput_device_get_output_name(Some(&d)), None);
    libinput_device_set_user_data(Some(&mut d), 9);
    assert_eq!(libinput_device_get_user_data(Some(&d)), 9);
}

#[test]
fn names_with_zero_characters_are_replaced() {
    let d = LibinputDevice::new(0, "a\0b", "c\0d", 0, 0);
    assert_eq!(libinput_device_get_name(Some(&d)), Some("Unknown"));
    assert_eq!(libinput_device_get_devnode(Some(&d)), Some(""));
}

#[test]
fn codes_are_asked_of_the_right_devices() {
    let mut d = device();
    d.event_codes = vec![30, 0x110];
    assert_eq!(libinput_device_keyboard_has_key(Some(&d), 30), -1);
    d.has_keyboard = true;
    assert_eq!(libinput_device_keyboard_has_key(Some(&d), 30), 1);
    assert_eq!(libinput_device_keyboard_has_key(Some(&d), 31), 0);
    assert_eq!(libinput_device_keyboard_has_key(Some(&d), 0x1_001e), 0);
    assert_eq!(libinput_device_pointer_has_button(Some(&d), 0x110), -1);
    assert_eq!(libinput_device_pointer_has_button(Some(&d), 0x1_0110), 0);
    assert_eq!(libinput_device_pointer_has_button(None, 0x110), 0);
    d.has_pointer = true;
    assert_eq!(libinput_device_pointer_has_button(Some(&d), 0x110), 1);
    d.switch_codes = vec![0, 10];
    assert_eq!(libinput_device_switch_has_switch(Some(&d), 1), 0);
    d.has_switch = true;
    assert_eq!(libinput_device_switch_has_switch(Some(&d), 1), 1);
    assert_eq!(libinput_device_switch_has_switch(Some(&d), 2), 0);
    assert_eq!(libinput_device_switch_has_switch(Some(&d), 3), 1);
    assert_eq!(libinput_device_switch_has_switch(Some(&d), 4), 0);
    assert_eq!(libinput_device_touch_get_touch_count(Some(&d)), -1);
    d.has_touch = true;
    d.touch_count = 10;
    assert_eq!(libinput_device_touch_get_touch_count(Some(&d)), 10);
}

#[test]
fn pads_tell_their_controls() {
    let mut d = device();
    assert_eq!(libinput_device_tablet_pad_get_num_buttons(Some(&d)), u32::MAX);
    assert_eq!(libinput_device_tablet_pad_has_key(Some(&d), 1), -1);
    d.has_tablet_pad = true;
    d.tablet_pad_button_codes = vec![0x100, 0x101];
    d.tablet_pad_num_rings = 1;
    d.event_codes = vec![1];
    d.tablet_pad_mode_groups = vec![LibinputTabletPadModeGroup {
        refcount: 1,
        user_data: 0,
        index: 3,
        num_modes: 1,
        current_mode: 0,
        button_mask: 0,
        dial_mask: 0,
        ring_mask: 0,
        strip_mask: 0,
        toggle_button_mask: 0,
    }];
    assert_eq!(libinput_device_tablet_pad_get_num_buttons(Some(&d)), 2);
    assert_eq!(libinput_device_tablet_pad_get_num_rings(Some(&d)), 1);
    assert_eq!(libinput_device_tablet_pad_has_key(Some(&d), 1), 1);
    assert_eq!(libinput_device_tablet_pad_get_mode_group(Some(&d), 3), Some(0));
    assert_eq!(libinput_device_tablet_pad_get_mode_group(Some(&d), 0), None);
}
