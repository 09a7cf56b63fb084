use libinput_rs::udev_callout::{
    axis_property, device_group, fuzz_needs_change, fuzz_property, is_fuzz_axis,
    parse_evdev_abs_fuzz, sanitize,
};

#[test]
fn extracts_the_fourth_evdev_abs_field() {
    assert_eq!(parse_evdev_abs_fuzz("0:100:20:7"), Some(7));
    assert_eq!(parse_evdev_abs_fuzz("::20:12"), Some(12));
    assert_eq!(parse_evdev_abs_fuzz("0:100:20:"), None);
}

#[test]
fn four_axes_hand_their_fuzz_on() {
    assert!(is_fuzz_axis(0x00) && is_fuzz_axis(0x01));
    assert!(is_fuzz_axis(0x35) && is_fuzz_axis(0x36));
    assert!(!is_fuzz_axis(0x02));
    assert_eq!(fuzz_property(0x35), Some("LIBINPUT_FUZZ_35"));
    assert_eq!(fuzz_property(0x02), None);
    assert_eq!(axis_property(0x01), Some("EVDEV_ABS_01"));
    assert_eq!(axis_property(0x28), None);
}

#[test]
fn fuzz_is_only_written_where_it_changes() {
    assert!(fuzz_needs_change(Some(4), 0));
    assert!(!fuzz_needs_change(Some(0), 0));
    assert!(!fuzz_needs_change(None, 0));
}

#[test]
fn unprintable_characters_are_replaced() {
    assert_eq!(sanitize("usb 1/in\u{e9}put0"), "usb_1/in_put0");
}

#[test]
fn groups_are_made_of_identity_and_port() {
    assert_eq!(
        device_group(Some("3/056a/00de/0110"), "usb-0000:00:14.0-3.2/input0"),
        "3/56a/de:usb-0000:00:14.0-3"
    );
    assert_eq!(
        device_group(None, "isa0060/serio1/input0"),
        "0/0/0:isa0060/serio1"
    );
    assert_eq!(device_group(Some("odd"), "x"), "odd:x");
}
