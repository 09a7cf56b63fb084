use libinput_rs::capforge::{parse_sysfs_hex, CapabilityBits, CapabilityKind};

#[test]
fn sysfs_words_are_reversed_into_ioctl_order() {
    let words = parse_sysfs_hex::<3>("8000000000000000 20 1\n");
    assert_eq!(words[0] as u64, 1);
    assert_eq!(words[1] as u64, 0x20);
    assert_eq!(words[2] as u64, 0x8000_0000_0000_0000);
}

#[test]
fn classifiers_agree_on_touchpad_and_mixed_keyboard_evidence() {
    let mut touchpad = CapabilityBits::default();
    touchpad.set_event(1);
    touchpad.set_event(3);
    touchpad.set_absolute(0);
    touchpad.set_absolute(1);
    touchpad.set_key(0x145);
    touchpad.set_key(0x14a);
    touchpad.set_property(0);
    assert_eq!(touchpad.classify(), CapabilityKind::Touchpad);

    for key in 1..=30 {
        touchpad.set_key(key);
    }
    assert_eq!(touchpad.classify(), CapabilityKind::Touchpad);
}

#[test]
fn classifiers_agree_on_relative_pointer_and_switch() {
    let mut mouse = CapabilityBits::default();
    mouse.set_event(1);
    mouse.set_event(2);
    mouse.set_relative(0);
    mouse.set_relative(1);
    mouse.set_key(0x110);
    assert_eq!(mouse.classify(), CapabilityKind::Mouse);

    let mut switch = CapabilityBits::default();
    switch.set_event(5);
    assert_eq!(switch.classify(), CapabilityKind::Switch);
}

#[test]
fn nothing_is_known_without_evidence() {
    let bits = CapabilityBits::default();
    assert_eq!(bits.classify(), CapabilityKind::Unknown);
    assert_eq!(bits.key_count(), 0);
    assert!(!bits.has_event(0));
}

#[test]
fn kinds_have_their_numbers() {
    assert_eq!(CapabilityKind::from_code(4), CapabilityKind::Touchpad);
    assert_eq!(CapabilityKind::from_code(8), CapabilityKind::Switch);
    assert_eq!(CapabilityKind::from_code(99), CapabilityKind::Unknown);
}

#[test]
fn sysfs_bitmaps_give_capabilities() {
    let bits = CapabilityBits::from_sysfs("7", "10000 0 0 0 0", "3", "0", "0");
    assert!(bits.has_event(1));
    assert!(bits.has_relative(0));
    assert!(bits.has_relative(1));
    assert!(bits.has_key(0x110));
    assert_eq!(bits.key_count(), 1);
    assert_eq!(bits.classify(), CapabilityKind::Mouse);
}

#[test]
fn codes_out_of_range_are_ignored() {
    let mut bits = CapabilityBits::default();
    bits.set_key(u16::MAX);
    assert_eq!(bits.key_count(), 0);
    bits.add_keys(&vec![1, 2, 2]);
    assert_eq!(bits.key_count(), 2);
}

#[test]
fn words_that_are_no_numbers_count_as_empty() {
    let words = parse_sysfs_hex::<2>("zz 5");
    assert_eq!(words[0], 5);
    assert_eq!(words[1], 0);
}
