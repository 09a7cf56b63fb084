use libinput_rs::hwdetect::{
    is_input_uevent, parse_udev_database, udev_database_is_present, udev_database_name,
    HardwareDiscovery, Properties,
};

#[test]
fn uevent_parser_accepts_only_input_messages() {
    assert!(is_input_uevent(
        b"libudev\0ACTION=add\0SUBSYSTEM=input\0DEVNAME=input/event8\0"
    ));
    assert!(!is_input_uevent(
        b"libudev\0ACTION=add\0SUBSYSTEM=block\0DEVNAME=sda\0"
    ));
}

#[test]
fn udev_database_parser_keeps_environment_properties() {
    let mut properties = Properties::new();
    parse_udev_database(
        "I:123\nE:ID_INPUT=1\nE:ID_SEAT=seat-test\nG:seat\n",
        &mut properties,
    );
    assert_eq!(properties.get("ID_INPUT").map(String::as_str), Some("1"));
    assert_eq!(
        properties.get("ID_SEAT").map(String::as_str),
        Some("seat-test")
    );
    assert_eq!(properties.len(), 2);
}

#[test]
fn later_properties_replace_earlier_ones() {
    let mut properties = Properties::new();
    parse_udev_database("E:A=1\nE:A=2\nE:broken\n", &mut properties);
    assert!(properties.equals("A", "2"));
    assert!(!properties.equals("A", "1"));
    assert_eq!(properties.len(), 1);
    properties.insert("B".to_string(), "x=y".to_string());
    assert_eq!(properties.get("B").map(String::as_str), Some("x=y"));
    assert!(properties.get("C").is_none());
}

#[test]
fn database_entries_are_named_by_device_numbers() {
    // Character device 13:64, as the kernel packs its numbers.
    assert_eq!(udev_database_name((13 << 8) | 64), "c13:64");
    // Numbers that need the upper bits too.
    assert_eq!(udev_database_name(0x0000_1000_0000_0000), "c4096:0");
    assert_eq!(udev_database_name(0x10_0d00), "c13:256");
}

#[test]
fn the_database_is_there_if_any_of_its_places_is() {
    assert!(udev_database_is_present(&vec![false, true]));
    assert!(!udev_database_is_present(&vec![false, false]));
}

#[test]
fn reconciliation_comes_after_a_while_or_on_a_change() {
    let second = 1_000_000_000_u64;
    let mut discovery = HardwareDiscovery::new(10 * second);
    assert!(discovery.next_reconcile(10 * second) > 0);
    assert!(discovery.drain_changed(true, 10 * second + 1));
    assert!(!discovery.drain_changed(false, 10 * second + 2));
    let left = discovery.next_reconcile(10 * second + 2);
    assert!(discovery.drain_changed(false, 10 * second + 2 + left));
}
