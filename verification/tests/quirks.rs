use libinput_rs::quirks::apply::{apply_quirks, match_property, AppliedQuirks, DeviceIdentity};
use libinput_rs::quirks::glob::glob_matches;
use libinput_rs::quirks::section::{
    key_code_name, parse_bool, parse_key_code, parse_number, parse_pressure_range,
};

fn identity(name: &str, bus: u16, vendor: u16, product: u16, types: &[&str]) -> DeviceIdentity {
    DeviceIdentity {
        name: name.to_string(),
        bus,
        vendor,
        product,
        version: 0,
        udev_types: types.iter().map(|text| text.to_string()).collect(),
        dmi_modalias: String::new(),
        device_tree: String::new(),
    }
}

fn letters(text: &str) -> Vec<char> {
    text.chars().collect()
}

#[test]
fn glob_supports_quirk_name_patterns() {
    assert!(glob_matches(
        "*Logitech*Marble*",
        "Logitech USB Marble Mouse"
    ));
    assert!(!glob_matches(
        "*Logitech*M575*",
        "Logitech USB Marble Mouse"
    ));
}

#[test]
fn parses_numeric_and_named_key_codes() {
    assert_eq!(parse_key_code("EV_KEY:0x118"), Some(0x118));
    assert_eq!(parse_key_code("BTN_MIDDLE"), Some(0x112));
    assert_eq!(parse_key_code("EV_ABS:0x00"), None);
}

#[test]
fn globs_match_single_characters_and_whole_texts() {
    assert!(glob_matches("a?c", "abc"));
    assert!(!glob_matches("a?c", "ac"));
    assert!(glob_matches("*", ""));
    assert!(!glob_matches("abc", "abcd"));
    assert!(glob_matches("a*b*c", "a-b-b-c"));
}

#[test]
fn key_names_are_read_back() {
    for code in 0..0x300_u16 {
        if let Some(name) = key_code_name(code) {
            assert_eq!(parse_key_code(name), Some(code));
        }
    }
    assert_eq!(key_code_name(0x110), Some("BTN_LEFT"));
    assert_eq!(key_code_name(1), None);
}

#[test]
fn values_are_parsed() {
    assert_eq!(parse_bool(&letters("1")), Some(true));
    assert_eq!(parse_bool(&letters("0")), Some(false));
    assert_eq!(parse_bool(&letters("maybe")), None);
    assert_eq!(parse_number(&letters("0x1f")), Some(0x1f));
    assert_eq!(parse_number(&letters("31")), Some(31));
    assert_eq!(parse_number(&letters("x")), None);
    assert_eq!(parse_pressure_range(&letters("20:10")), Some((20, 10)));
    assert_eq!(parse_pressure_range(&letters("20")), None);
}

#[test]
fn applies_apple_touchpad_onebutton_quirk() {
    let file = "[Apple touchpad]\nMatchVendor=0x05AC\nMatchProduct=0x021A\n\
                MatchUdevType=touchpad\nModelAppleTouchpadOneButton=1\n";
    let id = identity("litest appletouch", 0x03, 0x05ac, 0x021a, &["touchpad"]);
    let applied = apply_quirks(&vec![file.to_string()], &id, Vec::new());
    assert!(applied.models.apple_touchpad_onebutton);

    let other = identity("litest appletouch", 0x03, 0x05ac, 0x021b, &["touchpad"]);
    let applied = apply_quirks(&vec![file.to_string()], &other, Vec::new());
    assert!(!applied.models.apple_touchpad_onebutton);
}

#[test]
fn unknown_conditions_never_match() {
    let id = identity("any", 3, 1, 2, &["mouse"]);
    assert!(!match_property("MatchSomethingNew", "*", &id));
    assert!(match_property("MatchName", "a*", &id));
    assert!(match_property("MatchBus", "usb", &id));
    assert!(!match_property("MatchBus", "bluetooth", &id));
    assert!(match_property("MatchUdevType", "mouse", &id));
}

#[test]
fn event_codes_are_added_and_removed() {
    let file = "[x]\nMatchName=any\nAttrEventCode=-BTN_MIDDLE;+BTN_SIDE\n";
    let id = identity("any", 3, 1, 2, &["mouse"]);
    let applied = apply_quirks(&vec![file.to_string()], &id, vec![0x110, 0x112]);
    assert_eq!(applied.codes.codes, vec![0x110, 0x113]);
}

#[test]
fn later_sections_prevail() {
    let file = "[a]\nMatchName=any\nAttrPressureRange=10:8\n\n[b]\nMatchName=any\n\
                AttrPressureRange=30:20\n";
    let id = identity("any", 3, 1, 2, &[]);
    let applied = apply_quirks(&vec![file.to_string()], &id, Vec::new());
    assert_eq!(applied.attributes.pressure_range, Some((30, 20)));
}

#[test]
fn nothing_applies_without_files() {
    let id = identity("any", 3, 1, 2, &[]);
    let applied: AppliedQuirks = apply_quirks(&Vec::new(), &id, vec![1]);
    assert!(applied.messages.is_empty());
    assert!(!applied.models.trackball);
}
