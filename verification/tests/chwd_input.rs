use libinput_rs::capforge::CapabilityKind;
use libinput_rs::chwd_input::{
    contains_folded, cpu_vendor_of, detect_device, ml_profile_id, parse_hex_u16,
    profile_inventory, rule_matches, select_profile, system_facts, DetectSource, DeviceFacts,
    Guess, MatchRule, SystemFacts,
};
use libinput_rs::hwdetect::Properties;

fn facts<'a>(name: &'a str, kind: CapabilityKind, properties: &'a Properties) -> DeviceFacts<'a> {
    DeviceFacts {
        name,
        bus: 0x11,
        vendor: 0x04f3,
        product: 0x0001,
        kind,
        properties,
        has_relative_motion: false,
        has_absolute_xy: true,
        has_multitouch: true,
        key_count: 3,
    }
}

fn p53() -> SystemFacts {
    SystemFacts {
        dmi_vendor: "LENOVO".into(),
        dmi_product: "ThinkPad P53".into(),
        thinkpad: true,
        ..SystemFacts::default()
    }
}

#[test]
fn p53_phantom_click_filter_requires_an_explicit_device_signature() {
    let system = p53();
    let none = Properties::new();
    let unsigned = facts("ELAN Touchpad", CapabilityKind::Touchpad, &none);
    assert!(select_profile(&system, &unsigned).is_none());

    let mut properties = Properties::new();
    properties.insert(
        "LIBINPUT_RS_P53_PHANTOM_CLICK_SIGNATURE".to_string(),
        "1".to_string(),
    );
    let signed = DeviceFacts {
        properties: &properties,
        ..unsigned
    };
    let decision = select_profile(&system, &signed).unwrap();
    assert_eq!(decision.id, "thinkpad-p53-elan");
    assert!(decision.apply.phantom_click_filter);
}

#[test]
fn unmatched_device_cannot_be_invented_by_ml() {
    let none = Properties::new();
    assert!(select_profile(
        &SystemFacts::default(),
        &facts("Unknown sensor", CapabilityKind::Unknown, &none),
    )
    .is_none());
}

#[test]
fn ml_fallback_cannot_cross_the_capability_lattice() {
    let none = Properties::new();
    let unknown = facts("Unknown sensor", CapabilityKind::Unknown, &none);
    for class in [CapabilityKind::Touchpad, CapabilityKind::Mouse, CapabilityKind::Keyboard] {
        let guess = Some(Guess { class, confident: true });
        let result = detect_device(&SystemFacts::default(), &unknown, guess);
        assert_eq!(result.class, CapabilityKind::Unknown);
        assert_ne!(result.source, DetectSource::MlFallback);
    }
}

#[test]
fn a_guess_that_agrees_labels_an_unmatched_device() {
    let none = Properties::new();
    let mouse = facts("Some mouse", CapabilityKind::Mouse, &none);
    let sure = Some(Guess { class: CapabilityKind::Mouse, confident: true });
    let result = detect_device(&SystemFacts::default(), &mouse, sure);
    assert_eq!(result.source, DetectSource::MlFallback);
    assert_eq!(result.profile_id, ml_profile_id(CapabilityKind::Mouse));
    let unsure = Some(Guess { class: CapabilityKind::Mouse, confident: false });
    let result = detect_device(&SystemFacts::default(), &mouse, unsure);
    assert_eq!(result.source, DetectSource::Heuristic);
    assert_eq!(result.profile_id, "heuristic");
}

#[test]
fn a_guess_never_overrides_a_profile() {
    let mut properties = Properties::new();
    properties.insert(
        "LIBINPUT_RS_P53_PHANTOM_CLICK_SIGNATURE".to_string(),
        "1".to_string(),
    );
    let signed = facts("ELAN Touchpad", CapabilityKind::Touchpad, &properties);
    let guess = Some(Guess { class: CapabilityKind::Touchpad, confident: true });
    let result = detect_device(&p53(), &signed, guess);
    assert_eq!(result.source, DetectSource::Profile);
    assert_eq!(result.profile_id, "thinkpad-p53-elan");
}

#[test]
fn profiles_are_listed_by_name() {
    let list = profile_inventory();
    assert!(list.iter().any(|profile| profile.id == "thinkpad-p53-elan"));
    assert!(list.iter().any(|profile| profile.id == "udev-touchpad" && profile.priority == 10));
}

#[test]
fn generic_touchpads_have_a_generic_profile() {
    let mut properties = Properties::new();
    properties.insert("ID_INPUT_TOUCHPAD".to_string(), "1".to_string());
    let device = facts("Any pad", CapabilityKind::Touchpad, &properties);
    let decision = select_profile(&SystemFacts::default(), &device).unwrap();
    assert_eq!(decision.id, "udev-touchpad");
    assert!(rule_matches(
        MatchRule::Udev("ID_INPUT_TOUCHPAD", "1"),
        &SystemFacts::default(),
        &device
    ));
}

#[test]
fn texts_are_compared_without_regard_to_case() {
    assert!(contains_folded("ThinkPad P53", "thinkpad"));
    assert!(!contains_folded("IdeaPad", "thinkpad"));
    assert_eq!(parse_hex_u16("0x04f3"), 0x04f3);
    assert_eq!(parse_hex_u16("04f3"), 0x04f3);
    assert_eq!(parse_hex_u16("nothing"), 0);
}

#[test]
fn machines_are_told_by_their_tables() {
    let facts = system_facts("LENOVO", "20QNS00000", "ThinkPad P53", "20QNS00000", "GenuineIntel");
    assert!(facts.thinkpad);
    assert!(!facts.apple);
    assert_eq!(
        cpu_vendor_of("processor : 0\nvendor_id\t: AuthenticAMD\n"),
        "AuthenticAMD"
    );
}
