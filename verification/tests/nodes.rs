use libinput_rs::nodes::{event_nodes, is_event_node, quirk_names};

fn names(list: &[&str]) -> Vec<String> {
    list.iter().map(|name| name.to_string()).collect()
}

#[test]
fn enumeration_does_not_open_event_nodes() {
    // Only names decide; what they lead to is never looked at.
    let entries = names(&["mouse0", "event12", "eventx", "event0"]);
    assert_eq!(event_nodes(&entries), vec!["event0".to_string(), "event12".to_string()]);
}

#[test]
fn missing_input_directory_is_empty() {
    assert_eq!(event_nodes(&Vec::new()).len(), 0);
}

#[test]
fn event_nodes_are_numbered() {
    assert!(is_event_node("event0"));
    assert!(is_event_node("event123"));
    assert!(!is_event_node("event"));
    assert!(!is_event_node("event1a"));
    assert!(!is_event_node("js0"));
}

#[test]
fn names_are_sorted_as_texts() {
    assert_eq!(
        event_nodes(&names(&["event2", "event10", "event1"])),
        names(&["event1", "event10", "event2"])
    );
}

#[test]
fn quirks_files_have_a_name_and_an_ending() {
    assert_eq!(
        quirk_names(&names(&["50-b.quirks", "readme", ".quirks", "10-a.quirks", "x.quirks~"])),
        names(&["10-a.quirks", "50-b.quirks"])
    );
}
