use libinput_rs::evtrans::{
    contains_code, empty_seat_code_counts, is_button_code, remove_code, transition_button,
    update_seat_count, SeatCodeCounts,
};

#[test]
fn mixed_nodes_keep_keyboard_and_button_ranges_separate() {
    assert!(!is_button_code(30));
    assert!(!is_button_code(42));
    assert!(is_button_code(0x100));
    assert!(is_button_code(0x110));
    assert!(is_button_code(0x2c0));
}

#[test]
fn counts_are_independent_and_unmatched_releases_are_safe() {
    let mut counts = empty_seat_code_counts();
    assert_eq!(update_seat_count(&mut counts, 30, true), 1);
    assert_eq!(update_seat_count(&mut counts, 42, true), 1);
    assert_eq!(update_seat_count(&mut counts, 30, true), 2);
    assert_eq!(update_seat_count(&mut counts, 42, false), 0);
    assert_eq!(update_seat_count(&mut counts, 30, false), 1);
    assert_eq!(update_seat_count(&mut counts, 30, false), 0);
    assert_eq!(update_seat_count(&mut counts, 30, false), 0);
}

fn press_chord(counts: &mut SeatCodeCounts, codes: &[u16]) {
    for code in codes {
        assert_eq!(update_seat_count(counts, *code, true), 1);
    }
    for code in codes.iter().rev() {
        assert_eq!(update_seat_count(counts, *code, false), 0);
    }
}

#[test]
fn keyboard_chords_keep_independent_per_code_state() {
    let mut counts = empty_seat_code_counts();
    press_chord(&mut counts, &[42, 2]); // Shift+1
    press_chord(&mut counts, &[42, 30]); // Shift+A
    press_chord(&mut counts, &[29, 56]); // Ctrl+Alt
    press_chord(&mut counts, &[30, 48]); // A+B
}

#[test]
fn duplicate_keyboards_count_the_same_key_per_device() {
    let mut counts = empty_seat_code_counts();
    assert_eq!(update_seat_count(&mut counts, 30, true), 1);
    assert_eq!(update_seat_count(&mut counts, 30, true), 2);
    assert_eq!(update_seat_count(&mut counts, 30, false), 1);
    assert_eq!(update_seat_count(&mut counts, 30, false), 0);
}

#[test]
fn simultaneous_mouse_buttons_are_independent() {
    let mut counts = empty_seat_code_counts();
    for button in [0x110, 0x111, 0x112] {
        assert_eq!(update_seat_count(&mut counts, button, true), 1);
    }
    assert_eq!(counts[0x110], 1);
    assert_eq!(counts[0x111], 1);
    assert_eq!(counts[0x112], 1);
    for button in [0x111, 0x110, 0x112] {
        assert_eq!(update_seat_count(&mut counts, button, false), 0);
    }
}

#[test]
fn out_of_range_codes_cannot_corrupt_seat_state() {
    let mut counts = empty_seat_code_counts();
    assert_eq!(update_seat_count(&mut counts, u16::MAX, true), 0);
    assert!(counts.iter().all(|count| *count == 0));
}

#[test]
fn button_lifecycle_is_exactly_once() {
    let mut held = Vec::new();
    assert!(!transition_button(&mut held, 0x110, false));
    assert!(transition_button(&mut held, 0x110, true));
    assert!(!transition_button(&mut held, 0x110, true));
    assert!(transition_button(&mut held, 0x110, false));
    assert!(held.is_empty());
}

#[test]
fn the_last_counted_code_is_the_last_of_the_table() {
    let mut counts = empty_seat_code_counts();
    assert_eq!(update_seat_count(&mut counts, 0x2ff, true), 1);
    assert_eq!(update_seat_count(&mut counts, 0x300, true), 0);
}

#[test]
fn codes_are_found_and_removed() {
    let mut codes = vec![1, 2, 3, 2];
    assert!(contains_code(&codes, 2));
    remove_code(&mut codes, 2);
    assert_eq!(codes, vec![1, 3]);
    assert!(!contains_code(&codes, 2));
}
