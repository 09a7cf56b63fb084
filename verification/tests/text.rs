use libinput_rs::clock::{elapsed, later, passed, systime_to_usec, timer_setting, within};
use libinput_rs::text::{
    begins_with, contains_text, decimal, equal, equal_folded, find_last, find_text, hexadecimal,
    letters, lines, parse_i32, parse_unsigned, same_text, split, split_once, string_of, strip,
    to_lower, trim, words,
};

fn text(chars: &[char]) -> String {
    chars.iter().collect()
}

#[test]
fn texts_are_taken_apart_and_put_together() {
    let chars = letters("caf\u{e9} 1");
    assert_eq!(chars.len(), 6);
    assert_eq!(string_of(&chars), "caf\u{e9} 1");
    assert_eq!(string_of(&[]), "");
}

#[test]
fn numbers_are_written_in_both_bases() {
    assert_eq!(decimal(0), "0");
    assert_eq!(decimal(u64::MAX), "18446744073709551615");
    assert_eq!(hexadecimal(0x1a2b), "1a2b");
    assert_eq!(hexadecimal(0), "0");
}

#[test]
fn numbers_are_read_within_their_range() {
    assert_eq!(parse_unsigned(&letters("ff"), 16, 255), Some(255));
    assert_eq!(parse_unsigned(&letters("100"), 16, 255), None);
    assert_eq!(parse_unsigned(&letters(""), 10, 255), None);
    assert_eq!(parse_i32(&letters("-2147483648")), Some(i32::MIN));
    assert_eq!(parse_i32(&letters("2147483648")), None);
    assert_eq!(parse_i32(&letters("+7")), Some(7));
}

#[test]
fn parts_are_found() {
    let chars = letters("one,two,,three");
    let parts: Vec<String> = split(&chars, ',').iter().map(|part| text(part)).collect();
    assert_eq!(parts, vec!["one", "two", "", "three"]);
    let (a, b) = split_once(&chars, ',').unwrap();
    assert_eq!((text(a), text(b)), ("one".to_string(), "two,,three".to_string()));
    assert!(split_once(&letters("none"), ',').is_none());
    assert!(contains_text(&chars, "two"));
    assert!(!contains_text(&chars, "four"));
    assert!(begins_with(&chars, "one"));
    assert_eq!(strip(&chars, "one,").map(text), Some("two,,three".to_string()));
    assert!(strip(&chars, "two").is_none());
    assert_eq!(find_text(&chars, "two"), 4);
    assert_eq!(find_last(&chars, ','), Some(8));
}

#[test]
fn white_space_separates_words_and_lines() {
    assert_eq!(text(trim(&letters(" \t a b \n"))), "a b");
    let parts: Vec<String> = words(&letters("  a \n bc ")).iter().map(|w| text(w)).collect();
    assert_eq!(parts, vec!["a", "bc"]);
    let parts: Vec<String> = lines(&letters("a\r\nb\n\nc")).iter().map(|l| text(l)).collect();
    assert_eq!(parts, vec!["a", "b", "", "c"]);
}

#[test]
fn case_is_folded_for_ascii_letters() {
    assert_eq!(text(&to_lower(&letters("AbC-1"))), "abc-1");
    assert!(equal_folded(&letters("USB"), "usb"));
    assert!(equal("a", "a") && !equal("a", "b"));
    assert!(same_text(&letters("x"), "x"));
}

#[test]
fn moments_are_compared_without_wrapping() {
    assert_eq!(elapsed(5, 3), 2);
    assert_eq!(elapsed(3, 5), 0);
    assert!(passed(10, Some(4), 6));
    assert!(!passed(10, None, 6));
    assert!(within(9, Some(4), 6));
    assert!(!within(10, Some(4), 6));
    assert_eq!(later(u64::MAX, 1), u64::MAX);
    assert_eq!(later(1, 2), 3);
    assert_eq!(systime_to_usec(2, 5), 2_000_005);
}

#[test]
fn timers_are_set_to_fire() {
    let never = timer_setting(None);
    assert_eq!((never.seconds, never.nanos), (0, 0));
    let at_once = timer_setting(Some(0));
    assert_eq!((at_once.seconds, at_once.nanos), (0, 1));
    let soon = timer_setting(Some(1_500_000_000));
    assert_eq!((soon.seconds, soon.nanos), (1, 500_000_000));
}
