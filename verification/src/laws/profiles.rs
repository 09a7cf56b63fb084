//! What devices are taken for, and the hardware profiles that they get.
use vstd::prelude::*;
use crate::capforge::{bit_spec, count_spec, sysfs_word, word_bit, CapabilityBits, CapabilityKind};
use crate::chwd_input::{
    holds_word, is_apple, is_handheld_name, is_thinkpad, profile_apply_spec, profile_id_spec,
    profile_matches, profile_priority_spec, profile_rules_spec, rule_holds, selected_from,
    DeviceFacts, SystemFacts,
};

verus! {

// ---------------------------------------------------------------------------
// Bitmaps
// ---------------------------------------------------------------------------
/// The bits of a word are the digits of its value in base two, the lowest
/// first.
pub proof fn law_bits_are_binary_digits(word: u64, k: u64)
    requires
        k < 63,
    ensures
        word_bit(word, 0) == (word % 2 == 1),
        word_bit(word, (k + 1) as u64) == word_bit(word / 2, k),
{
    assert((word >> 0u64) & 1 == 1 <==> word % 2 == 1) by (bit_vector);
    let next = (k + 1) as u64;
    assert((word >> next) & 1 == 1 <==> ((word / 2) >> k) & 1 == 1) by (bit_vector)
        requires
            k < 63,
            next == k + 1,
    ;
}

/// Codes are counted from the lowest bit of the first word on, 64 to a word.
pub proof fn law_codes_go_on_in_the_next_word(bits: Seq<u64>, code: u16)
    requires
        bits.len() > 0,
    ensures
        code < 64 ==> bit_spec(bits, code) == word_bit(bits[0], code as u64),
        code >= 64 ==> bit_spec(bits, code) == bit_spec(bits.skip(1), (code - 64) as u16),
        code >= 64 * bits.len() ==> !bit_spec(bits, code),
{
}

/// The kernel writes the highest word first: a word that is written behind the
/// others is the lowest.
pub proof fn law_the_highest_word_comes_first(list: Seq<Seq<char>>, word: Seq<char>, i: int)
    requires
        i >= 0,
    ensures
        sysfs_word(list.push(word), 0) == sysfs_word(seq![word], 0),
        sysfs_word(list.push(word), i + 1) == sysfs_word(list, i),
{
    let more = list.push(word);
    assert(more[more.len() - 1] == word);
    if i < list.len() {
        assert(more[more.len() - 1 - (i + 1)] == list[list.len() - 1 - i]);
    }
}

/// Each code counts once, and no code counts that is not there.
pub proof fn law_every_code_counts_once(bits: Seq<u64>, low: int, mid: int, high: int)
    requires
        0 <= low <= mid <= high <= 0x1_0000,
    ensures
        count_spec(bits, low, high) == count_spec(bits, low, mid) + count_spec(bits, mid, high),
        low < 0x1_0000 ==> count_spec(bits, low, low + 1) == (if bit_spec(bits, low as u16) {
            1nat
        } else {
            0nat
        }),
        count_spec(bits, low, high) <= high - low,
    decreases high - low,
{
    if low < high {
        if mid < high {
            law_every_code_counts_once(bits, low, mid, high - 1);
        } else {
            law_every_code_counts_once(bits, low, low, high - 1);
        }
    }
    assert(count_spec(bits, low, low) == 0);
    if low < 0x1_0000 {
        assert(count_spec(bits, low, low + 1) == count_spec(bits, low, low) + if bit_spec(
            bits,
            low as u16,
        ) {
            1nat
        } else {
            0nat
        });
    }
}

// ---------------------------------------------------------------------------
// Kinds
// ---------------------------------------------------------------------------
/// What makes a kind. A position (absolute events with both axes) makes a
/// tablet with a pen (0x140), a touchpad with a finger (0x145) or a touch
/// (0x14a) on an indirect pointer, a touchscreen where it is direct or has
/// several contacts. Movement with a left button (0x110) makes a mouse, a
/// trigger (0x120) with axes a joystick, more than 20 keys a keyboard, fewer
/// keys single keys. What remains may be a switch.
pub proof fn law_kinds_have_their_evidence(b: CapabilityBits)
    ensures
        ({
            let kind = b.kind();
            let position = b.event(3) && b.absolute_axis(0) && b.absolute_axis(1);
            let pen = b.has_key_spec(0x140);
            let indirect = b.has_key_spec(0x14a) && b.property(0) && !b.property(1);
            let finger = b.has_key_spec(0x145);
            let contacts = b.absolute_axis(0x2f) || b.absolute_axis(0x35);
            let moves = b.event(2) && (b.relative(0) || b.relative(1)) && b.has_key_spec(0x110);
            let keys = count_spec(b.key@, 1, 255);
            &&& kind == CapabilityKind::Tablet <==> position && pen
            &&& kind == CapabilityKind::Touchpad <==> position && !pen && (finger || indirect)
            &&& kind == CapabilityKind::Touchscreen <==> position && !pen && !finger && !indirect
                && (b.property(1) || (b.has_key_spec(0x14a) && contacts))
            &&& kind == CapabilityKind::Mouse ==> moves
            &&& moves && !position ==> kind == CapabilityKind::Mouse
            &&& kind == CapabilityKind::Joystick ==> b.has_key_spec(0x120) && b.event(3) && !moves
            &&& !position && !moves && b.has_key_spec(0x120) && b.event(3) ==> kind
                == CapabilityKind::Joystick
            &&& kind == CapabilityKind::Keyboard ==> b.event(1) && keys > 20
            &&& kind == CapabilityKind::Key ==> b.event(1) && 0 < keys <= 20
            &&& !b.event(3) && !b.event(2) && b.event(1) && keys > 20 ==> kind
                == CapabilityKind::Keyboard
            &&& !b.event(3) && !b.event(2) && b.event(1) && 0 < keys <= 20 ==> kind
                == CapabilityKind::Key
            &&& kind == CapabilityKind::Switch ==> b.event(5) && !b.event(1)
            &&& !b.event(1) && !b.event(2) && !b.event(3) && b.event(5) ==> kind
                == CapabilityKind::Switch
        }),
{
}

// ---------------------------------------------------------------------------
// Profiles
// ---------------------------------------------------------------------------
proof fn lemma_x230(system: SystemFacts, device: DeviceFacts<'_>)
    ensures
        profile_matches(0, system, device) <==> system.thinkpad && (holds_word(
            system.dmi_product@,
            "x230"@,
        ) || holds_word(system.dmi_product_version@, "x230"@)) && device.kind
            == CapabilityKind::Touchpad,
{
    let rules = profile_rules_spec(0);
    assert(rules.len() == 3);
    if profile_matches(0, system, device) {
        assert(rule_holds(rules[0], system, device));
        assert(rule_holds(rules[1], system, device));
        assert(rule_holds(rules[2], system, device));
    }
}

proof fn lemma_p53(system: SystemFacts, device: DeviceFacts<'_>)
    ensures
        profile_matches(1, system, device) ==> system.thinkpad && device.kind
            == CapabilityKind::Touchpad,
        profile_matches(1, system, device) <==> system.thinkpad && (holds_word(
            system.dmi_product@,
            "p53"@,
        ) || holds_word(system.dmi_product_version@, "p53"@)) && holds_word(
            device.name@,
            "elan"@,
        ) && device.kind == CapabilityKind::Touchpad && device.properties@.contains_key(
            "LIBINPUT_RS_P53_PHANTOM_CLICK_SIGNATURE"@,
        ) && device.properties@["LIBINPUT_RS_P53_PHANTOM_CLICK_SIGNATURE"@] == "1"@,
{
    let rules = profile_rules_spec(1);
    assert(rules.len() == 5);
    if profile_matches(1, system, device) {
        assert(rule_holds(rules[0], system, device));
        assert(rule_holds(rules[1], system, device));
        assert(rule_holds(rules[2], system, device));
        assert(rule_holds(rules[3], system, device));
        assert(rule_holds(rules[4], system, device));
    }
}

proof fn lemma_others(system: SystemFacts, device: DeviceFacts<'_>)
    ensures
        profile_matches(2, system, device) <==> system.thinkpad && holds_word(
            device.name@,
            "trackpoint"@,
        ),
        profile_matches(3, system, device) <==> system.apple && device.kind
            == CapabilityKind::Touchpad,
        profile_matches(4, system, device) <==> system.handheld && device.kind
            == CapabilityKind::Touchpad,
        profile_matches(5, system, device) <==> device.properties@.contains_key(
            "ID_INPUT_TOUCHPAD"@,
        ) && device.properties@["ID_INPUT_TOUCHPAD"@] == "1"@,
{
    let two = profile_rules_spec(2);
    let three = profile_rules_spec(3);
    let four = profile_rules_spec(4);
    let five = profile_rules_spec(5);
    assert(two.len() == 2 && three.len() == 2 && four.len() == 2 && five.len() == 1);
    if profile_matches(2, system, device) {
        assert(rule_holds(two[0], system, device));
        assert(rule_holds(two[1], system, device));
    }
    if profile_matches(3, system, device) {
        assert(rule_holds(three[0], system, device));
        assert(rule_holds(three[1], system, device));
    }
    if profile_matches(4, system, device) {
        assert(rule_holds(four[0], system, device));
        assert(rule_holds(four[1], system, device));
    }
    if profile_matches(5, system, device) {
        assert(rule_holds(five[0], system, device));
    }
}

/// Which profile a device gets: a touchpad of a ThinkPad X230 that of its
/// model, a pointing stick of a ThinkPad that of pointing sticks, the touchpad
/// of an Apple machine or of a handheld that of its kind, and any other
/// touchpad that udev knows the plain one. Nothing else gets a profile.
pub proof fn law_devices_get_the_profile_of_their_hardware(
    system: SystemFacts,
    device: DeviceFacts<'_>,
)
    ensures
        ({
            let k = selected_from(0, system, device);
            let touchpad = device.kind == CapabilityKind::Touchpad;
            let x230 = holds_word(system.dmi_product@, "x230"@) || holds_word(
                system.dmi_product_version@,
                "x230"@,
            );
            let stick = holds_word(device.name@, "trackpoint"@);
            let tagged = device.properties@.contains_key("ID_INPUT_TOUCHPAD"@)
                && device.properties@["ID_INPUT_TOUCHPAD"@] == "1"@;
            &&& system.thinkpad && x230 && touchpad ==> k is Some && profile_id_spec(k->0)
                == "lenovo-x230-touchpad"@
            &&& system.thinkpad && stick && !touchpad ==> k is Some && profile_id_spec(k->0)
                == "thinkpad-trackpoint"@
            &&& !system.thinkpad && system.apple && touchpad ==> k is Some && profile_id_spec(k->0)
                == "apple-touchpad"@
            &&& !system.thinkpad && !system.apple && system.handheld && touchpad ==> k is Some
                && profile_id_spec(k->0) == "handheld-touchpad"@
            &&& !system.thinkpad && !system.apple && !system.handheld && tagged ==> k is Some
                && profile_id_spec(k->0) == "udev-touchpad"@
            &&& !system.thinkpad && !tagged && !touchpad ==> k is None
        }),
{
    reveal_with_fuel(selected_from, 7);
    lemma_x230(system, device);
    lemma_p53(system, device);
    lemma_others(system, device);
}

/// What a profile changes belongs to its hardware: the motion of the X230 to
/// its touchpad, the multiplier to pointing sticks, the filter to the P53.
/// The more special a profile, the more important it is.
pub proof fn law_profiles_change_what_they_are_for(k: int)
    requires
        0 <= k < 6,
    ensures
        profile_apply_spec(k).lenovo_x230_motion ==> profile_id_spec(k) == "lenovo-x230-touchpad"@,
        profile_apply_spec(k).trackpoint_multiplier is Some ==> profile_id_spec(k)
            == "thinkpad-trackpoint"@,
        profile_apply_spec(k).phantom_click_filter ==> profile_id_spec(k) == "thinkpad-p53-elan"@,
        profile_apply_spec(0).lenovo_x230_motion && profile_apply_spec(1).phantom_click_filter
            && profile_apply_spec(2).trackpoint_multiplier == Some(1u32),
        profile_priority_spec(0) == 100 && profile_priority_spec(1) == 90 && profile_priority_spec(
            2,
        ) == 80 && profile_priority_spec(3) == 70 && profile_priority_spec(4) == 60
            && profile_priority_spec(5) == 10,
{
}

/// A machine is a ThinkPad only if Lenovo made it and any of its names says so.
pub proof fn law_thinkpads_are_made_by_lenovo(
    vendor: Seq<char>,
    product: Seq<char>,
    version: Seq<char>,
    board: Seq<char>,
)
    ensures
        is_thinkpad(vendor, product, version, board) ==> holds_word(vendor, "lenovo"@),
        holds_word(vendor, "lenovo"@) ==> (is_thinkpad(vendor, product, version, board) <==> (
        holds_word(product, "thinkpad"@) || holds_word(version, "thinkpad"@) || holds_word(
            board,
            "thinkpad"@,
        ))),
        is_apple(vendor, product, version) <==> holds_word(vendor, "apple"@) || holds_word(
            product,
            "macbook"@,
        ) || holds_word(version, "macbook"@),
        is_handheld_name(product) <==> holds_word(product, "jupiter"@) || holds_word(
            product,
            "galileo"@,
        ) || holds_word(product, "steam deck"@) || holds_word(product, "rog ally"@) || holds_word(
            product,
            "rc71"@,
        ),
{
}

/// A device without a profile is left as it is.
pub proof fn law_without_a_profile_nothing_is_applied()
    ensures
        !crate::chwd_input::nothing_applied().lenovo_x230_motion,
        !crate::chwd_input::nothing_applied().phantom_click_filter,
        crate::chwd_input::nothing_applied().trackpoint_multiplier is None,
{
}

/// A word of capabilities has no sign.
pub proof fn law_words_have_no_sign(word: Seq<char>)
    ensures
        crate::capforge::word_value(seq!['-'] + word) == 0,
{
    let signed = seq!['-'] + word;
    assert(signed[0] == '-');
    assert(!crate::text::all_digits(signed, 16));
}

} // verus!
