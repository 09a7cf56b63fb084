//! Settings of devices: which are accepted, which are refused and why, and
//! what holds by default.
use vstd::prelude::*;
use crate::api::device_config::{
    accel_is_available, area_has_rectangle, calibration_has_matrix,
    click_get_default_clickfinger_button_map, click_get_default_method, click_get_method,
    click_get_methods, dwt_is_available, dwtp_is_available, left_handed_is_available,
    middle_emulation_get_default_enabled, middle_emulation_is_available, rotation_get_angle,
    rotation_is_available, scroll_get_default_button, scroll_get_default_method,
    scroll_get_default_natural_scroll_enabled, scroll_get_method, scroll_get_methods,
    scroll_has_natural_scroll, send_events_get_mode, send_events_get_modes, tap_get_button_map,
    tap_get_default_enabled, tap_get_drag_enabled, tap_get_drag_lock_enabled, tap_get_finger_count,
    drag_3fg_drag_get_enabled, accel_get_default_profile, accel_get_profile, accel_get_profiles,
    accel_set_profile_status, click_get_clickfinger_button_map,
    click_set_clickfinger_button_map_status, click_set_method_status,
    drag_3fg_drag_get_finger_count, drag_3fg_drag_set_enabled_status, dwt_get_default_enabled,
    dwt_get_default_timeout, dwt_get_enabled, dwt_get_timeout, dwt_set_enabled_status,
    dwt_set_timeout_status, dwtp_get_default_enabled, dwtp_get_default_timeout, dwtp_get_enabled,
    dwtp_get_timeout, dwtp_set_enabled_status, dwtp_set_timeout_status, effective_mode,
    left_handed_get, left_handed_set_status, lets_go, middle_emulation_get_enabled,
    middle_emulation_set_enabled_status, rotation_set_angle_status, scroll_get_button,
    scroll_get_button_lock, scroll_get_natural_scroll_enabled, scroll_set_button_lock_status,
    scroll_set_button_status, scroll_set_method_status, scroll_set_natural_scroll_enabled_status,
    tap_get_default_drag_enabled, tap_get_enabled, tap_set_button_map_status,
    tap_set_drag_enabled_status, tap_set_drag_lock_enabled_status, tap_set_enabled_status,
};
use crate::api::device_info::{has_capability, has_code, switch_code};
use crate::api::tablets::{in_mask, is_eraser_button};
use crate::ffi_types::LibinputDevice;

verus! {

/// The answer to a request: 0 where it is granted, 1 where the device cannot,
/// 2 where it makes no sense.
pub open spec fn answers(status: u32, sensible: bool, possible: bool) -> bool {
    &&& status == 0 <==> sensible && possible
    &&& !sensible ==> status == 2
    &&& sensible && !possible ==> status == 1
}

/// Tapping and what belongs to it can be switched on only on a touchpad that
/// taps, and off everywhere.
pub proof fn law_tapping_takes_a_touchpad(d: LibinputDevice, value: u32)
    ensures
        answers(
            tap_set_enabled_status(d, value),
            value <= 1,
            value == 0 || d.tap_finger_count != 0,
        ),
        answers(
            tap_set_drag_enabled_status(d, value),
            value <= 1,
            value == 0 || d.tap_finger_count != 0,
        ),
        answers(
            tap_set_drag_lock_enabled_status(d, value),
            value <= 2,
            value == 0 || d.tap_finger_count != 0,
        ),
        answers(tap_set_button_map_status(d, value), value <= 1, d.tap_finger_count != 0),
        tap_get_enabled(d) == 1 <==> d.tap_enabled,
        tap_get_enabled(d) <= 1,
        tap_get_default_drag_enabled(d) == 1 <==> d.tap_finger_count != 0,
{
}

/// Dragging with three fingers takes a touchpad that tells three apart.
pub proof fn law_dragging_takes_three_contacts(d: LibinputDevice, value: u32)
    ensures
        answers(
            drag_3fg_drag_set_enabled_status(d, value),
            value <= 2,
            d.has_gesture && d.mt_slot_count >= 3,
        ),
        d.has_gesture ==> drag_3fg_drag_get_finger_count(d) == d.mt_slot_count,
        !d.has_gesture ==> drag_3fg_drag_get_finger_count(d) == 0,
{
}

/// The profiles of acceleration are flat (1), adaptive (2) and custom (4);
/// adaptive is the default. Tablets have none.
pub proof fn law_profiles_are_for_pointers(d: LibinputDevice, profile: u32)
    ensures
        ({
            let plain = d.accel_available && !(d.has_tablet && !d.has_gesture && !d.has_tablet_pad);
            &&& answers(
                accel_set_profile_status(d, profile),
                profile == 1 || profile == 2 || profile == 4,
                plain,
            )
            &&& plain ==> accel_get_profiles(d) == 7 && accel_get_default_profile(d) == 2
                && accel_get_profile(d) == d.accel_profile
            &&& !plain ==> accel_get_profiles(d) == 0 && accel_get_default_profile(d) == 0
                && accel_get_profile(d) == 0
        }),
{
}

/// A device scrolls only in ways that it offers; not scrolling is always
/// possible.
pub proof fn law_scrolling_is_what_a_device_offers(d: LibinputDevice, value: u32)
    ensures
        answers(
            scroll_set_method_status(d, value),
            value == 0 || value == 1 || value == 2 || value == 4,
            value == 0 || value & d.scroll_methods != 0,
        ),
        !d.supports_button_scroll ==> scroll_set_button_status(d, value) == 1
            && scroll_set_button_lock_status(d, value) == 1 && scroll_get_button(d) == 0
            && scroll_get_button_lock(d) == 0,
        d.supports_button_scroll ==> scroll_get_button(d) == d.scroll_button
            && scroll_get_button_lock(d) == d.scroll_button_lock,
        d.supports_button_scroll && value <= 1 ==> scroll_set_button_lock_status(d, value) == 0,
        d.supports_button_scroll && value > 1 ==> scroll_set_button_lock_status(d, value) == 2,
        d.supports_button_scroll && value != 0 && value <= 0xffff && d.event_codes@.contains(
            value as u16,
        ) ==> scroll_set_button_status(d, value) == 0,
        d.supports_button_scroll && value == 0 ==> scroll_set_button_status(d, value) == 0,
        d.supports_button_scroll && value != 0 && (value > 0xffff || !d.event_codes@.contains(
            value as u16,
        )) ==> scroll_set_button_status(d, value) == 2,
{
}

/// Only pointers scroll naturally, and only devices that can be turned are used
/// with the left hand.
pub proof fn law_hands_and_nature_are_for_pointers(d: LibinputDevice, value: i32)
    ensures
        scroll_set_natural_scroll_enabled_status(d, value) == (if d.has_pointer {
            0u32
        } else {
            1u32
        }),
        left_handed_set_status(d, value) == (if d.left_handed_available {
            0u32
        } else {
            1u32
        }),
        scroll_get_natural_scroll_enabled(d) == (if d.natural_scroll {
            1i32
        } else {
            0i32
        }),
        left_handed_get(d) == (if d.left_handed {
            1i32
        } else {
            0i32
        }),
{
}

/// A touchpad clicks only in ways that it offers: areas (1) or fingers (2).
pub proof fn law_clicking_is_what_a_touchpad_offers(d: LibinputDevice, value: u32)
    ensures
        answers(
            click_set_method_status(d, value),
            value <= 2,
            value == 0 || value & d.click_methods != 0,
        ),
        answers(
            click_set_clickfinger_button_map_status(d, value),
            value <= 1,
            d.click_methods & 2 != 0,
        ),
        d.click_methods & 2 != 0 ==> click_get_clickfinger_button_map(d)
            == d.clickfinger_button_map,
        d.click_methods & 2 == 0 ==> click_get_clickfinger_button_map(d) == 0,
{
}

/// The middle button is made of two only where that can be chosen.
pub proof fn law_middle_emulation_can_be_chosen(d: LibinputDevice, value: u32)
    ensures
        answers(
            middle_emulation_set_enabled_status(d, value),
            value <= 1,
            value == 0 || d.middle_emulation_available,
        ),
        middle_emulation_get_enabled(d) == 1 <==> d.middle_emulation_available
            && d.middle_emulation,
{
}

/// Touchpads are stilled while typing, and while a stick is used, for 100 to
/// 5000 milliseconds: 500 and 300 by default.
pub proof fn law_touchpads_are_stilled_for_a_while(d: LibinputDevice, value: u32)
    ensures
        answers(dwt_set_enabled_status(d, value), value <= 1, value == 0 || d.dwt_available),
        answers(dwtp_set_enabled_status(d, value), value <= 1, value == 0 || d.dwtp_available),
        dwt_set_timeout_status(d, value) == 0 <==> d.dwt_available && 100 <= value <= 5000,
        dwtp_set_timeout_status(d, value) == 0 <==> d.dwtp_available && 100 <= value <= 5000,
        value != 0 && !d.dwt_available ==> dwt_set_timeout_status(d, value) == 1,
        value != 0 && !d.dwtp_available ==> dwtp_set_timeout_status(d, value) == 1,
        value == 0 ==> dwt_set_timeout_status(d, value) == 2 && dwtp_set_timeout_status(d, value)
            == 2,
        d.dwt_available ==> dwt_get_default_timeout(d) == 500 && dwt_get_timeout(d) == d.dwt_timeout
            && dwt_get_default_enabled(d) == 1,
        d.dwtp_available ==> dwtp_get_default_timeout(d) == 300 && dwtp_get_timeout(d)
            == d.dwtp_timeout && dwtp_get_default_enabled(d) == 1,
        dwt_get_enabled(d) == 1 <==> d.dwt_available && d.dwt_enabled,
        dwtp_get_enabled(d) == 1 <==> d.dwtp_available && d.dwtp_enabled,
{
}

/// A device is turned by less than a full circle, and only if it can be.
pub proof fn law_devices_turn_by_less_than_a_circle(d: LibinputDevice, degrees: u32)
    ensures
        answers(
            rotation_set_angle_status(d, degrees),
            degrees < 360,
            degrees == 0 || d.rotation_available,
        ),
{
}

/// Switched off prevails over switched off beside a mouse. A device lets go of
/// what it holds when it is switched off, and when it is switched off beside a
/// mouse that is there; not where nothing changes.
pub proof fn law_switching_off_lets_go(d: LibinputDevice, mouse: bool)
    ensures
        effective_mode(0) == 0 && effective_mode(1) == 1 && effective_mode(2) == 2
            && effective_mode(3) == 1,
        d.send_events_mode != 1 ==> lets_go(d, 1, mouse) && lets_go(d, 3, mouse),
        d.send_events_mode != 2 ==> lets_go(d, 2, mouse) == mouse,
        !lets_go(d, 0, mouse),
        d.send_events_mode == 1 ==> !lets_go(d, 1, mouse),
        d.send_events_mode == 2 ==> !lets_go(d, 2, mouse),
{
    assert(0u32 & 1 == 0 && 1u32 & 1 == 1 && 2u32 & 1 == 0 && 3u32 & 1 == 1) by (bit_vector);
}

/// What can be asked of a device is what it has: each question is answered by
/// its own setting.
pub proof fn law_questions_are_answered_by_their_setting(d: LibinputDevice)
    ensures
        tap_get_finger_count(d) == d.tap_finger_count,
        tap_get_default_enabled(d) == 1 <==> d.tap_default_enabled,
        tap_get_drag_enabled(d) == 1 <==> d.tap_drag_enabled,
        tap_get_drag_lock_enabled(d) == d.tap_drag_lock_enabled,
        tap_get_button_map(d) == d.tap_button_map,
        drag_3fg_drag_get_enabled(d) == d.drag_3fg_enabled,
        scroll_get_methods(d) == d.scroll_methods,
        scroll_get_method(d) == d.scroll_method,
        scroll_get_default_method(d) == d.scroll_default_method,
        d.supports_button_scroll ==> scroll_get_default_button(d) == d.scroll_default_button,
        !d.supports_button_scroll ==> scroll_get_default_button(d) == 0,
        click_get_methods(d) == d.click_methods,
        click_get_method(d) == d.click_method,
        click_get_default_method(d) == d.click_default_method,
        d.click_methods & 2 != 0 ==> click_get_default_clickfinger_button_map(d)
            == d.clickfinger_default_button_map,
        d.click_methods & 2 == 0 ==> click_get_default_clickfinger_button_map(d) == 0,
        middle_emulation_get_default_enabled(d) == 1 <==> d.middle_emulation_available
            && d.middle_emulation_default,
        rotation_get_angle(d) == d.rotation_angle,
        send_events_get_modes(d) == d.send_events_modes,
        send_events_get_mode(d) == d.send_events_mode,
        accel_is_available(d) == 1 <==> d.accel_available,
        area_has_rectangle(d) == 1 <==> d.area_available,
        calibration_has_matrix(d) == 1 <==> d.calibration_available,
        dwt_is_available(d) == 1 <==> d.dwt_available,
        dwtp_is_available(d) == 1 <==> d.dwtp_available,
        left_handed_is_available(d) == 1 <==> d.left_handed_available,
        middle_emulation_is_available(d) == 1 <==> d.middle_emulation_available,
        rotation_is_available(d) == 1 <==> d.rotation_available,
        scroll_has_natural_scroll(d) == 1 <==> d.has_pointer,
        scroll_get_default_natural_scroll_enabled(d) == 1 <==> d.scroll_methods & 2 != 0
            && d.vendor_id == 0x05ac,
{
}

/// Capabilities go by their numbers.
pub proof fn law_capabilities_have_numbers(d: LibinputDevice, other: u32)
    requires
        other > 6,
    ensures
        has_capability(d, 0) == d.has_keyboard,
        has_capability(d, 1) == d.has_pointer,
        has_capability(d, 2) == d.has_touch,
        has_capability(d, 3) == d.has_tablet,
        has_capability(d, 4) == d.has_tablet_pad,
        has_capability(d, 5) == d.has_gesture,
        has_capability(d, 6) == d.has_switch,
        !has_capability(d, other),
        switch_code(1) == Some(0u16) && switch_code(2) == Some(1u16) && switch_code(3) == Some(
            10u16,
        ),
        forall|code: u16| #[trigger] has_code(d, code as u32) <==> d.event_codes@.contains(code),
{
    assert forall|code: u16| #[trigger] has_code(d, code as u32) <==> d.event_codes@.contains(
        code,
    ) by {
        assert((code as u32) as u16 == code);
    }
}

/// A control belongs to a group exactly if its bit is set.
pub proof fn law_masks_are_read_bit_by_bit(mask: u32, bit: u32)
    ensures
        bit < 32 ==> in_mask(mask | (1u32 << bit), bit),
        bit < 32 ==> !in_mask(mask & !(1u32 << bit), bit),
        bit >= 32 ==> !in_mask(mask, bit),
{
    if bit < 32 {
        assert((mask | (1u32 << bit)) & (1u32 << bit) != 0) by (bit_vector)
            requires
                bit < 32,
        ;
        assert((mask & !(1u32 << bit)) & (1u32 << bit) == 0) by (bit_vector)
            requires
                bit < 32,
        ;
    }
}

/// A stylus button can be the eraser's, a key cannot.
pub proof fn law_buttons_can_erase(button: u32)
    ensures
        is_eraser_button(0x14b) && is_eraser_button(0x14c) && is_eraser_button(0x149),
        button < 0x100 ==> !is_eraser_button(button),
        0x140 <= button <= 0x148 ==> !is_eraser_button(button),
        button >= 0x2e8 ==> !is_eraser_button(button),
{
}

} // verus!
