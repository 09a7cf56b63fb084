//! Device configuration: what can be set, and what setting it does.
use vstd::prelude::*;
use crate::api::events::{flag, flag_spec};
use crate::evtrans::contains_code;
use crate::ffi_types::LibinputDevice;

verus! {

pub const CONFIG_SUCCESS: u32 = 0;

/// The device does not have what is to be set.
pub const CONFIG_UNSUPPORTED: u32 = 1;

/// There is no such value.
pub const CONFIG_INVALID: u32 = 2;

/// What a status means, in words.
pub fn libinput_config_status_to_str(status: u32) -> (text: Option<&'static str>)
    ensures
        text is Some <==> status <= 2,
        status == CONFIG_SUCCESS ==> (text->0)@ == "success"@,
        status == CONFIG_UNSUPPORTED ==> (text->0)@ == "unsupported"@,
        status == CONFIG_INVALID ==> (text->0)@ == "invalid"@,
{
    match status {
        0 => Some("success"),
        1 => Some("unsupported"),
        2 => Some("invalid"),
        _ => None,
    }
}

pub open spec fn switch_spec(b: bool) -> u32 {
    if b {
        1
    } else {
        0
    }
}

pub fn switch(b: bool) -> (n: u32)
    ensures
        n == switch_spec(b),
{
    if b {
        1
    } else {
        0
    }
}

// ---------------------------------------------------------------------------
// Tapping
// ---------------------------------------------------------------------------
pub open spec fn tap_get_finger_count(d: LibinputDevice) -> i32 {
    d.tap_finger_count
}

pub fn libinput_device_config_tap_get_finger_count(dev: Option<&LibinputDevice>) -> (r: i32)
    ensures
        r == (match dev {
            Some(d) => tap_get_finger_count(*d),
            None => 0,
        }),
{
    match dev {
        Some(d) => d.tap_finger_count,
        None => 0,
    }
}

fn put_tap_enabled(d: &mut LibinputDevice, tap_enabled: bool)
    ensures
        *final(d) == (LibinputDevice { tap_enabled, ..*old(d) }),
{
    d.tap_enabled = tap_enabled;
}

pub open spec fn tap_set_enabled_status(d: LibinputDevice, enabled: u32) -> u32 {
    if enabled > 1 {
        CONFIG_INVALID
    } else if d.tap_finger_count == 0 && enabled != 0 {
        CONFIG_UNSUPPORTED
    } else {
        CONFIG_SUCCESS
    }
}

/// Turns tapping on or off. A device that cannot tap can only be told not to.
pub fn libinput_device_config_tap_set_enabled(dev: Option<&mut LibinputDevice>, enabled: u32) -> (status: u32)
    ensures
        match dev {
            None => status == CONFIG_UNSUPPORTED,
            Some(d) => {
                &&& status == tap_set_enabled_status(*d, enabled)
                &&& status == CONFIG_SUCCESS && d.tap_finger_count != 0 ==> *final(d) == (LibinputDevice {
                    tap_enabled: enabled != 0,
                    ..*d
                })
                &&& !(status == CONFIG_SUCCESS && d.tap_finger_count != 0) ==> *final(d) == *d
            },
        },
{
    match dev {
        None => CONFIG_UNSUPPORTED,
        Some(d) => {
            if enabled > 1 {
                return CONFIG_INVALID;
            }
            if d.tap_finger_count == 0 && enabled != 0 {
                return CONFIG_UNSUPPORTED;
            }
            if d.tap_finger_count != 0 {
                put_tap_enabled(d, enabled != 0);
            }
            CONFIG_SUCCESS
        },
    }
}

pub open spec fn tap_get_enabled(d: LibinputDevice) -> u32 {
    switch_spec(d.tap_enabled)
}

pub fn libinput_device_config_tap_get_enabled(dev: Option<&LibinputDevice>) -> (r: u32)
    ensures
        r == (match dev {
            Some(d) => tap_get_enabled(*d),
            None => 0,
        }),
{
    match dev {
        Some(d) => switch(d.tap_enabled),
        None => 0,
    }
}

pub open spec fn tap_get_default_enabled(d: LibinputDevice) -> u32 {
    switch_spec(d.tap_default_enabled)
}

pub fn libinput_device_config_tap_get_default_enabled(dev: Option<&LibinputDevice>) -> (r: u32)
    ensures
        r == (match dev {
            Some(d) => tap_get_default_enabled(*d),
            None => 0,
        }),
{
    match dev {
        Some(d) => switch(d.tap_default_enabled),
        None => 0,
    }
}

fn put_tap_drag_enabled(d: &mut LibinputDevice, tap_drag_enabled: bool)
    ensures
        *final(d) == (LibinputDevice { tap_drag_enabled, ..*old(d) }),
{
    d.tap_drag_enabled = tap_drag_enabled;
}

pub open spec fn tap_set_drag_enabled_status(d: LibinputDevice, enabled: u32) -> u32 {
    if enabled > 1 {
        CONFIG_INVALID
    } else if d.tap_finger_count == 0 && enabled != 0 {
        CONFIG_UNSUPPORTED
    } else {
        CONFIG_SUCCESS
    }
}

/// Turns dragging after a tap on or off.
pub fn libinput_device_config_tap_set_drag_enabled(dev: Option<&mut LibinputDevice>, enabled: u32) -> (status: u32)
    ensures
        match dev {
            None => status == CONFIG_UNSUPPORTED,
            Some(d) => {
                &&& status == tap_set_drag_enabled_status(*d, enabled)
                &&& status == CONFIG_SUCCESS && d.tap_finger_count != 0 ==> *final(d) == (LibinputDevice {
                    tap_drag_enabled: enabled != 0,
                    ..*d
                })
                &&& !(status == CONFIG_SUCCESS && d.tap_finger_count != 0) ==> *final(d) == *d
            },
        },
{
    match dev {
        None => CONFIG_UNSUPPORTED,
        Some(d) => {
            if enabled > 1 {
                return CONFIG_INVALID;
            }
            if d.tap_finger_count == 0 && enabled != 0 {
                return CONFIG_UNSUPPORTED;
            }
            if d.tap_finger_count != 0 {
                put_tap_drag_enabled(d, enabled != 0);
            }
            CONFIG_SUCCESS
        },
    }
}

pub open spec fn tap_get_drag_enabled(d: LibinputDevice) -> u32 {
    switch_spec(d.tap_drag_enabled)
}

pub fn libinput_device_config_tap_get_drag_enabled(dev: Option<&LibinputDevice>) -> (r: u32)
    ensures
        r == (match dev {
            Some(d) => tap_get_drag_enabled(*d),
            None => 0,
        }),
{
    match dev {
        Some(d) => switch(d.tap_drag_enabled),
        None => 0,
    }
}

pub open spec fn tap_get_default_drag_enabled(d: LibinputDevice) -> u32 {
    switch_spec(d.tap_finger_count != 0)
}

pub fn libinput_device_config_tap_get_default_drag_enabled(dev: Option<&LibinputDevice>) -> (r: u32)
    ensures
        r == (match dev {
            Some(d) => tap_get_default_drag_enabled(*d),
            None => 0,
        }),
{
    match dev {
        Some(d) => switch(d.tap_finger_count != 0),
        None => 0,
    }
}

fn put_tap_drag_lock_enabled(d: &mut LibinputDevice, tap_drag_lock_enabled: u32)
    ensures
        *final(d) == (LibinputDevice { tap_drag_lock_enabled, ..*old(d) }),
{
    d.tap_drag_lock_enabled = tap_drag_lock_enabled;
}

pub open spec fn tap_set_drag_lock_enabled_status(d: LibinputDevice, enabled: u32) -> u32 {
    if enabled > 2 {
        CONFIG_INVALID
    } else if d.tap_finger_count == 0 && enabled != 0 {
        CONFIG_UNSUPPORTED
    } else {
        CONFIG_SUCCESS
    }
}

/// Sets whether a drag outlives a short lift, and whether it waits for another tap.
pub fn libinput_device_config_tap_set_drag_lock_enabled(dev: Option<&mut LibinputDevice>, enabled: u32) -> (status: u32)
    ensures
        match dev {
            None => status == CONFIG_UNSUPPORTED,
            Some(d) => {
                &&& status == tap_set_drag_lock_enabled_status(*d, enabled)
                &&& status == CONFIG_SUCCESS && d.tap_finger_count != 0 ==> *final(d) == (LibinputDevice {
                    tap_drag_lock_enabled: enabled,
                    ..*d
                })
                &&& !(status == CONFIG_SUCCESS && d.tap_finger_count != 0) ==> *final(d) == *d
            },
        },
{
    match dev {
        None => CONFIG_UNSUPPORTED,
        Some(d) => {
            if enabled > 2 {
                return CONFIG_INVALID;
            }
            if d.tap_finger_count == 0 && enabled != 0 {
                return CONFIG_UNSUPPORTED;
            }
            if d.tap_finger_count != 0 {
                put_tap_drag_lock_enabled(d, enabled);
            }
            CONFIG_SUCCESS
        },
    }
}

pub open spec fn tap_get_drag_lock_enabled(d: LibinputDevice) -> u32 {
    d.tap_drag_lock_enabled
}

pub fn libinput_device_config_tap_get_drag_lock_enabled(dev: Option<&LibinputDevice>) -> (r: u32)
    ensures
        r == (match dev {
            Some(d) => tap_get_drag_lock_enabled(*d),
            None => 0,
        }),
{
    match dev {
        Some(d) => d.tap_drag_lock_enabled,
        None => 0,
    }
}

pub fn libinput_device_config_tap_get_default_drag_lock_enabled(dev: Option<&LibinputDevice>) -> (r: u32)
    ensures
        r == 0,
{
    0
}

fn put_tap_button_map(d: &mut LibinputDevice, tap_button_map: u32)
    ensures
        *final(d) == (LibinputDevice { tap_button_map, ..*old(d) }),
{
    d.tap_button_map = tap_button_map;
}

pub open spec fn tap_set_button_map_status(d: LibinputDevice, map: u32) -> u32 {
    if map > 1 {
        CONFIG_INVALID
    } else if d.tap_finger_count == 0 {
        CONFIG_UNSUPPORTED
    } else {
        CONFIG_SUCCESS
    }
}

/// Sets which buttons taps of two and three fingers stand for: 0 is right and middle, 1 is middle and right.
pub fn libinput_device_config_tap_set_button_map(dev: Option<&mut LibinputDevice>, map: u32) -> (status: u32)
    ensures
        match dev {
            None => status == CONFIG_UNSUPPORTED,
            Some(d) => {
                &&& status == tap_set_button_map_status(*d, map)
                &&& status == CONFIG_SUCCESS ==> *final(d) == (LibinputDevice {
                    tap_button_map: map,
                    ..*d
                })
                &&& !(status == CONFIG_SUCCESS) ==> *final(d) == *d
            },
        },
{
    match dev {
        None => CONFIG_UNSUPPORTED,
        Some(d) => {
            if map > 1 {
                return CONFIG_INVALID;
            }
            if d.tap_finger_count == 0 {
                return CONFIG_UNSUPPORTED;
            }
            put_tap_button_map(d, map);
            CONFIG_SUCCESS
        },
    }
}

pub open spec fn tap_get_button_map(d: LibinputDevice) -> u32 {
    d.tap_button_map
}

pub fn libinput_device_config_tap_get_button_map(dev: Option<&LibinputDevice>) -> (r: u32)
    ensures
        r == (match dev {
            Some(d) => tap_get_button_map(*d),
            None => 0,
        }),
{
    match dev {
        Some(d) => d.tap_button_map,
        None => 0,
    }
}

pub fn libinput_device_config_tap_get_default_button_map(dev: Option<&LibinputDevice>) -> (r: u32)
    ensures
        r == 0,
{
    0
}

// ---------------------------------------------------------------------------
// Dragging with three fingers
// ---------------------------------------------------------------------------
/// How many fingers a device can drag with.
pub open spec fn drag_finger_count(d: LibinputDevice) -> i32 {
    if d.has_gesture {
        d.mt_slot_count
    } else {
        0
    }
}

pub open spec fn drag_3fg_drag_get_finger_count(d: LibinputDevice) -> i32 {
    drag_finger_count(d)
}

pub fn libinput_device_config_3fg_drag_get_finger_count(dev: Option<&LibinputDevice>) -> (r: i32)
    ensures
        r == (match dev {
            Some(d) => drag_3fg_drag_get_finger_count(*d),
            None => 0,
        }),
{
    match dev {
        Some(d) => if d.has_gesture {
                d.mt_slot_count
            } else {
                0
            },
        None => 0,
    }
}

fn put_drag_3fg_enabled(d: &mut LibinputDevice, drag_3fg_enabled: u32)
    ensures
        *final(d) == (LibinputDevice { drag_3fg_enabled, ..*old(d) }),
{
    d.drag_3fg_enabled = drag_3fg_enabled;
}

pub open spec fn drag_3fg_drag_set_enabled_status(d: LibinputDevice, enable: u32) -> u32 {
    if enable > 2 {
        CONFIG_INVALID
    } else if drag_finger_count(d) < 3 {
        CONFIG_UNSUPPORTED
    } else {
        CONFIG_SUCCESS
    }
}

/// Sets whether three fingers, or four, drag.
pub fn libinput_device_config_3fg_drag_set_enabled(dev: Option<&mut LibinputDevice>, enable: u32) -> (status: u32)
    ensures
        match dev {
            None => status == CONFIG_UNSUPPORTED,
            Some(d) => {
                &&& status == drag_3fg_drag_set_enabled_status(*d, enable)
                &&& status == CONFIG_SUCCESS ==> *final(d) == (LibinputDevice {
                    drag_3fg_enabled: enable,
                    ..*d
                })
                &&& !(status == CONFIG_SUCCESS) ==> *final(d) == *d
            },
        },
{
    match dev {
        None => CONFIG_UNSUPPORTED,
        Some(d) => {
            if enable > 2 {
                return CONFIG_INVALID;
            }
            if !d.has_gesture || d.mt_slot_count < 3 {
                return CONFIG_UNSUPPORTED;
            }
            put_drag_3fg_enabled(d, enable);
            CONFIG_SUCCESS
        },
    }
}

pub open spec fn drag_3fg_drag_get_enabled(d: LibinputDevice) -> u32 {
    d.drag_3fg_enabled
}

pub fn libinput_device_config_3fg_drag_get_enabled(dev: Option<&LibinputDevice>) -> (r: u32)
    ensures
        r == (match dev {
            Some(d) => drag_3fg_drag_get_enabled(*d),
            None => 0,
        }),
{
    match dev {
        Some(d) => d.drag_3fg_enabled,
        None => 0,
    }
}

pub fn libinput_device_config_3fg_drag_get_default_enabled(dev: Option<&LibinputDevice>) -> (r: u32)
    ensures
        r == 0,
{
    0
}

// ---------------------------------------------------------------------------
// Pointer acceleration
// ---------------------------------------------------------------------------
/// A profile is flat, adaptive or custom; one that a device offers is one of
/// these bits.
pub open spec fn accel_profiles(d: LibinputDevice) -> u32 {
    if d.accel_available && !(d.has_tablet && !d.has_gesture && !d.has_tablet_pad) {
        7
    } else {
        0
    }
}

fn offered_profiles(d: &LibinputDevice) -> (profiles: u32)
    ensures
        profiles == accel_profiles(*d),
{
    if d.accel_available && !(d.has_tablet && !d.has_gesture && !d.has_tablet_pad) {
        7
    } else {
        0
    }
}

pub open spec fn accel_is_available(d: LibinputDevice) -> i32 {
    flag_spec(d.accel_available)
}

pub fn libinput_device_config_accel_is_available(dev: Option<&LibinputDevice>) -> (r: i32)
    ensures
        r == (match dev {
            Some(d) => accel_is_available(*d),
            None => 0,
        }),
{
    match dev {
        Some(d) => flag(d.accel_available),
        None => 0,
    }
}

pub open spec fn accel_get_profiles(d: LibinputDevice) -> u32 {
    accel_profiles(d)
}

pub fn libinput_device_config_accel_get_profiles(dev: Option<&LibinputDevice>) -> (r: u32)
    ensures
        r == (match dev {
            Some(d) => accel_get_profiles(*d),
            None => 0,
        }),
{
    match dev {
        Some(d) => offered_profiles(d),
        None => 0,
    }
}

fn put_accel_profile(d: &mut LibinputDevice, accel_profile: u32)
    ensures
        *final(d) == (LibinputDevice { accel_profile, ..*old(d) }),
{
    d.accel_profile = accel_profile;
}

pub open spec fn accel_set_profile_status(d: LibinputDevice, profile: u32) -> u32 {
    if profile != 1 && profile != 2 && profile != 4 {
        CONFIG_INVALID
    } else if accel_profiles(d) == 0 {
        CONFIG_UNSUPPORTED
    } else {
        CONFIG_SUCCESS
    }
}

/// Chooses a profile. A custom one starts without curves.
pub fn libinput_device_config_accel_set_profile(dev: Option<&mut LibinputDevice>, profile: u32) -> (status: u32)
    ensures
        match dev {
            None => status == CONFIG_UNSUPPORTED,
            Some(d) => {
                &&& status == accel_set_profile_status(*d, profile)
                &&& status == CONFIG_SUCCESS ==> *final(d) == (LibinputDevice {
                    accel_profile: profile,
                    ..*d
                })
                &&& !(status == CONFIG_SUCCESS) ==> *final(d) == *d
            },
        },
{
    match dev {
        None => CONFIG_UNSUPPORTED,
        Some(d) => {
            if profile != 1 && profile != 2 && profile != 4 {
                return CONFIG_INVALID;
            }
            if offered_profiles(d) == 0 {
                return CONFIG_UNSUPPORTED;
            }
            put_accel_profile(d, profile);
            CONFIG_SUCCESS
        },
    }
}

pub open spec fn accel_get_profile(d: LibinputDevice) -> u32 {
    if accel_profiles(d) != 0 {
        d.accel_profile
    } else {
        0
    }
}

pub fn libinput_device_config_accel_get_profile(dev: Option<&LibinputDevice>) -> (r: u32)
    ensures
        r == (match dev {
            Some(d) => accel_get_profile(*d),
            None => 0,
        }),
{
    match dev {
        Some(d) => if offered_profiles(d) != 0 {
                d.accel_profile
            } else {
                0
            },
        None => 0,
    }
}

pub open spec fn accel_get_default_profile(d: LibinputDevice) -> u32 {
    if accel_profiles(d) != 0 {
        2u32
    } else {
        0
    }
}

pub fn libinput_device_config_accel_get_default_profile(dev: Option<&LibinputDevice>) -> (r: u32)
    ensures
        r == (match dev {
            Some(d) => accel_get_default_profile(*d),
            None => 0,
        }),
{
    match dev {
        Some(d) => if offered_profiles(d) != 0 {
                2
            } else {
                0
            },
        None => 0,
    }
}

/// The status of a whole acceleration configuration: there has to be one, and
/// the device has to offer its profile.
pub fn libinput_device_config_accel_apply(dev: Option<&mut LibinputDevice>, profile: Option<u32>) -> (
status: u32)
    ensures
        match dev {
            None => status == CONFIG_INVALID,
            Some(d) => {
                &&& status == (match profile {
                    None => CONFIG_INVALID,
                    Some(p) => if !d.accel_available || p & accel_profiles(*d) == 0 {
                        CONFIG_UNSUPPORTED
                    } else {
                        CONFIG_SUCCESS
                    },
                })
                &&& status == CONFIG_SUCCESS ==> *final(d) == (LibinputDevice {
                    accel_profile: profile->0,
                    ..*d
                })
                &&& status != CONFIG_SUCCESS ==> *final(d) == *d
            },
        },
{
    match (dev, profile) {
        (Some(d), Some(p)) => {
            if !d.accel_available || p & offered_profiles(d) == 0 {
                return CONFIG_UNSUPPORTED;
            }
            put_accel_profile(d, p);
            CONFIG_SUCCESS
        },
        _ => CONFIG_INVALID,
    }
}

// ---------------------------------------------------------------------------
// Natural scrolling
// ---------------------------------------------------------------------------
pub open spec fn scroll_has_natural_scroll(d: LibinputDevice) -> i32 {
    flag_spec(d.has_pointer)
}

pub fn libinput_device_config_scroll_has_natural_scroll(dev: Option<&LibinputDevice>) -> (r: i32)
    ensures
        r == (match dev {
            Some(d) => scroll_has_natural_scroll(*d),
            None => 0,
        }),
{
    match dev {
        Some(d) => flag(d.has_pointer),
        None => 0,
    }
}

fn put_natural_scroll(d: &mut LibinputDevice, natural_scroll: bool)
    ensures
        *final(d) == (LibinputDevice { natural_scroll, ..*old(d) }),
{
    d.natural_scroll = natural_scroll;
}

pub open spec fn scroll_set_natural_scroll_enabled_status(d: LibinputDevice, enabled: i32) -> u32 {
    if !d.has_pointer {
        CONFIG_UNSUPPORTED
    } else {
        CONFIG_SUCCESS
    }
}

/// Sets whether what is on the screen follows the fingers.
pub fn libinput_device_config_scroll_set_natural_scroll_enabled(dev: Option<&mut LibinputDevice>, enabled: i32) -> (status: u32)
    ensures
        match dev {
            None => status == CONFIG_UNSUPPORTED,
            Some(d) => {
                &&& status == scroll_set_natural_scroll_enabled_status(*d, enabled)
                &&& status == CONFIG_SUCCESS ==> *final(d) == (LibinputDevice {
                    natural_scroll: enabled != 0,
                    ..*d
                })
                &&& !(status == CONFIG_SUCCESS) ==> *final(d) == *d
            },
        },
{
    match dev {
        None => CONFIG_UNSUPPORTED,
        Some(d) => {
            if !d.has_pointer {
                return CONFIG_UNSUPPORTED;
            }
            put_natural_scroll(d, enabled != 0);
            CONFIG_SUCCESS
        },
    }
}

pub open spec fn scroll_get_natural_scroll_enabled(d: LibinputDevice) -> i32 {
    flag_spec(d.natural_scroll)
}

pub fn libinput_device_config_scroll_get_natural_scroll_enabled(dev: Option<&LibinputDevice>) -> (r: i32)
    ensures
        r == (match dev {
            Some(d) => scroll_get_natural_scroll_enabled(*d),
            None => 0,
        }),
{
    match dev {
        Some(d) => flag(d.natural_scroll),
        None => 0,
    }
}

pub open spec fn scroll_get_default_natural_scroll_enabled(d: LibinputDevice) -> i32 {
    flag_spec(d.scroll_methods & 2 != 0 && d.vendor_id == 0x05ac)
}

pub fn libinput_device_config_scroll_get_default_natural_scroll_enabled(dev: Option<&LibinputDevice>) -> (r: i32)
    ensures
        r == (match dev {
            Some(d) => scroll_get_default_natural_scroll_enabled(*d),
            None => 0,
        }),
{
    match dev {
        Some(d) => flag(d.scroll_methods & 2 != 0 && d.vendor_id == 0x05ac),
        None => 0,
    }
}

// ---------------------------------------------------------------------------
// Left-handed use
// ---------------------------------------------------------------------------
pub open spec fn left_handed_is_available(d: LibinputDevice) -> i32 {
    flag_spec(d.left_handed_available)
}

pub fn libinput_device_config_left_handed_is_available(dev: Option<&LibinputDevice>) -> (r: i32)
    ensures
        r == (match dev {
            Some(d) => left_handed_is_available(*d),
            None => 0,
        }),
{
    match dev {
        Some(d) => flag(d.left_handed_available),
        None => 0,
    }
}

fn put_left_handed(d: &mut LibinputDevice, left_handed: bool)
    ensures
        *final(d) == (LibinputDevice { left_handed, ..*old(d) }),
{
    d.left_handed = left_handed;
}

pub open spec fn left_handed_set_status(d: LibinputDevice, enabled: i32) -> u32 {
    if !d.left_handed_available {
        CONFIG_UNSUPPORTED
    } else {
        CONFIG_SUCCESS
    }
}

/// Swaps the buttons, or turns a tablet around.
pub fn libinput_device_config_left_handed_set(dev: Option<&mut LibinputDevice>, enabled: i32) -> (status: u32)
    ensures
        match dev {
            None => status == CONFIG_UNSUPPORTED,
            Some(d) => {
                &&& status == left_handed_set_status(*d, enabled)
                &&& status == CONFIG_SUCCESS ==> *final(d) == (LibinputDevice {
                    left_handed: enabled != 0,
                    ..*d
                })
                &&& !(status == CONFIG_SUCCESS) ==> *final(d) == *d
            },
        },
{
    match dev {
        None => CONFIG_UNSUPPORTED,
        Some(d) => {
            if !d.left_handed_available {
                return CONFIG_UNSUPPORTED;
            }
            put_left_handed(d, enabled != 0);
            CONFIG_SUCCESS
        },
    }
}

pub open spec fn left_handed_get(d: LibinputDevice) -> i32 {
    flag_spec(d.left_handed)
}

pub fn libinput_device_config_left_handed_get(dev: Option<&LibinputDevice>) -> (r: i32)
    ensures
        r == (match dev {
            Some(d) => left_handed_get(*d),
            None => 0,
        }),
{
    match dev {
        Some(d) => flag(d.left_handed),
        None => 0,
    }
}

pub fn libinput_device_config_left_handed_get_default(dev: Option<&LibinputDevice>) -> (r: i32)
    ensures
        r == 0,
{
    0
}

// ---------------------------------------------------------------------------
// Scrolling
// ---------------------------------------------------------------------------
pub open spec fn scroll_get_methods(d: LibinputDevice) -> u32 {
    d.scroll_methods
}

pub fn libinput_device_config_scroll_get_methods(dev: Option<&LibinputDevice>) -> (r: u32)
    ensures
        r == (match dev {
            Some(d) => scroll_get_methods(*d),
            None => 0,
        }),
{
    match dev {
        Some(d) => d.scroll_methods,
        None => 0,
    }
}

pub(crate) fn put_scroll_method(d: &mut LibinputDevice, scroll_method: u32)
    ensures
        *final(d) == (LibinputDevice { scroll_method, ..*old(d) }),
{
    d.scroll_method = scroll_method;
}

pub open spec fn scroll_set_method_status(d: LibinputDevice, method: u32) -> u32 {
    if method != 0 && method != 1 && method != 2 && method != 4 {
        CONFIG_INVALID
    } else if method != 0 && method & d.scroll_methods == 0 {
        CONFIG_UNSUPPORTED
    } else {
        CONFIG_SUCCESS
    }
}

/// Whether a device can scroll in a way.
pub fn judge_scroll_method(d: &LibinputDevice, method: u32) -> (status: u32)
    ensures
        status == scroll_set_method_status(*d, method),
{
    if method != 0 && method != 1 && method != 2 && method != 4 {
        CONFIG_INVALID
    } else if method != 0 && method & d.scroll_methods == 0 {
        CONFIG_UNSUPPORTED
    } else {
        CONFIG_SUCCESS
    }
}

/// Chooses how to scroll: not at all, with two fingers, along the edge, or with a
/// button held. This is the setting alone; `LibinputContext::set_scroll_method`
/// ends the scrolling under way first.
pub fn libinput_device_config_scroll_set_method(dev: Option<&mut LibinputDevice>, method: u32) -> (status: u32)
    ensures
        match dev {
            None => status == CONFIG_UNSUPPORTED,
            Some(d) => {
                &&& status == scroll_set_method_status(*d, method)
                &&& status == CONFIG_SUCCESS ==> *final(d) == (LibinputDevice {
                    scroll_method: method,
                    ..*d
                })
                &&& !(status == CONFIG_SUCCESS) ==> *final(d) == *d
            },
        },
{
    match dev {
        None => CONFIG_UNSUPPORTED,
        Some(d) => {
            let status: u32 = judge_scroll_method(d, method);
            if status == CONFIG_SUCCESS {
                put_scroll_method(d, method);
            }
            status
        },
    }
}

pub open spec fn scroll_get_method(d: LibinputDevice) -> u32 {
    d.scroll_method
}

pub fn libinput_device_config_scroll_get_method(dev: Option<&LibinputDevice>) -> (r: u32)
    ensures
        r == (match dev {
            Some(d) => scroll_get_method(*d),
            None => 0,
        }),
{
    match dev {
        Some(d) => d.scroll_method,
        None => 0,
    }
}

pub open spec fn scroll_get_default_method(d: LibinputDevice) -> u32 {
    d.scroll_default_method
}

pub fn libinput_device_config_scroll_get_default_method(dev: Option<&LibinputDevice>) -> (r: u32)
    ensures
        r == (match dev {
            Some(d) => scroll_get_default_method(*d),
            None => 0,
        }),
{
    match dev {
        Some(d) => d.scroll_default_method,
        None => 0,
    }
}

/// Whether a device has a button under a code; no button at all is 0.
pub open spec fn has_scroll_button(d: LibinputDevice, button: u32) -> bool {
    button == 0 || (button <= 0xffff && d.event_codes@.contains(button as u16))
}

fn offers_button(d: &LibinputDevice, button: u32) -> (has: bool)
    ensures
        has == has_scroll_button(*d, button),
{
    button == 0 || (button <= 0xffff && contains_code(&d.event_codes, button as u16))
}

fn put_scroll_button(d: &mut LibinputDevice, scroll_button: u32)
    ensures
        *final(d) == (LibinputDevice { scroll_button, ..*old(d) }),
{
    d.scroll_button = scroll_button;
}

pub open spec fn scroll_set_button_status(d: LibinputDevice, button: u32) -> u32 {
    if !d.supports_button_scroll {
        CONFIG_UNSUPPORTED
    } else if !has_scroll_button(d, button) {
        CONFIG_INVALID
    } else {
        CONFIG_SUCCESS
    }
}

/// Chooses the button that scrolls while it is held.
pub fn libinput_device_config_scroll_set_button(dev: Option<&mut LibinputDevice>, button: u32) -> (status: u32)
    ensures
        match dev {
            None => status == CONFIG_UNSUPPORTED,
            Some(d) => {
                &&& status == scroll_set_button_status(*d, button)
                &&& status == CONFIG_SUCCESS ==> *final(d) == (LibinputDevice {
                    scroll_button: button,
                    ..*d
                })
                &&& !(status == CONFIG_SUCCESS) ==> *final(d) == *d
            },
        },
{
    match dev {
        None => CONFIG_UNSUPPORTED,
        Some(d) => {
            if !d.supports_button_scroll {
                return CONFIG_UNSUPPORTED;
            }
            if !offers_button(d, button) {
                return CONFIG_INVALID;
            }
            put_scroll_button(d, button);
            CONFIG_SUCCESS
        },
    }
}

pub open spec fn scroll_get_button(d: LibinputDevice) -> u32 {
    if d.supports_button_scroll {
        d.scroll_button
    } else {
        0
    }
}

pub fn libinput_device_config_scroll_get_button(dev: Option<&LibinputDevice>) -> (r: u32)
    ensures
        r == (match dev {
            Some(d) => scroll_get_button(*d),
            None => 0,
        }),
{
    match dev {
        Some(d) => if d.supports_button_scroll {
                d.scroll_button
            } else {
                0
            },
        None => 0,
    }
}

pub open spec fn scroll_get_default_button(d: LibinputDevice) -> u32 {
    if d.supports_button_scroll {
        d.scroll_default_button
    } else {
        0
    }
}

pub fn libinput_device_config_scroll_get_default_button(dev: Option<&LibinputDevice>) -> (r: u32)
    ensures
        r == (match dev {
            Some(d) => scroll_get_default_button(*d),
            None => 0,
        }),
{
    match dev {
        Some(d) => if d.supports_button_scroll {
                d.scroll_default_button
            } else {
                0
            },
        None => 0,
    }
}

fn put_scroll_button_lock(d: &mut LibinputDevice, scroll_button_lock: u32)
    ensures
        *final(d) == (LibinputDevice { scroll_button_lock, ..*old(d) }),
{
    d.scroll_button_lock = scroll_button_lock;
}

pub open spec fn scroll_set_button_lock_status(d: LibinputDevice, state: u32) -> u32 {
    if !d.supports_button_scroll {
        CONFIG_UNSUPPORTED
    } else if state > 1 {
        CONFIG_INVALID
    } else {
        CONFIG_SUCCESS
    }
}

/// Sets whether a click on the scroll button stands for holding it.
pub fn libinput_device_config_scroll_set_button_lock(dev: Option<&mut LibinputDevice>, state: u32) -> (status: u32)
    ensures
        match dev {
            None => status == CONFIG_UNSUPPORTED,
            Some(d) => {
                &&& status == scroll_set_button_lock_status(*d, state)
                &&& status == CONFIG_SUCCESS ==> *final(d) == (LibinputDevice {
                    scroll_button_lock: state,
                    ..*d
                })
                &&& !(status == CONFIG_SUCCESS) ==> *final(d) == *d
            },
        },
{
    match dev {
        None => CONFIG_UNSUPPORTED,
        Some(d) => {
            if !d.supports_button_scroll {
                return CONFIG_UNSUPPORTED;
            }
            if state > 1 {
                return CONFIG_INVALID;
            }
            put_scroll_button_lock(d, state);
            CONFIG_SUCCESS
        },
    }
}

pub open spec fn scroll_get_button_lock(d: LibinputDevice) -> u32 {
    if d.supports_button_scroll {
        d.scroll_button_lock
    } else {
        0
    }
}

pub fn libinput_device_config_scroll_get_button_lock(dev: Option<&LibinputDevice>) -> (r: u32)
    ensures
        r == (match dev {
            Some(d) => scroll_get_button_lock(*d),
            None => 0,
        }),
{
    match dev {
        Some(d) => if d.supports_button_scroll {
                d.scroll_button_lock
            } else {
                0
            },
        None => 0,
    }
}

pub fn libinput_device_config_scroll_get_default_button_lock(dev: Option<&LibinputDevice>) -> (r: u32)
    ensures
        r == 0,
{
    0
}

// ---------------------------------------------------------------------------
// Clicking
// ---------------------------------------------------------------------------
pub open spec fn click_get_methods(d: LibinputDevice) -> u32 {
    d.click_methods
}

pub fn libinput_device_config_click_get_methods(dev: Option<&LibinputDevice>) -> (r: u32)
    ensures
        r == (match dev {
            Some(d) => click_get_methods(*d),
            None => 0,
        }),
{
    match dev {
        Some(d) => d.click_methods,
        None => 0,
    }
}

fn put_click_method(d: &mut LibinputDevice, click_method: u32)
    ensures
        *final(d) == (LibinputDevice { click_method, ..*old(d) }),
{
    d.click_method = click_method;
}

pub open spec fn click_set_method_status(d: LibinputDevice, method: u32) -> u32 {
    if method > 2 {
        CONFIG_INVALID
    } else if method != 0 && method & d.click_methods == 0 {
        CONFIG_UNSUPPORTED
    } else {
        CONFIG_SUCCESS
    }
}

/// Chooses how a touchpad without separate buttons clicks: not at all, by areas, or by the number of fingers.
pub fn libinput_device_config_click_set_method(dev: Option<&mut LibinputDevice>, method: u32) -> (status: u32)
    ensures
        match dev {
            None => status == CONFIG_UNSUPPORTED,
            Some(d) => {
                &&& status == click_set_method_status(*d, method)
                &&& status == CONFIG_SUCCESS ==> *final(d) == (LibinputDevice {
                    click_method: method,
                    ..*d
                })
                &&& !(status == CONFIG_SUCCESS) ==> *final(d) == *d
            },
        },
{
    match dev {
        None => CONFIG_UNSUPPORTED,
        Some(d) => {
            if method > 2 {
                return CONFIG_INVALID;
            }
            if method != 0 && method & d.click_methods == 0 {
                return CONFIG_UNSUPPORTED;
            }
            put_click_method(d, method);
            CONFIG_SUCCESS
        },
    }
}

pub open spec fn click_get_method(d: LibinputDevice) -> u32 {
    d.click_method
}

pub fn libinput_device_config_click_get_method(dev: Option<&LibinputDevice>) -> (r: u32)
    ensures
        r == (match dev {
            Some(d) => click_get_method(*d),
            None => 0,
        }),
{
    match dev {
        Some(d) => d.click_method,
        None => 0,
    }
}

pub open spec fn click_get_default_method(d: LibinputDevice) -> u32 {
    d.click_default_method
}

pub fn libinput_device_config_click_get_default_method(dev: Option<&LibinputDevice>) -> (r: u32)
    ensures
        r == (match dev {
            Some(d) => click_get_default_method(*d),
            None => 0,
        }),
{
    match dev {
        Some(d) => d.click_default_method,
        None => 0,
    }
}

fn put_clickfinger_button_map(d: &mut LibinputDevice, clickfinger_button_map: u32)
    ensures
        *final(d) == (LibinputDevice { clickfinger_button_map, ..*old(d) }),
{
    d.clickfinger_button_map = clickfinger_button_map;
}

pub open spec fn click_set_clickfinger_button_map_status(d: LibinputDevice, map: u32) -> u32 {
    if map > 1 {
        CONFIG_INVALID
    } else if d.click_methods & 2 == 0 {
        CONFIG_UNSUPPORTED
    } else {
        CONFIG_SUCCESS
    }
}

/// Sets which buttons clicks of two and three fingers stand for.
pub fn libinput_device_config_click_set_clickfinger_button_map(dev: Option<&mut LibinputDevice>, map: u32) -> (status: u32)
    ensures
        match dev {
            None => status == CONFIG_UNSUPPORTED,
            Some(d) => {
                &&& status == click_set_clickfinger_button_map_status(*d, map)
                &&& status == CONFIG_SUCCESS ==> *final(d) == (LibinputDevice {
                    clickfinger_button_map: map,
                    ..*d
                })
                &&& !(status == CONFIG_SUCCESS) ==> *final(d) == *d
            },
        },
{
    match dev {
        None => CONFIG_UNSUPPORTED,
        Some(d) => {
            if map > 1 {
                return CONFIG_INVALID;
            }
            if d.click_methods & 2 == 0 {
                return CONFIG_UNSUPPORTED;
            }
            put_clickfinger_button_map(d, map);
            CONFIG_SUCCESS
        },
    }
}

pub open spec fn click_get_clickfinger_button_map(d: LibinputDevice) -> u32 {
    if d.click_methods & 2 == 0 {
        0
    } else {
        d.clickfinger_button_map
    }
}

pub fn libinput_device_config_click_get_clickfinger_button_map(dev: Option<&LibinputDevice>) -> (r: u32)
    ensures
        r == (match dev {
            Some(d) => click_get_clickfinger_button_map(*d),
            None => 0,
        }),
{
    match dev {
        Some(d) => if d.click_methods & 2 == 0 {
                0
            } else {
                d.clickfinger_button_map
            },
        None => 0,
    }
}

pub open spec fn click_get_default_clickfinger_button_map(d: LibinputDevice) -> u32 {
    if d.click_methods & 2 == 0 {
        0
    } else {
        d.clickfinger_default_button_map
    }
}

pub fn libinput_device_config_click_get_default_clickfinger_button_map(dev: Option<&LibinputDevice>) -> (r: u32)
    ensures
        r == (match dev {
            Some(d) => click_get_default_clickfinger_button_map(*d),
            None => 0,
        }),
{
    match dev {
        Some(d) => if d.click_methods & 2 == 0 {
                0
            } else {
                d.clickfinger_default_button_map
            },
        None => 0,
    }
}

// ---------------------------------------------------------------------------
// Middle button emulation
// ---------------------------------------------------------------------------
pub open spec fn middle_emulation_is_available(d: LibinputDevice) -> i32 {
    flag_spec(d.middle_emulation_available)
}

pub fn libinput_device_config_middle_emulation_is_available(dev: Option<&LibinputDevice>) -> (r: i32)
    ensures
        r == (match dev {
            Some(d) => middle_emulation_is_available(*d),
            None => 0,
        }),
{
    match dev {
        Some(d) => flag(d.middle_emulation_available),
        None => 0,
    }
}

fn put_middle_emulation(d: &mut LibinputDevice, middle_emulation: bool)
    ensures
        *final(d) == (LibinputDevice { middle_emulation, ..*old(d) }),
{
    d.middle_emulation = middle_emulation;
}

pub open spec fn middle_emulation_set_enabled_status(d: LibinputDevice, enabled: u32) -> u32 {
    if enabled > 1 {
        CONFIG_INVALID
    } else if enabled == 1 && !d.middle_emulation_available {
        CONFIG_UNSUPPORTED
    } else {
        CONFIG_SUCCESS
    }
}

/// Sets whether left and right together stand for the middle button.
pub fn libinput_device_config_middle_emulation_set_enabled(dev: Option<&mut LibinputDevice>, enabled: u32) -> (status: u32)
    ensures
        match dev {
            None => status == CONFIG_UNSUPPORTED,
            Some(d) => {
                &&& status == middle_emulation_set_enabled_status(*d, enabled)
                &&& status == CONFIG_SUCCESS ==> *final(d) == (LibinputDevice {
                    middle_emulation: enabled != 0,
                    ..*d
                })
                &&& !(status == CONFIG_SUCCESS) ==> *final(d) == *d
            },
        },
{
    match dev {
        None => CONFIG_UNSUPPORTED,
        Some(d) => {
            if enabled > 1 {
                return CONFIG_INVALID;
            }
            if enabled == 1 && !d.middle_emulation_available {
                return CONFIG_UNSUPPORTED;
            }
            put_middle_emulation(d, enabled != 0);
            CONFIG_SUCCESS
        },
    }
}

pub open spec fn middle_emulation_get_enabled(d: LibinputDevice) -> u32 {
    if d.middle_emulation_available {
        switch_spec(d.middle_emulation)
    } else {
        0
    }
}

pub fn libinput_device_config_middle_emulation_get_enabled(dev: Option<&LibinputDevice>) -> (r: u32)
    ensures
        r == (match dev {
            Some(d) => middle_emulation_get_enabled(*d),
            None => 0,
        }),
{
    match dev {
        Some(d) => if d.middle_emulation_available {
                switch(d.middle_emulation)
            } else {
                0
            },
        None => 0,
    }
}

pub open spec fn middle_emulation_get_default_enabled(d: LibinputDevice) -> u32 {
    if d.middle_emulation_available {
        switch_spec(d.middle_emulation_default)
    } else {
        0
    }
}

pub fn libinput_device_config_middle_emulation_get_default_enabled(dev: Option<&LibinputDevice>) -> (r: u32)
    ensures
        r == (match dev {
            Some(d) => middle_emulation_get_default_enabled(*d),
            None => 0,
        }),
{
    match dev {
        Some(d) => if d.middle_emulation_available {
                switch(d.middle_emulation_default)
            } else {
                0
            },
        None => 0,
    }
}

// ---------------------------------------------------------------------------
// Disabling a touchpad while typing
// ---------------------------------------------------------------------------
pub open spec fn dwt_is_available(d: LibinputDevice) -> i32 {
    flag_spec(d.dwt_available)
}

pub fn libinput_device_config_dwt_is_available(dev: Option<&LibinputDevice>) -> (r: i32)
    ensures
        r == (match dev {
            Some(d) => dwt_is_available(*d),
            None => 0,
        }),
{
    match dev {
        Some(d) => flag(d.dwt_available),
        None => 0,
    }
}

fn put_dwt_enabled(d: &mut LibinputDevice, dwt_enabled: bool)
    ensures
        *final(d) == (LibinputDevice { dwt_enabled, ..*old(d) }),
{
    d.dwt_enabled = dwt_enabled;
}

pub open spec fn dwt_set_enabled_status(d: LibinputDevice, enabled: u32) -> u32 {
    if enabled > 1 {
        CONFIG_INVALID
    } else if !d.dwt_available && enabled != 0 {
        CONFIG_UNSUPPORTED
    } else {
        CONFIG_SUCCESS
    }
}

/// Sets whether a touchpad is ignored while typing.
pub fn libinput_device_config_dwt_set_enabled(dev: Option<&mut LibinputDevice>, enabled: u32) -> (status: u32)
    ensures
        match dev {
            None => status == CONFIG_UNSUPPORTED,
            Some(d) => {
                &&& status == dwt_set_enabled_status(*d, enabled)
                &&& status == CONFIG_SUCCESS && d.dwt_available ==> *final(d) == (LibinputDevice {
                    dwt_enabled: enabled == 1,
                    ..*d
                })
                &&& !(status == CONFIG_SUCCESS && d.dwt_available) ==> *final(d) == *d
            },
        },
{
    match dev {
        None => CONFIG_UNSUPPORTED,
        Some(d) => {
            if enabled > 1 {
                return CONFIG_INVALID;
            }
            if !d.dwt_available && enabled != 0 {
                return CONFIG_UNSUPPORTED;
            }
            if d.dwt_available {
                put_dwt_enabled(d, enabled == 1);
            }
            CONFIG_SUCCESS
        },
    }
}

pub open spec fn dwt_get_enabled(d: LibinputDevice) -> u32 {
    if d.dwt_available {
        switch_spec(d.dwt_enabled)
    } else {
        0
    }
}

pub fn libinput_device_config_dwt_get_enabled(dev: Option<&LibinputDevice>) -> (r: u32)
    ensures
        r == (match dev {
            Some(d) => dwt_get_enabled(*d),
            None => 0,
        }),
{
    match dev {
        Some(d) => if d.dwt_available {
                switch(d.dwt_enabled)
            } else {
                0
            },
        None => 0,
    }
}

pub open spec fn dwt_get_default_enabled(d: LibinputDevice) -> u32 {
    switch_spec(d.dwt_available)
}

pub fn libinput_device_config_dwt_get_default_enabled(dev: Option<&LibinputDevice>) -> (r: u32)
    ensures
        r == (match dev {
            Some(d) => dwt_get_default_enabled(*d),
            None => 0,
        }),
{
    match dev {
        Some(d) => switch(d.dwt_available),
        None => 0,
    }
}

fn put_dwt_timeout(d: &mut LibinputDevice, dwt_timeout: u32)
    ensures
        *final(d) == (LibinputDevice { dwt_timeout, ..*old(d) }),
{
    d.dwt_timeout = dwt_timeout;
}

pub open spec fn dwt_set_timeout_status(d: LibinputDevice, millis: u32) -> u32 {
    if millis == 0 {
        CONFIG_INVALID
    } else if !d.dwt_available {
        CONFIG_UNSUPPORTED
    } else if millis < 100 || millis > 5000 {
        CONFIG_INVALID
    } else {
        CONFIG_SUCCESS
    }
}

/// Sets for how long, in milliseconds: a tenth of a second to five seconds.
pub fn libinput_device_config_dwt_set_timeout(dev: Option<&mut LibinputDevice>, millis: u32) -> (status: u32)
    ensures
        match dev {
            None => status == CONFIG_UNSUPPORTED,
            Some(d) => {
                &&& status == dwt_set_timeout_status(*d, millis)
                &&& status == CONFIG_SUCCESS ==> *final(d) == (LibinputDevice {
                    dwt_timeout: millis,
                    ..*d
                })
                &&& !(status == CONFIG_SUCCESS) ==> *final(d) == *d
            },
        },
{
    match dev {
        None => CONFIG_UNSUPPORTED,
        Some(d) => {
            if millis == 0 {
                return CONFIG_INVALID;
            }
            if !d.dwt_available {
                return CONFIG_UNSUPPORTED;
            }
            if millis < 100 || millis > 5000 {
                return CONFIG_INVALID;
            }
            put_dwt_timeout(d, millis);
            CONFIG_SUCCESS
        },
    }
}

pub open spec fn dwt_get_timeout(d: LibinputDevice) -> u32 {
    if d.dwt_available {
        d.dwt_timeout
    } else {
        0
    }
}

pub fn libinput_device_config_dwt_get_timeout(dev: Option<&LibinputDevice>) -> (r: u32)
    ensures
        r == (match dev {
            Some(d) => dwt_get_timeout(*d),
            None => 0,
        }),
{
    match dev {
        Some(d) => if d.dwt_available {
                d.dwt_timeout
            } else {
                0
            },
        None => 0,
    }
}

pub open spec fn dwt_get_default_timeout(d: LibinputDevice) -> u32 {
    if d.dwt_available {
        500u32
    } else {
        0
    }
}

pub fn libinput_device_config_dwt_get_default_timeout(dev: Option<&LibinputDevice>) -> (r: u32)
    ensures
        r == (match dev {
            Some(d) => dwt_get_default_timeout(*d),
            None => 0,
        }),
{
    match dev {
        Some(d) => if d.dwt_available {
                500
            } else {
                0
            },
        None => 0,
    }
}

// ---------------------------------------------------------------------------
// Disabling a touchpad while pointing with a stick
// ---------------------------------------------------------------------------
pub open spec fn dwtp_is_available(d: LibinputDevice) -> i32 {
    flag_spec(d.dwtp_available)
}

pub fn libinput_device_config_dwtp_is_available(dev: Option<&LibinputDevice>) -> (r: i32)
    ensures
        r == (match dev {
            Some(d) => dwtp_is_available(*d),
            None => 0,
        }),
{
    match dev {
        Some(d) => flag(d.dwtp_available),
        None => 0,
    }
}

fn put_dwtp_enabled(d: &mut LibinputDevice, dwtp_enabled: bool)
    ensures
        *final(d) == (LibinputDevice { dwtp_enabled, ..*old(d) }),
{
    d.dwtp_enabled = dwtp_enabled;
}

pub open spec fn dwtp_set_enabled_status(d: LibinputDevice, enabled: u32) -> u32 {
    if enabled > 1 {
        CONFIG_INVALID
    } else if !d.dwtp_available && enabled != 0 {
        CONFIG_UNSUPPORTED
    } else {
        CONFIG_SUCCESS
    }
}

/// Sets whether a touchpad is ignored while pointing with a stick.
pub fn libinput_device_config_dwtp_set_enabled(dev: Option<&mut LibinputDevice>, enabled: u32) -> (status: u32)
    ensures
        match dev {
            None => status == CONFIG_UNSUPPORTED,
            Some(d) => {
                &&& status == dwtp_set_enabled_status(*d, enabled)
                &&& status == CONFIG_SUCCESS && d.dwtp_available ==> *final(d) == (LibinputDevice {
                    dwtp_enabled: enabled == 1,
                    ..*d
                })
                &&& !(status == CONFIG_SUCCESS && d.dwtp_available) ==> *final(d) == *d
            },
        },
{
    match dev {
        None => CONFIG_UNSUPPORTED,
        Some(d) => {
            if enabled > 1 {
                return CONFIG_INVALID;
            }
            if !d.dwtp_available && enabled != 0 {
                return CONFIG_UNSUPPORTED;
            }
            if d.dwtp_available {
                put_dwtp_enabled(d, enabled == 1);
            }
            CONFIG_SUCCESS
        },
    }
}

pub open spec fn dwtp_get_enabled(d: LibinputDevice) -> u32 {
    if d.dwtp_available {
        switch_spec(d.dwtp_enabled)
    } else {
        0
    }
}

pub fn libinput_device_config_dwtp_get_enabled(dev: Option<&LibinputDevice>) -> (r: u32)
    ensures
        r == (match dev {
            Some(d) => dwtp_get_enabled(*d),
            None => 0,
        }),
{
    match dev {
        Some(d) => if d.dwtp_available {
                switch(d.dwtp_enabled)
            } else {
                0
            },
        None => 0,
    }
}

pub open spec fn dwtp_get_default_enabled(d: LibinputDevice) -> u32 {
    switch_spec(d.dwtp_available)
}

pub fn libinput_device_config_dwtp_get_default_enabled(dev: Option<&LibinputDevice>) -> (r: u32)
    ensures
        r == (match dev {
            Some(d) => dwtp_get_default_enabled(*d),
            None => 0,
        }),
{
    match dev {
        Some(d) => switch(d.dwtp_available),
        None => 0,
    }
}

fn put_dwtp_timeout(d: &mut LibinputDevice, dwtp_timeout: u32)
    ensures
        *final(d) == (LibinputDevice { dwtp_timeout, ..*old(d) }),
{
    d.dwtp_timeout = dwtp_timeout;
}

pub open spec fn dwtp_set_timeout_status(d: LibinputDevice, millis: u32) -> u32 {
    if millis == 0 {
        CONFIG_INVALID
    } else if !d.dwtp_available {
        CONFIG_UNSUPPORTED
    } else if millis < 100 || millis > 5000 {
        CONFIG_INVALID
    } else {
        CONFIG_SUCCESS
    }
}

/// Sets for how long, in milliseconds: a tenth of a second to five seconds.
pub fn libinput_device_config_dwtp_set_timeout(dev: Option<&mut LibinputDevice>, millis: u32) -> (status: u32)
    ensures
        match dev {
            None => status == CONFIG_UNSUPPORTED,
            Some(d) => {
                &&& status == dwtp_set_timeout_status(*d, millis)
                &&& status == CONFIG_SUCCESS ==> *final(d) == (LibinputDevice {
                    dwtp_timeout: millis,
                    ..*d
                })
                &&& !(status == CONFIG_SUCCESS) ==> *final(d) == *d
            },
        },
{
    match dev {
        None => CONFIG_UNSUPPORTED,
        Some(d) => {
            if millis == 0 {
                return CONFIG_INVALID;
            }
            if !d.dwtp_available {
                return CONFIG_UNSUPPORTED;
            }
            if millis < 100 || millis > 5000 {
                return CONFIG_INVALID;
            }
            put_dwtp_timeout(d, millis);
            CONFIG_SUCCESS
        },
    }
}

pub open spec fn dwtp_get_timeout(d: LibinputDevice) -> u32 {
    if d.dwtp_available {
        d.dwtp_timeout
    } else {
        0
    }
}

pub fn libinput_device_config_dwtp_get_timeout(dev: Option<&LibinputDevice>) -> (r: u32)
    ensures
        r == (match dev {
            Some(d) => dwtp_get_timeout(*d),
            None => 0,
        }),
{
    match dev {
        Some(d) => if d.dwtp_available {
                d.dwtp_timeout
            } else {
                0
            },
        None => 0,
    }
}

pub open spec fn dwtp_get_default_timeout(d: LibinputDevice) -> u32 {
    if d.dwtp_available {
        300u32
    } else {
        0
    }
}

pub fn libinput_device_config_dwtp_get_default_timeout(dev: Option<&LibinputDevice>) -> (r: u32)
    ensures
        r == (match dev {
            Some(d) => dwtp_get_default_timeout(*d),
            None => 0,
        }),
{
    match dev {
        Some(d) => if d.dwtp_available {
                300
            } else {
                0
            },
        None => 0,
    }
}

// ---------------------------------------------------------------------------
// Calibration, area and rotation
// ---------------------------------------------------------------------------
pub open spec fn calibration_has_matrix(d: LibinputDevice) -> i32 {
    flag_spec(d.calibration_available)
}

pub fn libinput_device_config_calibration_has_matrix(dev: Option<&LibinputDevice>) -> (r: i32)
    ensures
        r == (match dev {
            Some(d) => calibration_has_matrix(*d),
            None => 0,
        }),
{
    match dev {
        Some(d) => flag(d.calibration_available),
        None => 0,
    }
}

pub open spec fn area_has_rectangle(d: LibinputDevice) -> i32 {
    flag_spec(d.area_available)
}

pub fn libinput_device_config_area_has_rectangle(dev: Option<&LibinputDevice>) -> (r: i32)
    ensures
        r == (match dev {
            Some(d) => area_has_rectangle(*d),
            None => 0,
        }),
{
    match dev {
        Some(d) => flag(d.area_available),
        None => 0,
    }
}

pub open spec fn rotation_is_available(d: LibinputDevice) -> i32 {
    flag_spec(d.rotation_available)
}

pub fn libinput_device_config_rotation_is_available(dev: Option<&LibinputDevice>) -> (r: i32)
    ensures
        r == (match dev {
            Some(d) => rotation_is_available(*d),
            None => 0,
        }),
{
    match dev {
        Some(d) => flag(d.rotation_available),
        None => 0,
    }
}

fn put_rotation_angle(d: &mut LibinputDevice, rotation_angle: u32)
    ensures
        *final(d) == (LibinputDevice { rotation_angle, ..*old(d) }),
{
    d.rotation_angle = rotation_angle;
}

pub open spec fn rotation_set_angle_status(d: LibinputDevice, degrees_cw: u32) -> u32 {
    if degrees_cw >= 360 {
        CONFIG_INVALID
    } else if !d.rotation_available && degrees_cw != 0 {
        CONFIG_UNSUPPORTED
    } else {
        CONFIG_SUCCESS
    }
}

/// Sets by how much a device is turned clockwise. One that cannot be turned can only be told not to be.
pub fn libinput_device_config_rotation_set_angle(dev: Option<&mut LibinputDevice>, degrees_cw: u32) -> (status: u32)
    ensures
        match dev {
            None => status == CONFIG_UNSUPPORTED,
            Some(d) => {
                &&& status == rotation_set_angle_status(*d, degrees_cw)
                &&& status == CONFIG_SUCCESS ==> *final(d) == (LibinputDevice {
                    rotation_angle: degrees_cw,
                    ..*d
                })
                &&& !(status == CONFIG_SUCCESS) ==> *final(d) == *d
            },
        },
{
    match dev {
        None => CONFIG_UNSUPPORTED,
        Some(d) => {
            if degrees_cw >= 360 {
                return CONFIG_INVALID;
            }
            if !d.rotation_available && degrees_cw != 0 {
                return CONFIG_UNSUPPORTED;
            }
            put_rotation_angle(d, degrees_cw);
            CONFIG_SUCCESS
        },
    }
}

pub open spec fn rotation_get_angle(d: LibinputDevice) -> u32 {
    d.rotation_angle
}

pub fn libinput_device_config_rotation_get_angle(dev: Option<&LibinputDevice>) -> (r: u32)
    ensures
        r == (match dev {
            Some(d) => rotation_get_angle(*d),
            None => 0,
        }),
{
    match dev {
        Some(d) => d.rotation_angle,
        None => 0,
    }
}

pub fn libinput_device_config_rotation_get_default_angle(dev: Option<&LibinputDevice>) -> (r: u32)
    ensures
        r == 0,
{
    0
}

// ---------------------------------------------------------------------------
// Switching devices off
// ---------------------------------------------------------------------------
pub open spec fn send_events_get_modes(d: LibinputDevice) -> u32 {
    d.send_events_modes
}

pub fn libinput_device_config_send_events_get_modes(dev: Option<&LibinputDevice>) -> (r: u32)
    ensures
        r == (match dev {
            Some(d) => send_events_get_modes(*d),
            None => 0,
        }),
{
    match dev {
        Some(d) => d.send_events_modes,
        None => 0,
    }
}

pub(crate) fn put_send_events_mode(d: &mut LibinputDevice, send_events_mode: u32)
    ensures
        *final(d) == (LibinputDevice { send_events_mode, ..*old(d) }),
{
    d.send_events_mode = send_events_mode;
}

/// The mode that takes effect: switched off prevails over the others.
pub open spec fn effective_mode(mode: u32) -> u32 {
    if mode & 1 != 0 {
        1
    } else {
        mode
    }
}

/// Whether a mode makes a device let go of everything: it is switched off, or
/// it is while there is an external mouse, and there is one.
pub open spec fn lets_go(d: LibinputDevice, mode: u32, external_mouse: bool) -> bool {
    let next = effective_mode(mode);
    d.send_events_mode != next && (next == 1 || (next == 2 && external_mouse))
}

/// Sets when a device reports events. This is the setting alone; the second
/// result tells whether the device is to let go of everything that it holds,
/// which `LibinputContext::set_send_events_mode` sees to.
pub fn libinput_device_config_send_events_set_mode(
    dev: Option<&mut LibinputDevice>,
    mode: u32,
    external_mouse: bool,
) -> (r: (u32, bool))
    ensures
        match dev {
            None => r == (CONFIG_UNSUPPORTED, false),
            Some(d) => if mode & !d.send_events_modes != 0 {
                r == (CONFIG_UNSUPPORTED, false) && *final(d) == *d
            } else {
                &&& r == (CONFIG_SUCCESS, lets_go(*d, mode, external_mouse))
                &&& *final(d) == (LibinputDevice { send_events_mode: effective_mode(mode), ..*d })
            },
        },
{
    match dev {
        None => (CONFIG_UNSUPPORTED, false),
        Some(d) => {
            if mode & !d.send_events_modes != 0 {
                return (CONFIG_UNSUPPORTED, false);
            }
            let previous: u32 = d.send_events_mode;
            let next: u32 = if mode & 1 != 0 {
                1
            } else {
                mode
            };
            put_send_events_mode(d, next);
            (CONFIG_SUCCESS, previous != next && (next == 1 || (next == 2 && external_mouse)))
        },
    }
}

pub open spec fn send_events_get_mode(d: LibinputDevice) -> u32 {
    d.send_events_mode
}

pub fn libinput_device_config_send_events_get_mode(dev: Option<&LibinputDevice>) -> (r: u32)
    ensures
        r == (match dev {
            Some(d) => send_events_get_mode(*d),
            None => 0,
        }),
{
    match dev {
        Some(d) => d.send_events_mode,
        None => 0,
    }
}

pub fn libinput_device_config_send_events_get_default_mode(dev: Option<&LibinputDevice>) -> (r: u32)
    ensures
        r == 0,
{
    0
}

// ---------------------------------------------------------------------------
// Reading back
// ---------------------------------------------------------------------------
/// Whatever is set is read back, of every setting that takes a number.
pub proof fn law_settings_are_read_back(d: LibinputDevice, value: u32)
    ensures
        tap_set_enabled_status(d, value) == CONFIG_SUCCESS && d.tap_finger_count != 0 ==> tap_get_enabled(
            LibinputDevice { tap_enabled: value != 0, ..d },
        ) == value,
        tap_set_drag_enabled_status(d, value) == CONFIG_SUCCESS && d.tap_finger_count != 0 ==> tap_get_drag_enabled(
            LibinputDevice { tap_drag_enabled: value != 0, ..d },
        ) == value,
        tap_set_drag_lock_enabled_status(d, value) == CONFIG_SUCCESS && d.tap_finger_count != 0 ==> tap_get_drag_lock_enabled(
            LibinputDevice { tap_drag_lock_enabled: value, ..d },
        ) == value,
        tap_set_button_map_status(d, value) == CONFIG_SUCCESS ==> tap_get_button_map(
            LibinputDevice { tap_button_map: value, ..d },
        ) == value,
        drag_3fg_drag_set_enabled_status(d, value) == CONFIG_SUCCESS ==> drag_3fg_drag_get_enabled(
            LibinputDevice { drag_3fg_enabled: value, ..d },
        ) == value,
        accel_set_profile_status(d, value) == CONFIG_SUCCESS ==> accel_get_profile(
            LibinputDevice { accel_profile: value, ..d },
        ) == value,
        scroll_set_method_status(d, value) == CONFIG_SUCCESS ==> scroll_get_method(
            LibinputDevice { scroll_method: value, ..d },
        ) == value,
        scroll_set_button_status(d, value) == CONFIG_SUCCESS ==> scroll_get_button(
            LibinputDevice { scroll_button: value, ..d },
        ) == value,
        scroll_set_button_lock_status(d, value) == CONFIG_SUCCESS ==> scroll_get_button_lock(
            LibinputDevice { scroll_button_lock: value, ..d },
        ) == value,
        click_set_method_status(d, value) == CONFIG_SUCCESS ==> click_get_method(
            LibinputDevice { click_method: value, ..d },
        ) == value,
        click_set_clickfinger_button_map_status(d, value) == CONFIG_SUCCESS ==> click_get_clickfinger_button_map(
            LibinputDevice { clickfinger_button_map: value, ..d },
        ) == value,
        middle_emulation_set_enabled_status(d, value) == CONFIG_SUCCESS ==> middle_emulation_get_enabled(
            LibinputDevice { middle_emulation: value != 0, ..d },
        ) == value,
        dwt_set_enabled_status(d, value) == CONFIG_SUCCESS && d.dwt_available ==> dwt_get_enabled(
            LibinputDevice { dwt_enabled: value == 1, ..d },
        ) == value,
        dwt_set_timeout_status(d, value) == CONFIG_SUCCESS ==> dwt_get_timeout(
            LibinputDevice { dwt_timeout: value, ..d },
        ) == value,
        dwtp_set_enabled_status(d, value) == CONFIG_SUCCESS && d.dwtp_available ==> dwtp_get_enabled(
            LibinputDevice { dwtp_enabled: value == 1, ..d },
        ) == value,
        dwtp_set_timeout_status(d, value) == CONFIG_SUCCESS ==> dwtp_get_timeout(
            LibinputDevice { dwtp_timeout: value, ..d },
        ) == value,
        rotation_set_angle_status(d, value) == CONFIG_SUCCESS ==> rotation_get_angle(
            LibinputDevice { rotation_angle: value, ..d },
        ) == value,
{
}

/// Whatever is set is read back, of every setting that is on or off.
pub proof fn law_switches_are_read_back(d: LibinputDevice, value: i32)
    ensures
        scroll_set_natural_scroll_enabled_status(d, value) == CONFIG_SUCCESS ==> scroll_get_natural_scroll_enabled(
            LibinputDevice { natural_scroll: value != 0, ..d },
        ) == flag_spec(value != 0),
        left_handed_set_status(d, value) == CONFIG_SUCCESS ==> left_handed_get(
            LibinputDevice { left_handed: value != 0, ..d },
        ) == flag_spec(value != 0),
{
}

} // verus!
