//! Tablet tools and the mode groups of tablet pads, as clients see them.
use vstd::prelude::*;
use crate::api::device_config::{CONFIG_INVALID, CONFIG_SUCCESS, CONFIG_UNSUPPORTED};
use crate::api::events::{flag, flag_spec};
use crate::backend::tools::{contains_button, LibinputTabletTool};
use crate::ffi_types::LibinputTabletPadModeGroup;

verus! {

// ---------------------------------------------------------------------------
// Mode groups
// ---------------------------------------------------------------------------
pub fn libinput_tablet_pad_mode_group_get_index(group: Option<&LibinputTabletPadModeGroup>) -> (r:
    u32)
    ensures
        r == (match group {
            Some(g) => g.index,
            None => 0,
        }),
{
    match group {
        Some(g) => g.index,
        None => 0,
    }
}

pub fn libinput_tablet_pad_mode_group_get_mode(group: Option<&LibinputTabletPadModeGroup>) -> (r:
    u32)
    ensures
        r == (match group {
            Some(g) => g.current_mode,
            None => 0,
        }),
{
    match group {
        Some(g) => g.current_mode,
        None => 0,
    }
}

pub fn libinput_tablet_pad_mode_group_get_num_modes(group: Option<&LibinputTabletPadModeGroup>) -> (r:
    u32)
    ensures
        r == (match group {
            Some(g) => g.num_modes,
            None => 0,
        }),
{
    match group {
        Some(g) => g.num_modes,
        None => 0,
    }
}

pub fn libinput_tablet_pad_mode_group_get_user_data(group: Option<&LibinputTabletPadModeGroup>) -> (r:
    usize)
    ensures
        r == (match group {
            Some(g) => g.user_data,
            None => 0,
        }),
{
    match group {
        Some(g) => g.user_data,
        None => 0,
    }
}

/// Whether a mask holds a bit.
pub open spec fn in_mask(mask: u32, bit: u32) -> bool {
    bit < 32 && mask & (1u32 << bit) != 0
}

fn holds_bit(mask: u32, bit: u32) -> (holds: bool)
    ensures
        holds == in_mask(mask, bit),
{
    bit < 32 && mask & (1u32 << bit) != 0
}

pub fn libinput_tablet_pad_mode_group_button_is_toggle(
    group: Option<&LibinputTabletPadModeGroup>,
    button: u32,
) -> (r: i32)
    ensures
        r == (match group {
            Some(g) => flag_spec(in_mask(g.toggle_button_mask, button)),
            None => 0,
        }),
{
    match group {
        Some(g) => flag(holds_bit(g.toggle_button_mask, button)),
        None => 0,
    }
}

pub fn libinput_tablet_pad_mode_group_has_button(
    group: Option<&LibinputTabletPadModeGroup>,
    button: u32,
) -> (r: i32)
    ensures
        r == (match group {
            Some(g) => flag_spec(in_mask(g.button_mask, button)),
            None => 0,
        }),
{
    match group {
        Some(g) => flag(holds_bit(g.button_mask, button)),
        None => 0,
    }
}

pub fn libinput_tablet_pad_mode_group_has_dial(
    group: Option<&LibinputTabletPadModeGroup>,
    dial: u32,
) -> (r: i32)
    ensures
        r == (match group {
            Some(g) => flag_spec(in_mask(g.dial_mask, dial)),
            None => 0,
        }),
{
    match group {
        Some(g) => flag(holds_bit(g.dial_mask, dial)),
        None => 0,
    }
}

pub fn libinput_tablet_pad_mode_group_has_ring(
    group: Option<&LibinputTabletPadModeGroup>,
    ring: u32,
) -> (r: i32)
    ensures
        r == (match group {
            Some(g) => flag_spec(in_mask(g.ring_mask, ring)),
            None => 0,
        }),
{
    match group {
        Some(g) => flag(holds_bit(g.ring_mask, ring)),
        None => 0,
    }
}

pub fn libinput_tablet_pad_mode_group_has_strip(
    group: Option<&LibinputTabletPadModeGroup>,
    strip: u32,
) -> (r: i32)
    ensures
        r == (match group {
            Some(g) => flag_spec(in_mask(g.strip_mask, strip)),
            None => 0,
        }),
{
    match group {
        Some(g) => flag(holds_bit(g.strip_mask, strip)),
        None => 0,
    }
}

/// Adds a reference to a mode group.
pub fn libinput_tablet_pad_mode_group_ref(group: Option<&mut LibinputTabletPadModeGroup>) -> (there: bool)
    requires
        group matches Some(x) ==> x.refcount < i32::MAX,
    ensures
        there == group is Some,
        group matches Some(x) ==> *final(x) == (LibinputTabletPadModeGroup {
            refcount: (x.refcount + 1) as i32,
            ..*x
        }),
{
    match group {
        None => false,
        Some(x) => {
            x.refcount = x.refcount + 1;
            true
        },
    }
}

/// Drops a reference to a mode group. Tells whether it lives on.
pub fn libinput_tablet_pad_mode_group_unref(group: Option<&mut LibinputTabletPadModeGroup>) -> (alive: bool)
    requires
        group matches Some(x) ==> x.refcount > i32::MIN,
    ensures
        match group {
            None => !alive,
            Some(x) => alive == (x.refcount != 1) && *final(x) == (LibinputTabletPadModeGroup {
                refcount: (x.refcount - 1) as i32,
                ..*x
            }),
        },
{
    match group {
        None => false,
        Some(x) => {
            x.refcount = x.refcount - 1;
            x.refcount != 0
        },
    }
}

pub fn libinput_tablet_pad_mode_group_set_user_data(group: Option<&mut LibinputTabletPadModeGroup>, data: usize)
    ensures
        group matches Some(x) ==> *final(x) == (LibinputTabletPadModeGroup { user_data: data, ..*x }),
{
    if let Some(x) = group {
        x.user_data = data;
    }
}

// ---------------------------------------------------------------------------
// Tools
// ---------------------------------------------------------------------------
pub fn libinput_tablet_tool_get_serial(tool: Option<&LibinputTabletTool>) -> (r: u64)
    ensures
        r == (match tool {
            Some(t) => t.serial,
            None => 0,
        }),
{
    match tool {
        Some(t) => t.serial,
        None => 0,
    }
}

pub fn libinput_tablet_tool_get_tool_id(tool: Option<&LibinputTabletTool>) -> (r: u64)
    ensures
        r == (match tool {
            Some(t) => t.tool_id,
            None => 0,
        }),
{
    match tool {
        Some(t) => t.tool_id,
        None => 0,
    }
}

pub fn libinput_tablet_tool_get_type(tool: Option<&LibinputTabletTool>) -> (r: u32)
    ensures
        r == (match tool {
            Some(t) => t.tool_type,
            None => 0,
        }),
{
    match tool {
        Some(t) => t.tool_type,
        None => 0,
    }
}

pub fn libinput_tablet_tool_get_user_data(tool: Option<&LibinputTabletTool>) -> (r: usize)
    ensures
        r == (match tool {
            Some(t) => t.user_data,
            None => 0,
        }),
{
    match tool {
        Some(t) => t.user_data,
        None => 0,
    }
}

pub fn libinput_tablet_tool_has_pressure(tool: Option<&LibinputTabletTool>) -> (r: i32)
    ensures
        r == (match tool {
            Some(t) => flag_spec(t.has.pressure),
            None => 0,
        }),
{
    match tool {
        Some(t) => flag(t.has.pressure),
        None => 0,
    }
}

pub fn libinput_tablet_tool_has_distance(tool: Option<&LibinputTabletTool>) -> (r: i32)
    ensures
        r == (match tool {
            Some(t) => flag_spec(t.has.distance),
            None => 0,
        }),
{
    match tool {
        Some(t) => flag(t.has.distance),
        None => 0,
    }
}

pub fn libinput_tablet_tool_has_tilt(tool: Option<&LibinputTabletTool>) -> (r: i32)
    ensures
        r == (match tool {
            Some(t) => flag_spec(t.has.tilt),
            None => 0,
        }),
{
    match tool {
        Some(t) => flag(t.has.tilt),
        None => 0,
    }
}

pub fn libinput_tablet_tool_has_rotation(tool: Option<&LibinputTabletTool>) -> (r: i32)
    ensures
        r == (match tool {
            Some(t) => flag_spec(t.has.rotation),
            None => 0,
        }),
{
    match tool {
        Some(t) => flag(t.has.rotation),
        None => 0,
    }
}

pub fn libinput_tablet_tool_has_slider(tool: Option<&LibinputTabletTool>) -> (r: i32)
    ensures
        r == (match tool {
            Some(t) => flag_spec(t.has.slider),
            None => 0,
        }),
{
    match tool {
        Some(t) => flag(t.has.slider),
        None => 0,
    }
}

pub fn libinput_tablet_tool_has_wheel(tool: Option<&LibinputTabletTool>) -> (r: i32)
    ensures
        r == (match tool {
            Some(t) => flag_spec(t.has.wheel),
            None => 0,
        }),
{
    match tool {
        Some(t) => flag(t.has.wheel),
        None => 0,
    }
}

pub fn libinput_tablet_tool_has_size(tool: Option<&LibinputTabletTool>) -> (r: i32)
    ensures
        r == (match tool {
            Some(t) => flag_spec(t.has.size),
            None => 0,
        }),
{
    match tool {
        Some(t) => flag(t.has.size),
        None => 0,
    }
}

/// Whether a tool can be told apart from others of its kind.
pub fn libinput_tablet_tool_is_unique(tool: Option<&LibinputTabletTool>) -> (r: i32)
    ensures
        r == (match tool {
            Some(t) => flag_spec(t.serial != 0),
            None => 0,
        }),
{
    match tool {
        Some(t) => flag(t.serial != 0),
        None => 0,
    }
}

/// Whether a tool that is there has a button. `buttons` are those that it has.
pub fn libinput_tablet_tool_has_button(buttons: Option<&Vec<u32>>, button: u32) -> (r: i32)
    ensures
        r == (match buttons {
            Some(own) => flag_spec(own@.contains(button)),
            None => 0,
        }),
{
    match buttons {
        Some(own) => flag(contains_button(own, button)),
        None => 0,
    }
}

/// Adds a reference to a tool.
pub fn libinput_tablet_tool_ref(tool: Option<&mut LibinputTabletTool>) -> (there: bool)
    requires
        tool matches Some(x) ==> x.refcount < i32::MAX,
    ensures
        there == tool is Some,
        tool matches Some(x) ==> *final(x) == (LibinputTabletTool {
            refcount: (x.refcount + 1) as i32,
            ..*x
        }),
{
    match tool {
        None => false,
        Some(x) => {
            x.refcount = x.refcount + 1;
            true
        },
    }
}

/// Drops a reference to a tool. Tells whether it lives on.
pub fn libinput_tablet_tool_unref(tool: Option<&mut LibinputTabletTool>) -> (alive: bool)
    requires
        tool matches Some(x) ==> x.refcount > i32::MIN,
    ensures
        match tool {
            None => !alive,
            Some(x) => alive == (x.refcount != 1) && *final(x) == (LibinputTabletTool {
                refcount: (x.refcount - 1) as i32,
                ..*x
            }),
        },
{
    match tool {
        None => false,
        Some(x) => {
            x.refcount = x.refcount - 1;
            x.refcount != 0
        },
    }
}

pub fn libinput_tablet_tool_set_user_data(tool: Option<&mut LibinputTabletTool>, data: usize)
    ensures
        tool matches Some(x) ==> *final(x) == (LibinputTabletTool { user_data: data, ..*x }),
{
    if let Some(x) = tool {
        x.user_data = data;
    }
}

// ---------------------------------------------------------------------------
// Configuration of tools
// ---------------------------------------------------------------------------
pub fn libinput_tablet_tool_config_pressure_range_is_available(tool: Option<&LibinputTabletTool>) -> (r: i32)
    ensures
        r == (match tool {
            Some(t) => flag_spec(t.has.pressure),
            None => 0,
        }),
{
    match tool {
        Some(t) => flag(t.has.pressure),
        None => 0,
    }
}

pub fn libinput_tablet_tool_config_eraser_button_get_modes(tool: Option<&LibinputTabletTool>) -> (r: u32)
    ensures
        r == (match tool {
            Some(t) => t.eraser_button_modes,
            None => 0,
        }),
{
    match tool {
        Some(t) => t.eraser_button_modes,
        None => 0,
    }
}

/// Sets whether an eraser is an eraser or a button. While the tool is near,
/// the new mode waits until it has left.
pub fn libinput_tablet_tool_config_eraser_button_set_mode(
    tool: Option<&mut LibinputTabletTool>,
    mode: u32,
) -> (status: u32)
    ensures
        match tool {
            None => status == CONFIG_UNSUPPORTED,
            Some(t) => {
                &&& status == (if mode != 0 && t.eraser_button_modes & mode == 0 {
                    CONFIG_UNSUPPORTED
                } else if mode > 1 {
                    CONFIG_INVALID
                } else {
                    CONFIG_SUCCESS
                })
                &&& status == CONFIG_SUCCESS ==> *final(t) == (LibinputTabletTool {
                    wanted_eraser_button_mode: mode,
                    eraser_button_mode: if t.in_proximity {
                        t.eraser_button_mode
                    } else {
                        mode
                    },
                    ..*t
                })
                &&& status != CONFIG_SUCCESS ==> *final(t) == *t
            },
        },
{
    match tool {
        None => CONFIG_UNSUPPORTED,
        Some(t) => {
            if mode != 0 && t.eraser_button_modes & mode == 0 {
                return CONFIG_UNSUPPORTED;
            }
            if mode > 1 {
                return CONFIG_INVALID;
            }
            t.wanted_eraser_button_mode = mode;
            if !t.in_proximity {
                t.eraser_button_mode = mode;
            }
            CONFIG_SUCCESS
        },
    }
}

pub fn libinput_tablet_tool_config_eraser_button_get_mode(tool: Option<&LibinputTabletTool>) -> (r: u32)
    ensures
        r == (match tool {
            Some(t) => if t.eraser_button_modes == 0 {
                0
            } else {
                t.wanted_eraser_button_mode
            },
            None => 0,
        }),
{
    match tool {
        Some(t) => if t.eraser_button_modes == 0 {
                0
            } else {
                t.wanted_eraser_button_mode
            },
        None => 0,
    }
}

pub fn libinput_tablet_tool_config_eraser_button_get_default_mode(
    tool: Option<&LibinputTabletTool>,
) -> (r: u32)
    ensures
        r == 0,
{
    0
}

/// Whether an eraser can stand for a button: those of pens, mice, gamepads
/// and other devices.
pub open spec fn is_eraser_button(button: u32) -> bool {
    button == 0x149 || button == 0x14b || button == 0x14c || 0x100 <= button < 0x140 || 0x150
        <= button <= 0x151 || 0x220 <= button <= 0x223 || 0x2c0 <= button <= 0x2e7
}

/// Sets the button that an eraser stands for. While the tool is near, the new
/// button waits until it has left.
pub fn libinput_tablet_tool_config_eraser_button_set_button(
    tool: Option<&mut LibinputTabletTool>,
    button: u32,
) -> (status: u32)
    ensures
        match tool {
            None => status == CONFIG_UNSUPPORTED,
            Some(t) => {
                &&& status == (if t.eraser_button_modes == 0 {
                    CONFIG_UNSUPPORTED
                } else if !is_eraser_button(button) {
                    CONFIG_INVALID
                } else {
                    CONFIG_SUCCESS
                })
                &&& status == CONFIG_SUCCESS ==> *final(t) == (LibinputTabletTool {
                    wanted_eraser_button: button,
                    eraser_button: if t.in_proximity {
                        t.eraser_button
                    } else {
                        button
                    },
                    ..*t
                })
                &&& status != CONFIG_SUCCESS ==> *final(t) == *t
            },
        },
{
    match tool {
        None => CONFIG_UNSUPPORTED,
        Some(t) => {
            if t.eraser_button_modes == 0 {
                return CONFIG_UNSUPPORTED;
            }
            let known = button == 0x149 || button == 0x14b || button == 0x14c || (0x100 <= button
                && button < 0x140) || (0x150 <= button && button <= 0x151) || (0x220 <= button
                && button <= 0x223) || (0x2c0 <= button && button <= 0x2e7);
            if !known {
                return CONFIG_INVALID;
            }
            t.wanted_eraser_button = button;
            if !t.in_proximity {
                t.eraser_button = button;
            }
            CONFIG_SUCCESS
        },
    }
}

pub fn libinput_tablet_tool_config_eraser_button_get_button(tool: Option<&LibinputTabletTool>) -> (r: u32)
    ensures
        r == (match tool {
            Some(t) => if t.eraser_button_modes == 0 {
                0
            } else {
                t.wanted_eraser_button
            },
            None => 0,
        }),
{
    match tool {
        Some(t) => if t.eraser_button_modes == 0 {
                0
            } else {
                t.wanted_eraser_button
            },
        None => 0,
    }
}

pub fn libinput_tablet_tool_config_eraser_button_get_default_button(tool: Option<&LibinputTabletTool>) -> (r: u32)
    ensures
        r == (match tool {
            Some(t) => if t.eraser_button_modes == 0 {
                0
            } else {
                t.default_eraser_button
            },
            None => 0,
        }),
{
    match tool {
        Some(t) => if t.eraser_button_modes == 0 {
                0
            } else {
                t.default_eraser_button
            },
        None => 0,
    }
}

/// Whatever a user wants of an eraser holds once the tool has left, and is
/// what clients read back at once.
pub proof fn law_wanted_erasers_wait_for_the_tool(tool: LibinputTabletTool, mode: u32, button: u32)
    ensures
        ({
            let asked = LibinputTabletTool {
                wanted_eraser_button_mode: mode,
                wanted_eraser_button: button,
                ..tool
            };
            let left = crate::backend::tools::tool_left(asked);
            &&& left.eraser_button_mode == mode
            &&& left.eraser_button == button
            &&& left.wanted_eraser_button_mode == mode
            &&& left.wanted_eraser_button == button
            &&& !left.in_proximity
        }),
{
}

} // verus!
