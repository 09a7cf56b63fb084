//! What clients read off a device.
use vstd::prelude::*;
use crate::api::events::{flag, flag_spec};
use crate::evtrans::contains_code;
use crate::ffi_types::{LibinputDevice, LibinputTabletPadModeGroup};

verus! {

// ---------------------------------------------------------------------------
// Identity
// ---------------------------------------------------------------------------
pub fn libinput_device_get_name<'a>(dev: Option<&'a LibinputDevice>) -> (text: Option<&'a str>)
    ensures
        match dev {
            Some(d) => text is Some && (text->0)@ == d.name@,
            None => text is None,
        },
{
    match dev {
        Some(d) => Some(d.name.as_str()),
        None => None,
    }
}

pub fn libinput_device_get_sysname<'a>(dev: Option<&'a LibinputDevice>) -> (text: Option<&'a str>)
    ensures
        match dev {
            Some(d) => text is Some && (text->0)@ == d.sysname@,
            None => text is None,
        },
{
    match dev {
        Some(d) => Some(d.sysname.as_str()),
        None => None,
    }
}

pub fn libinput_device_get_devnode<'a>(dev: Option<&'a LibinputDevice>) -> (text: Option<&'a str>)
    ensures
        match dev {
            Some(d) => text is Some && (text->0)@ == d.devnode@,
            None => text is None,
        },
{
    match dev {
        Some(d) => Some(d.devnode.as_str()),
        None => None,
    }
}

pub fn libinput_device_get_output_name<'a>(dev: Option<&'a LibinputDevice>) -> (text: Option<
    &'a str,
>)
    ensures
        match dev {
            Some(d) => match d.output_name {
                Some(name) => text is Some && (text->0)@ == name@,
                None => text is None,
            },
            None => text is None,
        },
{
    match dev {
        Some(d) => match &d.output_name {
            Some(name) => Some(name.as_str()),
            None => None,
        },
        None => None,
    }
}

pub fn libinput_device_get_id_vendor(dev: Option<&LibinputDevice>) -> (r: u32)
    ensures
        r == (match dev {
            Some(d) => d.vendor_id,
            None => 0,
        }),
{
    match dev {
        Some(d) => d.vendor_id,
        None => 0,
    }
}

pub fn libinput_device_get_id_product(dev: Option<&LibinputDevice>) -> (r: u32)
    ensures
        r == (match dev {
            Some(d) => d.product_id,
            None => 0,
        }),
{
    match dev {
        Some(d) => d.product_id,
        None => 0,
    }
}

pub fn libinput_device_get_id_bustype(dev: Option<&LibinputDevice>) -> (r: u32)
    ensures
        r == (match dev {
            Some(d) => d.bus_type,
            None => 0,
        }),
{
    match dev {
        Some(d) => d.bus_type,
        None => 0,
    }
}

pub fn libinput_device_get_user_data(dev: Option<&LibinputDevice>) -> (r: usize)
    ensures
        r == (match dev {
            Some(d) => d.user_data,
            None => 0,
        }),
{
    match dev {
        Some(d) => d.user_data,
        None => 0,
    }
}

fn put_user_data(d: &mut LibinputDevice, user_data: usize)
    ensures
        *final(d) == (LibinputDevice { user_data, ..*old(d) }),
{
    d.user_data = user_data;
}

pub fn libinput_device_set_user_data(dev: Option<&mut LibinputDevice>, data: usize)
    ensures
        dev matches Some(d) ==> *final(d) == (LibinputDevice { user_data: data, ..*d }),
{
    if let Some(d) = dev {
        put_user_data(d, data);
    }
}

// ---------------------------------------------------------------------------
// Capabilities
// ---------------------------------------------------------------------------
/// Whether a device has a capability: keyboard, pointer, touch, tablet tool,
/// tablet pad, gesture and switch are numbered from 0.
pub open spec fn has_capability(d: LibinputDevice, capability: u32) -> bool {
    if capability == 0 {
        d.has_keyboard
    } else if capability == 1 {
        d.has_pointer
    } else if capability == 2 {
        d.has_touch
    } else if capability == 3 {
        d.has_tablet
    } else if capability == 4 {
        d.has_tablet_pad
    } else if capability == 5 {
        d.has_gesture
    } else {
        capability == 6 && d.has_switch
    }
}

pub fn libinput_device_has_capability(dev: Option<&LibinputDevice>, capability: u32) -> (r: i32)
    ensures
        r == (match dev {
            Some(d) => flag_spec(has_capability(*d, capability)),
            None => 0,
        }),
{
    match dev {
        Some(d) => {
            let has = match capability {
                0 => d.has_keyboard,
                1 => d.has_pointer,
                2 => d.has_touch,
                3 => d.has_tablet,
                4 => d.has_tablet_pad,
                5 => d.has_gesture,
                6 => d.has_switch,
                _ => false,
            };
            flag(has)
        },
        None => 0,
    }
}

/// How many fingers a touchscreen tells apart; nothing else has touches to
/// count.
pub fn libinput_device_touch_get_touch_count(dev: Option<&LibinputDevice>) -> (count: i32)
    ensures
        count == (match dev {
            Some(d) => if d.has_touch {
                d.touch_count as int
            } else {
                -1
            },
            None => -1,
        }),
{
    match dev {
        Some(d) => if d.has_touch {
            d.touch_count
        } else {
            -1
        },
        None => -1,
    }
}

/// Whether a device can report a key or a button.
pub open spec fn has_code(d: LibinputDevice, code: u32) -> bool {
    code <= 0xffff && d.event_codes@.contains(code as u16)
}

fn offers(d: &LibinputDevice, code: u32) -> (has: bool)
    ensures
        has == has_code(*d, code),
{
    code <= 0xffff && contains_code(&d.event_codes, code as u16)
}

/// Whether a keyboard has a key; -1 if the device is no keyboard.
pub fn libinput_device_keyboard_has_key(dev: Option<&LibinputDevice>, key: u32) -> (r: i32)
    ensures
        r == (match dev {
            Some(d) => if d.has_keyboard {
                flag_spec(has_code(*d, key)) as int
            } else {
                -1
            },
            None => -1,
        }),
{
    match dev {
        Some(d) => if d.has_keyboard {
            flag(offers(d, key))
        } else {
            -1
        },
        None => -1,
    }
}

/// Whether a pointer has a button; -1 if the device is no pointer. No device
/// has a button beyond the range of codes.
pub fn libinput_device_pointer_has_button(dev: Option<&LibinputDevice>, button: u32) -> (r: i32)
    ensures
        r == (match dev {
            Some(d) => if button > 0xffff {
                0
            } else if d.has_pointer {
                flag_spec(has_code(*d, button)) as int
            } else {
                -1
            },
            None => 0,
        }),
{
    match dev {
        Some(d) => if button > 0xffff {
            0
        } else if d.has_pointer {
            flag(offers(d, button))
        } else {
            -1
        },
        None => 0,
    }
}

/// The kernel's code for a switch: the lid, the tablet mode and the keypad
/// slide are numbered from 1.
pub open spec fn switch_code(sw: u32) -> Option<u16> {
    if sw == 1 {
        Some(0)
    } else if sw == 2 {
        Some(1)
    } else if sw == 3 {
        Some(10)
    } else {
        None
    }
}

pub fn libinput_device_switch_has_switch(dev: Option<&LibinputDevice>, sw: u32) -> (r: i32)
    ensures
        r == (match dev {
            Some(d) => flag_spec(
                d.has_switch && switch_code(sw) is Some && d.switch_codes@.contains(
                    switch_code(sw)->0,
                ),
            ),
            None => 0,
        }),
{
    match dev {
        Some(d) => {
            let code: u16 = match sw {
                1 => 0,
                2 => 1,
                3 => 10,
                _ => {
                    return 0;
                },
            };
            flag(d.has_switch && contains_code(&d.switch_codes, code))
        },
        None => 0,
    }
}

// ---------------------------------------------------------------------------
// Tablet pads
// ---------------------------------------------------------------------------
pub fn libinput_device_tablet_pad_get_num_dials(dev: Option<&LibinputDevice>) -> (r: u32)
    ensures
        r == (match dev {
            Some(d) => if d.has_tablet_pad {
                d.tablet_pad_num_dials
            } else {
                u32::MAX
            },
            None => u32::MAX,
        }),
{
    match dev {
        Some(d) => if d.has_tablet_pad {
            d.tablet_pad_num_dials
        } else {
            u32::MAX
        },
        None => u32::MAX,
    }
}

pub fn libinput_device_tablet_pad_get_num_rings(dev: Option<&LibinputDevice>) -> (r: u32)
    ensures
        r == (match dev {
            Some(d) => if d.has_tablet_pad {
                d.tablet_pad_num_rings
            } else {
                u32::MAX
            },
            None => u32::MAX,
        }),
{
    match dev {
        Some(d) => if d.has_tablet_pad {
            d.tablet_pad_num_rings
        } else {
            u32::MAX
        },
        None => u32::MAX,
    }
}

pub fn libinput_device_tablet_pad_get_num_strips(dev: Option<&LibinputDevice>) -> (r: u32)
    ensures
        r == (match dev {
            Some(d) => if d.has_tablet_pad {
                d.tablet_pad_num_strips
            } else {
                u32::MAX
            },
            None => u32::MAX,
        }),
{
    match dev {
        Some(d) => if d.has_tablet_pad {
            d.tablet_pad_num_strips
        } else {
            u32::MAX
        },
        None => u32::MAX,
    }
}

pub fn libinput_device_tablet_pad_get_num_buttons(dev: Option<&LibinputDevice>) -> (r: u32)
    requires
        dev matches Some(d) ==> d.tablet_pad_button_codes@.len() <= u32::MAX,
    ensures
        r == (match dev {
            Some(d) => if d.has_tablet_pad {
                d.tablet_pad_button_codes@.len() as int
            } else {
                u32::MAX as int
            },
            None => u32::MAX as int,
        }),
{
    match dev {
        Some(d) => if d.has_tablet_pad {
            d.tablet_pad_button_codes.len() as u32
        } else {
            u32::MAX
        },
        None => u32::MAX,
    }
}

pub fn libinput_device_tablet_pad_get_num_mode_groups(dev: Option<&LibinputDevice>) -> (r: u32)
    requires
        dev matches Some(d) ==> d.tablet_pad_mode_groups@.len() <= u32::MAX,
    ensures
        r == (match dev {
            Some(d) => if d.has_tablet_pad {
                d.tablet_pad_mode_groups@.len() as int
            } else {
                u32::MAX as int
            },
            None => u32::MAX as int,
        }),
{
    match dev {
        Some(d) => if d.has_tablet_pad {
            d.tablet_pad_mode_groups.len() as u32
        } else {
            u32::MAX
        },
        None => u32::MAX,
    }
}

/// Whether a tablet pad has a key; -1 if the device is no tablet pad.
pub fn libinput_device_tablet_pad_has_key(dev: Option<&LibinputDevice>, code: u32) -> (r: i32)
    ensures
        r == (match dev {
            Some(d) => if d.has_tablet_pad {
                flag_spec(has_code(*d, code)) as int
            } else {
                -1
            },
            None => -1,
        }),
{
    match dev {
        Some(d) => if d.has_tablet_pad {
            flag(offers(d, code))
        } else {
            -1
        },
        None => -1,
    }
}

/// The place of the first mode group of an index, from `from` on.
pub open spec fn group_place(
    groups: Seq<LibinputTabletPadModeGroup>,
    index: u32,
    from: int,
) -> Option<int>
    decreases groups.len() - from,
{
    if from >= groups.len() {
        None
    } else if groups[from].index == index {
        Some(from)
    } else {
        group_place(groups, index, from + 1)
    }
}

fn find_group(groups: &Vec<LibinputTabletPadModeGroup>, index: u32) -> (place: Option<usize>)
    ensures
        match place {
            Some(i) => group_place(groups@, index, 0) == Some(i as int),
            None => group_place(groups@, index, 0) is None,
        },
{
    let mut i: usize = 0;
    while i < groups.len()
        invariant
            i <= groups@.len(),
            group_place(groups@, index, 0) == group_place(groups@, index, i as int),
        decreases groups.len() - i,
    {
        if groups[i].index == index {
            return Some(i);
        }
        i += 1;
    }
    None
}

/// The place of a mode group in its device's list.
pub fn libinput_device_tablet_pad_get_mode_group(dev: Option<&LibinputDevice>, index: u32) -> (
place: Option<usize>)
    ensures
        match dev {
            Some(d) => {
                let wanted = if d.has_tablet_pad {
                    group_place(d.tablet_pad_mode_groups@, index, 0)
                } else {
                    None
                };
                match place {
                    Some(i) => wanted == Some(i as int),
                    None => wanted is None,
                }
            },
            None => place is None,
        },
{
    match dev {
        Some(d) => if d.has_tablet_pad {
            find_group(&d.tablet_pad_mode_groups, index)
        } else {
            None
        },
        None => None,
    }
}

} // verus!
