//! The companion's output device: a virtual pointer.
use vstd::prelude::*;
use crate::codes::{
    InputEvent, InputId, BTN_LEFT, BTN_MIDDLE, BTN_RIGHT, BUS_VIRTUAL, REL_WHEEL, REL_X, REL_Y,
};
use crate::text::equal;

verus! {

pub const DEVICE_VENDOR: u16 = 0x1d6b;
pub const DEVICE_PRODUCT: u16 = 0x1eaf;
pub const DEVICE_VERSION: u16 = 1;

/// The name of the companion's output device.
pub open spec fn device_name_spec() -> Seq<char> {
    "Rust Input Companion Pointer"@
}

pub fn device_name() -> (name: &'static str)
    ensures
        name@ == device_name_spec(),
{
    "Rust Input Companion Pointer"
}

/// Whether a device is the companion's own output: by its name, or by its
/// stable identity on the virtual bus.
pub open spec fn is_companion(name: Option<Seq<char>>, id: InputId) -> bool {
    name == Some(device_name_spec()) || (id.bus_type == BUS_VIRTUAL && id.vendor == DEVICE_VENDOR
        && id.product == DEVICE_PRODUCT)
}

pub fn is_companion_device(name: Option<&str>, id: &InputId) -> (own: bool)
    ensures
        own == is_companion(
            match name {
                Some(name) => Some(name@),
                None => None,
            },
            *id,
        ),
{
    let named = match name {
        Some(name) => equal(name, device_name()),
        None => false,
    };
    named || (id.bus_type == BUS_VIRTUAL && id.vendor == DEVICE_VENDOR && id.product
        == DEVICE_PRODUCT)
}

/// The output device: what it is to be created with, and the events that are
/// still to be written to it.
pub struct VirtualDevice {
    pub id: InputId,
    pub keys: Vec<u16>,
    pub relative_axes: Vec<u16>,
    pub pending: Vec<InputEvent>,
}

impl VirtualDevice {
    pub fn new() -> (device: VirtualDevice)
        ensures
            device.id == (InputId {
                bus_type: BUS_VIRTUAL,
                vendor: DEVICE_VENDOR,
                product: DEVICE_PRODUCT,
                version: DEVICE_VERSION,
            }),
            device.keys@ == seq![BTN_LEFT, BTN_RIGHT, BTN_MIDDLE],
            device.relative_axes@ == seq![REL_X, REL_Y, REL_WHEEL],
            device.pending@.len() == 0,
    {
        let mut keys: Vec<u16> = Vec::new();
        keys.push(BTN_LEFT);
        keys.push(BTN_RIGHT);
        keys.push(BTN_MIDDLE);
        let mut relative_axes: Vec<u16> = Vec::new();
        relative_axes.push(REL_X);
        relative_axes.push(REL_Y);
        relative_axes.push(REL_WHEEL);
        let id = InputId {
            bus_type: BUS_VIRTUAL,
            vendor: DEVICE_VENDOR,
            product: DEVICE_PRODUCT,
            version: DEVICE_VERSION,
        };
        proof {
            assert(keys@ =~= seq![BTN_LEFT, BTN_RIGHT, BTN_MIDDLE]);
            assert(relative_axes@ =~= seq![REL_X, REL_Y, REL_WHEEL]);
        }
        VirtualDevice { id, keys, relative_axes, pending: Vec::new() }
    }

    /// Hands an event on to the output.
    pub fn emit_raw(&mut self, event: InputEvent)
        ensures
            final(self).pending@ == old(self).pending@.push(event),
            *final(self) == (VirtualDevice { pending: final(self).pending, ..*old(self) }),
    {
        self.pending.push(event);
    }
}

/// The companion recognises its own output device, whatever it is called, so
/// that it never reads back what it wrote.
pub proof fn law_output_is_never_input(device: VirtualDevice, name: Option<Seq<char>>)
    requires
        device.id.bus_type == BUS_VIRTUAL,
        device.id.vendor == DEVICE_VENDOR,
        device.id.product == DEVICE_PRODUCT,
    ensures
        is_companion(name, device.id),
{
}

} // verus!
