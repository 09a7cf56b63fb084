use libinput_rs::codes::{InputEvent, InputId, BUS_I2C, BUS_USB, BUS_VIRTUAL};
use libinput_rs::virtual_device::{
    device_name, is_companion_device, VirtualDevice, DEVICE_PRODUCT, DEVICE_VENDOR,
};

#[test]
fn companion_is_recognized_by_name_during_upgrade() {
    let legacy_id = InputId::new(BUS_USB, 0x1234, 0x5678, 0x111);
    assert!(is_companion_device(Some(device_name()), &legacy_id));
}

#[test]
fn companion_is_recognized_by_stable_virtual_id() {
    let id = InputId::new(BUS_VIRTUAL, DEVICE_VENDOR, DEVICE_PRODUCT, 1);
    assert!(is_companion_device(Some("renamed companion"), &id));
}

#[test]
fn physical_pointer_is_not_mistaken_for_companion() {
    let id = InputId::new(BUS_I2C, 0x04f3, 0x0029, 0);
    assert!(!is_companion_device(Some("Elan TrackPoint"), &id));
}

#[test]
fn output_is_recognised_as_ones_own() {
    let device = VirtualDevice::new();
    assert!(is_companion_device(None, &device.id));
    assert_eq!(device.keys, vec![0x110, 0x111, 0x112]);
    assert_eq!(device.relative_axes, vec![0, 1, 8]);
}

#[test]
fn raw_events_are_kept_in_order() {
    let mut device = VirtualDevice::new();
    device.emit_raw(InputEvent { kind: 1, code: 0x110, value: 1 });
    device.emit_raw(InputEvent { kind: 0, code: 0, value: 0 });
    assert_eq!(device.pending.len(), 2);
    assert_eq!(device.pending[0].code, 0x110);
}
