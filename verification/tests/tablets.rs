use libinput_rs::api::tablets::{
    libinput_tablet_pad_mode_group_button_is_toggle, libinput_tablet_pad_mode_group_get_mode,
    libinput_tablet_pad_mode_group_has_button, libinput_tablet_pad_mode_group_has_ring,
    libinput_tablet_tool_config_eraser_button_get_button,
    libinput_tablet_tool_config_eraser_button_get_mode,
    libinput_tablet_tool_config_eraser_button_set_button,
    libinput_tablet_tool_config_eraser_button_set_mode, libinput_tablet_tool_get_serial,
    libinput_tablet_tool_has_button, libinput_tablet_tool_has_pressure,
    libinput_tablet_tool_is_unique, libinput_tablet_tool_ref, libinput_tablet_tool_unref,
};
use libinput_rs::backend::tools::{LibinputTabletTool, PressureBounds, ToolCapabilities, ToolSet};
use libinput_rs::ffi_types::LibinputTabletPadModeGroup;

fn pen() -> LibinputTabletTool {
    let bounds = PressureBounds { low: 0, high: 0, custom: false };
    LibinputTabletTool {
        refcount: 1,
        user_data: 0,
        serial: 0x1234,
        tool_id: 0x802,
        tool_type: 1,
        device: 0,
        has: ToolCapabilities {
            pressure: true,
            distance: false,
            tilt: false,
            rotation: false,
            slider: false,
            wheel: false,
            size: false,
        },
        pressure: bounds,
        wanted_pressure: bounds,
        eraser_button_modes: 1,
        eraser_button_mode: 0,
        wanted_eraser_button_mode: 0,
        eraser_button: 0x14b,
        wanted_eraser_button: 0x14b,
        default_eraser_button: 0x14b,
        in_proximity: true,
    }
}

#[test]
fn eraser_settings_wait_until_the_tool_has_left() {
    let mut tool = pen();
    assert_eq!(libinput_tablet_tool_config_eraser_button_set_mode(None, 1), 1);
    assert_eq!(libinput_tablet_tool_config_eraser_button_set_mode(Some(&mut tool), 2), 1);
    assert_eq!(libinput_tablet_tool_config_eraser_button_set_mode(Some(&mut tool), 3), 2);
    assert_eq!(libinput_tablet_tool_config_eraser_button_set_mode(Some(&mut tool), 1), 0);
    assert_eq!(tool.eraser_button_mode, 0);
    assert_eq!(libinput_tablet_tool_config_eraser_button_get_mode(Some(&tool)), 1);
    assert_eq!(libinput_tablet_tool_config_eraser_button_set_button(Some(&mut tool), 30), 2);
    assert_eq!(
        libinput_tablet_tool_config_eraser_button_set_button(Some(&mut tool), 0x14c),
        0
    );
    assert_eq!(tool.eraser_button, 0x14b);
    let mut set = ToolSet { tools: vec![tool], buttons: vec![Vec::new()] };
    set.dismiss(0);
    assert_eq!(set.tools[0].eraser_button_mode, 1);
    assert_eq!(set.tools[0].eraser_button, 0x14c);
    assert!(!set.tools[0].in_proximity);
    assert_eq!(
        libinput_tablet_tool_config_eraser_button_get_button(Some(&set.tools[0])),
        0x14c
    );
}

#[test]
fn tools_without_erasers_have_nothing_to_set() {
    let mut tool = LibinputTabletTool { eraser_button_modes: 0, ..pen() };
    assert_eq!(
        libinput_tablet_tool_config_eraser_button_set_button(Some(&mut tool), 0x14c),
        1
    );
    assert_eq!(libinput_tablet_tool_config_eraser_button_get_button(Some(&tool)), 0);
    assert_eq!(libinput_tablet_tool_config_eraser_button_set_mode(Some(&mut tool), 0), 0);
}

#[test]
fn tools_tell_what_they_are() {
    let mut tool = pen();
    assert_eq!(libinput_tablet_tool_get_serial(Some(&tool)), 0x1234);
    assert_eq!(libinput_tablet_tool_is_unique(Some(&tool)), 1);
    assert_eq!(libinput_tablet_tool_is_unique(None), 0);
    assert_eq!(libinput_tablet_tool_has_pressure(Some(&tool)), 1);
    assert_eq!(libinput_tablet_tool_has_button(Some(&vec![0x14b]), 0x14b), 1);
    assert_eq!(libinput_tablet_tool_has_button(None, 0x14b), 0);
    assert!(libinput_tablet_tool_ref(Some(&mut tool)));
    assert!(libinput_tablet_tool_unref(Some(&mut tool)));
    assert!(!libinput_tablet_tool_unref(Some(&mut tool)));
}

#[test]
fn groups_know_their_controls() {
    let group = LibinputTabletPadModeGroup {
        refcount: 1,
        user_data: 0,
        index: 0,
        num_modes: 2,
        current_mode: 1,
        button_mask: 0b101,
        dial_mask: 0,
        ring_mask: 1,
        strip_mask: 0,
        toggle_button_mask: 0x8000_0000,
    };
    assert_eq!(libinput_tablet_pad_mode_group_has_button(Some(&group), 0), 1);
    assert_eq!(libinput_tablet_pad_mode_group_has_button(Some(&group), 1), 0);
    assert_eq!(libinput_tablet_pad_mode_group_has_button(Some(&group), 32), 0);
    assert_eq!(libinput_tablet_pad_mode_group_has_ring(Some(&group), 0), 1);
    assert_eq!(libinput_tablet_pad_mode_group_button_is_toggle(Some(&group), 31), 1);
    assert_eq!(libinput_tablet_pad_mode_group_button_is_toggle(None, 31), 0);
    assert_eq!(libinput_tablet_pad_mode_group_get_mode(Some(&group)), 1);
}
