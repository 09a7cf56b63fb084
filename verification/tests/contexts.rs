use libinput_rs::api::context::{
    libinput_get_event, libinput_next_event_type, libinput_path_create_context, libinput_ref,
    libinput_udev_assign_seat, libinput_udev_create_context, libinput_unref, LibinputContext,
    EINVAL, ENOSYS,
};
use libinput_rs::api::events::libinput_event_get_device;
use libinput_rs::api::logging::{is_logged, log_line, PRIORITY_DEBUG, PRIORITY_ERROR};
use libinput_rs::api::paths::{
    libinput_path_add_device, libinput_resume, libinput_suspend, PathRequest,
};
use libinput_rs::api::seats::{
    libinput_device_get_device_group, libinput_device_get_seat,
    libinput_device_group_get_user_data, libinput_device_group_ref,
    libinput_device_group_set_user_data, libinput_device_group_unref, libinput_get_user_data,
    libinput_log_get_priority, libinput_log_set_priority,
    libinput_plugin_system_append_default_paths, libinput_plugin_system_append_path,
    libinput_plugin_system_load_plugins, libinput_seat_get_logical_name,
    libinput_seat_get_physical_name, libinput_seat_get_user_data, libinput_seat_ref,
    libinput_seat_set_user_data, libinput_seat_unref, libinput_set_user_data, SeatRequest,
};
use libinput_rs::api::tablets::{
    libinput_tablet_pad_mode_group_ref, libinput_tablet_pad_mode_group_unref,
};
use libinput_rs::backend::live::{ContactFuzz, TrackedDevice, TrackingQuirks};
use libinput_rs::backend::probe::{DeviceClass, InputProps, KernelDevice};
use libinput_rs::backend::start::Snapshot;
use libinput_rs::backend::tablet::FrameTime;
use libinput_rs::codes::InputId;
use libinput_rs::ffi_types::{
    AxisMix, BackendKind, DeviceId, EventPayload, KeyboardKeyEvent, LibinputDevice, LibinputEvent,
    LibinputEventType, LibinputSeat, LibinputTabletPadModeGroup,
};
use libinput_rs::quirks::apply::AppliedQuirks;

fn kernel(name: &str) -> KernelDevice {
    KernelDevice {
        name: name.to_string(),
        id: InputId::new(3, 1, 2, 0),
        keys: vec![30, 42],
        relative: Vec::new(),
        absolute: Vec::new(),
        switches: Vec::new(),
        axes_known: true,
        axes: Vec::new(),
        props: InputProps {
            pointer: false,
            direct: false,
            buttonpad: false,
            semi_mt: false,
            topbuttonpad: false,
        },
        has_absolute_events: false,
    }
}

fn keyboard_class() -> DeviceClass {
    DeviceClass {
        is_keyboard: true,
        is_pointer: false,
        is_touchpad: false,
        has_touch: false,
        has_tablet: false,
        has_tablet_pad: false,
        has_switch: false,
    }
}

fn attach(ctx: &mut LibinputContext, node: &str, fd: i32) -> DeviceId {
    let (id, group) = ctx.next_names();
    let mut device = LibinputDevice::new(id, "keyboard", node, 0, group);
    device.has_keyboard = true;
    let snapshot = Snapshot {
        keys_down: None,
        slot_x: None,
        slot_y: None,
        slot_ids: None,
    };
    let quirks = TrackingQuirks {
        no_hi_res_vertical: false,
        no_hi_res_horizontal: false,
        no_tilt: false,
        is_virtual: false,
        lenovo_scrollpoint: false,
    };
    let opened = TrackedDevice::new(
        id,
        fd,
        node.to_string(),
        &kernel("keyboard"),
        &snapshot,
        &keyboard_class(),
        false,
        &quirks,
        ContactFuzz { x: None, y: None },
        AxisMix::plain(),
        AppliedQuirks::new(Vec::new()),
    );
    let mut out = Vec::new();
    ctx.attach(device, opened, &mut out);
    assert_eq!(out.len(), 1);
    assert_eq!(out[0], lifecycle_added(id));
    id
}

fn lifecycle_added(device: DeviceId) -> LibinputEvent {
    LibinputEvent {
        event_type: LibinputEventType::LIBINPUT_EVENT_DEVICE_ADDED,
        payload: EventPayload::DeviceAdded,
        device,
    }
}

fn key_event(device: DeviceId, key: u32, state: u32) -> LibinputEvent {
    LibinputEvent {
        event_type: LibinputEventType::LIBINPUT_EVENT_KEYBOARD_KEY,
        payload: EventPayload::KeyboardKey(KeyboardKeyEvent {
            time_usec: 1,
            key,
            state,
            seat_key_count: 0,
        }),
        device,
    }
}

fn count_of(event: &LibinputEvent) -> u32 {
    match event.payload {
        EventPayload::KeyboardKey(key) => key.seat_key_count,
        _ => panic!("not a key event"),
    }
}

const NOW: FrameTime = FrameTime { time_usec: 5, now: 5_000 };

#[test]
fn udev_context_requires_interface_and_udev() {
    assert!(libinput_udev_create_context(false, 0, true).is_none());
    assert!(libinput_udev_create_context(true, 0, false).is_none());
    assert!(libinput_udev_create_context(true, 0, true).is_some());
    assert!(libinput_path_create_context(false, 0).is_none());
}

#[test]
fn seat_assignment_is_udev_only_and_happens_once() {
    let mut udev_ctx = libinput_udev_create_context(true, 0, true).unwrap();
    assert_eq!(libinput_udev_assign_seat(Some(&mut udev_ctx), Some("seat0")), 0);
    assert_eq!(libinput_udev_assign_seat(Some(&mut udev_ctx), Some("seat0")), -1);
    assert!(!libinput_unref(Some(&mut udev_ctx)));

    let mut path_ctx = libinput_path_create_context(true, 0).unwrap();
    assert_eq!(libinput_udev_assign_seat(Some(&mut path_ctx), Some("seat0")), -1);
    assert!(!libinput_unref(Some(&mut path_ctx)));
    assert_eq!(libinput_udev_assign_seat(None, Some("seat0")), -1);
}

#[test]
fn overlong_seat_name_does_not_assign_or_queue_devices() {
    let seat = "a".repeat(257);
    let mut ctx = libinput_udev_create_context(true, 0, true).unwrap();
    assert_eq!(libinput_udev_assign_seat(Some(&mut ctx), Some(&seat)), -1);
    assert!(!ctx.seat_assigned);
    assert!(ctx.event_queue.is_empty());
    assert!(!libinput_unref(Some(&mut ctx)));
}

#[test]
fn seat_names_of_the_greatest_length_are_taken() {
    let mut ctx = libinput_udev_create_context(true, 0, true).unwrap();
    let seat = "\u{e9}".repeat(127);
    assert_eq!(libinput_udev_assign_seat(Some(&mut ctx), Some(&seat)), 0);
    assert_eq!(ctx.seats[0].physical_name, seat);
    let mut ctx = libinput_udev_create_context(true, 0, true).unwrap();
    assert_eq!(libinput_udev_assign_seat(Some(&mut ctx), Some(&"\u{e9}".repeat(128))), -1);
    assert_eq!(libinput_udev_assign_seat(Some(&mut ctx), None), -1);
}

#[test]
fn suspend_and_resume_are_null_safe() {
    let mut out = Vec::new();
    assert!(libinput_suspend(None, NOW, &mut out).is_empty());
    assert!(out.is_empty());
    assert_eq!(libinput_resume(None, false, &mut Vec::new()), (-1, Vec::new()));
}

#[test]
fn shared_device_groups_preserve_identity_and_user_data() {
    let mut ctx = libinput_path_create_context(true, 0).unwrap();
    let first = attach(&mut ctx, "/dev/input/event0", 3);
    let second = attach(&mut ctx, "/dev/input/event1", 4);
    let group = ctx.registry[first as usize].group;
    ctx.share_group(second, group);

    assert_eq!(ctx.registry[second as usize].group, group);
    assert_eq!(
        libinput_device_get_device_group(Some(&ctx.registry[second as usize])),
        Some(group)
    );
    assert_eq!(ctx.groups[group].refcount, 2);
    let marker = 0x5a_usize;
    libinput_device_group_set_user_data(Some(&mut ctx.groups[group]), marker);
    let shared = ctx.registry[second as usize].group;
    assert_eq!(libinput_device_group_get_user_data(Some(&ctx.groups[shared])), marker);

    assert!(!ctx.libinput_device_unref(second));
    assert_eq!(ctx.groups[group].refcount, 1);
    assert!(!ctx.libinput_device_unref(first));
}

#[test]
fn plugin_paths_are_ordered_unique_and_frozen_after_load() {
    let mut ctx = libinput_path_create_context(true, 0).unwrap();
    libinput_plugin_system_append_path(Some(&mut ctx), Some("/tmp/plugins"));
    libinput_plugin_system_append_path(Some(&mut ctx), Some("/tmp/plugins"));
    libinput_plugin_system_append_default_paths(Some(&mut ctx));
    assert_eq!(ctx.plugin_paths.len(), 3);
    assert_eq!(ctx.plugin_paths[0].as_bytes(), b"/tmp/plugins");
    assert_eq!(libinput_plugin_system_load_plugins(Some(&mut ctx), 0), -ENOSYS);
    libinput_plugin_system_append_path(Some(&mut ctx), Some("/ignored"));
    assert_eq!(ctx.plugin_paths.len(), 3);
    assert_eq!(libinput_plugin_system_load_plugins(Some(&mut ctx), 0), 0);
    assert!(!libinput_unref(Some(&mut ctx)));
}

#[test]
fn plugin_flags_are_reserved() {
    let mut ctx = libinput_path_create_context(true, 0).unwrap();
    assert_eq!(libinput_plugin_system_load_plugins(Some(&mut ctx), 1), -EINVAL);
    assert_eq!(libinput_plugin_system_load_plugins(None, 0), -EINVAL);
    assert!(!ctx.plugins_loaded);
    libinput_plugin_system_append_path(Some(&mut ctx), Some(""));
    assert!(ctx.plugin_paths.is_empty());
}

#[test]
fn queued_events_retain_devices_until_event_destroy() {
    let mut ctx = libinput_path_create_context(true, 0).unwrap();
    let device = attach(&mut ctx, "/dev/input/event0", 3);
    ctx.enqueue_event(key_event(device, 30, 1));
    assert_eq!(ctx.registry[device as usize].refcount, 2);
    let event = libinput_get_event(Some(&mut ctx)).unwrap();
    assert_eq!(libinput_event_get_device(Some(&event)), Some(device));
    ctx.libinput_event_destroy(event);
    assert_eq!(ctx.registry[device as usize].refcount, 1);
    assert!(!ctx.libinput_device_unref(device));
    assert!(!libinput_unref(Some(&mut ctx)));
}

#[test]
fn ref_and_unref_return_the_upstream_object_lifecycle() {
    let mut seat = LibinputSeat::new("seat0".to_string(), "default".to_string());
    assert!(libinput_seat_ref(Some(&mut seat)));
    assert!(libinput_seat_unref(Some(&mut seat)));
    assert!(!libinput_seat_unref(Some(&mut seat)));

    let mut group = LibinputTabletPadModeGroup {
        refcount: 1,
        user_data: 0,
        index: 0,
        num_modes: 1,
        current_mode: 0,
        button_mask: 0,
        dial_mask: 0,
        ring_mask: 0,
        strip_mask: 0,
        toggle_button_mask: 0,
    };
    assert!(libinput_tablet_pad_mode_group_ref(Some(&mut group)));
    assert!(libinput_tablet_pad_mode_group_unref(Some(&mut group)));
    assert!(!libinput_tablet_pad_mode_group_unref(Some(&mut group)));
}

#[test]
fn devices_retain_their_seat_until_device_destruction() {
    let mut ctx = LibinputContext::new(0, BackendKind::Path);
    assert_eq!(ctx.seats[0].physical_name, "seat0");
    assert_eq!(ctx.seats[0].logical_name, "default");
    let device = attach(&mut ctx, "/dev/input/event0", 3);
    assert_eq!(ctx.seats[0].refcount, 2);
    assert!(!ctx.libinput_device_unref(device));
    assert_eq!(ctx.seats[0].refcount, 1);
    assert!(!libinput_seat_unref(Some(&mut ctx.seats[0])));
}

#[test]
fn references_to_contexts_and_groups_are_counted() {
    let mut ctx = libinput_path_create_context(true, 7).unwrap();
    assert!(libinput_ref(Some(&mut ctx)));
    assert!(libinput_unref(Some(&mut ctx)));
    assert!(!libinput_unref(Some(&mut ctx)));
    assert!(!libinput_ref(None));
    assert!(!libinput_unref(None));
    let device = attach(&mut ctx, "/dev/input/event0", 3);
    let group = ctx.registry[device as usize].group;
    assert!(libinput_device_group_ref(Some(&mut ctx.groups[group])));
    assert!(libinput_device_group_unref(Some(&mut ctx.groups[group])));
    assert!(!libinput_device_group_unref(None));
}

#[test]
fn seats_count_keys_per_code_across_devices() {
    let mut ctx = libinput_path_create_context(true, 0).unwrap();
    let a = attach(&mut ctx, "/dev/input/event0", 3);
    let b = attach(&mut ctx, "/dev/input/event1", 4);
    let events = vec![
        key_event(a, 30, 1),
        key_event(b, 30, 1),
        key_event(b, 42, 1),
        key_event(a, 30, 0),
        key_event(b, 30, 0),
        key_event(b, 30, 0),
    ];
    assert!(ctx.accepts(&events));
    ctx.enqueue_events(&events);
    let counts: Vec<u32> = ctx.event_queue.iter().map(count_of).collect();
    assert_eq!(counts, vec![1, 2, 1, 1, 0, 0]);
    assert_eq!(
        libinput_next_event_type(Some(&ctx)),
        LibinputEventType::LIBINPUT_EVENT_KEYBOARD_KEY
    );
}

#[test]
fn events_of_unknown_devices_are_not_accepted() {
    let ctx = libinput_path_create_context(true, 0).unwrap();
    assert!(!ctx.accepts(&vec![key_event(0, 30, 1)]));
    assert!(ctx.accepts(&Vec::new()));
    assert_eq!(libinput_next_event_type(None), LibinputEventType::LIBINPUT_EVENT_NONE);
}

#[test]
fn contexts_start_with_nothing() {
    for ctx in [
        libinput_path_create_context(true, 7).unwrap(),
        libinput_udev_create_context(true, 7, true).unwrap(),
    ] {
        assert_eq!((ctx.user_data, ctx.refcount, ctx.log_priority), (7, 1, 30));
        assert!(!ctx.backend.suspended && !ctx.plugins_loaded && !ctx.seat_assigned);
        assert_eq!(ctx.backend.global_typing_time, None);
        let seat = &ctx.seats[0];
        assert!(seat.button_counts.iter().chain(seat.key_counts.iter()).all(|n| *n == 0));
    }
}

#[test]
fn events_wait_in_their_order() {
    let mut ctx = libinput_path_create_context(true, 0).unwrap();
    let device = attach(&mut ctx, "/dev/input/event0", 3);
    let events = vec![key_event(device, 30, 1), lifecycle_added(device), key_event(device, 30, 0)];
    assert!(ctx.accepts(&events));
    ctx.enqueue_events(&events);
    let types: Vec<LibinputEventType> = (0..3)
        .map(|_| libinput_get_event(Some(&mut ctx)).unwrap().event_type)
        .collect();
    assert_eq!(
        types,
        vec![
            LibinputEventType::LIBINPUT_EVENT_KEYBOARD_KEY,
            LibinputEventType::LIBINPUT_EVENT_DEVICE_ADDED,
            LibinputEventType::LIBINPUT_EVENT_KEYBOARD_KEY,
        ]
    );
    assert_eq!(libinput_get_event(Some(&mut ctx)), None);
}

#[test]
fn detaching_undoes_attaching() {
    let mut ctx = libinput_path_create_context(true, 0).unwrap();
    let kept = attach(&mut ctx, "/dev/input/event0", 3);
    let gone = attach(&mut ctx, "/dev/input/event1", 4);
    let mut out = Vec::new();
    assert_eq!(ctx.detach(1, &mut out), 4);
    assert_eq!(ctx.devices, vec![kept]);
    assert_eq!(ctx.backend.devices.len(), 1);
    assert_eq!(out.len(), 1);
    assert_eq!(out[0].device, gone);
    assert_eq!(out[0].event_type, LibinputEventType::LIBINPUT_EVENT_DEVICE_REMOVED);
}

#[test]
fn suspension_closes_every_descriptor_once() {
    let mut ctx = libinput_path_create_context(true, 0).unwrap();
    attach(&mut ctx, "/dev/input/event0", 3);
    attach(&mut ctx, "/dev/input/event1", 4);
    let mut out = Vec::new();
    assert_eq!(libinput_suspend(Some(&mut ctx), NOW, &mut out), vec![3, 4]);
    assert_eq!(out.len(), 2);
    assert!(out
        .iter()
        .all(|event| event.event_type == LibinputEventType::LIBINPUT_EVENT_DEVICE_REMOVED));
    assert!(ctx.backend.devices.is_empty() && ctx.devices.is_empty());
    assert!(libinput_suspend(Some(&mut ctx), NOW, &mut out).is_empty());
    assert_eq!(libinput_resume(Some(&mut ctx), false, &mut out), (0, Vec::new()));
    assert!(!ctx.backend.suspended);
}

#[test]
fn resuming_is_all_or_nothing_where_clients_name_devices() {
    let mut ctx = libinput_path_create_context(true, 0).unwrap();
    attach(&mut ctx, "/dev/input/event0", 3);
    let mut out = Vec::new();
    let (status, fds) = libinput_resume(Some(&mut ctx), true, &mut out);
    assert_eq!((status, fds), (-1, vec![3]));
    let mut ctx = libinput_udev_create_context(true, 0, true).unwrap();
    attach(&mut ctx, "/dev/input/event0", 3);
    let (status, fds) = libinput_resume(Some(&mut ctx), true, &mut out);
    assert_eq!((status, fds), (0, Vec::new()));
}

#[test]
fn removal_releases_what_was_held() {
    let mut ctx = libinput_path_create_context(true, 0).unwrap();
    let device = attach(&mut ctx, "/dev/input/event0", 3);
    let press = libinput_rs::codes::InputEvent { kind: 1, code: 30, value: 1 };
    let facts = libinput_rs::backend::tablet::TabletFacts {
        outside_area: false,
        fixed_eraser: false,
    };
    let mut out = Vec::new();
    assert!(ctx.can_take(0, &press, NOW.now));
    ctx.take_event(0, &press, NOW, None, facts, &mut out);
    assert_eq!(out, vec![key_event_at(device, 5, 30, 1)]);
    assert_eq!(ctx.backend.global_typing_time, Some(NOW.now));
    out.clear();
    assert_eq!(ctx.remove_device(device, NOW, &mut out), Some(3));
    assert_eq!(out.len(), 2);
    assert_eq!(out[0], key_event_at(device, 5, 30, 0));
    assert_eq!(out[1].event_type, LibinputEventType::LIBINPUT_EVENT_DEVICE_REMOVED);
    assert_eq!(ctx.remove_device(device, NOW, &mut out), None);
}

fn key_event_at(device: DeviceId, time_usec: u64, key: u32, state: u32) -> LibinputEvent {
    LibinputEvent {
        event_type: LibinputEventType::LIBINPUT_EVENT_KEYBOARD_KEY,
        payload: EventPayload::KeyboardKey(KeyboardKeyEvent {
            time_usec,
            key,
            state,
            seat_key_count: 0,
        }),
        device,
    }
}

#[test]
fn only_contexts_that_find_their_devices_look_for_new_ones() {
    let mut ctx = libinput_path_create_context(true, 0).unwrap();
    let device = attach(&mut ctx, "/dev/input/event0", 3);
    let mut out = Vec::new();
    let (fds, scan) = ctx.handle_hotplug(true, &vec![device], NOW, &mut out);
    assert_eq!((fds, scan), (vec![3], false));
    let mut ctx = libinput_udev_create_context(true, 0, true).unwrap();
    let device = attach(&mut ctx, "/dev/input/event0", 3);
    assert_eq!(ctx.handle_hotplug(false, &vec![device], NOW, &mut out), (Vec::new(), false));
    assert_eq!(ctx.handle_hotplug(true, &Vec::new(), NOW, &mut out), (Vec::new(), true));
}

#[test]
fn paths_are_taken_by_contexts_whose_clients_name_devices() {
    let mut udev_ctx = libinput_udev_create_context(true, 0, true).unwrap();
    let path = "/dev/input/event0";
    assert_eq!(
        libinput_path_add_device(Some(&mut udev_ctx), Some(path), true),
        PathRequest::Refused
    );
    let mut ctx = libinput_path_create_context(true, 0).unwrap();
    assert_eq!(libinput_path_add_device(None, Some(path), true), PathRequest::Refused);
    assert_eq!(libinput_path_add_device(Some(&mut ctx), None, true), PathRequest::Refused);
    let long = "a".repeat(4097);
    assert_eq!(
        libinput_path_add_device(Some(&mut ctx), Some(&long), true),
        PathRequest::TooLong
    );
    assert!(!ctx.plugins_loaded);
    assert_eq!(
        libinput_path_add_device(Some(&mut ctx), Some(path), false),
        PathRequest::NoDevice
    );
    assert!(ctx.plugins_loaded);
    assert_eq!(
        libinput_path_add_device(Some(&mut ctx), Some(path), true),
        PathRequest::Open
    );
    let known = ctx.devices.len();
    let device = attach(&mut ctx, path, 3);
    assert_eq!(ctx.path_added(path, known), Some(device));
    assert_eq!(ctx.path_added(path, known + 1), None);
    assert_eq!(ctx.backend.requested_paths, vec![path.to_string()]);
    let mut out = Vec::new();
    assert_eq!(ctx.libinput_path_remove_device(device, NOW, &mut out), Some(3));
    assert!(ctx.backend.requested_paths.is_empty());
}

#[test]
fn devices_change_seats_by_being_opened_again() {
    let mut ctx = libinput_path_create_context(true, 0).unwrap();
    let device = attach(&mut ctx, "/dev/input/event0", 3);
    assert_eq!(
        ctx.libinput_device_set_seat_logical_name(device, Some("default")),
        SeatRequest::Unchanged
    );
    assert_eq!(
        ctx.libinput_device_set_seat_logical_name(device, Some("")),
        SeatRequest::Refused
    );
    assert_eq!(
        ctx.libinput_device_set_seat_logical_name(device, None),
        SeatRequest::Refused
    );
    assert_eq!(
        ctx.libinput_device_set_seat_logical_name(device, Some("other")),
        SeatRequest::Reopen(1)
    );
    assert_eq!(ctx.seats.len(), 2);
    assert_eq!(
        ctx.libinput_device_set_seat_logical_name(device, Some("other")),
        SeatRequest::Reopen(1)
    );
    assert_eq!(ctx.seats.len(), 2);
    ctx.move_to_seat(device, 1);
    assert_eq!(libinput_device_get_seat(Some(&ctx.registry[device as usize])), Some(1));
    assert_eq!((ctx.seats[0].refcount, ctx.seats[1].refcount), (1, 2));
    assert_eq!(libinput_seat_get_logical_name(Some(&ctx.seats[1])), Some("other"));
    assert_eq!(libinput_seat_get_physical_name(Some(&ctx.seats[1])), Some("seat0"));
}

#[test]
fn clients_keep_their_own_data() {
    let mut ctx = libinput_path_create_context(true, 1).unwrap();
    assert_eq!(libinput_get_user_data(Some(&ctx)), 1);
    libinput_set_user_data(Some(&mut ctx), 2);
    assert_eq!(libinput_get_user_data(Some(&ctx)), 2);
    libinput_seat_set_user_data(Some(&mut ctx.seats[0]), 3);
    assert_eq!(libinput_seat_get_user_data(Some(&ctx.seats[0])), 3);
    assert_eq!(libinput_seat_get_user_data(None), 0);
}

#[test]
fn messages_are_logged_by_priority() {
    let mut ctx = libinput_path_create_context(true, 1).unwrap();
    assert_eq!(libinput_log_get_priority(Some(&ctx)), 30);
    assert_eq!(libinput_log_get_priority(None), 30);
    assert!(is_logged(Some(&ctx), PRIORITY_ERROR));
    assert!(!is_logged(Some(&ctx), PRIORITY_DEBUG));
    libinput_log_set_priority(Some(&mut ctx), 10);
    assert!(is_logged(Some(&ctx), PRIORITY_DEBUG));
    assert_eq!(log_line("50% done").as_deref(), Some("50%% done\n"));
    assert_eq!(log_line("a\0b"), None);
}
