use libinput_rs::api::context::{
    libinput_path_create_context, libinput_udev_create_context, LibinputContext,
};
use libinput_rs::api::device_config::{CONFIG_SUCCESS, CONFIG_UNSUPPORTED};
use libinput_rs::api::dispatch::Handled;
use libinput_rs::api::events::{
    libinput_event_tablet_tool_x_has_changed, libinput_event_tablet_tool_y_has_changed,
};
use libinput_rs::api::notices::{Concerns, Notice};
use libinput_rs::api::opening::{contact_fuzz, udev_type, Opening};
use libinput_rs::backend::describe::{can_count_slots, PadFacts};
use libinput_rs::backend::keyboard::led_events;
use libinput_rs::backend::live::Progress;
use libinput_rs::backend::probe::{
    accept_device, validate_axes, AxisInfo, InputProps, KernelDevice, UdevTags,
};
use libinput_rs::backend::start::Snapshot;
use libinput_rs::backend::tablet::{FrameTime, PressureState, TabletFacts};
use libinput_rs::backend::touchpad::FrameAction;
use libinput_rs::codes::{InputEvent, InputId};
use libinput_rs::ffi_types::{AxisMix, EventPayload, LibinputEvent, LibinputEventType};
use libinput_rs::hwdetect::Properties;

const MILLISECOND: u64 = 1_000_000;

fn kernel(name: &str) -> KernelDevice {
    KernelDevice {
        name: name.to_string(),
        id: InputId::new(3, 0x1234, 0x5678, 1),
        keys: Vec::new(),
        relative: Vec::new(),
        absolute: Vec::new(),
        switches: Vec::new(),
        axes_known: true,
        axes: Vec::new(),
        props: InputProps {
            pointer: false,
            direct: false,
            buttonpad: false,
            semi_mt: false,
            topbuttonpad: false,
        },
        has_absolute_events: false,
    }
}

fn axis(code: u16, minimum: i32, maximum: i32) -> AxisInfo {
    AxisInfo { code, value: 0, minimum, maximum, fuzz: 0, resolution: 10 }
}

fn mouse() -> KernelDevice {
    KernelDevice {
        keys: vec![0x110, 0x111, 0x112],
        relative: vec![0, 1, 8],
        ..kernel("Some Mouse")
    }
}

fn touchpad() -> KernelDevice {
    let axes = vec![
        axis(0x00, 0, 1000),
        axis(0x01, 0, 600),
        AxisInfo { resolution: 0, ..axis(0x2f, 0, 4) },
        axis(0x35, 0, 1000),
        axis(0x36, 0, 600),
        AxisInfo { resolution: 0, ..axis(0x39, 0, 65535) },
    ];
    KernelDevice {
        keys: vec![0x110, 0x145, 0x14a, 0x14d, 0x14e],
        absolute: axes.iter().map(|info| info.code).collect(),
        axes,
        props: InputProps { pointer: true, buttonpad: true, ..kernel("").props },
        has_absolute_events: true,
        ..kernel("Some Touchpad")
    }
}

fn touchscreen() -> KernelDevice {
    KernelDevice {
        keys: vec![0x14a],
        props: InputProps { direct: true, ..kernel("").props },
        name: "Some Touchscreen".to_string(),
        ..touchpad()
    }
}

fn nothing_pressed() -> Snapshot {
    Snapshot { keys_down: None, slot_x: None, slot_y: None, slot_ids: None }
}

fn at(now: u64) -> FrameTime {
    FrameTime { time_usec: now / 1000, now }
}

const FACTS: TabletFacts = TabletFacts { outside_area: false, fixed_eraser: false };

fn open(ctx: &mut LibinputContext, k: &KernelDevice, properties: &Properties) -> Option<usize> {
    open_with_quirks(ctx, k, properties, "")
}

fn open_with_quirks(
    ctx: &mut LibinputContext,
    k: &KernelDevice,
    properties: &Properties,
    quirks: &str,
) -> Option<usize> {
    let mut out = Vec::new();
    assert!(can_count_slots(&k.axes));
    let opened = ctx.try_open(
        &Opening {
            path: "/dev/input/event5",
            sysname: "event5",
            fd: 9,
            kernel: k,
            snapshot: &nothing_pressed(),
            properties,
            pad: &PadFacts { buttons: Vec::new(), reversible: true },
            display_tablet: false,
            mix: AxisMix::plain(),
            quirk_files: &vec![quirks.to_string()],
            dmi_modalias: "",
            device_tree: "",
        },
        at(0),
        FACTS,
        &mut out,
    )?;
    assert_eq!(out[0].event_type, LibinputEventType::LIBINPUT_EVENT_DEVICE_ADDED);
    Some(opened as usize)
}

fn context(k: &KernelDevice) -> LibinputContext {
    let mut ctx = libinput_path_create_context(true, 0).unwrap();
    assert!(open(&mut ctx, k, &Properties::new()).is_some());
    ctx
}

fn feed(
    ctx: &mut LibinputContext,
    now: u64,
    events: &[(u16, u16, i32)],
    out: &mut Vec<LibinputEvent>,
) -> Handled {
    let mut last = Handled { progress: Progress::Done, action: FrameAction::Nothing };
    for (kind, code, value) in events {
        let ev = InputEvent { kind: *kind, code: *code, value: *value };
        assert!(ctx.can_take(0, &ev, now));
        let typing = ctx.backend.global_typing_time;
        last = ctx.take_event(0, &ev, at(now), typing, FACTS, out);
    }
    last
}

fn types(out: &[LibinputEvent]) -> Vec<LibinputEventType> {
    out.iter().map(|event| event.event_type).collect()
}

#[test]
fn devices_are_described_by_what_they_have() {
    let ctx = context(&mouse());
    let d = &ctx.registry[0];
    assert!(d.has_pointer && !d.has_keyboard && !d.has_touch);
    assert_eq!(d.sysname, "event5");
    assert_eq!((d.vendor_id, d.product_id), (0x1234, 0x5678));
    assert!(d.supports_button_scroll);
    assert_eq!(d.scroll_default_button, 0x112);
    assert_eq!(ctx.backend.devices[0].fd, 9);

    let ctx = context(&touchpad());
    let d = &ctx.registry[0];
    assert!(d.has_pointer && d.has_gesture);
    assert_eq!((d.touch_count, d.mt_slot_count), (5, 5));
    assert_eq!(d.abs_x_range, Some((0, 1000)));
    assert_eq!(d.scroll_default_method, 1);
    assert_eq!(d.send_events_modes, 3);

    let ctx = context(&touchscreen());
    let d = &ctx.registry[0];
    assert!(d.has_touch && !d.has_gesture && d.calibration_available);
}

#[test]
fn devices_are_refused_for_a_reason() {
    let mut ctx = libinput_path_create_context(true, 0).unwrap();
    let none = Properties::new();
    assert!(open(&mut ctx, &kernel("nothing at all"), &none).is_none());
    let own = KernelDevice { name: "libinput-rs virtual pointer".to_string(), ..mouse() };
    assert!(open(&mut ctx, &own, &none).is_none());
    let mut ignored = Properties::new();
    ignored.insert("LIBINPUT_IGNORE_DEVICE".to_string(), "1".to_string());
    assert!(open(&mut ctx, &mouse(), &ignored).is_none());
    let lopsided = KernelDevice {
        axes: vec![axis(0, 0, 100)],
        absolute: vec![0],
        ..touchpad()
    };
    assert!(!validate_axes(&lopsided.axes));
    assert!(open(&mut ctx, &lopsided, &none).is_none());
    assert!(ctx.registry.is_empty());
}

#[test]
fn devices_belong_to_their_seat() {
    let mut ctx = libinput_udev_create_context(true, 0, true).unwrap();
    let mut elsewhere = Properties::new();
    elsewhere.insert("ID_SEAT".to_string(), "seat1".to_string());
    assert!(open(&mut ctx, &mouse(), &elsewhere).is_none());
    assert!(open(&mut ctx, &mouse(), &Properties::new()).is_some());
    let class = mouse().classify(&UdevTags::read(&elsewhere));
    assert!(accept_device(&mouse(), &class, &elsewhere, Some("seat1")));
    let mut by_path = libinput_path_create_context(true, 0).unwrap();
    assert!(open(&mut by_path, &mouse(), &elsewhere).is_some());
}

#[test]
fn udev_tells_kinds_and_fuzz() {
    let mut properties = Properties::new();
    let none = UdevTags::read(&properties);
    assert_eq!(udev_type(&none, &mouse()), "mouse");
    assert_eq!(udev_type(&none, &kernel("x")), "unknown");
    properties.insert("ID_INPUT_TOUCHPAD".to_string(), "1".to_string());
    assert_eq!(udev_type(&UdevTags::read(&properties), &mouse()), "touchpad");
    properties.insert("LIBINPUT_FUZZ_00".to_string(), "8".to_string());
    properties.insert("LIBINPUT_FUZZ_36".to_string(), "-1".to_string());
    properties.insert("LIBINPUT_FUZZ_01".to_string(), "4".to_string());
    let fuzz = contact_fuzz(&properties);
    assert_eq!((fuzz.x, fuzz.y), (Some(8), None));
}

#[test]
fn mice_move_in_whole_frames() {
    let mut ctx = context(&mouse());
    let mut out = Vec::new();
    feed(&mut ctx, MILLISECOND, &[(2, 0, 3), (2, 1, -2), (2, 0, 1)], &mut out);
    assert!(out.is_empty());
    feed(&mut ctx, MILLISECOND, &[(0, 0, 0)], &mut out);
    assert_eq!(types(&out), vec![LibinputEventType::LIBINPUT_EVENT_POINTER_MOTION]);
    match out[0].payload {
        EventPayload::PointerMotion(motion) => {
            assert_eq!((motion.dx_unaccel, motion.dy_unaccel), (4, -2));
        }
        _ => panic!("not a motion"),
    }
}

#[test]
fn held_buttons_are_released_exactly_once() {
    let mut ctx = context(&mouse());
    let mut out = Vec::new();
    feed(&mut ctx, MILLISECOND, &[(1, 0x110, 1), (0, 0, 0)], &mut out);
    assert_eq!(types(&out), vec![LibinputEventType::LIBINPUT_EVENT_POINTER_BUTTON]);
    out.clear();
    assert_eq!(ctx.remove_device(0, at(2 * MILLISECOND), &mut out), Some(9));
    assert_eq!(
        types(&out),
        vec![
            LibinputEventType::LIBINPUT_EVENT_POINTER_BUTTON,
            LibinputEventType::LIBINPUT_EVENT_DEVICE_REMOVED,
        ]
    );
}

#[test]
fn bouncing_buttons_are_held_back() {
    let mut ctx = context(&mouse());
    let mut out = Vec::new();
    feed(&mut ctx, 100 * MILLISECOND, &[(1, 0x110, 1), (0, 0, 0)], &mut out);
    assert_eq!(out.len(), 1);
    feed(&mut ctx, 105 * MILLISECOND, &[(1, 0x110, 0), (0, 0, 0)], &mut out);
    feed(&mut ctx, 107 * MILLISECOND, &[(1, 0x110, 1), (0, 0, 0)], &mut out);
    assert_eq!(out.len(), 1);
}

#[test]
fn switched_off_devices_are_silent() {
    let mut ctx = context(&mouse());
    ctx.registry[0].send_events_mode = 1;
    let mut out = Vec::new();
    feed(&mut ctx, MILLISECOND, &[(1, 0x110, 1), (2, 0, 3), (0, 0, 0)], &mut out);
    assert!(out.is_empty());
}

#[test]
fn an_external_mouse_is_recognised() {
    assert!(context(&mouse()).backend.has_external_mouse());
    assert!(!context(&touchpad()).backend.has_external_mouse());
}

const ONE_FINGER: [(u16, u16, i32); 7] = [
    (3, 0x2f, 0),
    (3, 0x39, 1),
    (3, 0x35, 500),
    (3, 0x36, 300),
    (1, 0x14a, 1),
    (1, 0x145, 1),
    (0, 0, 0),
];

#[test]
fn one_finger_moves_and_two_scroll() {
    let mut ctx = context(&touchpad());
    let mut out = Vec::new();
    let start = 1000 * MILLISECOND;
    let handled = feed(&mut ctx, start, &ONE_FINGER, &mut out);
    assert_eq!(handled.action, FrameAction::ResetRemainders);
    let handled = feed(
        &mut ctx,
        start + 10 * MILLISECOND,
        &[(3, 0x35, 520), (0, 0, 0)],
        &mut out,
    );
    assert_eq!(handled.action, FrameAction::Motion { dx: 20, dy: 0 });

    feed(
        &mut ctx,
        start + 20 * MILLISECOND,
        &[
            (3, 0x2f, 1),
            (3, 0x39, 2),
            (3, 0x35, 700),
            (3, 0x36, 300),
            (1, 0x145, 0),
            (1, 0x14d, 1),
            (0, 0, 0),
        ],
        &mut out,
    );
    let handled = feed(
        &mut ctx,
        start + 30 * MILLISECOND,
        &[(3, 0x2f, 0), (3, 0x36, 310), (3, 0x2f, 1), (3, 0x36, 310), (0, 0, 0)],
        &mut out,
    );
    assert_eq!(handled.action, FrameAction::Scroll { dx: 0, dy: 10 });
    assert!(out.is_empty());
}

#[test]
fn fingers_that_spread_pinch() {
    let mut ctx = context(&touchpad());
    let mut out = Vec::new();
    let start = 1000 * MILLISECOND;
    feed(&mut ctx, start, &ONE_FINGER, &mut out);
    feed(
        &mut ctx,
        start + 10 * MILLISECOND,
        &[
            (3, 0x2f, 1),
            (3, 0x39, 2),
            (3, 0x35, 700),
            (3, 0x36, 300),
            (1, 0x145, 0),
            (1, 0x14d, 1),
            (0, 0, 0),
        ],
        &mut out,
    );
    let handled = feed(
        &mut ctx,
        start + 20 * MILLISECOND,
        &[(3, 0x2f, 0), (3, 0x35, 480), (3, 0x2f, 1), (3, 0x35, 720), (0, 0, 0)],
        &mut out,
    );
    assert_eq!(handled.action, FrameAction::Nothing);
    assert_eq!(types(&out), vec![LibinputEventType::LIBINPUT_EVENT_GESTURE_PINCH_BEGIN]);
    feed(
        &mut ctx,
        start + 30 * MILLISECOND,
        &[
            (3, 0x2f, 0),
            (3, 0x39, -1),
            (3, 0x2f, 1),
            (3, 0x39, -1),
            (1, 0x14a, 0),
            (1, 0x14d, 0),
            (0, 0, 0),
        ],
        &mut out,
    );
    assert!(types(&out).contains(&LibinputEventType::LIBINPUT_EVENT_GESTURE_PINCH_END));
}

#[test]
fn typing_keeps_fingers_still() {
    let mut ctx = context(&touchpad());
    let mut out = Vec::new();
    let start = 1000 * MILLISECOND;
    ctx.backend.global_typing_time = Some(start);
    feed(&mut ctx, start + 100 * MILLISECOND, &ONE_FINGER, &mut out);
    let handled = feed(
        &mut ctx,
        start + 110 * MILLISECOND,
        &[(3, 0x35, 520), (0, 0, 0)],
        &mut out,
    );
    assert_eq!(handled.action, FrameAction::ResetRemainders);
    let handled = feed(
        &mut ctx,
        start + 600 * MILLISECOND,
        &[(3, 0x35, 540), (0, 0, 0)],
        &mut out,
    );
    assert_eq!(handled.action, FrameAction::Motion { dx: 20, dy: 0 });
}

#[test]
fn taps_press_and_release_a_button() {
    let mut ctx = context(&touchpad());
    ctx.registry[0].tap_enabled = true;
    let mut out = Vec::new();
    let start = 1000 * MILLISECOND;
    feed(&mut ctx, start, &ONE_FINGER, &mut out);
    let lifted = start + 50 * MILLISECOND;
    feed(
        &mut ctx,
        lifted,
        &[(3, 0x39, -1), (1, 0x14a, 0), (1, 0x145, 0), (0, 0, 0)],
        &mut out,
    );
    assert_eq!(types(&out), vec![LibinputEventType::LIBINPUT_EVENT_POINTER_BUTTON]);
    out.clear();
    let end = ctx.close_cycle(&Vec::new(), at(lifted + 100 * MILLISECOND), &mut out);
    assert!(out.is_empty());
    assert_eq!(end.next, Some(80 * MILLISECOND));
    let end = ctx.close_cycle(&Vec::new(), at(lifted + 180 * MILLISECOND), &mut out);
    assert_eq!(types(&out), vec![LibinputEventType::LIBINPUT_EVENT_POINTER_BUTTON]);
    assert_eq!(end.next, None);
}

#[test]
fn resting_fingers_hold() {
    let mut ctx = context(&touchpad());
    let mut out = Vec::new();
    let start = 1000 * MILLISECOND;
    feed(&mut ctx, start, &ONE_FINGER, &mut out);
    ctx.close_cycle(&Vec::new(), at(start + 40 * MILLISECOND), &mut out);
    assert_eq!(types(&out), vec![LibinputEventType::LIBINPUT_EVENT_GESTURE_HOLD_BEGIN]);
    out.clear();
    feed(
        &mut ctx,
        start + 60 * MILLISECOND,
        &[(3, 0x39, -1), (1, 0x14a, 0), (1, 0x145, 0), (0, 0, 0)],
        &mut out,
    );
    assert_eq!(types(&out)[0], LibinputEventType::LIBINPUT_EVENT_GESTURE_HOLD_END);
}

#[test]
fn contacts_come_move_and_leave() {
    let mut ctx = context(&touchscreen());
    let mut out = Vec::new();
    feed(
        &mut ctx,
        MILLISECOND,
        &[(3, 0x2f, 0), (3, 0x39, 7), (3, 0x35, 10), (3, 0x36, 20), (1, 0x14a, 1), (0, 0, 0)],
        &mut out,
    );
    feed(&mut ctx, 2 * MILLISECOND, &[(3, 0x35, 30), (0, 0, 0)], &mut out);
    feed(&mut ctx, 3 * MILLISECOND, &[(3, 0x39, -1), (1, 0x14a, 0), (0, 0, 0)], &mut out);
    assert_eq!(
        types(&out),
        vec![
            LibinputEventType::LIBINPUT_EVENT_TOUCH_DOWN,
            LibinputEventType::LIBINPUT_EVENT_TOUCH_FRAME,
            LibinputEventType::LIBINPUT_EVENT_TOUCH_MOTION,
            LibinputEventType::LIBINPUT_EVENT_TOUCH_FRAME,
            LibinputEventType::LIBINPUT_EVENT_TOUCH_UP,
            LibinputEventType::LIBINPUT_EVENT_TOUCH_FRAME,
        ]
    );
    assert!(ctx.touch_seat_slots.iter().all(|used| !used));
}

fn tablet() -> KernelDevice {
    let axes = vec![axis(0x00, 0, 20000), axis(0x01, 0, 10000), axis(0x18, 0, 2000)];
    KernelDevice {
        keys: vec![0x140, 0x14a, 0x14b],
        absolute: axes.iter().map(|info| info.code).collect(),
        axes,
        has_absolute_events: true,
        ..kernel("Some Tablet")
    }
}

#[test]
fn pens_arrive_touch_and_leave() {
    let mut ctx = context(&tablet());
    assert!(ctx.registry[0].has_tablet);
    let mut out = Vec::new();
    feed(
        &mut ctx,
        MILLISECOND,
        &[(3, 0x00, 100), (3, 0x01, 100), (1, 0x140, 1), (0, 0, 0)],
        &mut out,
    );
    assert_eq!(types(&out), vec![LibinputEventType::LIBINPUT_EVENT_TABLET_TOOL_PROXIMITY]);
    assert!(ctx.registry[0].tablet_in_proximity);
    out.clear();
    feed(
        &mut ctx,
        2 * MILLISECOND,
        &[(3, 0x18, 1500), (1, 0x14a, 1), (0, 0, 0)],
        &mut out,
    );
    assert_eq!(types(&out), vec![LibinputEventType::LIBINPUT_EVENT_TABLET_TOOL_TIP]);
    out.clear();
    let mut removed = Vec::new();
    ctx.remove_device(0, at(3 * MILLISECOND), &mut removed);
    assert_eq!(
        types(&removed),
        vec![
            LibinputEventType::LIBINPUT_EVENT_TABLET_TOOL_TIP,
            LibinputEventType::LIBINPUT_EVENT_TABLET_TOOL_PROXIMITY,
            LibinputEventType::LIBINPUT_EVENT_DEVICE_REMOVED,
        ]
    );
}

#[test]
fn a_pen_that_leaves_blocks_touch_for_a_while() {
    let mut ctx = context(&tablet());
    let mut out = Vec::new();
    feed(
        &mut ctx,
        MILLISECOND,
        &[(3, 0x00, 100), (3, 0x01, 100), (1, 0x140, 1), (0, 0, 0)],
        &mut out,
    );
    assert_eq!(ctx.touch_arbitration_until, None);
    feed(&mut ctx, 10 * MILLISECOND, &[(1, 0x140, 0), (0, 0, 0)], &mut out);
    assert_eq!(ctx.touch_arbitration_until, Some(100 * MILLISECOND));
    assert!(!ctx.registry[0].tablet_in_proximity);
}

#[test]
fn scrolling_ends_when_it_is_told_to() {
    let mut ctx = context(&touchpad());
    let mut out = Vec::new();
    ctx.backend.devices[0].touch.finish_scroll(0, 1, false, 0, 2, &mut out);
    assert_eq!(out.len(), 2);
    out.clear();
    ctx.stop_scroll_for_device(0, 5, &mut out);
    assert_eq!(
        types(&out),
        vec![
            LibinputEventType::LIBINPUT_EVENT_POINTER_SCROLL_FINGER,
            LibinputEventType::LIBINPUT_EVENT_POINTER_AXIS,
        ]
    );
    out.clear();
    ctx.stop_scroll_for_device(0, 6, &mut out);
    assert!(out.is_empty());
}

#[test]
fn keys_repeat_while_they_are_held() {
    let keyboard = KernelDevice { keys: vec![30], ..kernel("Some Keyboard") };
    let mut ctx = context(&keyboard);
    let mut out = Vec::new();
    let start = 1000 * MILLISECOND;
    feed(&mut ctx, start, &[(1, 30, 1), (0, 0, 0)], &mut out);
    assert_eq!(out.len(), 1);
    out.clear();
    ctx.open_cycle(at(start + 100 * MILLISECOND), &mut out);
    assert!(out.is_empty());
    feed(&mut ctx, start + 200 * MILLISECOND, &[(1, 30, 0), (0, 0, 0)], &mut out);
    out.clear();
    ctx.open_cycle(at(start + 2000 * MILLISECOND), &mut out);
    assert!(out.is_empty());
}

#[test]
fn quirks_are_applied_before_devices_are_classified() {
    let none = Properties::new();
    let open_as = |k: &KernelDevice, quirks: &str| {
        let mut ctx = libinput_path_create_context(true, 0).unwrap();
        open_with_quirks(&mut ctx, k, &none, quirks).map(|_| ctx)
    };

    // Without its properties and its finger key a touchpad is a touchscreen.
    let k = KernelDevice { keys: vec![0x110, 0x145, 0x14a], ..touchpad() };
    let ctx = open_as(&k, "").unwrap();
    assert!(ctx.registry[0].has_pointer && !ctx.registry[0].has_touch);
    let file = "[pad]\nMatchName=Some Touchpad\nAttrEventCode=-EV_KEY:0x145\n\
        AttrInputProp=-INPUT_PROP_POINTER;-INPUT_PROP_BUTTONPAD\n";
    let ctx = open_as(&k, file).unwrap();
    assert!(ctx.registry[0].has_touch && !ctx.registry[0].has_pointer);
    assert_eq!(ctx.backend.devices[0].applied.codes.codes, vec![0x110, 0x14a]);

    // The other way round.
    let plain = KernelDevice { props: kernel("").props, keys: vec![0x14a], ..touchpad() };
    assert!(open_as(&plain, "").unwrap().registry[0].has_touch);
    let file = "[pad]\nMatchName=Some Touchpad\nAttrInputProp=+INPUT_PROP_BUTTONPAD\n";
    let ctx = open_as(&plain, file).unwrap();
    assert!(ctx.registry[0].has_pointer && !ctx.registry[0].has_touch);

    // A device that has nothing left is not taken in.
    let keyboard = KernelDevice { keys: vec![59], ..kernel("Some Keyboard") };
    assert!(open_as(&keyboard, "").is_some());
    let file = "[keys]\nMatchName=Some Keyboard\nAttrEventCode=-KEY_F1\n";
    assert!(open_as(&keyboard, file).is_none());

    // Without absolute axes there is no position.
    let file = "[pad]\nMatchName=Some Touchpad\nAttrEventCode=-EV_ABS\n";
    assert!(open_as(&plain, file).is_none());
}

#[test]
fn class_hints_make_nothing_up() {
    let mut tagged = Properties::new();
    tagged.insert("ID_INPUT_KEYBOARD".to_string(), "1".to_string());
    let open_as = |k: &KernelDevice, class: &str| {
        let mut ctx = libinput_path_create_context(true, 0).unwrap();
        let file = format!("[any]\nMatchName=*\nAttrDeviceClass={class}\n");
        open_with_quirks(&mut ctx, k, &tagged, &file).unwrap();
        ctx
    };
    let pad = touchpad();
    assert!(!open_as(&pad, "nothing").registry[0].has_gesture);
    assert!(open_as(&pad, "touchpad").registry[0].has_gesture);
    let keyboard = KernelDevice { keys: vec![30], ..kernel("Some Keyboard") };
    for class in ["touchpad", "touchscreen", "tablet", "tablet-pad", "switch", "mouse"] {
        let ctx = open_as(&keyboard, class);
        let d = &ctx.registry[0];
        assert!(d.has_keyboard && !d.has_pointer && !d.has_touch);
        assert!(!d.has_tablet && !d.has_tablet_pad && !d.has_switch);
    }
}

#[test]
fn a_new_scroll_method_ends_the_scrolling_under_way() {
    let mut ctx = context(&touchpad());
    let mut out = Vec::new();
    ctx.registry[0].scroll_methods = 3;
    ctx.registry[0].scroll_method = 1;
    ctx.backend.devices[0].touch.finish_scroll(0, 1, false, 0, 2, &mut out);
    out.clear();
    assert_eq!(ctx.set_scroll_method(0, 1, 5, &mut out), CONFIG_SUCCESS);
    assert_eq!(ctx.set_scroll_method(0, 4, 5, &mut out), CONFIG_UNSUPPORTED);
    assert_eq!(ctx.set_scroll_method(7, 2, 5, &mut out), CONFIG_UNSUPPORTED);
    assert!(out.is_empty() && ctx.registry[0].scroll_method == 1);
    assert_eq!(ctx.set_scroll_method(0, 2, 5, &mut out), CONFIG_SUCCESS);
    assert_eq!(
        types(&out),
        vec![
            LibinputEventType::LIBINPUT_EVENT_POINTER_SCROLL_FINGER,
            LibinputEventType::LIBINPUT_EVENT_POINTER_AXIS,
        ]
    );
    assert_eq!(ctx.registry[0].scroll_method, 2);
}

#[test]
fn devices_that_fall_silent_let_go() {
    let mut ctx = context(&mouse());
    let mut out = Vec::new();
    ctx.registry[0].send_events_modes = 1;
    feed(&mut ctx, MILLISECOND, &[(1, 0x110, 1), (0, 0, 0)], &mut out);
    out.clear();
    assert_eq!(ctx.set_send_events_mode(0, 2, at(MILLISECOND), &mut out), CONFIG_UNSUPPORTED);
    assert!(out.is_empty() && ctx.registry[0].send_events_mode == 0);
    assert_eq!(ctx.set_send_events_mode(0, 1, at(MILLISECOND), &mut out), CONFIG_SUCCESS);
    assert_eq!(types(&out), vec![LibinputEventType::LIBINPUT_EVENT_POINTER_BUTTON]);
    assert_eq!(ctx.registry[0].send_events_mode, 1);
    assert_eq!(ctx.set_send_events_mode(0, 1, at(MILLISECOND), &mut out), CONFIG_SUCCESS);
    assert_eq!(out.len(), 1);
}

#[test]
fn oddities_are_told_once() {
    let k = KernelDevice { relative: vec![0, 1, 8, 0x0b], ..mouse() };
    let mut ctx = context(&k);
    let mut out = Vec::new();
    let before = ctx.backend.devices[0].concerns();
    feed(&mut ctx, MILLISECOND, &[(2, 8, 1), (0, 0, 0)], &mut out);
    let after = ctx.backend.devices[0].concerns();
    assert_eq!(before.notices(&after), vec![Notice::MissesHiRes]);
    assert!(after.notices(&after).is_empty());

    let mut ctx = context(&touchpad());
    let before = ctx.backend.devices[0].concerns();
    feed(&mut ctx, MILLISECOND, &[(3, 0, 5000)], &mut out);
    let after = ctx.backend.devices[0].concerns();
    assert_eq!(before.notices(&after), vec![Notice::OutOfRange]);

    let pressure = PressureState {
        range: Some((10, 210)),
        offset: None,
        candidate: None,
        samples: 0,
        rejected: false,
    };
    let known = Concerns { pressure, ..after };
    let worn = Concerns { pressure: PressureState { offset: Some(30), ..pressure }, ..after };
    assert_eq!(known.notices(&worn), vec![Notice::OffsetFound { above: 20, span: 200 }]);
    let broken = Concerns { pressure: PressureState { rejected: true, ..pressure }, ..after };
    assert_eq!(known.notices(&broken), vec![Notice::OffsetRejected]);
    assert_eq!(Notice::OutOfRange.priority(), 20);
    assert_eq!(Notice::MissesHiRes.priority(), 30);
}

#[test]
fn keys_of_mixed_devices_are_never_lost() {
    let mixed = KernelDevice { keys: vec![30, 0x110, 0x111, 0x112, 0x1d0], ..mouse() };
    let mut ctx = context(&mixed);
    let mut out = Vec::new();
    for (code, expected) in [
        (30, LibinputEventType::LIBINPUT_EVENT_KEYBOARD_KEY),
        (0x110, LibinputEventType::LIBINPUT_EVENT_POINTER_BUTTON),
        (0x160, LibinputEventType::LIBINPUT_EVENT_KEYBOARD_KEY),
        (0x1d0, LibinputEventType::LIBINPUT_EVENT_KEYBOARD_KEY),
    ] {
        out.clear();
        feed(&mut ctx, MILLISECOND, &[(1, code, 1), (0, 0, 0)], &mut out);
        assert_eq!(types(&out), vec![expected]);
    }
}

#[test]
fn lamps_follow_their_locks() {
    let values = |leds: u32| -> Vec<(u16, u16, i32)> {
        led_events(leds).iter().map(|ev| (ev.kind, ev.code, ev.value)).collect()
    };
    assert_eq!(values(1), vec![(0x11, 0, 1), (0x11, 1, 0), (0x11, 2, 0)]);
    assert_eq!(values(2), vec![(0x11, 0, 0), (0x11, 1, 1), (0x11, 2, 0)]);
    assert_eq!(values(12), vec![(0x11, 0, 0), (0x11, 1, 0), (0x11, 2, 1)]);
}

#[test]
fn coordinates_change_with_the_axes_they_are_made_of() {
    let mut ctx = context(&tablet());
    let mut out = Vec::new();
    ctx.registry[0].calibration_available = false;
    let turned = AxisMix { x_from_x: false, x_from_y: true, y_from_x: true, y_from_y: false };
    assert_eq!(ctx.set_calibration(0, turned), CONFIG_UNSUPPORTED);
    assert_eq!(ctx.backend.devices[0].tablet.mix, AxisMix::plain());
    feed(&mut ctx, MILLISECOND, &[(1, 0x140, 1), (3, 0, 5), (3, 1, 5), (0, 0, 0)], &mut out);
    let changes = |event: &LibinputEvent| {
        (
            libinput_event_tablet_tool_x_has_changed(Some(event)),
            libinput_event_tablet_tool_y_has_changed(Some(event)),
        )
    };
    out.clear();
    feed(&mut ctx, 2 * MILLISECOND, &[(3, 0, 9), (0, 0, 0)], &mut out);
    assert_eq!(changes(&out[0]), (1, 0));
    ctx.registry[0].calibration_available = true;
    assert_eq!(ctx.set_calibration(0, turned), CONFIG_SUCCESS);
    out.clear();
    feed(&mut ctx, 3 * MILLISECOND, &[(3, 0, 12), (0, 0, 0)], &mut out);
    assert_eq!(changes(&out[0]), (0, 1));
}
