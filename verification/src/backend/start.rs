//! The state that a device is tracked from: what the kernel reports of it at
//! the moment it is opened.
use vstd::prelude::*;
use crate::backend::gestures::{
    ClickState, DragState, FingerScroll, HoldState, PinchState, SwipeState, TapState, TouchMotion,
};
use crate::backend::pad::{PadAxis, PadState};
use crate::backend::pointer::AbsolutePointer;
use crate::backend::probe::{axis, find_axis, AxisInfo, KernelDevice};
use crate::backend::slots::{empty_slot, MtSlot, MAX_SLOTS};
use crate::backend::tablet::{
    nothing_changed, no_changes, EraserState, PressureState, ProximityState, TabletState, TipState,
    ToolIdentity,
};
use crate::backend::tools::{LibinputTabletTool, ToolCapabilities, TOOL_PEN, TOOL_TOTEM};
use crate::backend::touchpad::{ContactReport, TouchState};
use crate::backend::touchscreen::Arbitration;
use crate::codes::{
    ABS_DISTANCE, ABS_MT_ORIENTATION, ABS_MT_POSITION_X, ABS_MT_POSITION_Y, ABS_MT_SLOT,
    ABS_MT_TOUCH_MAJOR, ABS_MT_TOUCH_MINOR, ABS_MT_TRACKING_ID, ABS_PRESSURE, ABS_RX, ABS_RY,
    ABS_THROTTLE, ABS_TILT_X, ABS_TILT_Y, ABS_WHEEL, ABS_X, ABS_Y, ABS_Z, BTN_TOOL_AIRBRUSH,
    BTN_TOOL_BRUSH, BTN_TOOL_LENS, BTN_TOOL_MOUSE, BTN_TOOL_PEN, BTN_TOOL_PENCIL, BTN_TOOL_RUBBER,
    REL_WHEEL,
};
use crate::evtrans::contains_code;
use crate::ffi_types::{AxisMix, Span, TabletAxes};

verus! {

/// What is down or in touch when a device is opened. A list that the kernel
/// did not give is `None`; the lists of contacts have one entry per slot.
pub struct Snapshot {
    pub keys_down: Option<Vec<u16>>,
    pub slot_x: Option<Vec<i32>>,
    pub slot_y: Option<Vec<i32>>,
    pub slot_ids: Option<Vec<i32>>,
}

// ---------------------------------------------------------------------------
// Axes
// ---------------------------------------------------------------------------
pub open spec fn value_of(info: Option<AxisInfo>) -> Option<i32> {
    match info {
        Some(info) => Some(info.value),
        None => None,
    }
}

pub open spec fn value_or_zero(value: Option<i32>) -> i32 {
    match value {
        Some(value) => value,
        None => 0,
    }
}

fn or_zero(value: Option<i32>) -> (v: i32)
    ensures
        v == value_or_zero(value),
{
    match value {
        Some(value) => value,
        None => 0,
    }
}

pub open spec fn bounds_of(info: Option<AxisInfo>) -> Option<(i32, i32)> {
    match info {
        Some(info) => Some((info.minimum, info.maximum)),
        None => None,
    }
}

fn value_on(axes: &Vec<AxisInfo>, code: u16) -> (value: Option<i32>)
    ensures
        value == value_of(axis(axes@, code)),
{
    match find_axis(axes, code) {
        Some(info) => Some(info.value),
        None => None,
    }
}

fn bounds_on(axes: &Vec<AxisInfo>, code: u16) -> (bounds: Option<(i32, i32)>)
    ensures
        bounds == bounds_of(axis(axes@, code)),
{
    match find_axis(axes, code) {
        Some(info) => Some((info.minimum, info.maximum)),
        None => None,
    }
}

/// The last description among the first `n` of either of two axes.
pub open spec fn either_in(axes: Seq<AxisInfo>, n: int, a: u16, b: u16) -> Option<AxisInfo>
    decreases n,
{
    if n <= 0 {
        None
    } else if axes[n - 1].code == a || axes[n - 1].code == b {
        Some(axes[n - 1])
    } else {
        either_in(axes, n - 1, a, b)
    }
}

pub open spec fn either_axis(axes: Seq<AxisInfo>, a: u16, b: u16) -> Option<AxisInfo> {
    either_in(axes, axes.len() as int, a, b)
}

fn value_on_either(axes: &Vec<AxisInfo>, a: u16, b: u16) -> (value: Option<i32>)
    ensures
        value == value_of(either_axis(axes@, a, b)),
{
    let mut n: usize = axes.len();
    while n > 0
        invariant
            n <= axes.len(),
            either_axis(axes@, a, b) == either_in(axes@, n as int, a, b),
        decreases n,
    {
        if axes[n - 1].code == a || axes[n - 1].code == b {
            return Some(axes[n - 1].value);
        }
        n -= 1;
    }
    None
}

// ---------------------------------------------------------------------------
// Touch
// ---------------------------------------------------------------------------
/// The number of slots that contacts are tracked in.
pub open spec fn slot_count_spec(axes: Seq<AxisInfo>) -> int {
    match axis(axes, ABS_MT_SLOT) {
        Some(info) => {
            let n = info.maximum - info.minimum + 1;
            if n < 1 {
                1
            } else if n > MAX_SLOTS {
                MAX_SLOTS as int
            } else {
                n
            }
        },
        None => 10,
    }
}

pub fn slot_count(axes: &Vec<AxisInfo>) -> (n: usize)
    ensures
        n == slot_count_spec(axes@),
        1 <= n <= MAX_SLOTS,
{
    match find_axis(axes, ABS_MT_SLOT) {
        Some(info) => {
            let n: i64 = info.maximum as i64 - info.minimum as i64 + 1;
            if n < 1 {
                1
            } else if n > 256 {
                MAX_SLOTS
            } else {
                n as usize
            }
        },
        None => 10,
    }
}

/// The position that a slot starts from: the one the kernel lists for it, or
/// for the first slot the position of the device.
pub open spec fn start_position(listed: Option<Vec<i32>>, slotted: bool, i: int, single: Option<i32>) -> i32 {
    if slotted && listed is Some && i < listed->0@.len() {
        listed->0@[i]
    } else if i == 0 {
        value_or_zero(single)
    } else {
        0
    }
}

fn position_at(listed: &Option<Vec<i32>>, slotted: bool, i: usize, single: Option<i32>) -> (p: i32)
    ensures
        p == start_position(*listed, slotted, i as int, single),
{
    if slotted {
        if let Some(list) = listed {
            if i < list.len() {
                return list[i];
            }
        }
    }
    if i == 0 {
        or_zero(single)
    } else {
        0
    }
}

pub open spec fn start_slot(k: KernelDevice, s: Snapshot, i: int) -> MtSlot {
    let slotted = axis(k.axes@, ABS_MT_SLOT) is Some;
    MtSlot {
        x: start_position(s.slot_x, slotted, i, value_of(axis(k.axes@, ABS_X))),
        y: start_position(s.slot_y, slotted, i, value_of(axis(k.axes@, ABS_Y))),
        ..empty_slot()
    }
}

fn start_slots(k: &KernelDevice, s: &Snapshot) -> (slots: Vec<MtSlot>)
    ensures
        slots@ == Seq::new(
            slot_count_spec(k.axes@) as nat,
            |i: int| start_slot(*k, *s, i),
        ),
        1 <= slots.len() <= MAX_SLOTS,
{
    let n: usize = slot_count(&k.axes);
    let slotted = find_axis(&k.axes, ABS_MT_SLOT).is_some();
    let x = value_on(&k.axes, ABS_X);
    let y = value_on(&k.axes, ABS_Y);
    let mut slots: Vec<MtSlot> = Vec::new();
    let mut i: usize = 0;
    while i < n
        invariant
            i <= n == slot_count_spec(k.axes@),
            slotted == (axis(k.axes@, ABS_MT_SLOT) is Some),
            x == value_of(axis(k.axes@, ABS_X)),
            y == value_of(axis(k.axes@, ABS_Y)),
            slots.len() == i,
            forall|j: int| 0 <= j < i ==> #[trigger] slots@[j] == start_slot(*k, *s, j),
        decreases n - i,
    {
        slots.push(
            MtSlot {
                active: false,
                reported: false,
                dirty: false,
                palm_suppressed: false,
                cancel_pending: false,
                classification_pending: false,
                excluded: false,
                seat_slot: None,
                tracking_id: 0,
                tool_type: 0,
                x: position_at(&s.slot_x, slotted, i, x),
                y: position_at(&s.slot_y, slotted, i, y),
                distance: 0,
            },
        );
        i += 1;
    }
    assert(slots@ =~= Seq::new(
        slot_count_spec(k.axes@) as nat,
        |i: int| start_slot(*k, *s, i),
    ));
    slots
}

/// The tolerance of an axis: what udev says, or what the kernel says.
pub open spec fn fuzz_spec(axes: Seq<AxisInfo>, code: u16, udev: Option<i32>) -> i32 {
    match udev {
        Some(fuzz) if fuzz >= 0 => fuzz,
        _ => match axis(axes, code) {
            Some(info) => info.fuzz,
            None => 0,
        },
    }
}

fn fuzz_on(axes: &Vec<AxisInfo>, code: u16, udev: Option<i32>) -> (fuzz: i32)
    ensures
        fuzz == fuzz_spec(axes@, code, udev),
{
    if let Some(fuzz) = udev {
        if fuzz >= 0 {
            return fuzz;
        }
    }
    match find_axis(axes, code) {
        Some(info) => info.fuzz,
        None => 0,
    }
}

impl TouchState {
    /// Whether this is the state of a touch device on which nothing has happened
    /// yet.
    #[verifier::opaque]
    pub open spec fn is_start(
        self,
        k: KernelDevice,
        s: Snapshot,
        is_topbuttonpad: bool,
        x_fuzz: Option<i32>,
        y_fuzz: Option<i32>,
    ) -> bool {
        &&& self.slots@ == Seq::new(
            slot_count_spec(k.axes@) as nat,
            |i: int| start_slot(k, s, i),
        )
        &&& self.contacts@.len() == 0
        &&& self == (TouchState {
            slots: self.slots,
            contacts: self.contacts,
            current_slot: 0,
            report: ContactReport { tracking_id: None, x: None, y: None },
            has_mt: axis(k.axes@, ABS_MT_TRACKING_ID) is Some,
            protocol_a: axis(k.axes@, ABS_MT_TRACKING_ID) is Some && axis(
                k.axes@,
                ABS_MT_SLOT,
            ) is None,
            x_fuzz: fuzz_spec(k.axes@, ABS_MT_POSITION_X, x_fuzz),
            y_fuzz: fuzz_spec(k.axes@, ABS_MT_POSITION_Y, y_fuzz),
            is_topbuttonpad,
            arbitration: Arbitration { suppressed: false, tablet_was_active: false },
            tap: TapState {
                touching: false,
                fingers: 0,
                tap_fingers: 0,
                emitted: false,
                button_down: None,
                release_since: None,
                drag_active: false,
                start_time: None,
            },
            motion: TouchMotion {
                last_x: None,
                last_y: None,
                dx: 0,
                dy: 0,
                last_movement: None,
                x_range: bounds_of(axis(k.axes@, ABS_X)),
                y_range: bounds_of(axis(k.axes@, ABS_Y)),
                range_warning_at: None,
            },
            click: ClickState { button: None, device: None },
            hold: HoldState {
                started_at: None,
                active: false,
                fingers: 0,
                blocked: false,
                contact_changed: false,
            },
            drag: DragState {
                candidate_since: None,
                candidate_time_usec: 0,
                active: false,
                button_down: false,
                release_since: None,
            },
            swipe: SwipeState { active: false, fingers: 0 },
            pinch: PinchState { active: false, base: Span { dx: 0, dy: 0 }, fingers: 0 },
            scroll: FingerScroll { vertical: false, horizontal: false },
            contacts_changed: false,
            centroid: None,
        })
    }

    /// Tracks a touch device on which nothing has happened yet.
    pub fn start(
        k: &KernelDevice,
        s: &Snapshot,
        is_topbuttonpad: bool,
        x_fuzz: Option<i32>,
        y_fuzz: Option<i32>,
    ) -> (t: TouchState)
        ensures
            t.wf(),
            t.is_start(*k, *s, is_topbuttonpad, x_fuzz, y_fuzz),
    {
        reveal(TouchState::is_start);
        let has_mt = find_axis(&k.axes, ABS_MT_TRACKING_ID).is_some();
        let slotted = find_axis(&k.axes, ABS_MT_SLOT).is_some();
        TouchState {
            slots: start_slots(k, s),
            contacts: Vec::new(),
            current_slot: 0,
            report: ContactReport { tracking_id: None, x: None, y: None },
            has_mt,
            protocol_a: has_mt && !slotted,
            x_fuzz: fuzz_on(&k.axes, ABS_MT_POSITION_X, x_fuzz),
            y_fuzz: fuzz_on(&k.axes, ABS_MT_POSITION_Y, y_fuzz),
            is_topbuttonpad,
            arbitration: Arbitration { suppressed: false, tablet_was_active: false },
            tap: TapState {
                touching: false,
                fingers: 0,
                tap_fingers: 0,
                emitted: false,
                button_down: None,
                release_since: None,
                drag_active: false,
                start_time: None,
            },
            motion: TouchMotion {
                last_x: None,
                last_y: None,
                dx: 0,
                dy: 0,
                last_movement: None,
                x_range: bounds_on(&k.axes, ABS_X),
                y_range: bounds_on(&k.axes, ABS_Y),
                range_warning_at: None,
            },
            click: ClickState { button: None, device: None },
            hold: HoldState {
                started_at: None,
                active: false,
                fingers: 0,
                blocked: false,
                contact_changed: false,
            },
            drag: DragState {
                candidate_since: None,
                candidate_time_usec: 0,
                active: false,
                button_down: false,
                release_since: None,
            },
            swipe: SwipeState { active: false, fingers: 0 },
            pinch: PinchState { active: false, base: Span { dx: 0, dy: 0 }, fingers: 0 },
            scroll: FingerScroll { vertical: false, horizontal: false },
            contacts_changed: false,
            centroid: None,
        }
    }
}

impl AbsolutePointer {
    pub open spec fn start_spec(k: KernelDevice) -> AbsolutePointer {
        AbsolutePointer {
            x: value_of(axis(k.axes@, ABS_X)),
            y: value_of(axis(k.axes@, ABS_Y)),
            changed: false,
            x_range: bounds_of(axis(k.axes@, ABS_X)),
            y_range: bounds_of(axis(k.axes@, ABS_Y)),
        }
    }

    pub fn start(k: &KernelDevice) -> (p: AbsolutePointer)
        ensures
            p == AbsolutePointer::start_spec(*k),
    {
        AbsolutePointer {
            x: value_on(&k.axes, ABS_X),
            y: value_on(&k.axes, ABS_Y),
            changed: false,
            x_range: bounds_on(&k.axes, ABS_X),
            y_range: bounds_on(&k.axes, ABS_Y),
        }
    }
}

// ---------------------------------------------------------------------------
// Pads
// ---------------------------------------------------------------------------
pub open spec fn start_pad_axis(axes: Seq<AxisInfo>, code: u16) -> PadAxis {
    PadAxis {
        value: value_or_zero(value_of(axis(axes, code))),
        range: bounds_of(axis(axes, code)),
        changed: false,
    }
}

fn pad_axis_on(axes: &Vec<AxisInfo>, code: u16) -> (a: PadAxis)
    ensures
        a == start_pad_axis(axes@, code),
{
    PadAxis {
        value: or_zero(value_on(axes, code)),
        range: bounds_on(axes, code),
        changed: false,
    }
}

impl PadState {
    /// The state of a pad on which nothing has happened yet.
    pub open spec fn start_spec(
        k: KernelDevice,
        hi_res_vertical: bool,
        hi_res_horizontal: bool,
    ) -> PadState {
        PadState {
        first_dial: None,
        second_dial: None,
        first_ring: start_pad_axis(k.axes@, ABS_WHEEL),
        second_ring: start_pad_axis(k.axes@, ABS_THROTTLE),
        first_strip: start_pad_axis(k.axes@, ABS_RX),
        second_strip: start_pad_axis(k.axes@, ABS_RY),
        lifted: false,
        hi_res_vertical,
        hi_res_horizontal,
        }
    }

    pub fn start(k: &KernelDevice, hi_res_vertical: bool, hi_res_horizontal: bool) -> (p: PadState)
        ensures
            p == PadState::start_spec(*k, hi_res_vertical, hi_res_horizontal),
    {
        PadState {
            first_dial: None,
            second_dial: None,
            first_ring: pad_axis_on(&k.axes, ABS_WHEEL),
            second_ring: pad_axis_on(&k.axes, ABS_THROTTLE),
            first_strip: pad_axis_on(&k.axes, ABS_RX),
            second_strip: pad_axis_on(&k.axes, ABS_RY),
            lifted: false,
            hi_res_vertical,
            hi_res_horizontal,
        }
    }
}

// ---------------------------------------------------------------------------
// Tablets
// ---------------------------------------------------------------------------
/// What a tablet senses; quirks may say that its tilt is not to be believed.
pub open spec fn senses(k: KernelDevice, tilt_disabled: bool) -> ToolCapabilities {
    let a = k.absolute@;
    ToolCapabilities {
        pressure: a.contains(ABS_PRESSURE),
        distance: a.contains(ABS_DISTANCE),
        tilt: a.contains(ABS_TILT_X) && a.contains(ABS_TILT_Y) && !tilt_disabled,
        rotation: a.contains(ABS_Z) || a.contains(ABS_MT_ORIENTATION),
        slider: a.contains(ABS_WHEEL),
        wheel: k.relative@.contains(REL_WHEEL),
        size: a.contains(ABS_MT_TOUCH_MAJOR) && a.contains(ABS_MT_TOUCH_MINOR),
    }
}

fn sensed_by(k: &KernelDevice, tilt_disabled: bool) -> (c: ToolCapabilities)
    ensures
        c == senses(*k, tilt_disabled),
{
    ToolCapabilities {
        pressure: contains_code(&k.absolute, ABS_PRESSURE),
        distance: contains_code(&k.absolute, ABS_DISTANCE),
        tilt: contains_code(&k.absolute, ABS_TILT_X) && contains_code(&k.absolute, ABS_TILT_Y)
            && !tilt_disabled,
        rotation: contains_code(&k.absolute, ABS_Z) || contains_code(
            &k.absolute,
            ABS_MT_ORIENTATION,
        ),
        slider: contains_code(&k.absolute, ABS_WHEEL),
        wheel: contains_code(&k.relative, REL_WHEEL),
        size: contains_code(&k.absolute, ABS_MT_TOUCH_MAJOR) && contains_code(
            &k.absolute,
            ABS_MT_TOUCH_MINOR,
        ),
    }
}

/// The number of codes that a tablet's buttons can have.
pub const BUTTON_CANDIDATES: u16 = 12;

/// The codes that a tablet's buttons can have: the stylus buttons, the totem
/// and the buttons of a mouse.
pub open spec fn button_candidate(i: int) -> u16 {
    if i == 0 {
        0x14b
    } else if i == 1 {
        0x14c
    } else if i == 2 {
        0x149
    } else if i == 3 {
        0x100
    } else {
        (0x110 + (i - 4)) as u16
    }
}

fn candidate(i: u16) -> (code: u16)
    requires
        i < BUTTON_CANDIDATES,
    ensures
        code == button_candidate(i as int),
{
    if i == 0 {
        0x14b
    } else if i == 1 {
        0x14c
    } else if i == 2 {
        0x149
    } else if i == 3 {
        0x100
    } else {
        0x110 + (i - 4)
    }
}

/// The first `n` candidates among the codes.
pub open spec fn buttons_among(codes: Seq<u16>, n: int) -> Seq<u16>
    decreases n,
{
    if n <= 0 {
        Seq::empty()
    } else if codes.contains(button_candidate(n - 1)) {
        buttons_among(codes, n - 1).push(button_candidate(n - 1))
    } else {
        buttons_among(codes, n - 1)
    }
}

proof fn lemma_buttons_distinct(codes: Seq<u16>, n: int)
    requires
        0 <= n <= BUTTON_CANDIDATES,
    ensures
        buttons_among(codes, n).no_duplicates(),
        forall|i: int|
            0 <= i < buttons_among(codes, n).len() ==> exists|j: int|
                0 <= j < n && #[trigger] buttons_among(codes, n)[i] == button_candidate(j),
    decreases n,
{
    if n > 0 {
        lemma_buttons_distinct(codes, n - 1);
        let rest = buttons_among(codes, n - 1);
        let all = buttons_among(codes, n);
        assert forall|i: int| 0 <= i < all.len() implies exists|j: int|
            0 <= j < n && #[trigger] all[i] == button_candidate(j) by {
            if i < rest.len() {
                assert(all[i] == rest[i]);
                let j = choose|j: int| 0 <= j < n - 1 && rest[i] == button_candidate(j);
                assert(all[i] == button_candidate(j));
            } else {
                assert(all[i] == button_candidate(n - 1));
            }
        }
        assert forall|a: int, b: int| 0 <= a < b < all.len() implies all[a] != all[b] by {
            let j = choose|j: int| 0 <= j < n - 1 && rest[a] == button_candidate(j);
            assert(all[a] == rest[a]);
        }
    }
}

fn list_buttons(codes: &Vec<u16>) -> (buttons: Vec<u16>)
    ensures
        buttons@ == buttons_among(codes@, BUTTON_CANDIDATES as int),
        buttons@.no_duplicates(),
{
    let mut buttons: Vec<u16> = Vec::new();
    let mut i: u16 = 0;
    while i < BUTTON_CANDIDATES
        invariant
            i <= BUTTON_CANDIDATES,
            buttons@ == buttons_among(codes@, i as int),
        decreases BUTTON_CANDIDATES - i,
    {
        let code: u16 = candidate(i);
        if contains_code(codes, code) {
            buttons.push(code);
        }
        i += 1;
    }
    proof {
        lemma_buttons_distinct(codes@, BUTTON_CANDIDATES as int);
    }
    buttons
}

/// The codes that are in both lists, in the order of the first.
pub open spec fn common(a: Seq<u16>, b: Seq<u16>) -> Seq<u16>
    decreases a.len(),
{
    if a.len() == 0 {
        a
    } else if b.contains(a.last()) {
        common(a.drop_last(), b).push(a.last())
    } else {
        common(a.drop_last(), b)
    }
}

proof fn lemma_common(a: Seq<u16>, b: Seq<u16>)
    requires
        a.no_duplicates(),
    ensures
        common(a, b).no_duplicates(),
        forall|i: int|
            0 <= i < common(a, b).len() ==> a.contains(#[trigger] common(a, b)[i]),
    decreases a.len(),
{
    if a.len() > 0 {
        let head = a.drop_last();
        lemma_common(head, b);
        let rest = common(head, b);
        let all = common(a, b);
        assert forall|i: int| 0 <= i < all.len() implies a.contains(#[trigger] all[i]) by {
            if i < rest.len() {
                assert(all[i] == rest[i]);
                let j = choose|j: int| 0 <= j < head.len() && head[j] == rest[i];
                assert(a[j] == all[i]);
            } else {
                assert(a[a.len() - 1] == all[i]);
            }
        }
        assert forall|x: int, y: int| 0 <= x < y < all.len() implies all[x] != all[y] by {
            assert(all[x] == rest[x]);
            if y < rest.len() {
                assert(all[y] == rest[y]);
            } else {
                let j = choose|j: int| 0 <= j < head.len() && head[j] == rest[x];
                assert(a[j] == all[x]);
                assert(a[j] != a[a.len() - 1]);
            }
        }
    }
}

fn list_common(a: &Vec<u16>, b: &Vec<u16>) -> (out: Vec<u16>)
    requires
        a@.no_duplicates(),
    ensures
        out@ == common(a@, b@),
        out@.no_duplicates(),
{
    let mut out: Vec<u16> = Vec::new();
    let mut i: usize = 0;
    assert(a@.take(0) =~= Seq::<u16>::empty());
    while i < a.len()
        invariant
            i <= a.len(),
            out@ == common(a@.take(i as int), b@),
        decreases a.len() - i,
    {
        proof {
            assert(a@.take(i + 1).drop_last() =~= a@.take(i as int));
        }
        if contains_code(b, a[i]) {
            out.push(a[i]);
        }
        i += 1;
    }
    proof {
        assert(a@.take(i as int) =~= a@);
        lemma_common(a@, b@);
    }
    out
}

fn widen(codes: &Vec<u16>) -> (out: Vec<u32>)
    ensures
        out@ == Seq::new(codes@.len(), |i: int| codes@[i] as u32),
{
    let mut out: Vec<u32> = Vec::new();
    let mut i: usize = 0;
    while i < codes.len()
        invariant
            i <= codes.len(),
            out.len() == i,
            forall|j: int| 0 <= j < i ==> #[trigger] out@[j] == codes@[j] as u32,
        decreases codes.len() - i,
    {
        out.push(codes[i] as u32);
        i += 1;
    }
    assert(out@ =~= Seq::new(codes@.len(), |i: int| codes@[i] as u32));
    out
}

/// The tool whose key is down, if any; the pen comes last.
pub open spec fn tool_down(keys: Seq<u16>) -> Option<u32> {
    if keys.contains(BTN_TOOL_RUBBER) {
        Some(2)
    } else if keys.contains(BTN_TOOL_BRUSH) {
        Some(3)
    } else if keys.contains(BTN_TOOL_PENCIL) {
        Some(4)
    } else if keys.contains(BTN_TOOL_AIRBRUSH) {
        Some(5)
    } else if keys.contains(BTN_TOOL_MOUSE) {
        Some(6)
    } else if keys.contains(BTN_TOOL_LENS) {
        Some(7)
    } else if keys.contains(BTN_TOOL_PEN) {
        Some(1)
    } else {
        None
    }
}

fn find_tool_down(keys: &Vec<u16>) -> (tool: Option<u32>)
    ensures
        tool == tool_down(keys@),
{
    if contains_code(keys, BTN_TOOL_RUBBER) {
        Some(2)
    } else if contains_code(keys, BTN_TOOL_BRUSH) {
        Some(3)
    } else if contains_code(keys, BTN_TOOL_PENCIL) {
        Some(4)
    } else if contains_code(keys, BTN_TOOL_AIRBRUSH) {
        Some(5)
    } else if contains_code(keys, BTN_TOOL_MOUSE) {
        Some(6)
    } else if contains_code(keys, BTN_TOOL_LENS) {
        Some(7)
    } else if contains_code(keys, BTN_TOOL_PEN) {
        Some(1)
    } else {
        None
    }
}

/// The key of a tool.
pub open spec fn tool_key(tool: u32) -> Option<u16> {
    if tool == 2 {
        Some(BTN_TOOL_RUBBER)
    } else if tool == 3 {
        Some(BTN_TOOL_BRUSH)
    } else if tool == 4 {
        Some(BTN_TOOL_PENCIL)
    } else if tool == 5 {
        Some(BTN_TOOL_AIRBRUSH)
    } else if tool == 6 {
        Some(BTN_TOOL_MOUSE)
    } else if tool == 7 {
        Some(BTN_TOOL_LENS)
    } else if tool == TOOL_TOTEM {
        None
    } else {
        Some(BTN_TOOL_PEN)
    }
}

fn key_of_tool(tool: u32) -> (key: Option<u16>)
    ensures
        key == tool_key(tool),
{
    if tool == 2 {
        Some(BTN_TOOL_RUBBER)
    } else if tool == 3 {
        Some(BTN_TOOL_BRUSH)
    } else if tool == 4 {
        Some(BTN_TOOL_PENCIL)
    } else if tool == 5 {
        Some(BTN_TOOL_AIRBRUSH)
    } else if tool == 6 {
        Some(BTN_TOOL_MOUSE)
    } else if tool == 7 {
        Some(BTN_TOOL_LENS)
    } else if tool == TOOL_TOTEM {
        None
    } else {
        Some(BTN_TOOL_PEN)
    }
}

pub open spec fn keys_down(s: Snapshot) -> Seq<u16> {
    match s.keys_down {
        Some(keys) => keys@,
        None => Seq::empty(),
    }
}

pub open spec fn is_slotted(k: KernelDevice) -> bool {
    axis(k.axes@, ABS_MT_SLOT) is Some
}

/// The identity of the first contact.
pub open spec fn first_contact(k: KernelDevice, s: Snapshot) -> i32 {
    if is_slotted(k) && s.slot_ids is Some && s.slot_ids->0@.len() > 0 {
        s.slot_ids->0@[0]
    } else {
        match axis(k.axes@, ABS_MT_TRACKING_ID) {
            Some(info) => info.value,
            None => (-1) as i32,
        }
    }
}

/// The tool on the tablet: a totem shows itself by its contact, other tools
/// by their keys.
pub open spec fn start_tool(k: KernelDevice, s: Snapshot, is_tablet: bool, size: bool) -> Option<u32> {
    if is_tablet && size && first_contact(k, s) >= 0 {
        Some(TOOL_TOTEM)
    } else {
        tool_down(keys_down(s))
    }
}

fn find_start_tool(k: &KernelDevice, s: &Snapshot, is_tablet: bool, size: bool) -> (tool: Option<u32>)
    ensures
        tool == start_tool(*k, *s, is_tablet, size),
{
    let slotted = find_axis(&k.axes, ABS_MT_SLOT).is_some();
    let mut id: i32 = match value_on(&k.axes, ABS_MT_TRACKING_ID) {
        Some(id) => id,
        None => -1,
    };
    if slotted {
        if let Some(ids) = &s.slot_ids {
            if ids.len() > 0 {
                id = ids[0];
            }
        }
    }
    if is_tablet && size && id >= 0 {
        return Some(TOOL_TOTEM);
    }
    match &s.keys_down {
        Some(keys) => find_tool_down(keys),
        None => None,
    }
}

/// The position of a tablet's tool. A totem's position is that of its
/// contact.
pub open spec fn start_coordinate(
    k: KernelDevice,
    listed: Option<Vec<i32>>,
    code: u16,
    is_totem_tablet: bool,
) -> i32 {
    if is_totem_tablet && is_slotted(k) && listed is Some {
        start_position(listed, true, 0, value_of(axis(k.axes@, code)))
    } else {
        value_or_zero(value_of(axis(k.axes@, code)))
    }
}

fn coordinate_at_start(
    k: &KernelDevice,
    listed: &Option<Vec<i32>>,
    code: u16,
    is_totem_tablet: bool,
) -> (v: i32)
    ensures
        v == start_coordinate(*k, *listed, code, is_totem_tablet),
{
    let slotted = find_axis(&k.axes, ABS_MT_SLOT).is_some();
    let single = value_on(&k.axes, code);
    if is_totem_tablet && slotted && listed.is_some() {
        position_at(listed, true, 0, single)
    } else {
        or_zero(single)
    }
}

pub open spec fn start_axes(k: KernelDevice, s: Snapshot, is_tablet: bool, size: bool) -> TabletAxes {
    let a = k.axes@;
    let totem = is_tablet && size;
    TabletAxes {
        x: start_coordinate(k, s.slot_x, ABS_X, totem),
        y: start_coordinate(k, s.slot_y, ABS_Y, totem),
        pressure: value_or_zero(value_of(axis(a, ABS_PRESSURE))),
        distance: value_or_zero(value_of(axis(a, ABS_DISTANCE))),
        tilt_x: value_or_zero(value_of(axis(a, ABS_TILT_X))),
        tilt_y: value_or_zero(value_of(axis(a, ABS_TILT_Y))),
        rotation: value_or_zero(value_of(either_axis(a, ABS_Z, ABS_MT_ORIENTATION))),
        slider: value_or_zero(value_of(axis(a, ABS_WHEEL))),
        size_major: value_or_zero(value_of(axis(a, ABS_MT_TOUCH_MAJOR))),
        size_minor: value_or_zero(value_of(axis(a, ABS_MT_TOUCH_MINOR))),
    }
}

fn axes_at_start(k: &KernelDevice, s: &Snapshot, is_tablet: bool, size: bool) -> (a: TabletAxes)
    ensures
        a == start_axes(*k, *s, is_tablet, size),
{
    let totem = is_tablet && size;
    TabletAxes {
        x: coordinate_at_start(k, &s.slot_x, ABS_X, totem),
        y: coordinate_at_start(k, &s.slot_y, ABS_Y, totem),
        pressure: or_zero(value_on(&k.axes, ABS_PRESSURE)),
        distance: or_zero(value_on(&k.axes, ABS_DISTANCE)),
        tilt_x: or_zero(value_on(&k.axes, ABS_TILT_X)),
        tilt_y: or_zero(value_on(&k.axes, ABS_TILT_Y)),
        rotation: or_zero(value_on_either(&k.axes, ABS_Z, ABS_MT_ORIENTATION)),
        slider: or_zero(value_on(&k.axes, ABS_WHEEL)),
        size_major: or_zero(value_on(&k.axes, ABS_MT_TOUCH_MAJOR)),
        size_minor: or_zero(value_on(&k.axes, ABS_MT_TOUCH_MINOR)),
    }
}

impl TabletState {
    /// Whether this is the state of a tablet that was just opened.
    #[verifier::opaque]
    pub open spec fn is_start(
        self,
        k: KernelDevice,
        s: Snapshot,
        is_tablet: bool,
        tilt_disabled: bool,
        mix: AxisMix,
    ) -> bool {
        let has = senses(k, tilt_disabled);
        let tool = start_tool(k, s, is_tablet, has.size);
        let axes = start_axes(k, s, is_tablet, has.size);
        let buttons = buttons_among(k.keys@, BUTTON_CANDIDATES as int);
        &&& self.active_tool_keys@ == (match tool {
            Some(tool) => match tool_key(tool) {
                Some(key) => seq![key],
                None => Seq::empty(),
            },
            None => Seq::empty(),
        })
        &&& self.buttons@ == Seq::new(buttons.len(), |i: int| buttons[i] as u32)
        &&& self.ignored_buttons@ == common(buttons, keys_down(s))
        &&& self.held_buttons@.len() == 0
        &&& self.pending_buttons@.len() == 0
        &&& self == (TabletState {
            axes,
            last: axes,
            changed: no_changes(),
            axes_changed: false,
            wheel_discrete: 0,
            pressure: PressureState {
                range: bounds_of(axis(k.axes@, ABS_PRESSURE)),
                offset: None,
                candidate: None,
                samples: 0,
                rejected: false,
            },
            tip: TipState {
                down: tool == Some(TOOL_TOTEM),
                pending: if tool == Some(TOOL_TOTEM) {
                    Some(true)
                } else {
                    None
                },
                button_changed: false,
            },
            eraser: EraserState {
                button_active: false,
                pen_out_since: None,
                pending_tip_up: false,
            },
            prox: ProximityState {
                tool: None,
                pending: if tool is Some {
                    Some(true)
                } else {
                    None
                },
                in_proximity: false,
                area_suppressed: false,
                left_handed: false,
                cursor_out_of_range: false,
                zero_pressure_since: None,
                timer_enabled: true,
            },
            identity: ToolIdentity {
                serial: 0,
                tool_id: 0,
                tool_type: match tool {
                    Some(tool) => tool,
                    None => TOOL_PEN,
                },
            },
            has,
            mix,
            distance_range: bounds_of(axis(k.axes@, ABS_DISTANCE)),
            active_tool_keys: self.active_tool_keys,
            buttons: self.buttons,
            held_buttons: self.held_buttons,
            ignored_buttons: self.ignored_buttons,
            pending_buttons: self.pending_buttons,
        })
    }

    /// Tracks a tablet. A tool that is there already enters with the first
    /// frame; buttons that are down already are ignored until they come up.
    pub fn start(
        k: &KernelDevice,
        s: &Snapshot,
        is_tablet: bool,
        tilt_disabled: bool,
        mix: AxisMix,
    ) -> (t: TabletState)
        ensures
            forall|tools: Seq<LibinputTabletTool>| #[trigger] t.wf(tools),
            t.is_start(*k, *s, is_tablet, tilt_disabled, mix),
    {
        reveal(TabletState::is_start);
        let has = sensed_by(k, tilt_disabled);
        let tool = find_start_tool(k, s, is_tablet, has.size);
        let axes = axes_at_start(k, s, is_tablet, has.size);
        let buttons = list_buttons(&k.keys);
        let ignored_buttons = match &s.keys_down {
            Some(keys) => list_common(&buttons, keys),
            None => {
                let none: Vec<u16> = Vec::new();
                assert(none@ =~= keys_down(*s));
                list_common(&buttons, &none)
            },
        };
        let mut active_tool_keys: Vec<u16> = Vec::new();
        let tool_type: u32 = match tool {
            Some(tool) => tool,
            None => TOOL_PEN,
        };
        if tool.is_some() {
            if let Some(key) = key_of_tool(tool_type) {
                active_tool_keys.push(key);
                assert(active_tool_keys@ =~= seq![key]);
            }
        }
        let is_totem = tool.is_some() && tool_type == TOOL_TOTEM;
        TabletState {
            axes,
            last: axes,
            changed: nothing_changed(),
            axes_changed: false,
            wheel_discrete: 0,
            pressure: PressureState {
                range: bounds_on(&k.axes, ABS_PRESSURE),
                offset: None,
                candidate: None,
                samples: 0,
                rejected: false,
            },
            tip: TipState {
                down: is_totem,
                pending: if is_totem {
                    Some(true)
                } else {
                    None
                },
                button_changed: false,
            },
            eraser: EraserState {
                button_active: false,
                pen_out_since: None,
                pending_tip_up: false,
            },
            prox: ProximityState {
                tool: None,
                pending: if tool.is_some() {
                    Some(true)
                } else {
                    None
                },
                in_proximity: false,
                area_suppressed: false,
                left_handed: false,
                cursor_out_of_range: false,
                zero_pressure_since: None,
                timer_enabled: true,
            },
            identity: ToolIdentity { serial: 0, tool_id: 0, tool_type },
            has,
            mix,
            distance_range: bounds_on(&k.axes, ABS_DISTANCE),
            active_tool_keys,
            buttons: widen(&buttons),
            held_buttons: Vec::new(),
            ignored_buttons,
            pending_buttons: Vec::new(),
        }
    }
}

} // verus!
