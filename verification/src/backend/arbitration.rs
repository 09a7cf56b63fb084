//! Touch gives way to tablet tools: which tool a touch device yields to, and
//! where.
use vstd::prelude::*;
use crate::backend::probe::{axis, find_axis, AxisInfo};
use crate::backend::tools::TOOL_TOTEM;
use crate::codes::{ABS_MT_TOUCH_MAJOR, ABS_MT_TOUCH_MINOR, ABS_TILT_X};
use crate::ffi_types::{DeviceId, LibinputDevice};
use crate::text::equal;

verus! {

// ---------------------------------------------------------------------------
// Pairing
// ---------------------------------------------------------------------------
/// Whether a tablet has a tool near it that a touch device may have to yield
/// to.
pub open spec fn is_candidate(registry: Seq<LibinputDevice>, touch: DeviceId, id: DeviceId) -> bool {
    let d = registry[id as int];
    id != touch && d.has_tablet && !d.has_gesture && !d.has_tablet_pad && d.tablet_in_proximity
}

/// Whether udev groups two devices together.
pub open spec fn are_grouped(a: LibinputDevice, b: LibinputDevice) -> bool {
    match (a.udev_group, b.udev_group) {
        (Some(a), Some(b)) => a@ == b@,
        _ => false,
    }
}

/// The first tablet from `from` on that belongs to the same hardware.
pub open spec fn paired_from(
    devices: Seq<DeviceId>,
    registry: Seq<LibinputDevice>,
    touch: DeviceId,
    from: int,
) -> Option<DeviceId>
    decreases devices.len() - from,
{
    if from >= devices.len() {
        None
    } else if is_candidate(registry, touch, devices[from]) && are_grouped(
        registry[touch as int],
        registry[devices[from] as int],
    ) {
        Some(devices[from])
    } else {
        paired_from(devices, registry, touch, from + 1)
    }
}

/// The last tablet with a tool among the first `n` devices.
pub open spec fn last_candidate(
    devices: Seq<DeviceId>,
    registry: Seq<LibinputDevice>,
    touch: DeviceId,
    n: int,
) -> Option<DeviceId>
    decreases n,
{
    if n <= 0 {
        None
    } else if is_candidate(registry, touch, devices[n - 1]) {
        Some(devices[n - 1])
    } else {
        last_candidate(devices, registry, touch, n - 1)
    }
}

/// The tablet that a touch device yields to: one of the same hardware, or for
/// a touchscreen any tablet with a tool near it.
pub open spec fn active_tablet_spec(
    devices: Seq<DeviceId>,
    registry: Seq<LibinputDevice>,
    touch: DeviceId,
) -> Option<DeviceId> {
    match paired_from(devices, registry, touch, 0) {
        Some(id) => Some(id),
        None => if registry[touch as int].has_touch {
            last_candidate(devices, registry, touch, devices.len() as int)
        } else {
            None
        },
    }
}

fn grouped(a: &LibinputDevice, b: &LibinputDevice) -> (same: bool)
    ensures
        same == are_grouped(*a, *b),
{
    match (&a.udev_group, &b.udev_group) {
        (Some(a), Some(b)) => equal(a.as_str(), b.as_str()),
        _ => false,
    }
}

pub fn active_tablet_for_touch(
    devices: &Vec<DeviceId>,
    registry: &Vec<LibinputDevice>,
    touch: DeviceId,
) -> (tablet: Option<DeviceId>)
    requires
        touch < registry.len(),
        forall|i: int| 0 <= i < devices.len() ==> #[trigger] devices@[i] < registry.len(),
    ensures
        tablet == active_tablet_spec(devices@, registry@, touch),
        tablet matches Some(id) ==> id < registry.len(),
{
    let mut fallback: Option<DeviceId> = None;
    let mut i: usize = 0;
    while i < devices.len()
        invariant
            i <= devices.len(),
            touch < registry.len(),
            forall|j: int| 0 <= j < devices.len() ==> #[trigger] devices@[j] < registry.len(),
            fallback == last_candidate(devices@, registry@, touch, i as int),
            fallback matches Some(id) ==> id < registry.len(),
            paired_from(devices@, registry@, touch, 0) == paired_from(
                devices@,
                registry@,
                touch,
                i as int,
            ),
        decreases devices.len() - i,
    {
        let id: DeviceId = devices[i];
        let place: usize = id as usize;
        let d = &registry[place];
        if id != touch && d.has_tablet && !d.has_gesture && !d.has_tablet_pad
            && d.tablet_in_proximity {
            fallback = Some(id);
            if grouped(&registry[touch as usize], d) {
                return Some(id);
            }
        }
        i += 1;
    }
    if registry[touch as usize].has_touch {
        fallback
    } else {
        None
    }
}

// ---------------------------------------------------------------------------
// Geometry
// ---------------------------------------------------------------------------
/// Units per millimetre; at least one.
pub open spec fn scale_of(resolution: Option<i32>) -> int {
    match resolution {
        Some(r) if r > 1 => r as int,
        _ => 1,
    }
}

fn scale(resolution: Option<i32>) -> (r: i128)
    ensures
        r == scale_of(resolution),
        1 <= r <= i32::MAX,
{
    match resolution {
        Some(r) => if r > 1 {
            r as i128
        } else {
            1
        },
        None => 1,
    }
}

pub open spec fn start_of(range: Option<(i32, i32)>) -> int {
    match range {
        Some((low, _)) => low as int,
        None => 0,
    }
}

fn start(range: Option<(i32, i32)>) -> (low: i128)
    ensures
        low == start_of(range),
        i32::MIN <= low <= i32::MAX,
{
    match range {
        Some((low, _)) => low as i128,
        None => 0,
    }
}

/// One coordinate of a finger and of a tool, over a common denominator: the
/// distances from the edge in millimetres are `finger / unit` and
/// `tool / unit`.
pub struct Place {
    pub finger: int,
    pub tool: int,
    pub unit: int,
}

impl Place {
    pub open spec fn of(
        finger: i32,
        finger_range: Option<(i32, i32)>,
        finger_resolution: Option<i32>,
        tool: i32,
        tool_range: Option<(i32, i32)>,
        tool_resolution: Option<i32>,
    ) -> Place {
        let f = scale_of(finger_resolution);
        let t = scale_of(tool_resolution);
        Place {
            finger: (finger - start_of(finger_range)) * t,
            tool: (tool - start_of(tool_range)) * f,
            unit: f * t,
        }
    }

    /// Whether the finger lies at most `before` millimetres before the tool
    /// and at most `after` behind it, and not outside the touch device.
    pub open spec fn is_between(self, before: int, after: int) -> bool {
        &&& self.finger >= 0
        &&& self.finger >= self.tool - before * self.unit
        &&& self.finger <= self.tool + after * self.unit
    }

    /// Whether the finger is no further from the tool than half of `size`
    /// units, of which `per_mm` make a millimetre. A size without a scale is
    /// none.
    pub open spec fn is_covered(self, size: int, per_mm: int) -> bool {
        let gap = if self.finger >= self.tool {
            self.finger - self.tool
        } else {
            self.tool - self.finger
        };
        if per_mm > 0 {
            gap * 2 * per_mm <= size * self.unit
        } else {
            gap <= 0
        }
    }
}

/// A place in numbers of the machine.
struct Alignment {
    finger: i128,
    tool: i128,
    unit: i128,
}

impl Alignment {
    spec fn place(self) -> Place {
        Place { finger: self.finger as int, tool: self.tool as int, unit: self.unit as int }
    }

    spec fn is_small(self) -> bool {
        &&& -0x8000_0000_0000_0000 <= self.finger <= 0x8000_0000_0000_0000
        &&& -0x8000_0000_0000_0000 <= self.tool <= 0x8000_0000_0000_0000
        &&& 0 <= self.unit <= 0x8000_0000_0000_0000
    }

    fn new(
        finger: i32,
        finger_range: Option<(i32, i32)>,
        finger_resolution: Option<i32>,
        tool: i32,
        tool_range: Option<(i32, i32)>,
        tool_resolution: Option<i32>,
    ) -> (a: Alignment)
        ensures
            a.place() == Place::of(
                finger,
                finger_range,
                finger_resolution,
                tool,
                tool_range,
                tool_resolution,
            ),
            a.is_small(),
    {
        let f: i128 = scale(finger_resolution);
        let t: i128 = scale(tool_resolution);
        let df: i128 = finger as i128 - start(finger_range);
        let dt: i128 = tool as i128 - start(tool_range);
        proof {
            lemma_product(df as int, t as int);
            lemma_product(dt as int, f as int);
            lemma_product(f as int, t as int);
            assert(f * t >= 1) by (nonlinear_arith)
                requires
                    f >= 1,
                    t >= 1,
            ;
        }
        Alignment { finger: df * t, tool: dt * f, unit: f * t }
    }

    fn between(&self, before: i128, after: i128) -> (inside: bool)
        requires
            self.is_small(),
            0 <= before <= 1000,
            0 <= after <= 1000,
        ensures
            inside == self.place().is_between(before as int, after as int),
    {
        proof {
            assert(0 <= before * self.unit <= 1000 * 0x8000_0000_0000_0000) by (nonlinear_arith)
                requires
                    0 <= before <= 1000,
                    0 <= self.unit <= 0x8000_0000_0000_0000,
            ;
            assert(0 <= after * self.unit <= 1000 * 0x8000_0000_0000_0000) by (nonlinear_arith)
                requires
                    0 <= after <= 1000,
                    0 <= self.unit <= 0x8000_0000_0000_0000,
            ;
        }
        self.finger >= 0 && self.finger >= self.tool - before * self.unit && self.finger
            <= self.tool + after * self.unit
    }

    fn covered(&self, size: i32, per_mm: i32) -> (inside: bool)
        requires
            self.is_small(),
        ensures
            inside == self.place().is_covered(size as int, per_mm as int),
    {
        let gap: i128 = if self.finger >= self.tool {
            self.finger - self.tool
        } else {
            self.tool - self.finger
        };
        if per_mm > 0 {
            let doubled: i128 = gap * 2;
            let scale: i128 = per_mm as i128;
            let wide: i128 = size as i128;
            proof {
                assert(0 <= doubled * scale <= 0x2_0000_0000_0000_0000 * 0x8000_0000)
                    by (nonlinear_arith)
                    requires
                        0 <= doubled <= 0x2_0000_0000_0000_0000,
                        0 <= scale <= 0x8000_0000,
                ;
                assert(-0x8000_0000 * 0x8000_0000_0000_0000 <= wide * self.unit <= 0x8000_0000
                    * 0x8000_0000_0000_0000) by (nonlinear_arith)
                    requires
                        -0x8000_0000 <= wide <= 0x8000_0000,
                        0 <= self.unit <= 0x8000_0000_0000_0000,
                ;
            }
            doubled * scale <= wide * self.unit
        } else {
            gap <= 0
        }
    }
}

proof fn lemma_product(a: int, b: int)
    requires
        -0x1_0000_0000 <= a <= 0x1_0000_0000,
        0 <= b <= 0x7fff_ffff,
    ensures
        -0x8000_0000_0000_0000 <= a * b <= 0x8000_0000_0000_0000,
{
    assert(-0x1_0000_0000 * 0x7fff_ffff <= a * b <= 0x1_0000_0000 * 0x7fff_ffff)
        by (nonlinear_arith)
        requires
            -0x1_0000_0000 <= a <= 0x1_0000_0000,
            0 <= b <= 0x7fff_ffff,
    ;
}

/// Which way a tool tilts: negative to the left, positive to the right.
/// Without a scale the middle of the axis is upright; an axis with an even
/// number of steps is taken to be one step longer.
pub open spec fn tilt_spec(info: Option<AxisInfo>, value: i32, left_handed: bool) -> int {
    let tilt = match info {
        None => 0,
        Some(i) => if i.resolution != 0 && i.minimum < 0 && i.maximum > 0 {
            if i.resolution > 0 {
                value as int
            } else {
                -value
            }
        } else {
            let top = if (i.maximum - i.minimum + 1) % 2 == 0 && i.maximum < i32::MAX {
                i.maximum + 1
            } else {
                i.maximum as int
            };
            if top > i.minimum {
                2 * (value - i.minimum) - (top - i.minimum)
            } else {
                0
            }
        },
    };
    if left_handed {
        -tilt
    } else {
        tilt
    }
}

fn tilt_of(info: &Option<AxisInfo>, value: i32, left_handed: bool) -> (tilt: i64)
    ensures
        tilt == tilt_spec(*info, value, left_handed),
{
    let v: i64 = value as i64;
    let tilt: i64 = match info {
        None => 0,
        Some(i) => if i.resolution != 0 && i.minimum < 0 && i.maximum > 0 {
            if i.resolution > 0 {
                v
            } else {
                -v
            }
        } else {
            let low: i64 = i.minimum as i64;
            let high: i64 = i.maximum as i64;
            let steps: i64 = high - low + 1;
            let even = if steps >= 0 {
                steps % 2 == 0
            } else {
                (-steps) % 2 == 0
            };
            let top: i64 = if even && i.maximum < i32::MAX {
                high + 1
            } else {
                high
            };
            if top > low {
                2 * (v - low) - (top - low)
            } else {
                0
            }
        },
    };
    if left_handed {
        -tilt
    } else {
        tilt
    }
}

pub open spec fn resolution_on(axes: Seq<AxisInfo>, code: u16) -> int {
    match axis(axes, code) {
        Some(info) => info.resolution as int,
        None => 0,
    }
}

fn resolution_at(axes: &Vec<AxisInfo>, code: u16) -> (r: i32)
    ensures
        r == resolution_on(axes@, code),
{
    match find_axis(axes, code) {
        Some(info) => info.resolution,
        None => 0,
    }
}

/// Whether a tool near `tablet` claims a point of `touch`, or, without a
/// point, the whole device. A touchpad yields altogether; a totem claims what
/// it covers; an upright pen claims everything; a tilted pen claims where the
/// hand is likely to rest: 200 by 250 millimetres beside and below it, on the
/// side to which it tilts.
pub open spec fn claims(
    tablet: LibinputDevice,
    touch: LibinputDevice,
    point: Option<(i32, i32)>,
) -> bool {
    if touch.has_gesture {
        true
    } else {
        let totem = tablet.tablet_current matches Some(e) && e.tool_type == TOOL_TOTEM;
        let (x, y, tilt, major, minor) = match tablet.tablet_current {
            Some(e) => (
                e.axes.x,
                e.axes.y,
                tilt_spec(axis(tablet.axes@, ABS_TILT_X), e.axes.tilt_x, e.left_handed),
                e.axes.size_major,
                e.axes.size_minor,
            ),
            None => (0, 0, 0, 0, 0),
        };
        if !totem && tilt == 0 {
            true
        } else {
            match point {
                None => false,
                Some((px, py)) => {
                    let ax = Place::of(
                        px,
                        touch.abs_x_range,
                        touch.abs_x_resolution,
                        x,
                        tablet.abs_x_range,
                        tablet.abs_x_resolution,
                    );
                    let ay = Place::of(
                        py,
                        touch.abs_y_range,
                        touch.abs_y_resolution,
                        y,
                        tablet.abs_y_range,
                        tablet.abs_y_resolution,
                    );
                    if totem {
                        ax.is_covered(
                            major as int,
                            resolution_on(tablet.axes@, ABS_MT_TOUCH_MAJOR),
                        ) && ay.is_covered(
                            minor as int,
                            resolution_on(tablet.axes@, ABS_MT_TOUCH_MINOR),
                        )
                    } else if tilt > 0 {
                        ax.is_between(20, 180) && ay.is_between(100, 150)
                    } else {
                        ax.is_between(180, 20) && ay.is_between(100, 150)
                    }
                },
            }
        }
    }
}

pub fn tool_claims(tablet: &LibinputDevice, touch: &LibinputDevice, point: Option<(i32, i32)>) -> (
claimed: bool)
    ensures
        claimed == claims(*tablet, *touch, point),
{
    if touch.has_gesture {
        return true;
    }
    let info = find_axis(&tablet.axes, ABS_TILT_X);
    let (totem, x, y, tilt, major, minor): (bool, i32, i32, i64, i32, i32) =
        match tablet.tablet_current {
        Some(e) => (
            e.tool_type == TOOL_TOTEM,
            e.axes.x,
            e.axes.y,
            tilt_of(&info, e.axes.tilt_x, e.left_handed),
            e.axes.size_major,
            e.axes.size_minor,
        ),
        None => (false, 0, 0, 0, 0, 0),
    };
    if !totem && tilt == 0 {
        return true;
    }
    let (px, py): (i32, i32) = match point {
        Some(point) => point,
        None => {
            return false;
        },
    };
    let ax = Alignment::new(
        px,
        touch.abs_x_range,
        touch.abs_x_resolution,
        x,
        tablet.abs_x_range,
        tablet.abs_x_resolution,
    );
    let ay = Alignment::new(
        py,
        touch.abs_y_range,
        touch.abs_y_resolution,
        y,
        tablet.abs_y_range,
        tablet.abs_y_resolution,
    );
    if totem {
        let major_scale: i32 = resolution_at(&tablet.axes, ABS_MT_TOUCH_MAJOR);
        let minor_scale: i32 = resolution_at(&tablet.axes, ABS_MT_TOUCH_MINOR);
        ax.covered(major, major_scale) && ay.covered(minor, minor_scale)
    } else if tilt > 0 {
        ax.between(20, 180) && ay.between(100, 150)
    } else {
        ax.between(180, 20) && ay.between(100, 150)
    }
}

/// Whether touch yields: for a while after a tool left, and wherever a tool
/// claims it.
pub open spec fn arbitration_active(
    until: Option<u64>,
    now: u64,
    devices: Seq<DeviceId>,
    registry: Seq<LibinputDevice>,
    touch: DeviceId,
    point: Option<(i32, i32)>,
) -> bool {
    (until is Some && now < until->0) || match active_tablet_spec(devices, registry, touch) {
        Some(tablet) => claims(registry[tablet as int], registry[touch as int], point),
        None => false,
    }
}

pub fn touch_arbitration_active(
    until: Option<u64>,
    now: u64,
    devices: &Vec<DeviceId>,
    registry: &Vec<LibinputDevice>,
    touch: DeviceId,
    point: Option<(i32, i32)>,
) -> (active: bool)
    requires
        touch < registry.len(),
        forall|i: int| 0 <= i < devices.len() ==> #[trigger] devices@[i] < registry.len(),
    ensures
        active == arbitration_active(until, now, devices@, registry@, touch, point),
{
    if let Some(until) = until {
        if now < until {
            return true;
        }
    }
    match active_tablet_for_touch(devices, registry, touch) {
        Some(tablet) => tool_claims(
            &registry[tablet as usize],
            &registry[touch as usize],
            point,
        ),
        None => false,
    }
}

/// What a touch device yields to on the whole, it yields to at every point of
/// it.
pub proof fn law_yielding_altogether_includes_every_point(
    tablet: LibinputDevice,
    touch: LibinputDevice,
    point: (i32, i32),
)
    requires
        claims(tablet, touch, None),
    ensures
        claims(tablet, touch, Some(point)),
{
}

} // verus!
