//! What a kernel device is: whether its description makes sense, and which
//! kinds of input it offers.
use vstd::prelude::*;
use crate::codes::{
    InputId, ABS_MISC, ABS_MT_POSITION_X, ABS_MT_POSITION_Y, ABS_MT_SLOT, ABS_MT_TOOL_TYPE,
    ABS_MT_TOUCH_MAJOR, ABS_MT_TOUCH_MINOR, ABS_X, ABS_Y, BTN_0, BTN_TOOL_AIRBRUSH, BTN_TOOL_BRUSH,
    BTN_TOOL_FINGER, BTN_TOOL_PEN, BTN_TOOL_PENCIL, BTN_TOOL_RUBBER, BTN_TOUCH, REL_HWHEEL,
    REL_HWHEEL_HI_RES, REL_WHEEL, REL_WHEEL_HI_RES, REL_X, REL_Y,
};
use crate::evtrans::contains_code;
use crate::hwdetect::Properties;
use crate::text::{contains, contains_text, equal, letters};

verus! {

pub const WACOM_VENDOR: u16 = 0x056a;

/// What the kernel says of one absolute axis.
#[derive(Clone, Copy, Debug, PartialEq, Eq, Structural)]
pub struct AxisInfo {
    pub code: u16,
    pub value: i32,
    pub minimum: i32,
    pub maximum: i32,
    pub fuzz: i32,
    pub resolution: i32,
}

/// Properties that the kernel gives an input device.
#[derive(Clone, Copy, Debug, PartialEq, Eq, Structural)]
pub struct InputProps {
    pub pointer: bool,
    pub direct: bool,
    pub buttonpad: bool,
    pub semi_mt: bool,
    pub topbuttonpad: bool,
}

/// What the kernel says of a device.
pub struct KernelDevice {
    pub name: String,
    pub id: InputId,
    pub keys: Vec<u16>,
    pub relative: Vec<u16>,
    pub absolute: Vec<u16>,
    pub switches: Vec<u16>,
    /// Whether the axes could be read, and what they are.
    pub axes_known: bool,
    pub axes: Vec<AxisInfo>,
    pub props: InputProps,
    pub has_absolute_events: bool,
}

// ---------------------------------------------------------------------------
// Axes
// ---------------------------------------------------------------------------
/// The last description of an axis among the first `n`.
pub open spec fn axis_in(axes: Seq<AxisInfo>, n: int, code: u16) -> Option<AxisInfo>
    decreases n,
{
    if n <= 0 {
        None
    } else if axes[n - 1].code == code {
        Some(axes[n - 1])
    } else {
        axis_in(axes, n - 1, code)
    }
}

/// The description of an axis, if the device has it.
pub open spec fn axis(axes: Seq<AxisInfo>, code: u16) -> Option<AxisInfo> {
    axis_in(axes, axes.len() as int, code)
}

pub fn find_axis(axes: &Vec<AxisInfo>, code: u16) -> (info: Option<AxisInfo>)
    ensures
        info == axis(axes@, code),
{
    let mut n: usize = axes.len();
    while n > 0
        invariant
            n <= axes.len(),
            axis(axes@, code) == axis_in(axes@, n as int, code),
        decreases n,
    {
        if axes[n - 1].code == code {
            return Some(axes[n - 1]);
        }
        n -= 1;
    }
    None
}

/// Whether the range of an axis is plausible. Some axes are not checked, and
/// vendor axes may have no range at all.
pub open spec fn range_is_plausible(info: AxisInfo) -> bool {
    ||| info.code == ABS_MISC
    ||| info.code == ABS_MT_SLOT
    ||| info.code == ABS_MT_TOOL_TYPE
    ||| info.minimum == 0 && info.maximum == 0 && ABS_MISC <= info.code < ABS_MT_SLOT
    ||| 0 < info.maximum - info.minimum <= i32::MAX / 2
}

fn is_plausible(info: &AxisInfo) -> (plausible: bool)
    ensures
        plausible == range_is_plausible(*info),
{
    let range: i64 = info.maximum as i64 - info.minimum as i64;
    info.code == ABS_MISC || info.code == ABS_MT_SLOT || info.code == ABS_MT_TOOL_TYPE || (
    info.minimum == 0 && info.maximum == 0 && ABS_MISC <= info.code && info.code < ABS_MT_SLOT) || (
    0 < range && range <= 0x3fff_ffff)
}

/// Whether two axes that belong together both have a resolution, or neither.
pub open spec fn resolutions_agree(a: Option<AxisInfo>, b: Option<AxisInfo>) -> bool {
    a is Some && b is Some ==> (a->0.resolution == 0) == (b->0.resolution == 0)
}

fn agree(a: &Option<AxisInfo>, b: &Option<AxisInfo>) -> (agree: bool)
    ensures
        agree == resolutions_agree(*a, *b),
{
    match (a, b) {
        (Some(a), Some(b)) => (a.resolution == 0) == (b.resolution == 0),
        _ => true,
    }
}

/// Whether the axes make sense: coordinates come in pairs, ranges are
/// plausible, and resolutions are given for both axes of a pair or for none.
pub open spec fn axes_are_valid(axes: Seq<AxisInfo>) -> bool {
    let x = axis(axes, ABS_X);
    let y = axis(axes, ABS_Y);
    let mt_x = axis(axes, ABS_MT_POSITION_X);
    let mt_y = axis(axes, ABS_MT_POSITION_Y);
    &&& x is Some <==> y is Some
    &&& x is Some && y is Some ==> (mt_x is Some <==> mt_y is Some)
    &&& forall|i: int|
        0 <= i < axes.len() ==> range_is_plausible(#[trigger] axes[i]) && axes[i].resolution >= 0
    &&& resolutions_agree(x, y)
    &&& resolutions_agree(mt_x, mt_y)
    &&& resolutions_agree(axis(axes, ABS_MT_TOUCH_MAJOR), axis(axes, ABS_MT_TOUCH_MINOR))
}

pub fn validate_axes(axes: &Vec<AxisInfo>) -> (valid: bool)
    ensures
        valid == axes_are_valid(axes@),
{
    let x = find_axis(axes, ABS_X);
    let y = find_axis(axes, ABS_Y);
    let mt_x = find_axis(axes, ABS_MT_POSITION_X);
    let mt_y = find_axis(axes, ABS_MT_POSITION_Y);
    let mut i: usize = 0;
    while i < axes.len()
        invariant
            i <= axes.len(),
            forall|j: int|
                0 <= j < i ==> range_is_plausible(#[trigger] axes@[j]) && axes@[j].resolution >= 0,
        decreases axes.len() - i,
    {
        if !is_plausible(&axes[i]) || axes[i].resolution < 0 {
            assert(!(range_is_plausible(axes@[i as int]) && axes@[i as int].resolution >= 0));
            return false;
        }
        i += 1;
    }
    x.is_some() == y.is_some() && (!x.is_some() || mt_x.is_some() == mt_y.is_some()) && agree(
        &x,
        &y,
    ) && agree(&mt_x, &mt_y) && agree(
        &find_axis(axes, ABS_MT_TOUCH_MAJOR),
        &find_axis(axes, ABS_MT_TOUCH_MINOR),
    )
}

// ---------------------------------------------------------------------------
// Tags
// ---------------------------------------------------------------------------
/// What udev takes a device for.
#[derive(Clone, Copy, Debug, PartialEq, Eq, Structural)]
pub struct UdevTags {
    pub keyboard: bool,
    pub touchpad: bool,
    pub touchscreen: bool,
    pub tablet: bool,
    pub tablet_pad: bool,
    pub switch: bool,
    pub mouse: bool,
    pub pointing_stick: bool,
}

pub open spec fn has_tag(properties: Map<Seq<char>, Seq<char>>, name: Seq<char>) -> bool {
    properties.contains_key(name) && properties[name] == "1"@
}

impl UdevTags {
    pub open spec fn of(properties: Map<Seq<char>, Seq<char>>) -> UdevTags {
        UdevTags {
            keyboard: has_tag(properties, "ID_INPUT_KEYBOARD"@),
            touchpad: has_tag(properties, "ID_INPUT_TOUCHPAD"@),
            touchscreen: has_tag(properties, "ID_INPUT_TOUCHSCREEN"@),
            tablet: has_tag(properties, "ID_INPUT_TABLET"@),
            tablet_pad: has_tag(properties, "ID_INPUT_TABLET_PAD"@),
            switch: has_tag(properties, "ID_INPUT_SWITCH"@),
            mouse: has_tag(properties, "ID_INPUT_MOUSE"@),
            pointing_stick: has_tag(properties, "ID_INPUT_POINTINGSTICK"@),
        }
    }

    pub fn read(properties: &Properties) -> (tags: UdevTags)
        requires
            properties.wf(),
        ensures
            tags == UdevTags::of(properties@),
    {
        UdevTags {
            keyboard: properties.equals("ID_INPUT_KEYBOARD", "1"),
            touchpad: properties.equals("ID_INPUT_TOUCHPAD", "1"),
            touchscreen: properties.equals("ID_INPUT_TOUCHSCREEN", "1"),
            tablet: properties.equals("ID_INPUT_TABLET", "1"),
            tablet_pad: properties.equals("ID_INPUT_TABLET_PAD", "1"),
            switch: properties.equals("ID_INPUT_SWITCH", "1"),
            mouse: properties.equals("ID_INPUT_MOUSE", "1"),
            pointing_stick: properties.equals("ID_INPUT_POINTINGSTICK", "1"),
        }
    }

    pub open spec fn any(self) -> bool {
        self.keyboard || self.touchpad || self.touchscreen || self.tablet || self.tablet_pad
            || self.switch || self.mouse || self.pointing_stick
    }
}

/// Whether udev asks that a device be left alone.
pub open spec fn is_ignored(properties: Map<Seq<char>, Seq<char>>) -> bool {
    properties.contains_key("LIBINPUT_IGNORE_DEVICE"@)
        && properties["LIBINPUT_IGNORE_DEVICE"@] != "0"@
}

pub fn ignores_device(properties: &Properties) -> (ignored: bool)
    requires
        properties.wf(),
    ensures
        ignored == is_ignored(properties@),
{
    match properties.get("LIBINPUT_IGNORE_DEVICE") {
        Some(value) => !equal(value.as_str(), "0"),
        None => false,
    }
}

/// The seat that a device belongs to.
pub open spec fn seat_of(properties: Map<Seq<char>, Seq<char>>) -> Seq<char> {
    if properties.contains_key("ID_SEAT"@) {
        properties["ID_SEAT"@]
    } else {
        "seat0"@
    }
}

pub fn belongs_to_seat(properties: &Properties, seat: &str) -> (belongs: bool)
    requires
        properties.wf(),
    ensures
        belongs == (seat_of(properties@) == seat@),
{
    match properties.get("ID_SEAT") {
        Some(value) => equal(value.as_str(), seat),
        None => equal("seat0", seat),
    }
}

/// Whether a device is one of the library's own outputs.
pub open spec fn is_own_output(name: Seq<char>) -> bool {
    contains(name, "virtual pointer"@) || contains(name, "libinput-rs"@)
}

pub fn names_own_output(name: &str) -> (own: bool)
    ensures
        own == is_own_output(name@),
{
    let chars = letters(name);
    contains_text(chars.as_slice(), "virtual pointer") || contains_text(
        chars.as_slice(),
        "libinput-rs",
    )
}

// ---------------------------------------------------------------------------
// Classes
// ---------------------------------------------------------------------------
/// Which kinds of input a device offers.
#[derive(Clone, Copy, Debug, PartialEq, Eq, Structural)]
pub struct DeviceClass {
    pub is_keyboard: bool,
    pub is_pointer: bool,
    pub is_touchpad: bool,
    pub has_touch: bool,
    pub has_tablet: bool,
    pub has_tablet_pad: bool,
    pub has_switch: bool,
}

/// Whether any code lies in a range.
pub open spec fn any_between(codes: Seq<u16>, low: int, high: int) -> bool {
    exists|i: int| 0 <= i < codes.len() && low <= #[trigger] codes[i] <= high
}

pub fn has_between(codes: &Vec<u16>, low: u16, high: u16) -> (found: bool)
    ensures
        found == any_between(codes@, low as int, high as int),
{
    let mut i: usize = 0;
    while i < codes.len()
        invariant
            i <= codes.len(),
            forall|j: int| 0 <= j < i ==> !(low <= #[trigger] codes@[j] <= high),
        decreases codes.len() - i,
    {
        if low <= codes[i] && codes[i] <= high {
            assert(low <= codes@[i as int] <= high);
            return true;
        }
        i += 1;
    }
    false
}

impl KernelDevice {
    pub open spec fn has_pen(self) -> bool {
        let k = self.keys@;
        k.contains(BTN_TOOL_PEN) || k.contains(BTN_TOOL_RUBBER) || k.contains(BTN_TOOL_BRUSH)
            || k.contains(BTN_TOOL_PENCIL) || k.contains(BTN_TOOL_AIRBRUSH)
    }

    pub open spec fn has_abs_xy(self) -> bool {
        self.absolute@.contains(ABS_X) && self.absolute@.contains(ABS_Y)
    }

    pub open spec fn has_mt_xy(self) -> bool {
        self.absolute@.contains(ABS_MT_POSITION_X) && self.absolute@.contains(ABS_MT_POSITION_Y)
    }

    pub open spec fn has_position(self) -> bool {
        self.has_abs_xy() || self.has_mt_xy()
    }

    pub open spec fn has_relative_motion(self) -> bool {
        self.relative@.contains(REL_X) || self.relative@.contains(REL_Y)
    }

    pub open spec fn has_wheel(self) -> bool {
        let r = self.relative@;
        r.contains(REL_WHEEL) || r.contains(REL_HWHEEL) || r.contains(REL_WHEEL_HI_RES)
            || r.contains(REL_HWHEEL_HI_RES)
    }

    /// A switch that the library knows: lid, tablet mode or keypad slide.
    pub open spec fn has_known_switch(self) -> bool {
        self.switches@.contains(0) || self.switches@.contains(1) || self.switches@.contains(10)
    }

    fn senses_pen(&self) -> (has: bool)
        ensures
            has == self.has_pen(),
    {
        contains_code(&self.keys, BTN_TOOL_PEN) || contains_code(&self.keys, BTN_TOOL_RUBBER)
            || contains_code(&self.keys, BTN_TOOL_BRUSH) || contains_code(
            &self.keys,
            BTN_TOOL_PENCIL,
        ) || contains_code(&self.keys, BTN_TOOL_AIRBRUSH)
    }

    pub fn reports_abs_xy(&self) -> (has: bool)
        ensures
            has == self.has_abs_xy(),
    {
        contains_code(&self.absolute, ABS_X) && contains_code(&self.absolute, ABS_Y)
    }

    pub fn reports_mt_xy(&self) -> (has: bool)
        ensures
            has == self.has_mt_xy(),
    {
        contains_code(&self.absolute, ABS_MT_POSITION_X) && contains_code(
            &self.absolute,
            ABS_MT_POSITION_Y,
        )
    }

    pub fn moves(&self) -> (has: bool)
        ensures
            has == self.has_relative_motion(),
    {
        contains_code(&self.relative, REL_X) || contains_code(&self.relative, REL_Y)
    }

    pub fn scrolls(&self) -> (has: bool)
        ensures
            has == self.has_wheel(),
    {
        contains_code(&self.relative, REL_WHEEL) || contains_code(&self.relative, REL_HWHEEL)
            || contains_code(&self.relative, REL_WHEEL_HI_RES) || contains_code(
            &self.relative,
            REL_HWHEEL_HI_RES,
        )
    }

    fn switches_known(&self) -> (has: bool)
        ensures
            has == self.has_known_switch(),
    {
        contains_code(&self.switches, 0) || contains_code(&self.switches, 1) || contains_code(
            &self.switches,
            10,
        )
    }

    // --- without tags ---------------------------------------------------------
    /// Whether a device that udev has not classified is a touchpad.
    pub open spec fn looks_like_touchpad(self) -> bool {
        &&& !self.has_pen()
        &&& self.props.pointer || self.props.buttonpad || self.keys@.contains(BTN_TOOL_FINGER)
        &&& self.has_position()
    }

    pub open spec fn looks_like_keyboard(self) -> bool {
        any_between(self.keys@, 0, 0xff)
    }

    pub open spec fn looks_like_touchscreen(self) -> bool {
        &&& !self.has_pen()
        &&& !self.looks_like_touchpad()
        &&& self.keys@.contains(BTN_TOUCH)
        &&& self.has_position()
    }

    pub open spec fn looks_like_pad(self) -> bool {
        &&& !self.looks_like_keyboard()
        &&& !self.has_pen()
        &&& !self.keys@.contains(BTN_TOOL_FINGER)
        &&& !self.keys@.contains(BTN_TOUCH)
        &&& self.has_absolute_events
        &&& self.keys@.contains(BTN_0) || (self.id.vendor == WACOM_VENDOR && any_between(
            self.keys@,
            0x100,
            0xffff,
        ))
    }

    /// The kinds of input that a device offers: what udev says counts; only a
    /// device that udev has not classified is judged by what it can report.
    pub open spec fn class(self, tags: UdevTags) -> DeviceClass {
        let guess = !tags.any();
        let is_touchpad = tags.touchpad || (guess && self.looks_like_touchpad());
        DeviceClass {
            is_keyboard: tags.keyboard || (guess && self.looks_like_keyboard()),
            is_touchpad,
            has_tablet: tags.tablet || (guess && self.has_pen()),
            has_touch: tags.touchscreen || (guess && self.looks_like_touchscreen()),
            has_tablet_pad: tags.tablet_pad || (guess && self.looks_like_pad()),
            has_switch: self.has_known_switch() && (tags.switch || guess),
            is_pointer: is_touchpad || tags.mouse || tags.pointing_stick
                || self.has_relative_motion() || self.has_wheel(),
        }
    }

    fn judge(&self) -> (r: (bool, bool, bool))
        ensures
            r.0 == self.looks_like_touchpad(),
            r.1 == self.looks_like_touchscreen(),
            r.2 == self.looks_like_pad(),
    {
        let has_pen = self.senses_pen();
        let has_finger = contains_code(&self.keys, BTN_TOOL_FINGER);
        let has_touch_button = contains_code(&self.keys, BTN_TOUCH);
        let positions = self.reports_abs_xy() || self.reports_mt_xy();
        let touchpad = !has_pen && (self.props.pointer || self.props.buttonpad || has_finger)
            && positions;
        let touchscreen = !has_pen && !touchpad && has_touch_button && positions;
        let pad = !has_between(&self.keys, 0, 0xff) && !has_pen && !has_finger && !has_touch_button
            && self.has_absolute_events && (contains_code(&self.keys, BTN_0) || (self.id.vendor
            == WACOM_VENDOR && has_between(&self.keys, 0x100, 0xffff)));
        (touchpad, touchscreen, pad)
    }

    pub fn classify(&self, tags: &UdevTags) -> (class: DeviceClass)
        ensures
            class == self.class(*tags),
    {
        let guess = !(tags.keyboard || tags.touchpad || tags.touchscreen || tags.tablet
            || tags.tablet_pad || tags.switch || tags.mouse || tags.pointing_stick);
        let (touchpad, touchscreen, pad) = self.judge();
        let is_touchpad = tags.touchpad || (guess && touchpad);
        DeviceClass {
            is_keyboard: tags.keyboard || (guess && has_between(&self.keys, 0, 0xff)),
            is_touchpad,
            has_tablet: tags.tablet || (guess && self.senses_pen()),
            has_touch: tags.touchscreen || (guess && touchscreen),
            has_tablet_pad: tags.tablet_pad || (guess && pad),
            has_switch: self.switches_known() && (tags.switch || guess),
            is_pointer: is_touchpad || tags.mouse || tags.pointing_stick || self.moves()
                || self.scrolls(),
        }
    }
}

impl DeviceClass {
    /// Whether a device offers anything at all.
    pub open spec fn offers_input(self) -> bool {
        self.is_pointer || self.is_keyboard || self.has_touch || self.has_tablet
            || self.has_tablet_pad || self.has_switch
    }

    pub fn offers(&self) -> (offers: bool)
        ensures
            offers == self.offers_input(),
    {
        self.is_pointer || self.is_keyboard || self.has_touch || self.has_tablet
            || self.has_tablet_pad || self.has_switch
    }
}

/// Whether the library takes a device in that offers what `class` says.
/// `seat` is the seat that devices must belong to, where one was assigned.
pub open spec fn is_accepted(
    k: KernelDevice,
    class: DeviceClass,
    properties: Map<Seq<char>, Seq<char>>,
    seat: Option<Seq<char>>,
) -> bool {
    &&& !is_own_output(k.name@)
    &&& axes_are_valid(k.axes@)
    &&& !is_ignored(properties)
    &&& seat is Some ==> seat_of(properties) == seat->0
    &&& class.offers_input()
}

pub open spec fn seat_text(seat: Option<&str>) -> Option<Seq<char>> {
    match seat {
        Some(seat) => Some(seat@),
        None => None,
    }
}

pub fn accept_device(
    k: &KernelDevice,
    class: &DeviceClass,
    properties: &Properties,
    seat: Option<&str>,
) -> (accepted: bool)
    requires
        properties.wf(),
    ensures
        accepted == is_accepted(*k, *class, properties@, seat_text(seat)),
{
    if names_own_output(k.name.as_str()) || !validate_axes(&k.axes) || ignores_device(properties) {
        return false;
    }
    if let Some(seat) = seat {
        if !belongs_to_seat(properties, seat) {
            return false;
        }
    }
    class.offers()
}

/// Every device that is taken in offers some kind of input: nothing phantom
/// is announced.
pub proof fn law_no_phantom_devices(
    k: KernelDevice,
    class: DeviceClass,
    properties: Map<Seq<char>, Seq<char>>,
    seat: Option<Seq<char>>,
)
    requires
        is_accepted(k, class, properties, seat),
    ensures
        class.offers_input(),
        !is_own_output(k.name@),
        !is_ignored(properties),
{
}

/// Where udev has classified a device, what the device looks like adds
/// nothing but movement and wheels.
pub proof fn law_tags_prevail(k: KernelDevice, tags: UdevTags)
    requires
        tags.any(),
    ensures
        k.class(tags).is_keyboard == tags.keyboard,
        k.class(tags).is_touchpad == tags.touchpad,
        k.class(tags).has_touch == tags.touchscreen,
        k.class(tags).has_tablet == tags.tablet,
        k.class(tags).has_tablet_pad == tags.tablet_pad,
        k.class(tags).has_switch ==> tags.switch && k.has_known_switch(),
{
}

/// No device without a pen is guessed to be a tablet, and a touchpad is never
/// guessed to be a touchscreen as well.
pub proof fn law_guesses_exclude_each_other(k: KernelDevice, tags: UdevTags)
    requires
        !tags.any(),
    ensures
        k.class(tags).has_tablet ==> !k.class(tags).is_touchpad && !k.class(tags).has_touch
            && !k.class(tags).has_tablet_pad,
        k.class(tags).is_touchpad ==> !k.class(tags).has_touch,
        k.class(tags).has_tablet_pad ==> !k.class(tags).is_keyboard,
{
}

} // verus!
