//! Devices as quirks would have them: what a device announces is corrected
//! before it is classified.
use vstd::prelude::*;
use crate::backend::probe::{DeviceClass, InputProps, KernelDevice, UdevTags};
use crate::codes::{
    ABS_DISTANCE, ABS_MT_PRESSURE, ABS_MT_TOOL_TYPE, ABS_PRESSURE, ABS_TILT_X, ABS_TILT_Y,
    REL_HWHEEL_HI_RES, REL_WHEEL_HI_RES,
};
use crate::quirks::apply::{AppliedQuirks, AppliedView, Disabled};
use crate::quirks::section::{optional_text, string_texts};
use crate::text::equal;

verus! {

// ---------------------------------------------------------------------------
// Codes
// ---------------------------------------------------------------------------
impl Disabled {
    /// Whether an absolute axis is not to be believed.
    pub open spec fn hides_absolute(self, code: u16) -> bool {
        ||| self.all_absolute_axes
        ||| self.tablet_tilt_x && code == ABS_TILT_X
        ||| self.tablet_tilt_y && code == ABS_TILT_Y
        ||| self.abs_distance && code == ABS_DISTANCE
        ||| self.abs_mt_pressure && code == ABS_MT_PRESSURE
        ||| self.abs_pressure && code == ABS_PRESSURE
        ||| self.abs_mt_tool_type && code == ABS_MT_TOOL_TYPE
    }

    /// Whether a relative axis is not to be believed.
    pub open spec fn hides_relative(self, code: u16) -> bool {
        ||| self.hi_res_wheel_vertical && code == REL_WHEEL_HI_RES
        ||| self.hi_res_wheel_horizontal && code == REL_HWHEEL_HI_RES
    }

    fn is_hidden(&self, absolute: bool, code: u16) -> (hidden: bool)
        ensures
            absolute ==> hidden == self.hides_absolute(code),
            !absolute ==> hidden == self.hides_relative(code),
    {
        if absolute {
            self.all_absolute_axes || (self.tablet_tilt_x && code == ABS_TILT_X) || (
            self.tablet_tilt_y && code == ABS_TILT_Y) || (self.abs_distance && code
                == ABS_DISTANCE) || (self.abs_mt_pressure && code == ABS_MT_PRESSURE) || (
            self.abs_pressure && code == ABS_PRESSURE) || (self.abs_mt_tool_type && code
                == ABS_MT_TOOL_TYPE)
        } else {
            (self.hi_res_wheel_vertical && code == REL_WHEEL_HI_RES) || (
            self.hi_res_wheel_horizontal && code == REL_HWHEEL_HI_RES)
        }
    }
}

/// The axes that are left of those that a device announces.
pub open spec fn believed(codes: Seq<u16>, disabled: Disabled, absolute: bool) -> Seq<u16>
    decreases codes.len(),
{
    if codes.len() == 0 {
        codes
    } else {
        let rest = believed(codes.drop_last(), disabled, absolute);
        let hidden = if absolute {
            disabled.hides_absolute(codes.last())
        } else {
            disabled.hides_relative(codes.last())
        };
        if hidden {
            rest
        } else {
            rest.push(codes.last())
        }
    }
}

fn list_believed(codes: &Vec<u16>, disabled: &Disabled, absolute: bool) -> (out: Vec<u16>)
    ensures
        out@ == believed(codes@, *disabled, absolute),
{
    let mut out: Vec<u16> = Vec::new();
    let mut i: usize = 0;
    assert(codes@.take(0) =~= Seq::<u16>::empty());
    while i < codes.len()
        invariant
            i <= codes.len(),
            out@ == believed(codes@.take(i as int), *disabled, absolute),
        decreases codes.len() - i,
    {
        assert(codes@.take(i + 1).drop_last() =~= codes@.take(i as int));
        if !disabled.is_hidden(absolute, codes[i]) {
            out.push(codes[i]);
        }
        i += 1;
    }
    assert(codes@.take(i as int) =~= codes@);
    out
}

// ---------------------------------------------------------------------------
// Properties
// ---------------------------------------------------------------------------
/// A property as quirks would have it.
pub open spec fn mended_prop(q: AppliedView, name: Seq<char>, found: bool) -> bool {
    if q.enabled_input_props.contains(name) {
        true
    } else if q.disabled_input_props.contains(name) {
        false
    } else {
        found
    }
}

pub open spec fn mended_props(q: AppliedView, found: InputProps) -> InputProps {
    InputProps {
        pointer: mended_prop(q, "INPUT_PROP_POINTER"@, found.pointer),
        direct: mended_prop(q, "INPUT_PROP_DIRECT"@, found.direct),
        buttonpad: mended_prop(q, "INPUT_PROP_BUTTONPAD"@, found.buttonpad),
        semi_mt: mended_prop(q, "INPUT_PROP_SEMI_MT"@, found.semi_mt),
        topbuttonpad: mended_prop(q, "INPUT_PROP_TOPBUTTONPAD"@, found.topbuttonpad),
    }
}

fn is_listed(list: &Vec<String>, text: &str) -> (listed: bool)
    ensures
        listed == string_texts(list@).contains(text@),
{
    let mut i: usize = 0;
    while i < list.len()
        invariant
            i <= list.len(),
            forall|j: int| 0 <= j < i ==> #[trigger] string_texts(list@)[j] != text@,
        decreases list.len() - i,
    {
        if equal(list[i].as_str(), text) {
            assert(string_texts(list@)[i as int] == text@);
            return true;
        }
        i += 1;
    }
    false
}

fn mend_prop(applied: &AppliedQuirks, name: &str, found: bool) -> (set: bool)
    ensures
        set == mended_prop(applied.contents(), name@, found),
{
    is_listed(&applied.input_props.enabled, name) || (found && !is_listed(
        &applied.input_props.disabled,
        name,
    ))
}

fn mend_props(applied: &AppliedQuirks, found: &InputProps) -> (props: InputProps)
    ensures
        props == mended_props(applied.contents(), *found),
{
    InputProps {
        pointer: mend_prop(applied, "INPUT_PROP_POINTER", found.pointer),
        direct: mend_prop(applied, "INPUT_PROP_DIRECT", found.direct),
        buttonpad: mend_prop(applied, "INPUT_PROP_BUTTONPAD", found.buttonpad),
        semi_mt: mend_prop(applied, "INPUT_PROP_SEMI_MT", found.semi_mt),
        topbuttonpad: mend_prop(applied, "INPUT_PROP_TOPBUTTONPAD", found.topbuttonpad),
    }
}

// ---------------------------------------------------------------------------
// Devices
// ---------------------------------------------------------------------------
pub(crate) fn copied<T: Copy>(list: &Vec<T>) -> (copy: Vec<T>)
    ensures
        copy@ == list@,
{
    let mut copy: Vec<T> = Vec::new();
    let mut i: usize = 0;
    while i < list.len()
        invariant
            i <= list.len(),
            copy@ == list@.take(i as int),
        decreases list.len() - i,
    {
        copy.push(list[i]);
        i += 1;
        assert(copy@ =~= list@.take(i as int));
    }
    assert(list@.take(i as int) =~= list@);
    copy
}

impl KernelDevice {
    /// Whether this is a device as quirks would have it: its keys, its axes
    /// and its properties are corrected. What the kernel says of the ranges
    /// of axes stays.
    pub open spec fn is_mended(self, found: KernelDevice, q: AppliedView) -> bool {
        &&& self.name@ == found.name@
        &&& self.id == found.id
        &&& self.keys@ == q.codes
        &&& self.relative@ == believed(found.relative@, q.disabled, false)
        &&& self.absolute@ == believed(found.absolute@, q.disabled, true)
        &&& self.switches@ == found.switches@
        &&& self.axes_known == found.axes_known
        &&& self.axes@ == found.axes@
        &&& self.props == mended_props(q, found.props)
        &&& self.has_absolute_events == (found.has_absolute_events
            && !q.disabled.all_absolute_axes)
    }

    /// Corrects a device.
    pub fn mend(&self, applied: &AppliedQuirks) -> (k: KernelDevice)
        ensures
            k.is_mended(*self, applied.contents()),
    {
        KernelDevice {
            name: self.name.as_str().to_owned(),
            id: self.id,
            keys: copied(&applied.codes.codes),
            relative: list_believed(&self.relative, &applied.codes.disabled, false),
            absolute: list_believed(&self.absolute, &applied.codes.disabled, true),
            switches: copied(&self.switches),
            axes_known: self.axes_known,
            axes: copied(&self.axes),
            props: mend_props(applied, &self.props),
            has_absolute_events: self.has_absolute_events
                && !applied.codes.disabled.all_absolute_axes,
        }
    }
}

// ---------------------------------------------------------------------------
// Classes
// ---------------------------------------------------------------------------
impl DeviceClass {
    /// The kinds of input with one more that quirks name, in the words in
    /// which they name kinds of devices. It counts only where what the kernel
    /// says of the device bears it out.
    pub open spec fn hinted(self, found: KernelDevice, hint: Option<Seq<char>>) -> DeviceClass {
        match hint {
            None => self,
            Some(name) => DeviceClass {
                is_keyboard: self.is_keyboard || (name == "keyboard"@
                    && found.looks_like_keyboard()),
                is_touchpad: self.is_touchpad || (name == "touchpad"@
                    && found.looks_like_touchpad()),
                has_touch: self.has_touch || (name == "touchscreen"@
                    && found.looks_like_touchscreen()),
                has_tablet: self.has_tablet || (name == "tablet"@ && found.has_pen()),
                has_tablet_pad: self.has_tablet_pad || (name == "tablet-pad"@
                    && found.looks_like_pad()),
                has_switch: self.has_switch || (name == "switch"@ && found.has_known_switch()),
                is_pointer: self.is_pointer || (name == "touchpad"@
                    && found.looks_like_touchpad()) || (name == "mouse"@ && (
                found.has_relative_motion() || found.has_wheel())),
            },
        }
    }

    fn hint(&self, found: &KernelDevice, hint: &Option<String>) -> (class: DeviceClass)
        ensures
            class == self.hinted(*found, optional_text(*hint)),
    {
        match hint {
            None => *self,
            Some(name) => {
                let guess = found.classify(
                    &UdevTags {
                        keyboard: false,
                        touchpad: false,
                        touchscreen: false,
                        tablet: false,
                        tablet_pad: false,
                        switch: false,
                        mouse: false,
                        pointing_stick: false,
                    },
                );
                let n = name.as_str();
                let touchpad = equal(n, "touchpad") && guess.is_touchpad;
                DeviceClass {
                    is_keyboard: self.is_keyboard || (equal(n, "keyboard") && guess.is_keyboard),
                    is_touchpad: self.is_touchpad || touchpad,
                    has_touch: self.has_touch || (equal(n, "touchscreen") && guess.has_touch),
                    has_tablet: self.has_tablet || (equal(n, "tablet") && guess.has_tablet),
                    has_tablet_pad: self.has_tablet_pad || (equal(n, "tablet-pad")
                        && guess.has_tablet_pad),
                    has_switch: self.has_switch || (equal(n, "switch") && guess.has_switch),
                    is_pointer: self.is_pointer || touchpad || (equal(n, "mouse") && (
                    found.moves() || found.scrolls())),
                }
            },
        }
    }
}

/// The kinds of input that a device offers as quirks would have it.
pub open spec fn mended_class(
    found: KernelDevice,
    mended: KernelDevice,
    q: AppliedView,
    tags: UdevTags,
) -> DeviceClass {
    mended.class(tags).hinted(found, q.device_class)
}

/// Classifies a device that was corrected.
pub fn classify_mended(
    found: &KernelDevice,
    mended: &KernelDevice,
    applied: &AppliedQuirks,
    tags: &UdevTags,
) -> (class: DeviceClass)
    ensures
        class == mended_class(*found, *mended, applied.contents(), *tags),
{
    mended.classify(tags).hint(found, &applied.device_class)
}

/// A corrected device is of one class, however it is represented.
pub proof fn lemma_one_class(
    found: KernelDevice,
    a: KernelDevice,
    b: KernelDevice,
    q: AppliedView,
    tags: UdevTags,
)
    requires
        a.is_mended(found, q),
        b.is_mended(found, q),
    ensures
        mended_class(found, a, q, tags) == mended_class(found, b, q, tags),
{
}

/// A hint makes nothing up: a kind of input that it adds is one that an
/// unclassified device of the same make would be taken to offer.
pub proof fn law_hints_make_nothing_up(
    class: DeviceClass,
    found: KernelDevice,
    none: UdevTags,
    hint: Option<Seq<char>>,
)
    requires
        !none.any(),
    ensures
        ({
            let h = class.hinted(found, hint);
            let guess = found.class(none);
            &&& h.is_keyboard ==> class.is_keyboard || guess.is_keyboard
            &&& h.is_pointer ==> class.is_pointer || guess.is_pointer
            &&& h.is_touchpad ==> class.is_touchpad || guess.is_touchpad
            &&& h.has_touch ==> class.has_touch || guess.has_touch
            &&& h.has_tablet ==> class.has_tablet || guess.has_tablet
            &&& h.has_tablet_pad ==> class.has_tablet_pad || guess.has_tablet_pad
            &&& h.has_switch ==> class.has_switch || guess.has_switch
        }),
{
}

/// Quirks that say nothing leave a device as it is.
pub proof fn law_silent_quirks_change_nothing(found: KernelDevice, k: KernelDevice, tags: UdevTags)
    requires
        k.is_mended(found, crate::quirks::apply::unchanged(found.keys@)),
    ensures
        k.keys@ == found.keys@,
        k.relative@ == found.relative@,
        k.absolute@ == found.absolute@,
        k.props == found.props,
        mended_class(found, k, crate::quirks::apply::unchanged(found.keys@), tags) == found.class(
            tags,
        ),
{
    lemma_all_believed(found.relative@, false);
    lemma_all_believed(found.absolute@, true);
}

proof fn lemma_all_believed(codes: Seq<u16>, absolute: bool)
    ensures
        believed(codes, crate::quirks::apply::nothing_disabled(), absolute) == codes,
    decreases codes.len(),
{
    if codes.len() > 0 {
        lemma_all_believed(codes.drop_last(), absolute);
        assert(codes.drop_last().push(codes.last()) =~= codes);
    }
}

} // verus!
