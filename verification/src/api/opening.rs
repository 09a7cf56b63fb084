//! Taking in a device that was opened.
use vstd::prelude::*;
use crate::api::context::LibinputContext;
use crate::backend::describe::{
    corrected, slots_fit, Evidence, Names, PadFacts, QuirkFacts, Surroundings, correct_class,
};
use crate::backend::live::{ContactFuzz, Progress, TrackedDevice, TrackingQuirks};
use crate::backend::mend::{classify_mended, copied, lemma_one_class, mended_class};
use crate::backend::probe::{accept_device, is_accepted, DeviceClass, KernelDevice, UdevTags};
use crate::backend::start::Snapshot;
use crate::backend::state::{is_registered, BackendState};
use crate::backend::tablet::{FrameTime, TabletFacts};
use crate::ffi_types::{AxisMix, BackendKind, DeviceId, LibinputDevice, LibinputEvent};
use crate::hwdetect::Properties;
use crate::quirks::apply::{
    apply_quirks, unchanged, AppliedQuirks, AppliedView, DeviceIdentity, IdentityView,
};
use crate::quirks::section::string_texts;
use crate::text::{letters, parse_i32, parsed};

verus! {

/// What was found out about a device that was opened.
pub struct Opening<'a> {
    pub path: &'a str,
    pub sysname: &'a str,
    pub fd: i32,
    pub kernel: &'a KernelDevice,
    pub snapshot: &'a Snapshot,
    pub properties: &'a Properties,
    pub pad: &'a PadFacts,
    pub display_tablet: bool,
    /// What the calibration that udev gives makes of the axes.
    pub mix: AxisMix,
    pub quirk_files: &'a Vec<String>,
    pub dmi_modalias: &'a str,
    pub device_tree: &'a str,
}

// ---------------------------------------------------------------------------
// Quirks
// ---------------------------------------------------------------------------
/// The kind of device that quirks are matched against.
pub open spec fn udev_type_spec(tags: UdevTags, k: KernelDevice) -> Seq<char> {
    if tags.touchpad {
        "touchpad"@
    } else if tags.touchscreen {
        "touchscreen"@
    } else if tags.tablet {
        "tablet"@
    } else if tags.tablet_pad {
        "tablet-pad"@
    } else if tags.pointing_stick {
        "pointingstick"@
    } else if tags.mouse || k.has_relative_motion() || k.has_wheel() {
        "mouse"@
    } else if tags.keyboard {
        "keyboard"@
    } else if tags.switch {
        "switch"@
    } else {
        "unknown"@
    }
}

pub fn udev_type(tags: &UdevTags, k: &KernelDevice) -> (name: &'static str)
    ensures
        name@ == udev_type_spec(*tags, *k),
{
    if tags.touchpad {
        "touchpad"
    } else if tags.touchscreen {
        "touchscreen"
    } else if tags.tablet {
        "tablet"
    } else if tags.tablet_pad {
        "tablet-pad"
    } else if tags.pointing_stick {
        "pointingstick"
    } else if tags.mouse || k.moves() || k.scrolls() {
        "mouse"
    } else if tags.keyboard {
        "keyboard"
    } else if tags.switch {
        "switch"
    } else {
        "unknown"
    }
}

pub open spec fn quirk_facts_spec(q: AppliedView) -> QuirkFacts {
    QuirkFacts {
        dell_canvas_totem: q.models.dell_canvas_totem,
        alps_serial_touchpad: q.models.alps_serial_touchpad,
        lenovo_scrollpoint: q.models.lenovo_scrollpoint,
    }
}

pub open spec fn tracking_quirks_spec(q: AppliedView) -> TrackingQuirks {
    TrackingQuirks {
        no_hi_res_vertical: q.disabled.hi_res_wheel_vertical,
        no_hi_res_horizontal: q.disabled.hi_res_wheel_horizontal,
        no_tilt: q.disabled.tablet_tilt_x || q.disabled.tablet_tilt_y,
        is_virtual: q.models.is_virtual,
        lenovo_scrollpoint: q.models.lenovo_scrollpoint,
    }
}

fn quirk_facts(applied: &AppliedQuirks) -> (facts: QuirkFacts)
    ensures
        facts == quirk_facts_spec(applied.contents()),
{
    QuirkFacts {
        dell_canvas_totem: applied.models.dell_canvas_totem,
        alps_serial_touchpad: applied.models.alps_serial_touchpad,
        lenovo_scrollpoint: applied.models.lenovo_scrollpoint,
    }
}

fn tracking_quirks(applied: &AppliedQuirks) -> (quirks: TrackingQuirks)
    ensures
        quirks == tracking_quirks_spec(applied.contents()),
{
    TrackingQuirks {
        no_hi_res_vertical: applied.codes.disabled.hi_res_wheel_vertical,
        no_hi_res_horizontal: applied.codes.disabled.hi_res_wheel_horizontal,
        no_tilt: applied.codes.disabled.tablet_tilt_x || applied.codes.disabled.tablet_tilt_y,
        is_virtual: applied.models.is_virtual,
        lenovo_scrollpoint: applied.models.lenovo_scrollpoint,
    }
}

// ---------------------------------------------------------------------------
// Properties
// ---------------------------------------------------------------------------
/// The first of two properties that is there.
pub open spec fn either_property(
    properties: Map<Seq<char>, Seq<char>>,
    first: Seq<char>,
    second: Seq<char>,
) -> Option<Seq<char>> {
    if properties.contains_key(first) {
        Some(properties[first])
    } else if properties.contains_key(second) {
        Some(properties[second])
    } else {
        None
    }
}

/// The fuzz that a text gives: a number that is not negative.
pub open spec fn fuzz_of(text: Option<Seq<char>>) -> Option<i32> {
    match text {
        Some(text) => match parsed(text, 10, true, i32::MIN as int, i32::MAX as int) {
            Some(n) => if n >= 0 {
                Some(n as i32)
            } else {
                None
            },
            None => None,
        },
        None => None,
    }
}

pub open spec fn contact_fuzz_spec(properties: Map<Seq<char>, Seq<char>>) -> ContactFuzz {
    ContactFuzz {
        x: fuzz_of(either_property(properties, "LIBINPUT_FUZZ_35"@, "LIBINPUT_FUZZ_00"@)),
        y: fuzz_of(either_property(properties, "LIBINPUT_FUZZ_36"@, "LIBINPUT_FUZZ_01"@)),
    }
}

fn read_fuzz(properties: &Properties, first: &str, second: &str) -> (fuzz: Option<i32>)
    requires
        properties.wf(),
    ensures
        fuzz == fuzz_of(either_property(properties@, first@, second@)),
{
    let text: &String = match properties.get(first) {
        Some(text) => text,
        None => match properties.get(second) {
            Some(text) => text,
            None => {
                return None;
            },
        },
    };
    let chars = letters(text.as_str());
    match parse_i32(chars.as_slice()) {
        Some(n) => if n >= 0 {
            Some(n)
        } else {
            None
        },
        None => None,
    }
}

/// The fuzz of contacts that udev gives, that of plain positions where there
/// is no other.
pub fn contact_fuzz(properties: &Properties) -> (fuzz: ContactFuzz)
    requires
        properties.wf(),
    ensures
        fuzz == contact_fuzz_spec(properties@),
{
    ContactFuzz {
        x: read_fuzz(properties, "LIBINPUT_FUZZ_35", "LIBINPUT_FUZZ_00"),
        y: read_fuzz(properties, "LIBINPUT_FUZZ_36", "LIBINPUT_FUZZ_01"),
    }
}

/// A property as clients can read it: one with a zero character is none.
pub open spec fn readable_property(
    properties: Map<Seq<char>, Seq<char>>,
    name: Seq<char>,
) -> Option<Seq<char>> {
    if properties.contains_key(name) && !properties[name].contains('\0') {
        Some(properties[name])
    } else {
        None
    }
}

pub open spec fn optional(text: Option<String>) -> Option<Seq<char>> {
    match text {
        Some(text) => Some(text@),
        None => None,
    }
}

fn holds_zero(text: &str) -> (holds: bool)
    ensures
        holds == text@.contains('\0'),
{
    let chars = letters(text);
    let mut i: usize = 0;
    while i < chars.len()
        invariant
            i <= chars.len(),
            chars@ == text@,
            forall|j: int| 0 <= j < i ==> #[trigger] text@[j] != '\0',
        decreases chars.len() - i,
    {
        if chars[i] == '\0' {
            assert(text@[i as int] == '\0');
            return true;
        }
        i += 1;
    }
    false
}

fn read_property(properties: &Properties, name: &str) -> (text: Option<String>)
    requires
        properties.wf(),
    ensures
        optional(text) == readable_property(properties@, name@),
{
    match properties.get(name) {
        Some(text) => if holds_zero(text.as_str()) {
            None
        } else {
            Some(text.as_str().to_owned())
        },
        None => None,
    }
}

impl Opening<'_> {
    pub open spec fn tags(self) -> UdevTags {
        UdevTags::of(self.properties@)
    }

    /// What quirks are matched against.
    pub open spec fn identity_spec(self) -> IdentityView {
        IdentityView {
            name: self.kernel.name@,
            bus: self.kernel.id.bus_type,
            vendor: self.kernel.id.vendor,
            product: self.kernel.id.product,
            version: self.kernel.id.version,
            udev_types: seq![udev_type_spec(self.tags(), *self.kernel)],
            dmi_modalias: self.dmi_modalias@,
            device_tree: self.device_tree@,
        }
    }

    fn identity(&self) -> (id: DeviceIdentity)
        requires
            self.properties.wf(),
        ensures
            id@ == self.identity_spec(),
    {
        let tags = UdevTags::read(self.properties);
        let mut udev_types: Vec<String> = Vec::new();
        udev_types.push(udev_type(&tags, self.kernel).to_owned());
        assert(string_texts(udev_types@) =~= seq![udev_type_spec(self.tags(), *self.kernel)]);
        DeviceIdentity {
            name: self.kernel.name.as_str().to_owned(),
            bus: self.kernel.id.bus_type,
            vendor: self.kernel.id.vendor,
            product: self.kernel.id.product,
            version: self.kernel.id.version,
            udev_types,
            dmi_modalias: self.dmi_modalias.to_owned(),
            device_tree: self.device_tree.to_owned(),
        }
    }

    /// What quirks come to for the device.
    #[verifier::opaque]
    pub open spec fn quirks(self) -> AppliedView {
        unchanged(self.kernel.keys@).with_files(
            string_texts(self.quirk_files@),
            self.quirk_files@.len() as int,
            self.identity_spec(),
        )
    }

    fn apply(&self) -> (applied: AppliedQuirks)
        requires
            self.properties.wf(),
        ensures
            applied.contents() == self.quirks(),
    {
        reveal(Opening::quirks);
        let id = self.identity();
        apply_quirks(self.quirk_files, &id, copied(&self.kernel.keys))
    }

    /// Whether this is the device as its quirks would have it.
    pub open spec fn is_mended(self, k: KernelDevice) -> bool {
        k.is_mended(*self.kernel, self.quirks())
    }

    /// The kinds of input that the device offers as its quirks would have it,
    /// which is `k`.
    pub open spec fn class(self, k: KernelDevice) -> DeviceClass {
        mended_class(*self.kernel, k, self.quirks(), self.tags())
    }

    pub open spec fn around(self) -> Surroundings {
        Surroundings {
            display_tablet: self.display_tablet,
            external_touchpad: self.properties@.contains_key("ID_INPUT_TOUCHPAD_INTEGRATION"@)
                && self.properties@["ID_INPUT_TOUCHPAD_INTEGRATION"@] == "external"@,
        }
    }

    /// Whether these are the names that udev gives the device.
    pub open spec fn are_names(self, names: Names) -> bool {
        &&& names.sysname@ == self.sysname@
        &&& optional(names.output_name) == readable_property(self.properties@, "WL_OUTPUT"@)
        &&& optional(names.udev_group) == readable_property(
            self.properties@,
            "LIBINPUT_DEVICE_GROUP"@,
        )
    }

    fn names(&self) -> (names: Names)
        requires
            self.properties.wf(),
        ensures
            self.are_names(names),
    {
        Names {
            sysname: self.sysname.to_owned(),
            output_name: read_property(self.properties, "WL_OUTPUT"),
            udev_group: read_property(self.properties, "LIBINPUT_DEVICE_GROUP"),
        }
    }

    /// Whether a device is described as its quirks would have it, which is
    /// `k`.
    #[verifier::opaque]
    pub open spec fn is_described(
        self,
        id: DeviceId,
        seat: usize,
        group: usize,
        k: KernelDevice,
        d: LibinputDevice,
    ) -> bool {
        exists|fresh: LibinputDevice, names: Names|
            #![trigger fresh.is_new(id, self.kernel.name@, self.path@, seat, group), self.are_names(names)]
            {
                let e = Evidence {
                    kernel: &k,
                    class: self.class(k),
                    quirks: quirk_facts_spec(self.quirks()),
                    around: self.around(),
                    pad: self.pad,
                };
                &&& fresh.is_new(id, self.kernel.name@, self.path@, seat, group)
                &&& self.are_names(names)
                &&& e.is_description(
                    fresh,
                    self.quirks().codes,
                    self.kernel.switches@,
                    names,
                    self.kernel.axes@,
                    d,
                )
            }
    }

    fn describe(
        &self,
        id: DeviceId,
        seat: usize,
        group: usize,
        k: &KernelDevice,
        class: DeviceClass,
        applied: &AppliedQuirks,
    ) -> (d: LibinputDevice)
        requires
            self.properties.wf(),
            slots_fit(self.kernel.axes@),
            applied.contents() == self.quirks(),
            self.is_mended(*k),
            class == self.class(*k),
        ensures
            d.id == id,
            d.seat == seat,
            d.group == group,
            self.is_described(id, seat, group, *k, d),
    {
        reveal(Opening::is_described);
        let around = Surroundings {
            display_tablet: self.display_tablet,
            external_touchpad: self.properties.equals("ID_INPUT_TOUCHPAD_INTEGRATION", "external"),
        };
        let e = Evidence {
            kernel: k,
            class,
            quirks: quirk_facts(applied),
            around,
            pad: self.pad,
        };
        let fresh = LibinputDevice::new(id, self.kernel.name.as_str(), self.path, seat, group);
        let names = self.names();
        let ghost known = fresh;
        let ghost given = names;
        let d = e.describe(
            fresh,
            copied(&applied.codes.codes),
            copied(&self.kernel.switches),
            names,
            copied(&self.kernel.axes),
        );
        assert(known.is_new(id, self.kernel.name@, self.path@, seat, group));
        assert(self.are_names(given));
        d
    }

    /// Whether a device is followed as its quirks would have it, which is
    /// `k`. It keeps what the quirks came to.
    pub open spec fn is_tracked(self, id: DeviceId, k: KernelDevice, t: TrackedDevice) -> bool {
        &&& t.device == id
        &&& t.fd == self.fd
        &&& t.path@ == self.path@
        &&& t.applied.contents() == self.quirks()
        &&& t.is_fresh(
            k,
            *self.snapshot,
            corrected(self.class(k), quirk_facts_spec(self.quirks())),
            self.tags().pointing_stick,
            tracking_quirks_spec(self.quirks()),
            contact_fuzz_spec(self.properties@),
            self.mix,
        )
    }

    fn track(&self, id: DeviceId, k: &KernelDevice, class: &DeviceClass, applied: AppliedQuirks) -> (t:
        TrackedDevice)
        requires
            self.properties.wf(),
            applied.contents() == self.quirks(),
            class == self.class(*k),
        ensures
            self.is_tracked(id, *k, t),
            forall|tools: Seq<crate::backend::tools::LibinputTabletTool>| #[trigger] t.wf(tools),
    {
        let tags = UdevTags::read(self.properties);
        let class = correct_class(class, &quirk_facts(&applied));
        let quirks = tracking_quirks(&applied);
        TrackedDevice::new(
            id,
            self.fd,
            self.path.to_owned(),
            k,
            self.snapshot,
            &class,
            tags.pointing_stick,
            &quirks,
            contact_fuzz(self.properties),
            self.mix,
            applied,
        )
    }
}

impl LibinputContext {
    /// The seat that a device has to be in to be taken in.
    pub open spec fn wanted_seat(self) -> Option<Seq<char>> {
        if self.backend_kind == BackendKind::Udev {
            Some(self.seats@[0].physical_name@)
        } else {
            None
        }
    }

    /// Whether a device is taken in: what it offers as its quirks would have
    /// it counts.
    pub open spec fn takes_in(self, o: Opening<'_>) -> bool {
        exists|k: KernelDevice| #[trigger]
            o.is_mended(k) && is_accepted(
                *o.kernel,
                o.class(k),
                o.properties@,
                self.wanted_seat(),
            )
    }

    /// Whether reporting a totem that was there from the start leaves these
    /// behind.
    #[verifier::opaque]
    pub open spec fn totem_told(
        self,
        place: int,
        at: FrameTime,
        facts: TabletFacts,
        out: Seq<LibinputEvent>,
        after: LibinputContext,
        reported: Seq<LibinputEvent>,
    ) -> bool {
        let t = self.backend.devices@[place];
        let id = t.device as int;
        exists|outcome: crate::backend::tablet::TabletOutcome| #[trigger]
            t.totem_reported(
                self.registry@[id],
                at,
                facts,
                self.tools.tools@,
                out,
                after.backend.devices@[place],
                after.registry@[id],
                after.tools.tools@,
                reported,
                outcome,
            ) && after.backend.devices@ == self.backend.devices@.update(
                place,
                after.backend.devices@[place],
            ) && after.registry@ == self.registry@.update(id, after.registry@[id]) && after.backend
                == (BackendState { devices: after.backend.devices, ..self.backend }) && after == (
            LibinputContext {
                backend: after.backend,
                registry: after.registry,
                tools: after.tools,
                touch_arbitration_until: self.blocked_until(Progress::Tablet(outcome)),
                ..self
            })
    }

    fn tell_totem(
        &mut self,
        place: usize,
        at: FrameTime,
        facts: TabletFacts,
        out: &mut Vec<LibinputEvent>,
    )
        requires
            old(self).wf(),
            place < old(self).backend.devices@.len(),
        ensures
            final(self).wf(),
            old(self).totem_told(place as int, at, facts, old(out)@, *final(self), final(out)@),
    {
        reveal(LibinputContext::totem_told);
        let ghost before = *self;
        let ghost begun = out@;
        assert(self.backend.devices@[place as int].wf(self.tools.tools@));
        let id: DeviceId = self.backend.devices[place].device;
        assert(id < self.registry.len());
        let outcome = self.backend.devices[place].report_totem(
            &mut self.registry[id as usize],
            at,
            facts,
            &mut self.tools,
            out,
        );
        proof {
            assert forall|i: int| 0 <= i < self.backend.devices@.len() implies (
            #[trigger] self.backend.devices@[i]).wf(self.tools.tools@) && is_registered(
                self.registry@,
                self.backend.devices@[i],
            ) by {
                assert(before.backend.devices@[i].wf(before.tools.tools@));
            }
        }
        self.settle(Progress::Tablet(outcome), at.now);
        assert(before.backend.devices@[place as int].totem_reported(
            before.registry@[id as int],
            at,
            facts,
            before.tools.tools@,
            begun,
            self.backend.devices@[place as int],
            self.registry@[id as int],
            self.tools.tools@,
            out@,
            outcome,
        ));
    }

    /// Whether taking in a device leaves these behind: it is described and
    /// tracked, attached, and a totem on it is reported.
    pub open spec fn taken_in(
        self,
        o: Opening<'_>,
        at: FrameTime,
        facts: TabletFacts,
        out: Seq<LibinputEvent>,
        after: LibinputContext,
        reported: Seq<LibinputEvent>,
    ) -> bool {
        exists|
            d: LibinputDevice,
            t: TrackedDevice,
            k: KernelDevice,
            middle: LibinputContext,
            between: Seq<LibinputEvent>,
        |
            #![trigger self.attached(d, t, out, middle, between), o.is_mended(k)]
            self.attached(d, t, out, middle, between) && o.is_mended(k) && {
                let id = self.registry@.len() as DeviceId;
                &&& o.is_described(id, 0, self.groups@.len() as usize, k, d)
                &&& o.is_tracked(id, k, t)
                &&& t.starts_with_totem() ==> middle.totem_told(
                    self.backend.devices@.len() as int,
                    at,
                    facts,
                    between,
                    after,
                    reported,
                )
                &&& !t.starts_with_totem() ==> after == middle && reported == between
            }
    }

    /// Takes in a device that was opened, unless it is none of the context's
    /// business.
    pub fn try_open(
        &mut self,
        o: &Opening<'_>,
        at: FrameTime,
        facts: TabletFacts,
        out: &mut Vec<LibinputEvent>,
    ) -> (opened: Option<DeviceId>)
        requires
            old(self).wf(),
            o.properties.wf(),
            slots_fit(o.kernel.axes@),
            old(self).seats@[0].refcount < i32::MAX,
        ensures
            final(self).wf(),
            opened is Some <==> old(self).takes_in(*o),
            opened is None ==> *final(self) == *old(self) && final(out)@ == old(out)@,
            opened matches Some(device) ==> {
                &&& device == old(self).registry@.len()
                &&& old(self).taken_in(
                    *o,
                    at,
                    facts,
                    old(out)@,
                    *final(self),
                    final(out)@,
                )
            },
    {
        let finds = match self.backend_kind {
            BackendKind::Udev => true,
            BackendKind::Path => false,
        };
        let seat = if finds {
            Some(self.seats[0].physical_name.as_str())
        } else {
            None
        };
        let applied = o.apply();
        let k = o.kernel.mend(&applied);
        let tags = UdevTags::read(o.properties);
        let class = classify_mended(o.kernel, &k, &applied, &tags);
        assert(o.is_mended(k));
        if !accept_device(o.kernel, &class, o.properties, seat) {
            proof {
                assert forall|other: KernelDevice| #[trigger] o.is_mended(other) implies o.class(
                    other,
                ) == class by {
                    lemma_one_class(*o.kernel, other, k, o.quirks(), o.tags());
                }
            }
            return None;
        }
        let (id, group) = self.next_names();
        let d = o.describe(id, 0, group, &k, class, &applied);
        let t = o.track(id, &k, &class, applied);
        let totem = t.has_totem();
        let ghost described = d;
        let ghost followed = t;
        let ghost before = *self;
        let ghost begun = out@;
        self.attach(d, t, out);
        let ghost middle = *self;
        let ghost between = out@;
        assert(before.attached(described, followed, begun, middle, between));
        if totem {
            let place: usize = self.backend.devices.len() - 1;
            self.tell_totem(place, at, facts, out);
        }
        Some(id)
    }
}

} // verus!
