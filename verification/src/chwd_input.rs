//! Deterministic selection of hardware profiles from what firmware, udev and
//! the kernel say of a device.
//!
//! A statistical guess may only name a device that no profile matches, and
//! only where it agrees with the device's capabilities.
use vstd::prelude::*;
use crate::capforge::{count_spec, CapabilityBits, CapabilityKind, KEY_END};
use crate::codes::{ABS_MT_POSITION_X, ABS_MT_POSITION_Y, ABS_X, ABS_Y, REL_X, REL_Y};
use crate::hwdetect::Properties;
use crate::text::{
    contains, contains_text, halves, letters, lines, lines_of, lowered, parse_unsigned, parsed,
    split_once, string_of, strip, stripped, texts, to_lower, trim, trimmed,
};

verus! {

// ---------------------------------------------------------------------------
// Facts
// ---------------------------------------------------------------------------
pub struct SystemFacts {
    pub dmi_vendor: String,
    pub dmi_product: String,
    pub dmi_product_version: String,
    pub dmi_board: String,
    pub cpu_vendor: String,
    pub thinkpad: bool,
    pub apple: bool,
    pub handheld: bool,
}

impl Default for SystemFacts {
    /// A machine of which nothing is known.
    fn default() -> (facts: SystemFacts)
        ensures
            facts.dmi_vendor@.len() == 0,
            facts.dmi_product@.len() == 0,
            facts.dmi_product_version@.len() == 0,
            facts.dmi_board@.len() == 0,
            facts.cpu_vendor@.len() == 0,
            !facts.thinkpad && !facts.apple && !facts.handheld,
    {
        SystemFacts {
            dmi_vendor: String::new(),
            dmi_product: String::new(),
            dmi_product_version: String::new(),
            dmi_board: String::new(),
            cpu_vendor: String::new(),
            thinkpad: false,
            apple: false,
            handheld: false,
        }
    }
}

/// Whether a text holds a lower-case word, whatever its own case.
pub open spec fn holds_word(text: Seq<char>, word: Seq<char>) -> bool {
    contains(lowered(text), word)
}

pub fn contains_folded(value: &str, needle: &str) -> (found: bool)
    ensures
        found == holds_word(value@, needle@),
{
    let chars = letters(value);
    let folded = to_lower(chars.as_slice());
    contains_text(folded.as_slice(), needle)
}

pub open spec fn is_thinkpad(
    vendor: Seq<char>,
    product: Seq<char>,
    version: Seq<char>,
    board: Seq<char>,
) -> bool {
    holds_word(vendor, "lenovo"@) && (holds_word(product, "thinkpad"@) || holds_word(
        version,
        "thinkpad"@,
    ) || holds_word(board, "thinkpad"@))
}

pub open spec fn is_apple(vendor: Seq<char>, product: Seq<char>, version: Seq<char>) -> bool {
    holds_word(vendor, "apple"@) || holds_word(product, "macbook"@) || holds_word(
        version,
        "macbook"@,
    )
}

pub open spec fn is_handheld_name(name: Seq<char>) -> bool {
    holds_word(name, "jupiter"@) || holds_word(name, "galileo"@) || holds_word(name, "steam deck"@)
        || holds_word(name, "rog ally"@) || holds_word(name, "rc71"@)
}

fn names_handheld(name: &str) -> (found: bool)
    ensures
        found == is_handheld_name(name@),
{
    contains_folded(name, "jupiter") || contains_folded(name, "galileo") || contains_folded(
        name,
        "steam deck",
    ) || contains_folded(name, "rog ally") || contains_folded(name, "rc71")
}

fn trimmed_string(text: &str) -> (out: String)
    ensures
        out@ == trimmed(text@),
{
    let chars = letters(text);
    string_of(trim(chars.as_slice()))
}

/// The processor's maker in a line of the kernel's description, if the line
/// gives it.
pub open spec fn vendor_line(line: Seq<char>) -> Option<Seq<char>> {
    match stripped(line, "vendor_id"@) {
        Some(rest) => match halves(rest, ':') {
            Some((_, value)) => Some(trimmed(value)),
            None => None,
        },
        None => None,
    }
}

/// The maker that the first line from `from` on gives, if any does.
pub open spec fn cpu_vendor_from(rows: Seq<Seq<char>>, from: int) -> Seq<char>
    decreases rows.len() - from,
{
    if from >= rows.len() {
        Seq::empty()
    } else {
        match vendor_line(rows[from]) {
            Some(vendor) => vendor,
            None => cpu_vendor_from(rows, from + 1),
        }
    }
}

/// The maker of the processor in the kernel's description of it.
pub fn cpu_vendor_of(description: &str) -> (vendor: String)
    ensures
        vendor@ == cpu_vendor_from(lines_of(description@), 0),
{
    let chars = letters(description);
    let rows = lines(chars.as_slice());
    let ghost all = lines_of(description@);
    assert(texts(rows@).len() == rows.len());
    let mut i: usize = 0;
    while i < rows.len()
        invariant
            i <= rows.len() == all.len(),
            texts(rows@) == all,
            all == lines_of(description@),
            cpu_vendor_from(all, 0) == cpu_vendor_from(all, i as int),
        decreases rows.len() - i,
    {
        let row: &[char] = rows[i];
        assert(row@ == texts(rows@)[i as int]);
        if let Some(rest) = strip(row, "vendor_id") {
            if let Some((_, value)) = split_once(rest, ':') {
                return string_of(trim(value));
            }
        }
        i += 1;
    }
    String::new()
}

/// What firmware tables say of the machine.
pub fn system_facts(
    vendor: &str,
    product: &str,
    product_version: &str,
    board: &str,
    cpu_description: &str,
) -> (facts: SystemFacts)
    ensures
        facts.dmi_vendor@ == trimmed(vendor@),
        facts.dmi_product@ == trimmed(product@),
        facts.dmi_product_version@ == trimmed(product_version@),
        facts.dmi_board@ == trimmed(board@),
        facts.cpu_vendor@ == cpu_vendor_from(lines_of(cpu_description@), 0),
        facts.thinkpad == is_thinkpad(
            trimmed(vendor@),
            trimmed(product@),
            trimmed(product_version@),
            trimmed(board@),
        ),
        facts.apple == is_apple(
            trimmed(vendor@),
            trimmed(product@),
            trimmed(product_version@),
        ),
        facts.handheld == (is_handheld_name(trimmed(product@)) || is_handheld_name(
            trimmed(board@),
        )),
{
    let dmi_vendor = trimmed_string(vendor);
    let dmi_product = trimmed_string(product);
    let dmi_product_version = trimmed_string(product_version);
    let dmi_board = trimmed_string(board);
    let thinkpad = contains_folded(dmi_vendor.as_str(), "lenovo") && (contains_folded(
        dmi_product.as_str(),
        "thinkpad",
    ) || contains_folded(dmi_product_version.as_str(), "thinkpad") || contains_folded(
        dmi_board.as_str(),
        "thinkpad",
    ));
    let apple = contains_folded(dmi_vendor.as_str(), "apple") || contains_folded(
        dmi_product.as_str(),
        "macbook",
    ) || contains_folded(dmi_product_version.as_str(), "macbook");
    let handheld = names_handheld(dmi_product.as_str()) || names_handheld(dmi_board.as_str());
    SystemFacts {
        dmi_vendor,
        dmi_product,
        dmi_product_version,
        dmi_board,
        cpu_vendor: cpu_vendor_of(cpu_description),
        thinkpad,
        apple,
        handheld,
    }
}

/// What is known of one device.
pub struct DeviceFacts<'a> {
    pub name: &'a str,
    pub bus: u16,
    pub vendor: u16,
    pub product: u16,
    pub kind: CapabilityKind,
    pub properties: &'a Properties,
    pub has_relative_motion: bool,
    pub has_absolute_xy: bool,
    pub has_multitouch: bool,
    pub key_count: usize,
}

/// A device that was looked at.
pub struct ScannedDevice {
    pub path: String,
    pub name: String,
    pub bus: u16,
    pub vendor: u16,
    pub product: u16,
    pub kind: CapabilityKind,
    pub properties: Properties,
    pub has_relative_motion: bool,
    pub has_absolute_xy: bool,
    pub has_multitouch: bool,
    pub key_count: usize,
}

impl ScannedDevice {
    pub fn facts(&self) -> (facts: DeviceFacts<'_>)
        ensures
            facts.name@ == self.name@,
            facts.bus == self.bus,
            facts.vendor == self.vendor,
            facts.product == self.product,
            facts.kind == self.kind,
            *facts.properties == self.properties,
            facts.has_relative_motion == self.has_relative_motion,
            facts.has_absolute_xy == self.has_absolute_xy,
            facts.has_multitouch == self.has_multitouch,
            facts.key_count == self.key_count,
    {
        DeviceFacts {
            name: self.name.as_str(),
            bus: self.bus,
            vendor: self.vendor,
            product: self.product,
            kind: self.kind,
            properties: &self.properties,
            has_relative_motion: self.has_relative_motion,
            has_absolute_xy: self.has_absolute_xy,
            has_multitouch: self.has_multitouch,
            key_count: self.key_count,
        }
    }

    /// Draws the conclusions from a device's capabilities.
    pub fn from_capabilities(
        path: String,
        name: String,
        bus: u16,
        vendor: u16,
        product: u16,
        bits: &CapabilityBits,
        properties: Properties,
    ) -> (d: ScannedDevice)
        ensures
            d.path@ == path@,
            d.name@ == name@,
            d.bus == bus,
            d.vendor == vendor,
            d.product == product,
            d.kind == bits.kind(),
            d.properties == properties,
            d.has_relative_motion == (bits.relative(REL_X) || bits.relative(REL_Y)),
            d.has_absolute_xy == (bits.absolute_axis(ABS_X) && bits.absolute_axis(ABS_Y)),
            d.has_multitouch == (bits.absolute_axis(ABS_MT_POSITION_X) && bits.absolute_axis(
                ABS_MT_POSITION_Y,
            )),
            d.key_count == count_spec(bits.key@, 0, KEY_END as int),
    {
        ScannedDevice {
            path,
            name,
            bus,
            vendor,
            product,
            kind: bits.classify(),
            properties,
            has_relative_motion: bits.has_relative(REL_X) || bits.has_relative(REL_Y),
            has_absolute_xy: bits.has_absolute(ABS_X) && bits.has_absolute(ABS_Y),
            has_multitouch: bits.has_absolute(ABS_MT_POSITION_X) && bits.has_absolute(
                ABS_MT_POSITION_Y,
            ),
            key_count: bits.key_count(),
        }
    }
}

/// What follows any number of `0x`.
pub open spec fn without_prefixes(text: Seq<char>) -> Seq<char>
    decreases text.len(),
    via prefixes_decrease
{
    match stripped(text, "0x"@) {
        Some(rest) => without_prefixes(rest),
        None => text,
    }
}

#[via_fn]
proof fn prefixes_decrease(text: Seq<char>) {
    reveal_strlit("0x");
}

/// A hexadecimal number of 16 bits; anything else counts as 0.
pub fn parse_hex_u16(text: &str) -> (n: u16)
    ensures
        n == (match parsed(without_prefixes(trimmed(text@)), 16, false, 0, u16::MAX as int) {
            Some(n) => n,
            None => 0,
        }),
{
    let chars = letters(text);
    let mut rest: &[char] = trim(chars.as_slice());
    let ghost start = rest@;
    loop
        invariant
            start == trimmed(text@),
            without_prefixes(start) == without_prefixes(rest@),
        ensures
            without_prefixes(rest@) == rest@,
        decreases rest.len(),
    {
        match strip(rest, "0x") {
            Some(next) => {
                proof {
                    reveal_strlit("0x");
                }
                rest = next;
            },
            None => {
                break;
            },
        }
    }
    match parse_unsigned(rest, 16, u16::MAX as u64) {
        Some(n) => n as u16,
        None => 0,
    }
}

// ---------------------------------------------------------------------------
// Profiles
// ---------------------------------------------------------------------------
/// What a profile changes. The multiplier scales the movement of a pointing
/// stick.
#[derive(Clone, Copy, Debug, PartialEq, Eq)]
pub struct ProfileApply {
    pub lenovo_x230_motion: bool,
    pub trackpoint_multiplier: Option<u32>,
    pub phantom_click_filter: bool,
}

pub open spec fn nothing_applied() -> ProfileApply {
    ProfileApply {
        lenovo_x230_motion: false,
        trackpoint_multiplier: None,
        phantom_click_filter: false,
    }
}

impl Default for ProfileApply {
    fn default() -> (apply: ProfileApply)
        ensures
            apply == nothing_applied(),
    {
        ProfileApply {
            lenovo_x230_motion: false,
            trackpoint_multiplier: None,
            phantom_click_filter: false,
        }
    }
}

/// A condition that a profile sets.
#[derive(Clone, Copy, Debug)]
pub enum MatchRule {
    ThinkPad,
    Apple,
    Handheld,
    DmiProduct(&'static str),
    Name(&'static str),
    Kind(CapabilityKind),
    Udev(&'static str, &'static str),
}

/// Whether a condition holds.
pub open spec fn rule_holds(rule: MatchRule, system: SystemFacts, device: DeviceFacts<'_>) -> bool {
    match rule {
        MatchRule::ThinkPad => system.thinkpad,
        MatchRule::Apple => system.apple,
        MatchRule::Handheld => system.handheld,
        MatchRule::DmiProduct(word) => holds_word(system.dmi_product@, word@) || holds_word(
            system.dmi_product_version@,
            word@,
        ),
        MatchRule::Name(word) => holds_word(device.name@, word@),
        MatchRule::Kind(kind) => device.kind == kind,
        MatchRule::Udev(key, value) => device.properties@.contains_key(key@)
            && device.properties@[key@] == value@,
    }
}

pub fn rule_matches(rule: MatchRule, system: &SystemFacts, device: &DeviceFacts<'_>) -> (holds:
    bool)
    requires
        device.properties.wf(),
    ensures
        holds == rule_holds(rule, *system, *device),
{
    match rule {
        MatchRule::ThinkPad => system.thinkpad,
        MatchRule::Apple => system.apple,
        MatchRule::Handheld => system.handheld,
        MatchRule::DmiProduct(word) => contains_folded(system.dmi_product.as_str(), word)
            || contains_folded(system.dmi_product_version.as_str(), word),
        MatchRule::Name(word) => contains_folded(device.name, word),
        MatchRule::Kind(kind) => device.kind == kind,
        MatchRule::Udev(key, value) => device.properties.equals(key, value),
    }
}

/// The number of profiles, in the order of their priority.
pub const PROFILE_COUNT: usize = 6;

pub open spec fn profile_id_spec(k: int) -> Seq<char> {
    if k == 0 {
        "lenovo-x230-touchpad"@
    } else if k == 1 {
        "thinkpad-p53-elan"@
    } else if k == 2 {
        "thinkpad-trackpoint"@
    } else if k == 3 {
        "apple-touchpad"@
    } else if k == 4 {
        "handheld-touchpad"@
    } else {
        "udev-touchpad"@
    }
}

pub open spec fn profile_priority_spec(k: int) -> i32 {
    if k == 0 {
        100
    } else if k == 1 {
        90
    } else if k == 2 {
        80
    } else if k == 3 {
        70
    } else if k == 4 {
        60
    } else {
        10
    }
}

/// The conditions of a profile. The filter of phantom clicks changes what a
/// click means, so it takes an explicit signature of the device.
pub open spec fn profile_rules_spec(k: int) -> Seq<MatchRule> {
    if k == 0 {
        seq![
            MatchRule::ThinkPad,
            MatchRule::DmiProduct("x230"),
            MatchRule::Kind(CapabilityKind::Touchpad),
        ]
    } else if k == 1 {
        seq![
            MatchRule::ThinkPad,
            MatchRule::DmiProduct("p53"),
            MatchRule::Name("elan"),
            MatchRule::Kind(CapabilityKind::Touchpad),
            MatchRule::Udev("LIBINPUT_RS_P53_PHANTOM_CLICK_SIGNATURE", "1"),
        ]
    } else if k == 2 {
        seq![MatchRule::ThinkPad, MatchRule::Name("trackpoint")]
    } else if k == 3 {
        seq![MatchRule::Apple, MatchRule::Kind(CapabilityKind::Touchpad)]
    } else if k == 4 {
        seq![MatchRule::Handheld, MatchRule::Kind(CapabilityKind::Touchpad)]
    } else {
        seq![MatchRule::Udev("ID_INPUT_TOUCHPAD", "1")]
    }
}

pub open spec fn profile_apply_spec(k: int) -> ProfileApply {
    ProfileApply {
        lenovo_x230_motion: k == 0,
        trackpoint_multiplier: if k == 2 {
            Some(1)
        } else {
            None
        },
        phantom_click_filter: k == 1,
    }
}

fn profile_id(k: usize) -> (id: &'static str)
    ensures
        id@ == profile_id_spec(k as int),
{
    if k == 0 {
        "lenovo-x230-touchpad"
    } else if k == 1 {
        "thinkpad-p53-elan"
    } else if k == 2 {
        "thinkpad-trackpoint"
    } else if k == 3 {
        "apple-touchpad"
    } else if k == 4 {
        "handheld-touchpad"
    } else {
        "udev-touchpad"
    }
}

fn profile_priority(k: usize) -> (priority: i32)
    ensures
        priority == profile_priority_spec(k as int),
{
    if k == 0 {
        100
    } else if k == 1 {
        90
    } else if k == 2 {
        80
    } else if k == 3 {
        70
    } else if k == 4 {
        60
    } else {
        10
    }
}

fn profile_apply(k: usize) -> (apply: ProfileApply)
    ensures
        apply == profile_apply_spec(k as int),
{
    ProfileApply {
        lenovo_x230_motion: k == 0,
        trackpoint_multiplier: if k == 2 {
            Some(1)
        } else {
            None
        },
        phantom_click_filter: k == 1,
    }
}

fn profile_rules(k: usize) -> (rules: Vec<MatchRule>)
    ensures
        rules@ == profile_rules_spec(k as int),
{
    let mut rules: Vec<MatchRule> = Vec::new();
    if k == 0 {
        rules.push(MatchRule::ThinkPad);
        rules.push(MatchRule::DmiProduct("x230"));
        rules.push(MatchRule::Kind(CapabilityKind::Touchpad));
    } else if k == 1 {
        rules.push(MatchRule::ThinkPad);
        rules.push(MatchRule::DmiProduct("p53"));
        rules.push(MatchRule::Name("elan"));
        rules.push(MatchRule::Kind(CapabilityKind::Touchpad));
        rules.push(MatchRule::Udev("LIBINPUT_RS_P53_PHANTOM_CLICK_SIGNATURE", "1"));
    } else if k == 2 {
        rules.push(MatchRule::ThinkPad);
        rules.push(MatchRule::Name("trackpoint"));
    } else if k == 3 {
        rules.push(MatchRule::Apple);
        rules.push(MatchRule::Kind(CapabilityKind::Touchpad));
    } else if k == 4 {
        rules.push(MatchRule::Handheld);
        rules.push(MatchRule::Kind(CapabilityKind::Touchpad));
    } else {
        rules.push(MatchRule::Udev("ID_INPUT_TOUCHPAD", "1"));
    }
    assert(rules@ =~= profile_rules_spec(k as int));
    rules
}

#[derive(Clone, Copy, Debug)]
pub struct ProfileInfo {
    pub id: &'static str,
    pub priority: i32,
}

/// All profiles, the most important first.
pub fn profile_inventory() -> (list: Vec<ProfileInfo>)
    ensures
        list.len() == PROFILE_COUNT,
        forall|k: int|
            0 <= k < PROFILE_COUNT ==> (#[trigger] list@[k]).id@ == profile_id_spec(k)
                && list@[k].priority == profile_priority_spec(k),
{
    let mut list: Vec<ProfileInfo> = Vec::new();
    let mut k: usize = 0;
    while k < PROFILE_COUNT
        invariant
            k <= PROFILE_COUNT,
            list.len() == k,
            forall|j: int|
                0 <= j < k ==> (#[trigger] list@[j]).id@ == profile_id_spec(j) && list@[j].priority
                    == profile_priority_spec(j),
        decreases PROFILE_COUNT - k,
    {
        list.push(ProfileInfo { id: profile_id(k), priority: profile_priority(k) });
        k += 1;
    }
    list
}

/// Whether a device meets every condition of a profile.
pub open spec fn profile_matches(
    k: int,
    system: SystemFacts,
    device: DeviceFacts<'_>,
) -> bool {
    forall|i: int|
        0 <= i < profile_rules_spec(k).len() ==> rule_holds(
            #[trigger] profile_rules_spec(k)[i],
            system,
            device,
        )
}

fn matches_profile(k: usize, system: &SystemFacts, device: &DeviceFacts<'_>) -> (matches: bool)
    requires
        device.properties.wf(),
    ensures
        matches == profile_matches(k as int, *system, *device),
{
    let rules = profile_rules(k);
    let mut i: usize = 0;
    while i < rules.len()
        invariant
            i <= rules.len(),
            rules@ == profile_rules_spec(k as int),
            device.properties.wf(),
            forall|j: int|
                0 <= j < i ==> rule_holds(
                    #[trigger] profile_rules_spec(k as int)[j],
                    *system,
                    *device,
                ),
        decreases rules.len() - i,
    {
        if !rule_matches(rules[i], system, device) {
            assert(!rule_holds(profile_rules_spec(k as int)[i as int], *system, *device));
            return false;
        }
        i += 1;
    }
    true
}

#[derive(Clone, Copy, Debug)]
pub struct ProfileDecision {
    pub id: &'static str,
    pub priority: i32,
    pub apply: ProfileApply,
}

/// The first profile from `from` on that a device matches.
pub open spec fn selected_from(
    from: int,
    system: SystemFacts,
    device: DeviceFacts<'_>,
) -> Option<int>
    decreases PROFILE_COUNT - from,
{
    if from >= PROFILE_COUNT {
        None
    } else if profile_matches(from, system, device) {
        Some(from)
    } else {
        selected_from(from + 1, system, device)
    }
}

/// The most important profile that a device matches.
pub fn select_profile(system: &SystemFacts, device: &DeviceFacts<'_>) -> (decision: Option<
    ProfileDecision,
>)
    requires
        device.properties.wf(),
    ensures
        match selected_from(0, *system, *device) {
            Some(k) => {
                &&& decision is Some
                &&& decision->0.id@ == profile_id_spec(k)
                &&& decision->0.priority == profile_priority_spec(k)
                &&& decision->0.apply == profile_apply_spec(k)
            },
            None => decision is None,
        },
{
    let mut k: usize = 0;
    while k < PROFILE_COUNT
        invariant
            k <= PROFILE_COUNT,
            device.properties.wf(),
            selected_from(0, *system, *device) == selected_from(k as int, *system, *device),
        decreases PROFILE_COUNT - k,
    {
        if matches_profile(k, system, device) {
            return Some(
                ProfileDecision {
                    id: profile_id(k),
                    priority: profile_priority(k),
                    apply: profile_apply(k),
                },
            );
        }
        k += 1;
    }
    None
}

// ---------------------------------------------------------------------------
// Detection
// ---------------------------------------------------------------------------
#[derive(Clone, Copy, Debug, PartialEq, Eq, Structural)]
pub enum DetectSource {
    Profile,
    MlFallback,
    Heuristic,
}

/// A statistical guess: the class that scored highest, and whether its score
/// was high enough to count.
#[derive(Clone, Copy, Debug, PartialEq, Eq, Structural)]
pub struct Guess {
    pub class: CapabilityKind,
    pub confident: bool,
}

#[derive(Clone, Copy, Debug)]
pub struct DetectionResult {
    pub class: CapabilityKind,
    pub profile_id: &'static str,
    pub priority: i32,
    pub source: DetectSource,
    pub apply: ProfileApply,
}

pub open spec fn guess_id(class: CapabilityKind) -> Seq<char> {
    match class {
        CapabilityKind::Keyboard => "ml-keyboard"@,
        CapabilityKind::Key => "ml-key"@,
        CapabilityKind::Mouse => "ml-mouse"@,
        CapabilityKind::Touchpad => "ml-touchpad"@,
        CapabilityKind::Touchscreen => "ml-touchscreen"@,
        CapabilityKind::Tablet => "ml-tablet"@,
        CapabilityKind::Joystick => "ml-joystick"@,
        CapabilityKind::Switch => "ml-switch"@,
        CapabilityKind::Unknown => "ml-unknown"@,
    }
}

pub fn ml_profile_id(class: CapabilityKind) -> (id: &'static str)
    ensures
        id@ == guess_id(class),
{
    match class {
        CapabilityKind::Keyboard => "ml-keyboard",
        CapabilityKind::Key => "ml-key",
        CapabilityKind::Mouse => "ml-mouse",
        CapabilityKind::Touchpad => "ml-touchpad",
        CapabilityKind::Touchscreen => "ml-touchscreen",
        CapabilityKind::Tablet => "ml-tablet",
        CapabilityKind::Joystick => "ml-joystick",
        CapabilityKind::Switch => "ml-switch",
        CapabilityKind::Unknown => "ml-unknown",
    }
}

/// Whether a guess counts: only where it agrees with the capabilities.
pub open spec fn guess_counts(guess: Option<Guess>, kind: CapabilityKind) -> bool {
    guess is Some && guess->0.class == kind && guess->0.confident
}

/// Names a device. `guess` is a statistical guess, where one is wanted.
pub fn detect_device(
    system: &SystemFacts,
    device: &DeviceFacts<'_>,
    guess: Option<Guess>,
) -> (result: DetectionResult)
    requires
        device.properties.wf(),
    ensures
        result.class == device.kind,
        match selected_from(0, *system, *device) {
            Some(k) => {
                &&& result.profile_id@ == profile_id_spec(k)
                &&& result.priority == profile_priority_spec(k)
                &&& result.source == DetectSource::Profile
                &&& result.apply == profile_apply_spec(k)
            },
            None => if guess_counts(guess, device.kind) {
                &&& result.profile_id@ == guess_id(device.kind)
                &&& result.priority == 5
                &&& result.source == DetectSource::MlFallback
                &&& result.apply == nothing_applied()
            } else {
                &&& result.profile_id@ == "heuristic"@
                &&& result.priority == 0
                &&& result.source == DetectSource::Heuristic
                &&& result.apply == nothing_applied()
            },
        },
{
    if let Some(profile) = select_profile(system, device) {
        return DetectionResult {
            class: device.kind,
            profile_id: profile.id,
            priority: profile.priority,
            source: DetectSource::Profile,
            apply: profile.apply,
        };
    }
    if let Some(guess) = guess {
        if guess.class == device.kind && guess.confident {
            return DetectionResult {
                class: guess.class,
                profile_id: ml_profile_id(guess.class),
                priority: 5,
                source: DetectSource::MlFallback,
                apply: ProfileApply::default(),
            };
        }
    }
    DetectionResult {
        class: device.kind,
        profile_id: "heuristic",
        priority: 0,
        source: DetectSource::Heuristic,
        apply: ProfileApply::default(),
    }
}

/// A selected profile is one that the device matches, and every other profile
/// that it matches is less important.
pub proof fn law_selection_has_evidence_and_priority(
    system: SystemFacts,
    device: DeviceFacts<'_>,
    k: int,
    other: int,
)
    requires
        selected_from(0, system, device) == Some(k),
        0 <= other < PROFILE_COUNT,
        profile_matches(other, system, device),
    ensures
        0 <= k < PROFILE_COUNT,
        profile_matches(k, system, device),
        other == k || profile_priority_spec(other) < profile_priority_spec(k),
{
    lemma_selected(0, system, device);
}

proof fn lemma_selected(from: int, system: SystemFacts, device: DeviceFacts<'_>)
    requires
        0 <= from <= PROFILE_COUNT,
    ensures
        match selected_from(from, system, device) {
            Some(k) => {
                &&& from <= k < PROFILE_COUNT
                &&& profile_matches(k, system, device)
                &&& forall|j: int| from <= j < k ==> !#[trigger] profile_matches(j, system, device)
            },
            None => forall|j: int|
                from <= j < PROFILE_COUNT ==> !#[trigger] profile_matches(j, system, device),
        },
    decreases PROFILE_COUNT - from,
{
    if from < PROFILE_COUNT {
        lemma_selected(from + 1, system, device);
    }
}

/// No guess selects a profile: where no profile matches, nothing is changed
/// for the device.
pub proof fn law_unmatched_devices_get_no_profile(system: SystemFacts, device: DeviceFacts<'_>)
    requires
        forall|k: int|
            0 <= k < PROFILE_COUNT ==> !#[trigger] profile_matches(k, system, device),
    ensures
        selected_from(0, system, device) is None,
{
    lemma_selected(0, system, device);
}

/// The filter of phantom clicks is on only where the device carries its
/// signature.
pub proof fn law_phantom_click_filter_takes_a_signature(
    system: SystemFacts,
    device: DeviceFacts<'_>,
    k: int,
)
    requires
        selected_from(0, system, device) == Some(k),
        profile_apply_spec(k).phantom_click_filter,
    ensures
        device.properties@.contains_key("LIBINPUT_RS_P53_PHANTOM_CLICK_SIGNATURE"@),
        device.properties@["LIBINPUT_RS_P53_PHANTOM_CLICK_SIGNATURE"@] == "1"@,
{
    lemma_selected(0, system, device);
    assert(rule_holds(profile_rules_spec(k)[4], system, device));
}

} // verus!
