//! Applying quirks to a device.
use vstd::prelude::*;
use crate::evtrans::{contains_code, held_after, remove_code};
use crate::quirks::glob::{glob_matches, glob_result};
use crate::quirks::section::{
    empty_section, key_code_name, key_code_of, key_code_spec, key_name_spec, no_attributes,
    no_models, number_spec, optional_text, parse_number, string_texts, Attributes, Models, Section,
    SectionView,
};
use crate::text::{
    equal, equal_folded, halves, letters, lines, lines_of, lowered, parts, same_folded, same_text,
    split, split_once, string_of, strip, stripped, texts, to_lower, trim, trimmed,
};

verus! {

// ---------------------------------------------------------------------------
// Matching
// ---------------------------------------------------------------------------
/// What a section's conditions are held against.
pub struct DeviceIdentity {
    pub name: String,
    pub bus: u16,
    pub vendor: u16,
    pub product: u16,
    pub version: u16,
    pub udev_types: Vec<String>,
    pub dmi_modalias: String,
    pub device_tree: String,
}

/// An identity as what it says.
#[verifier::ext_equal]
pub struct IdentityView {
    pub name: Seq<char>,
    pub bus: u16,
    pub vendor: u16,
    pub product: u16,
    pub version: u16,
    pub udev_types: Seq<Seq<char>>,
    pub dmi_modalias: Seq<char>,
    pub device_tree: Seq<char>,
}

impl View for DeviceIdentity {
    type V = IdentityView;

    open spec fn view(&self) -> IdentityView {
        IdentityView {
            name: self.name@,
            bus: self.bus,
            vendor: self.vendor,
            product: self.product,
            version: self.version,
            udev_types: string_texts(self.udev_types@),
            dmi_modalias: self.dmi_modalias@,
            device_tree: self.device_tree@,
        }
    }
}

pub open spec fn is_bus(name: Seq<char>, bus: u16) -> bool {
    let n = lowered(name);
    if n == "usb"@ {
        bus == 0x03
    } else if n == "bluetooth"@ {
        bus == 0x05
    } else if n == "ps2"@ || n == "i8042"@ {
        bus == 0x11
    } else if n == "i2c"@ {
        bus == 0x18
    } else if n == "spi"@ {
        bus == 0x1c
    } else if n == "rmi"@ {
        bus == 0x1d
    } else {
        false
    }
}

fn matches_bus(name: &[char], bus: u16) -> (matches: bool)
    ensures
        matches == is_bus(name@, bus),
{
    let folded = to_lower(name);
    let n = folded.as_slice();
    if same_text(n, "usb") {
        bus == 0x03
    } else if same_text(n, "bluetooth") {
        bus == 0x05
    } else if same_text(n, "ps2") || same_text(n, "i8042") {
        bus == 0x11
    } else if same_text(n, "i2c") {
        bus == 0x18
    } else if same_text(n, "spi") {
        bus == 0x1c
    } else if same_text(n, "rmi") {
        bus == 0x1d
    } else {
        false
    }
}

pub open spec fn is_number(value: Seq<char>, number: u16) -> bool {
    number_spec(value) == Some(number as int)
}

fn matches_number(value: &[char], number: u16) -> (matches: bool)
    ensures
        matches == is_number(value@, number),
{
    match parse_number(value) {
        Some(n) => n == number,
        None => false,
    }
}

pub open spec fn has_type(types: Seq<Seq<char>>, value: Seq<char>) -> bool {
    exists|i: int| 0 <= i < types.len() && same_folded(value, #[trigger] types[i])
}

fn matches_type(types: &Vec<String>, value: &[char]) -> (matches: bool)
    ensures
        matches == has_type(string_texts(types@), value@),
{
    let mut i: usize = 0;
    while i < types.len()
        invariant
            i <= types.len(),
            forall|j: int|
                0 <= j < i ==> !same_folded(value@, #[trigger] string_texts(types@)[j]),
        decreases types.len() - i,
    {
        if equal_folded(value, types[i].as_str()) {
            assert(same_folded(value@, string_texts(types@)[i as int]));
            return true;
        }
        i += 1;
    }
    false
}

/// Whether a condition holds of a device. One that is not known does not
/// hold: it must not make a quirk apply to more devices.
#[verifier::opaque]
pub open spec fn property_matches(key: Seq<char>, value: Seq<char>, id: IdentityView) -> bool {
    if key == "MatchName"@ {
        glob_result(value, id.name)
    } else if key == "MatchBus"@ {
        is_bus(value, id.bus)
    } else if key == "MatchVendor"@ {
        is_number(value, id.vendor)
    } else if key == "MatchProduct"@ {
        is_number(value, id.product)
    } else if key == "MatchVersion"@ {
        is_number(value, id.version)
    } else if key == "MatchUdevType"@ {
        has_type(id.udev_types, value)
    } else if key == "MatchDMIModalias"@ {
        glob_result(value, id.dmi_modalias)
    } else if key == "MatchDeviceTree"@ {
        glob_result(value, id.device_tree)
    } else {
        false
    }
}

pub fn match_property(key: &str, value: &str, id: &DeviceIdentity) -> (matches: bool)
    ensures
        matches == property_matches(key@, value@, id@),
{
    reveal(property_matches);
    let v = letters(value);
    if equal(key, "MatchName") {
        glob_matches(value, id.name.as_str())
    } else if equal(key, "MatchBus") {
        matches_bus(v.as_slice(), id.bus)
    } else if equal(key, "MatchVendor") {
        matches_number(v.as_slice(), id.vendor)
    } else if equal(key, "MatchProduct") {
        matches_number(v.as_slice(), id.product)
    } else if equal(key, "MatchVersion") {
        matches_number(v.as_slice(), id.version)
    } else if equal(key, "MatchUdevType") {
        matches_type(&id.udev_types, v.as_slice())
    } else if equal(key, "MatchDMIModalias") {
        glob_matches(value, id.dmi_modalias.as_str())
    } else if equal(key, "MatchDeviceTree") {
        glob_matches(value, id.device_tree.as_str())
    } else {
        false
    }
}

/// Whether a section is about a device.
pub open spec fn section_matches(section: SectionView, id: IdentityView) -> bool {
    forall|i: int|
        0 <= i < section.matches.len() ==> property_matches(
            (#[trigger] section.matches[i]).0,
            section.matches[i].1,
            id,
        )
}

fn matches_section(section: &Section, id: &DeviceIdentity) -> (matches: bool)
    ensures
        matches == section_matches(section.contents(), id@),
{
    let mut i: usize = 0;
    while i < section.matches.len()
        invariant
            i <= section.matches.len(),
            forall|j: int|
                0 <= j < i ==> property_matches(
                    (#[trigger] section.contents().matches[j]).0,
                    section.contents().matches[j].1,
                    id@,
                ),
        decreases section.matches.len() - i,
    {
        if !match_property(section.matches[i].0.as_str(), section.matches[i].1.as_str(), id) {
            assert(!property_matches(
                section.contents().matches[i as int].0,
                section.contents().matches[i as int].1,
                id@,
            ));
            return false;
        }
        i += 1;
    }
    true
}

// ---------------------------------------------------------------------------
// Event codes
// ---------------------------------------------------------------------------
/// What a device announces and is not to be believed.
#[derive(Clone, Copy, Debug, PartialEq, Eq, Structural)]
pub struct Disabled {
    pub hi_res_wheel_vertical: bool,
    pub hi_res_wheel_horizontal: bool,
    pub tablet_tilt_x: bool,
    pub tablet_tilt_y: bool,
    pub abs_distance: bool,
    pub abs_mt_pressure: bool,
    pub abs_pressure: bool,
    pub abs_mt_tool_type: bool,
    pub all_absolute_axes: bool,
}

pub open spec fn nothing_disabled() -> Disabled {
    Disabled {
        hi_res_wheel_vertical: false,
        hi_res_wheel_horizontal: false,
        tablet_tilt_x: false,
        tablet_tilt_y: false,
        abs_distance: false,
        abs_mt_pressure: false,
        abs_pressure: false,
        abs_mt_tool_type: false,
        all_absolute_axes: false,
    }
}

/// Whether a token enables or disables something, and what.
pub open spec fn token_action(token: Seq<char>) -> Option<(bool, Seq<char>)> {
    if token.len() > 0 && token[0] == '+' {
        Some((true, token.skip(1)))
    } else if token.len() > 0 && token[0] == '-' {
        Some((false, token.skip(1)))
    } else {
        None
    }
}

fn action_of<'a>(token: &'a [char]) -> (action: Option<(bool, &'a [char])>)
    ensures
        match action {
            Some((enable, name)) => token_action(token@) == Some((enable, name@)),
            None => token_action(token@) is None,
        },
{
    if token.len() > 0 && (token[0] == '+' || token[0] == '-') {
        proof {
            assert(token@.skip(1) =~= token@.subrange(1, token@.len() as int));
        }
        Some((token[0] == '+', vstd::slice::slice_subrange(token, 1, token.len())))
    } else {
        None
    }
}

/// A name without the type that may stand in front of it.
pub open spec fn untyped(name: Seq<char>, prefix: Seq<char>) -> Seq<char> {
    match stripped(name, prefix) {
        Some(rest) => rest,
        None => name,
    }
}

fn without_type<'a>(name: &'a [char], prefix: &str) -> (out: &'a [char])
    ensures
        out@ == untyped(name@, prefix@),
{
    match strip(name, prefix) {
        Some(rest) => rest,
        None => name,
    }
}

impl Disabled {
    /// What is disabled after a token that names an axis; `None` if it names
    /// none.
    #[verifier::opaque]
    pub open spec fn with(self, name: Seq<char>, enable: bool) -> Option<Disabled> {
        let rel = untyped(name, "EV_REL:"@);
        let axis = untyped(name, "EV_ABS:"@);
        if rel == "REL_WHEEL_HI_RES"@ {
            Some(Disabled { hi_res_wheel_vertical: !enable, ..self })
        } else if rel == "REL_HWHEEL_HI_RES"@ {
            Some(Disabled { hi_res_wheel_horizontal: !enable, ..self })
        } else if axis == "ABS_TILT_X"@ {
            Some(Disabled { tablet_tilt_x: !enable, ..self })
        } else if axis == "ABS_TILT_Y"@ {
            Some(Disabled { tablet_tilt_y: !enable, ..self })
        } else if axis == "ABS_DISTANCE"@ {
            Some(Disabled { abs_distance: !enable, ..self })
        } else if axis == "ABS_MT_PRESSURE"@ {
            Some(Disabled { abs_mt_pressure: !enable, ..self })
        } else if axis == "ABS_PRESSURE"@ {
            Some(Disabled { abs_pressure: !enable, ..self })
        } else if axis == "ABS_MT_TOOL_TYPE"@ {
            Some(Disabled { abs_mt_tool_type: !enable, ..self })
        } else if name == "EV_ABS"@ {
            Some(Disabled { all_absolute_axes: !enable, ..self })
        } else {
            None
        }
    }

    fn set(self, name: &[char], enable: bool) -> (d: Option<Disabled>)
        ensures
            d == self.with(name@, enable),
    {
        reveal(Disabled::with);
        let rel = without_type(name, "EV_REL:");
        let axis = without_type(name, "EV_ABS:");
        if same_text(rel, "REL_WHEEL_HI_RES") {
            Some(Disabled { hi_res_wheel_vertical: !enable, ..self })
        } else if same_text(rel, "REL_HWHEEL_HI_RES") {
            Some(Disabled { hi_res_wheel_horizontal: !enable, ..self })
        } else if same_text(axis, "ABS_TILT_X") {
            Some(Disabled { tablet_tilt_x: !enable, ..self })
        } else if same_text(axis, "ABS_TILT_Y") {
            Some(Disabled { tablet_tilt_y: !enable, ..self })
        } else if same_text(axis, "ABS_DISTANCE") {
            Some(Disabled { abs_distance: !enable, ..self })
        } else if same_text(axis, "ABS_MT_PRESSURE") {
            Some(Disabled { abs_mt_pressure: !enable, ..self })
        } else if same_text(axis, "ABS_PRESSURE") {
            Some(Disabled { abs_pressure: !enable, ..self })
        } else if same_text(axis, "ABS_MT_TOOL_TYPE") {
            Some(Disabled { abs_mt_tool_type: !enable, ..self })
        } else if same_text(name, "EV_ABS") {
            Some(Disabled { all_absolute_axes: !enable, ..self })
        } else {
            None
        }
    }
}

pub open spec fn action_text(enable: bool) -> Seq<char> {
    if enable {
        "enabling"@
    } else {
        "disabling"@
    }
}

/// The message about a key.
pub open spec fn key_message(enable: bool, code: u16, name: Seq<char>) -> Seq<char> {
    action_text(enable) + " EV_KEY "@ + match key_name_spec(code) {
        Some(known) => known,
        None => name,
    }
}

fn key_message_text(enable: bool, code: u16, name: &[char]) -> (text: String)
    ensures
        text@ == key_message(enable, code, name@),
{
    let mut text = String::new();
    if enable {
        text.append("enabling");
    } else {
        text.append("disabling");
    }
    text.append(" EV_KEY ");
    match key_code_name(code) {
        Some(known) => {
            text.append(known);
        },
        None => {
            let known = string_of(name);
            text.append(known.as_str());
        },
    }
    assert(text@ =~= key_message(enable, code, name@));
    text
}

/// The message about a property.
pub open spec fn property_message(enable: bool, name: Seq<char>) -> Seq<char> {
    action_text(enable) + " "@ + name
}

fn property_message_text(enable: bool, name: &[char]) -> (text: String)
    ensures
        text@ == property_message(enable, name@),
{
    let mut text = String::new();
    if enable {
        text.append("enabling");
    } else {
        text.append("disabling");
    }
    text.append(" ");
    let known = string_of(name);
    text.append(known.as_str());
    assert(text@ =~= property_message(enable, name@));
    text
}

/// The keys of a device, the axes that are disabled, and what was done.
#[verifier::ext_equal]
pub struct CodesView {
    pub codes: Seq<u16>,
    pub disabled: Disabled,
    pub messages: Seq<Seq<char>>,
}

impl CodesView {
    /// After one token: it disables or enables an axis, or adds or removes a
    /// key.
    pub open spec fn with_token(self, token: Seq<char>) -> CodesView {
        match token_action(token) {
            None => self,
            Some((enable, name)) => match self.disabled.with(name, enable) {
                Some(disabled) => CodesView { disabled, ..self },
                None => match key_code_spec(name) {
                    Some(code) => CodesView {
                        codes: held_after(self.codes, code as u16, enable),
                        messages: self.messages.push(key_message(enable, code as u16, name)),
                        ..self
                    },
                    None => self,
                },
            },
        }
    }

    /// After the first `n` tokens.
    pub open spec fn with_tokens(self, tokens: Seq<Seq<char>>, n: int) -> CodesView
        decreases n,
    {
        if n <= 0 {
            self
        } else {
            self.with_tokens(tokens, n - 1).with_token(trimmed(tokens[n - 1]))
        }
    }

    /// After the first `n` expressions, each of them tokens between
    /// semicolons.
    pub open spec fn with_expressions(self, expressions: Seq<Seq<char>>, n: int) -> CodesView
        decreases n,
    {
        if n <= 0 {
            self
        } else {
            let tokens = parts(expressions[n - 1], ';');
            self.with_expressions(expressions, n - 1).with_tokens(tokens, tokens.len() as int)
        }
    }
}

/// The keys of a device while quirks change them.
pub struct Codes {
    pub codes: Vec<u16>,
    pub disabled: Disabled,
}

impl Codes {
    /// The contents, with the messages so far.
    pub open spec fn contents(self, messages: Seq<String>) -> CodesView {
        CodesView {
            codes: self.codes@,
            disabled: self.disabled,
            messages: string_texts(messages),
        }
    }

    fn set_key(&mut self, code: u16, enable: bool, name: &[char], messages: &mut Vec<String>)
        ensures
            final(self).contents(final(messages)@) == (CodesView {
                codes: held_after(old(self).codes@, code, enable),
                messages: old(self).contents(old(messages)@).messages.push(key_message(enable, code, name@)),
                ..old(self).contents(old(messages)@)
            }),
    {
        if enable {
            if !contains_code(&self.codes, code) {
                self.codes.push(code);
            }
        } else {
            remove_code(&mut self.codes, code);
        }
        messages.push(key_message_text(enable, code, name));
        assert(self.contents(messages@).messages =~= old(self).contents(old(messages)@).messages.push(
            key_message(enable, code, name@),
        ));
    }

    fn apply_token(&mut self, token: &[char], messages: &mut Vec<String>)
        ensures
            final(self).contents(final(messages)@) == old(self).contents(old(messages)@).with_token(token@),
    {
        if let Some((enable, name)) = action_of(token) {
            match self.disabled.set(name, enable) {
                Some(disabled) => {
                    self.disabled = disabled;
                },
                None => {
                    if let Some(code) = key_code_of(name) {
                        self.set_key(code, enable, name, messages);
                    }
                },
            }
        }
    }

    fn apply_expression(&mut self, expression: &str, messages: &mut Vec<String>)
        ensures
            ({
                let tokens = parts(expression@, ';');
                final(self).contents(final(messages)@) == old(self).contents(old(messages)@).with_tokens(
                    tokens,
                    tokens.len() as int,
                )
            }),
    {
        let chars = letters(expression);
        let tokens = split(chars.as_slice(), ';');
        let ghost all = parts(expression@, ';');
        let ghost before = self.contents(messages@);
        let mut i: usize = 0;
        assert(texts(tokens@).len() == tokens.len());
        while i < tokens.len()
            invariant
                i <= tokens.len() == all.len(),
                texts(tokens@) == all,
                self.contents(messages@) == before.with_tokens(all, i as int),
            decreases tokens.len() - i,
        {
            assert(tokens@[i as int]@ == texts(tokens@)[i as int]);
            self.apply_token(trim(tokens[i]), messages);
            i += 1;
        }
    }

    fn apply_expressions(&mut self, expressions: &Vec<String>, messages: &mut Vec<String>)
        ensures
            final(self).contents(final(messages)@) == old(self).contents(old(messages)@).with_expressions(
                string_texts(expressions@),
                expressions@.len() as int,
            ),
    {
        let ghost before = self.contents(messages@);
        let mut i: usize = 0;
        while i < expressions.len()
            invariant
                i <= expressions.len(),
                self.contents(messages@) == before.with_expressions(string_texts(expressions@), i as int),
            decreases expressions.len() - i,
        {
            assert(string_texts(expressions@)[i as int] == expressions@[i as int]@);
            self.apply_expression(expressions[i].as_str(), messages);
            i += 1;
        }
    }
}

// ---------------------------------------------------------------------------
// Properties
// ---------------------------------------------------------------------------
/// A list without a text.
pub open spec fn without_text(list: Seq<Seq<char>>, text: Seq<char>) -> Seq<Seq<char>>
    decreases list.len(),
{
    if list.len() == 0 {
        list
    } else if list.last() == text {
        without_text(list.drop_last(), text)
    } else {
        without_text(list.drop_last(), text).push(list.last())
    }
}

fn remove_text(list: &mut Vec<String>, text: &[char])
    ensures
        string_texts(final(list)@) == without_text(string_texts(old(list)@), text@),
{
    let ghost all = string_texts(list@);
    let mut kept: Vec<String> = Vec::new();
    let mut i: usize = 0;
    assert(all.take(0) =~= Seq::<Seq<char>>::empty());
    assert(string_texts(kept@) =~= Seq::<Seq<char>>::empty());
    while i < list.len()
        invariant
            i <= list.len(),
            string_texts(list@) == all,
            string_texts(kept@) == without_text(all.take(i as int), text@),
        decreases list.len() - i,
    {
        proof {
            assert(all.take(i + 1).drop_last() =~= all.take(i as int));
            assert(all[i as int] == list@[i as int]@);
        }
        if !same_text(text, list[i].as_str()) {
            let ghost before = string_texts(kept@);
            kept.push(list[i].clone());
            assert(string_texts(kept@) =~= before.push(all[i as int]));
        }
        i += 1;
    }
    assert(all.take(i as int) =~= all);
    *list = kept;
}

/// The properties that are switched on and off, and what was done.
#[verifier::ext_equal]
pub struct PropertiesView {
    pub enabled: Seq<Seq<char>>,
    pub disabled: Seq<Seq<char>>,
    pub messages: Seq<Seq<char>>,
}

impl PropertiesView {
    /// After one token: a property is switched on or off, and its earlier
    /// state is forgotten.
    pub open spec fn with_token(self, token: Seq<char>) -> PropertiesView {
        match token_action(token) {
            None => self,
            Some((enable, name)) => {
                let enabled = without_text(self.enabled, name);
                let disabled = without_text(self.disabled, name);
                PropertiesView {
                    enabled: if enable {
                        enabled.push(name)
                    } else {
                        enabled
                    },
                    disabled: if enable {
                        disabled
                    } else {
                        disabled.push(name)
                    },
                    messages: self.messages.push(property_message(enable, name)),
                }
            },
        }
    }

    pub open spec fn with_tokens(self, tokens: Seq<Seq<char>>, n: int) -> PropertiesView
        decreases n,
    {
        if n <= 0 {
            self
        } else {
            self.with_tokens(tokens, n - 1).with_token(trimmed(tokens[n - 1]))
        }
    }

    pub open spec fn with_expressions(self, expressions: Seq<Seq<char>>, n: int) -> PropertiesView
        decreases n,
    {
        if n <= 0 {
            self
        } else {
            let tokens = parts(expressions[n - 1], ';');
            self.with_expressions(expressions, n - 1).with_tokens(tokens, tokens.len() as int)
        }
    }
}

/// The input properties while quirks change them.
pub struct InputProperties {
    pub enabled: Vec<String>,
    pub disabled: Vec<String>,
}

impl InputProperties {
    /// The contents, with the messages so far.
    pub open spec fn contents(self, messages: Seq<String>) -> PropertiesView {
        PropertiesView {
            enabled: string_texts(self.enabled@),
            disabled: string_texts(self.disabled@),
            messages: string_texts(messages),
        }
    }

    fn apply_token(&mut self, token: &[char], messages: &mut Vec<String>)
        ensures
            final(self).contents(final(messages)@) == old(self).contents(old(messages)@).with_token(token@),
    {
        if let Some((enable, name)) = action_of(token) {
            remove_text(&mut self.enabled, name);
            remove_text(&mut self.disabled, name);
            let ghost enabled = string_texts(self.enabled@);
            let ghost disabled = string_texts(self.disabled@);
            if enable {
                self.enabled.push(string_of(name));
                assert(string_texts(self.enabled@) =~= enabled.push(name@));
            } else {
                self.disabled.push(string_of(name));
                assert(string_texts(self.disabled@) =~= disabled.push(name@));
            }
            messages.push(property_message_text(enable, name));
            assert(self.contents(messages@).messages =~= old(self).contents(old(messages)@).messages.push(
                property_message(enable, name@),
            ));
        }
    }

    fn apply_expression(&mut self, expression: &str, messages: &mut Vec<String>)
        ensures
            ({
                let tokens = parts(expression@, ';');
                final(self).contents(final(messages)@) == old(self).contents(old(messages)@).with_tokens(
                    tokens,
                    tokens.len() as int,
                )
            }),
    {
        let chars = letters(expression);
        let tokens = split(chars.as_slice(), ';');
        let ghost all = parts(expression@, ';');
        let ghost before = self.contents(messages@);
        let mut i: usize = 0;
        assert(texts(tokens@).len() == tokens.len());
        while i < tokens.len()
            invariant
                i <= tokens.len() == all.len(),
                texts(tokens@) == all,
                self.contents(messages@) == before.with_tokens(all, i as int),
            decreases tokens.len() - i,
        {
            assert(tokens@[i as int]@ == texts(tokens@)[i as int]);
            self.apply_token(trim(tokens[i]), messages);
            i += 1;
        }
    }

    fn apply_expressions(&mut self, expressions: &Vec<String>, messages: &mut Vec<String>)
        ensures
            final(self).contents(final(messages)@) == old(self).contents(old(messages)@).with_expressions(
                string_texts(expressions@),
                expressions@.len() as int,
            ),
    {
        let ghost before = self.contents(messages@);
        let mut i: usize = 0;
        while i < expressions.len()
            invariant
                i <= expressions.len(),
                self.contents(messages@) == before.with_expressions(string_texts(expressions@), i as int),
            decreases expressions.len() - i,
        {
            assert(string_texts(expressions@)[i as int] == expressions@[i as int]@);
            self.apply_expression(expressions[i].as_str(), messages);
            i += 1;
        }
    }
}

// ---------------------------------------------------------------------------
// Sections
// ---------------------------------------------------------------------------
/// What quirks come to for one device. The class is one that the device is
/// said to have; whether it has is not for quirks to say. Sizes, resolutions and multipliers are
/// listed as they are written, one per section that gives any: the last one
/// that makes sense counts.
pub struct AppliedQuirks {
    pub messages: Vec<String>,
    pub codes: Codes,
    pub input_props: InputProperties,
    pub models: Models,
    pub attributes: Attributes,
    pub lid_switch_reliability: Option<String>,
    pub device_class: Option<String>,
    pub size_hints: Vec<String>,
    pub resolution_hints: Vec<String>,
    pub trackpoint_multipliers: Vec<String>,
}

/// The contents of `AppliedQuirks`.
#[verifier::ext_equal]
pub struct AppliedView {
    pub codes: Seq<u16>,
    pub disabled: Disabled,
    pub enabled_input_props: Seq<Seq<char>>,
    pub disabled_input_props: Seq<Seq<char>>,
    pub messages: Seq<Seq<char>>,
    pub models: Models,
    pub attributes: Attributes,
    pub lid_switch_reliability: Option<Seq<char>>,
    pub device_class: Option<Seq<char>>,
    pub size_hints: Seq<Seq<char>>,
    pub resolution_hints: Seq<Seq<char>>,
    pub trackpoint_multipliers: Seq<Seq<char>>,
}

/// A device that no quirk is about.
pub open spec fn unchanged(codes: Seq<u16>) -> AppliedView {
    AppliedView {
        codes,
        disabled: nothing_disabled(),
        enabled_input_props: Seq::empty(),
        disabled_input_props: Seq::empty(),
        messages: Seq::empty(),
        models: no_models(),
        attributes: no_attributes(),
        lid_switch_reliability: None,
        device_class: None,
        size_hints: Seq::empty(),
        resolution_hints: Seq::empty(),
        trackpoint_multipliers: Seq::empty(),
    }
}

/// A list with one more text, if there is one.
pub open spec fn with_text(list: Seq<Seq<char>>, text: Option<Seq<char>>) -> Seq<Seq<char>> {
    match text {
        Some(text) => list.push(text),
        None => list,
    }
}

fn push_text(list: &mut Vec<String>, text: &Option<String>)
    ensures
        string_texts(final(list)@) == with_text(string_texts(old(list)@), optional_text(*text)),
{
    if let Some(text) = text {
        list.push(text.clone());
        assert(string_texts(list@) =~= string_texts(old(list)@).push(text@));
    }
}

impl AppliedView {
    /// The keys, axes and properties after a section's expressions.
    #[verifier::opaque]
    pub open spec fn with_codes(self, section: SectionView) -> AppliedView {
        let codes = CodesView {
            codes: self.codes,
            disabled: self.disabled,
            messages: self.messages,
        }.with_expressions(section.event_codes, section.event_codes.len() as int);
        let props = PropertiesView {
            enabled: self.enabled_input_props,
            disabled: self.disabled_input_props,
            messages: codes.messages,
        }.with_expressions(section.input_props, section.input_props.len() as int);
        AppliedView {
            codes: codes.codes,
            disabled: codes.disabled,
            enabled_input_props: props.enabled,
            disabled_input_props: props.disabled,
            messages: props.messages,
            ..self
        }
    }

    /// The texts that are only listed.
    #[verifier::opaque]
    pub open spec fn with_hints(self, section: SectionView) -> AppliedView {
        AppliedView {
            lid_switch_reliability: if section.lid_switch_reliability is Some {
                section.lid_switch_reliability
            } else {
                self.lid_switch_reliability
            },
            device_class: if section.device_class is Some {
                section.device_class
            } else {
                self.device_class
            },
            size_hints: with_text(self.size_hints, section.size_hint),
            resolution_hints: with_text(self.resolution_hints, section.resolution_hint),
            trackpoint_multipliers: with_text(
                self.trackpoint_multipliers,
                section.trackpoint_multiplier,
            ),
            ..self
        }
    }

    /// After a section: nothing changes unless it is about the device. What
    /// it says of models adds up; of everything else the latest counts.
    pub open spec fn with_section(self, section: SectionView, id: IdentityView) -> AppliedView {
        if section_matches(section, id) {
            let a = self.with_codes(section).with_hints(section);
            AppliedView {
                models: self.models.joined(section.models),
                attributes: self.attributes.replaced(section.attributes),
                ..a
            }
        } else {
            self
        }
    }
}

impl AppliedQuirks {
    pub open spec fn contents(self) -> AppliedView {
        AppliedView {
            codes: self.codes.codes@,
            disabled: self.codes.disabled,
            enabled_input_props: string_texts(self.input_props.enabled@),
            disabled_input_props: string_texts(self.input_props.disabled@),
            messages: string_texts(self.messages@),
            models: self.models,
            attributes: self.attributes,
            lid_switch_reliability: optional_text(self.lid_switch_reliability),
            device_class: optional_text(self.device_class),
            size_hints: string_texts(self.size_hints@),
            resolution_hints: string_texts(self.resolution_hints@),
            trackpoint_multipliers: string_texts(self.trackpoint_multipliers@),
        }
    }

    pub fn new(event_codes: Vec<u16>) -> (a: AppliedQuirks)
        ensures
            a.contents() == unchanged(event_codes@),
    {
        let a = AppliedQuirks {
            messages: Vec::new(),
            codes: Codes {
                codes: event_codes,
                disabled: Disabled {
                    hi_res_wheel_vertical: false,
                    hi_res_wheel_horizontal: false,
                    tablet_tilt_x: false,
                    tablet_tilt_y: false,
                    abs_distance: false,
                    abs_mt_pressure: false,
                    abs_pressure: false,
                    abs_mt_tool_type: false,
                    all_absolute_axes: false,
                },
            },
            input_props: InputProperties { enabled: Vec::new(), disabled: Vec::new() },
            models: Models::new(),
            attributes: Attributes::new(),
            lid_switch_reliability: None,
            device_class: None,
            size_hints: Vec::new(),
            resolution_hints: Vec::new(),
            trackpoint_multipliers: Vec::new(),
        };
        assert(a.contents() =~= unchanged(event_codes@));
        a
    }

    fn apply_codes(&mut self, section: &Section)
        ensures
            final(self).contents() == old(self).contents().with_codes(section.contents()),
    {
        reveal(AppliedView::with_codes);
        self.codes.apply_expressions(&section.event_codes, &mut self.messages);
        self.input_props.apply_expressions(&section.input_props, &mut self.messages);
    }

    fn apply_hints(&mut self, section: &Section)
        ensures
            final(self).contents() == old(self).contents().with_hints(section.contents()),
    {
        reveal(AppliedView::with_hints);
        push_text(&mut self.size_hints, &section.size_hint);
        push_text(&mut self.resolution_hints, &section.resolution_hint);
        push_text(&mut self.trackpoint_multipliers, &section.trackpoint_multiplier);
        if let Some(reliability) = &section.lid_switch_reliability {
            self.lid_switch_reliability = Some(reliability.clone());
        }
        if let Some(class) = &section.device_class {
            self.device_class = Some(class.clone());
        }
    }

    /// Applies a section to a device that it is about.
    pub fn apply_section(&mut self, section: &Section, id: &DeviceIdentity)
        ensures
            final(self).contents() == old(self).contents().with_section(section.contents(), id@),
    {
        if !matches_section(section, id) {
            return;
        }
        let models = self.models.join(section.models);
        let attributes = self.attributes.replace(section.attributes);
        self.apply_codes(section);
        self.apply_hints(section);
        self.models = models;
        self.attributes = attributes;
    }
}

// ---------------------------------------------------------------------------
// Files
// ---------------------------------------------------------------------------
/// Whether a line begins a section.
pub open spec fn is_header(line: Seq<char>) -> bool {
    line.len() > 0 && line[0] == '[' && line.last() == ']'
}

/// The state while a file is read: the section, once there is one, and what
/// the sections before it came to.
#[verifier::ext_equal]
pub struct ReadingView {
    pub section: Option<SectionView>,
    pub applied: AppliedView,
}

impl ReadingView {
    /// After the section that is being read has ended.
    pub open spec fn closed(self, id: IdentityView) -> AppliedView {
        match self.section {
            Some(section) => self.applied.with_section(section, id),
            None => self.applied,
        }
    }

    /// After one line. Comments, empty lines, lines without a value, and
    /// everything before the first section are passed over.
    pub open spec fn with_line(self, raw: Seq<char>, id: IdentityView) -> ReadingView {
        let line = trimmed(raw);
        if is_header(line) {
            ReadingView { section: Some(empty_section()), applied: self.closed(id) }
        } else if self.section is None || line.len() == 0 || line[0] == '#' {
            self
        } else {
            match halves(line, '=') {
                Some((key, value)) => ReadingView {
                    section: Some(self.section->0.with(key, value)),
                    ..self
                },
                None => self,
            }
        }
    }

    pub open spec fn with_lines(self, rows: Seq<Seq<char>>, n: int, id: IdentityView) -> ReadingView
        decreases n,
    {
        if n <= 0 {
            self
        } else {
            self.with_lines(rows, n - 1, id).with_line(rows[n - 1], id)
        }
    }
}

impl AppliedView {
    /// After a whole file.
    pub open spec fn with_file(self, contents: Seq<char>, id: IdentityView) -> AppliedView {
        let rows = lines_of(contents);
        ReadingView { section: None, applied: self }.with_lines(rows, rows.len() as int, id).closed(
            id,
        )
    }

    /// After the first `n` files.
    pub open spec fn with_files(self, files: Seq<Seq<char>>, n: int, id: IdentityView) -> AppliedView
        decreases n,
    {
        if n <= 0 {
            self
        } else {
            self.with_files(files, n - 1, id).with_file(files[n - 1], id)
        }
    }
}

pub open spec fn section_view(section: Option<Section>) -> Option<SectionView> {
    match section {
        Some(section) => Some(section.contents()),
        None => None,
    }
}

impl AppliedQuirks {
    fn close_section(&mut self, section: &Option<Section>, id: &DeviceIdentity)
        ensures
            final(self).contents() == (ReadingView {
                section: section_view(*section),
                applied: old(self).contents(),
            }).closed(id@),
    {
        if let Some(section) = section {
            self.apply_section(section, id);
        }
    }

    fn read_line(&mut self, section: Option<Section>, raw: &[char], id: &DeviceIdentity) -> (next:
        Option<Section>)
        ensures
            (ReadingView { section: section_view(next), applied: final(self).contents() }) == (
            ReadingView {
                section: section_view(section),
                applied: old(self).contents(),
            }).with_line(raw@, id@),
    {
        let line = trim(raw);
        let n: usize = line.len();
        if n > 0 && line[0] == '[' && line[n - 1] == ']' {
            self.close_section(&section, id);
            return Some(Section::new());
        }
        match section {
            None => None,
            Some(mut section) => {
                if n > 0 && line[0] != '#' {
                    if let Some((key, value)) = split_once(line, '=') {
                        section.set(key, value);
                    }
                }
                Some(section)
            },
        }
    }

    /// Applies the contents of a quirks file.
    pub fn apply_file(&mut self, contents: &str, id: &DeviceIdentity)
        ensures
            final(self).contents() == old(self).contents().with_file(contents@, id@),
    {
        let chars = letters(contents);
        let rows = lines(chars.as_slice());
        let ghost all = lines_of(contents@);
        let ghost start = ReadingView { section: None, applied: self.contents() };
        let mut section: Option<Section> = None;
        let mut i: usize = 0;
        assert(texts(rows@).len() == rows.len());
        while i < rows.len()
            invariant
                i <= rows.len() == all.len(),
                texts(rows@) == all,
                (ReadingView { section: section_view(section), applied: self.contents() })
                    == start.with_lines(all, i as int, id@),
            decreases rows.len() - i,
        {
            assert(rows@[i as int]@ == texts(rows@)[i as int]);
            section = self.read_line(section, rows[i], id);
            i += 1;
        }
        self.close_section(&section, id);
    }
}

/// Applies quirks files in their order to a device with the given keys.
pub fn apply_quirks(files: &Vec<String>, id: &DeviceIdentity, event_codes: Vec<u16>) -> (applied:
    AppliedQuirks)
    ensures
        applied.contents() == unchanged(event_codes@).with_files(
            string_texts(files@),
            files@.len() as int,
            id@,
        ),
{
    let mut applied = AppliedQuirks::new(event_codes);
    let ghost before = applied.contents();
    let mut i: usize = 0;
    while i < files.len()
        invariant
            i <= files.len(),
            applied.contents() == before.with_files(string_texts(files@), i as int, id@),
        decreases files.len() - i,
    {
        assert(string_texts(files@)[i as int] == files@[i as int]@);
        applied.apply_file(files[i].as_str(), id);
        i += 1;
    }
    applied
}

/// A section with a condition that is not known is about no device.
pub proof fn law_unknown_conditions_fail_closed(section: SectionView, id: IdentityView, i: int)
    requires
        0 <= i < section.matches.len(),
        ({
            let key = section.matches[i].0;
            key != "MatchName"@ && key != "MatchBus"@ && key != "MatchVendor"@ && key
                != "MatchProduct"@ && key != "MatchVersion"@ && key != "MatchUdevType"@ && key
                != "MatchDMIModalias"@ && key != "MatchDeviceTree"@
        }),
    ensures
        !section_matches(section, id),
        forall|a: AppliedView| #[trigger] a.with_section(section, id) == a,
{
    reveal(property_matches);
    assert(!property_matches(section.matches[i].0, section.matches[i].1, id));
}

/// Of two sections about a device, the later one decides what both give.
pub proof fn law_later_sections_prevail(
    a: AppliedView,
    first: SectionView,
    second: SectionView,
    id: IdentityView,
)
    requires
        section_matches(second, id),
        second.attributes.keyboard_integration is Some,
    ensures
        a.with_section(first, id).with_section(second, id).attributes.keyboard_integration
            == second.attributes.keyboard_integration,
{
}

/// What quirks say of a model is not taken back by later sections.
pub proof fn law_models_only_grow(a: AppliedView, section: SectionView, id: IdentityView)
    ensures
        a.models.joined(a.with_section(section, id).models) == a.with_section(section, id).models,
{
}

/// An input property is never on and off at the same time.
pub proof fn law_properties_are_on_or_off(p: PropertiesView, token: Seq<char>, name: Seq<char>)
    requires
        !(p.enabled.contains(name) && p.disabled.contains(name)),
    ensures
        ({
            let after = p.with_token(token);
            !(after.enabled.contains(name) && after.disabled.contains(name))
        }),
{
    if let Some((enable, changed)) = token_action(token) {
        lemma_without_text(p.enabled, changed, name);
        lemma_without_text(p.disabled, changed, name);
        let on = without_text(p.enabled, changed);
        let off = without_text(p.disabled, changed);
        if enable {
            assert(on.push(changed).contains(name) ==> on.contains(name) || name == changed) by {
                if on.push(changed).contains(name) {
                    let i = choose|i: int|
                        0 <= i < on.push(changed).len() && on.push(changed)[i] == name;
                    if i < on.len() {
                        assert(on[i] == name);
                    }
                }
            }
        } else {
            assert(off.push(changed).contains(name) ==> off.contains(name) || name == changed) by {
                if off.push(changed).contains(name) {
                    let i = choose|i: int|
                        0 <= i < off.push(changed).len() && off.push(changed)[i] == name;
                    if i < off.len() {
                        assert(off[i] == name);
                    }
                }
            }
        }
    }
}

proof fn lemma_without_text(list: Seq<Seq<char>>, text: Seq<char>, other: Seq<char>)
    ensures
        without_text(list, text).contains(other) <==> list.contains(other) && other != text,
    decreases list.len(),
{
    if list.len() > 0 {
        let head = list.drop_last();
        lemma_without_text(head, text, other);
        let kept = without_text(head, text);
        let all = without_text(list, text);
        assert(list =~= head.push(list.last()));
        if kept.contains(other) && list.last() != text {
            let i = choose|i: int| 0 <= i < kept.len() && kept[i] == other;
            assert(all[i] == other);
        }
        if other == list.last() && other != text {
            assert(all[kept.len() as int] == other);
        }
        if head.contains(other) {
            let i = choose|i: int| 0 <= i < head.len() && head[i] == other;
            assert(list[i] == other);
        }
    }
}

} // verus!
