//! Sections of a quirks file.
use vstd::prelude::*;
use crate::text::{
    begins, begins_with, equal_folded, halves, letters, lowered, parse_i32, parse_unsigned, parsed,
    same_folded, same_text, split_once, string_of, strip, stripped, trim, trimmed,
};

verus! {

// ---------------------------------------------------------------------------
// Values
// ---------------------------------------------------------------------------
/// How a keyboard or pointing stick is built into the system.
#[derive(Clone, Copy, Debug, PartialEq, Eq, Structural)]
pub enum KeyboardIntegration {
    Internal,
    External,
}

pub open spec fn integration_spec(value: Seq<char>) -> Option<KeyboardIntegration> {
    if lowered(value) == "internal"@ {
        Some(KeyboardIntegration::Internal)
    } else if lowered(value) == "external"@ {
        Some(KeyboardIntegration::External)
    } else {
        None
    }
}

fn parse_integration(value: &[char]) -> (integration: Option<KeyboardIntegration>)
    ensures
        integration == integration_spec(value@),
{
    let folded = crate::text::to_lower(value);
    if same_text(folded.as_slice(), "internal") {
        Some(KeyboardIntegration::Internal)
    } else if same_text(folded.as_slice(), "external") {
        Some(KeyboardIntegration::External)
    } else {
        None
    }
}

pub open spec fn bool_spec(value: Seq<char>) -> Option<bool> {
    if trimmed(value) == "1"@ {
        Some(true)
    } else if trimmed(value) == "0"@ {
        Some(false)
    } else {
        None
    }
}

/// A switch: `1` or `0`.
pub fn parse_bool(value: &[char]) -> (b: Option<bool>)
    ensures
        b == bool_spec(value@),
{
    let v = trim(value);
    if same_text(v, "1") {
        Some(true)
    } else if same_text(v, "0") {
        Some(false)
    } else {
        None
    }
}

pub open spec fn i32_spec(text: Seq<char>) -> Option<int> {
    parsed(text, 10, true, i32::MIN as int, i32::MAX as int)
}

/// Two numbers with a colon between them, the first not less than the second.
pub open spec fn range_spec(value: Seq<char>) -> Option<(int, int)> {
    match halves(trimmed(value), ':') {
        Some((down, up)) => if i32_spec(down) is Some && i32_spec(up) is Some && i32_spec(down)->0
            >= i32_spec(up)->0 {
            Some((i32_spec(down)->0, i32_spec(up)->0))
        } else {
            None
        },
        None => None,
    }
}

pub open spec fn same_range(range: Option<(i32, i32)>, spec: Option<(int, int)>) -> bool {
    match range {
        Some((down, up)) => spec == Some((down as int, up as int)),
        None => spec is None,
    }
}

pub fn parse_pressure_range(value: &[char]) -> (range: Option<(i32, i32)>)
    ensures
        same_range(range, range_spec(value@)),
{
    match split_once(trim(value), ':') {
        Some((down, up)) => {
            if let (Some(down), Some(up)) = (parse_i32(down), parse_i32(up)) {
                if down >= up {
                    return Some((down, up));
                }
            }
            None
        },
        None => None,
    }
}

/// A number of 16 bits, in hexadecimal after `0x` and in decimal otherwise.
pub open spec fn number_spec(value: Seq<char>) -> Option<int> {
    let v = trimmed(value);
    match stripped(v, "0x"@) {
        Some(hex) => parsed(hex, 16, false, 0, u16::MAX as int),
        None => match stripped(v, "0X"@) {
            Some(hex) => parsed(hex, 16, false, 0, u16::MAX as int),
            None => parsed(v, 10, false, 0, u16::MAX as int),
        },
    }
}

pub fn parse_number(value: &[char]) -> (number: Option<u16>)
    ensures
        match number {
            Some(n) => number_spec(value@) == Some(n as int),
            None => number_spec(value@) is None,
        },
{
    let v = trim(value);
    let wide: Option<u64> = match strip(v, "0x") {
        Some(hex) => parse_unsigned(hex, 16, u16::MAX as u64),
        None => match strip(v, "0X") {
            Some(hex) => parse_unsigned(hex, 16, u16::MAX as u64),
            None => parse_unsigned(v, 10, u16::MAX as u64),
        },
    };
    match wide {
        Some(n) => Some(n as u16),
        None => None,
    }
}

pub open spec fn named_key(name: Seq<char>) -> Option<u16> {
    if name == "BTN_LEFT"@ {
        Some(0x110)
    } else if name == "BTN_RIGHT"@ {
        Some(0x111)
    } else if name == "BTN_MIDDLE"@ {
        Some(0x112)
    } else if name == "BTN_SIDE"@ {
        Some(0x113)
    } else if name == "BTN_EXTRA"@ {
        Some(0x114)
    } else if name == "BTN_FORWARD"@ {
        Some(0x115)
    } else if name == "BTN_BACK"@ {
        Some(0x116)
    } else if name == "BTN_TASK"@ {
        Some(0x117)
    } else if name == "BTN_0"@ {
        Some(0x100)
    } else if name == "KEY_F1"@ {
        Some(59)
    } else if name == "KEY_F2"@ {
        Some(60)
    } else if name == "KEY_F3"@ {
        Some(61)
    } else {
        None
    }
}

/// The key that a name or a number stands for.
pub open spec fn key_code_spec(name: Seq<char>) -> Option<int> {
    match stripped(name, "EV_KEY:"@) {
        Some(number) => number_spec(number),
        None => match named_key(name) {
            Some(code) => Some(code as int),
            None => None,
        },
    }
}

fn find_key(name: &[char]) -> (code: Option<u16>)
    ensures
        code == named_key(name@),
{
    if same_text(name, "BTN_LEFT") {
        Some(0x110)
    } else if same_text(name, "BTN_RIGHT") {
        Some(0x111)
    } else if same_text(name, "BTN_MIDDLE") {
        Some(0x112)
    } else if same_text(name, "BTN_SIDE") {
        Some(0x113)
    } else if same_text(name, "BTN_EXTRA") {
        Some(0x114)
    } else if same_text(name, "BTN_FORWARD") {
        Some(0x115)
    } else if same_text(name, "BTN_BACK") {
        Some(0x116)
    } else if same_text(name, "BTN_TASK") {
        Some(0x117)
    } else if same_text(name, "BTN_0") {
        Some(0x100)
    } else if same_text(name, "KEY_F1") {
        Some(59)
    } else if same_text(name, "KEY_F2") {
        Some(60)
    } else if same_text(name, "KEY_F3") {
        Some(61)
    } else {
        None
    }
}

pub fn key_code_of(name: &[char]) -> (code: Option<u16>)
    ensures
        match code {
            Some(code) => key_code_spec(name@) == Some(code as int),
            None => key_code_spec(name@) is None,
        },
{
    match strip(name, "EV_KEY:") {
        Some(number) => parse_number(number),
        None => find_key(name),
    }
}

pub fn parse_key_code(name: &str) -> (code: Option<u16>)
    ensures
        match code {
            Some(code) => key_code_spec(name@) == Some(code as int),
            None => key_code_spec(name@) is None,
        },
{
    let chars = letters(name);
    key_code_of(chars.as_slice())
}

pub open spec fn key_name_spec(code: u16) -> Option<Seq<char>> {
    if code == 0x110 {
        Some("BTN_LEFT"@)
    } else if code == 0x111 {
        Some("BTN_RIGHT"@)
    } else if code == 0x112 {
        Some("BTN_MIDDLE"@)
    } else if code == 0x113 {
        Some("BTN_SIDE"@)
    } else if code == 0x114 {
        Some("BTN_EXTRA"@)
    } else if code == 0x115 {
        Some("BTN_FORWARD"@)
    } else if code == 0x116 {
        Some("BTN_BACK"@)
    } else if code == 0x117 {
        Some("BTN_TASK"@)
    } else if code == 59 {
        Some("KEY_F1"@)
    } else if code == 60 {
        Some("KEY_F2"@)
    } else if code == 61 {
        Some("KEY_F3"@)
    } else {
        None
    }
}

pub fn key_code_name(code: u16) -> (name: Option<&'static str>)
    ensures
        match name {
            Some(name) => key_name_spec(code) == Some(name@),
            None => key_name_spec(code) is None,
        },
{
    if code == 0x110 {
        Some("BTN_LEFT")
    } else if code == 0x111 {
        Some("BTN_RIGHT")
    } else if code == 0x112 {
        Some("BTN_MIDDLE")
    } else if code == 0x113 {
        Some("BTN_SIDE")
    } else if code == 0x114 {
        Some("BTN_EXTRA")
    } else if code == 0x115 {
        Some("BTN_FORWARD")
    } else if code == 0x116 {
        Some("BTN_BACK")
    } else if code == 0x117 {
        Some("BTN_TASK")
    } else if code == 59 {
        Some("KEY_F1")
    } else if code == 60 {
        Some("KEY_F2")
    } else if code == 61 {
        Some("KEY_F3")
    } else {
        None
    }
}

/// A key's name stands for that key.
pub proof fn law_key_names_are_read_back(code: u16)
    requires
        key_name_spec(code) is Some,
    ensures
        named_key(key_name_spec(code)->0) == Some(code),
{
    reveal_strlit("BTN_LEFT");
    reveal_strlit("BTN_RIGHT");
    reveal_strlit("BTN_MIDDLE");
    reveal_strlit("BTN_SIDE");
    reveal_strlit("BTN_EXTRA");
    reveal_strlit("BTN_FORWARD");
    reveal_strlit("BTN_BACK");
    reveal_strlit("BTN_TASK");
    reveal_strlit("BTN_0");
    reveal_strlit("KEY_F1");
    reveal_strlit("KEY_F2");
    reveal_strlit("KEY_F3");
    assert("BTN_LEFT"@.len() == 8 && "BTN_SIDE"@.len() == 8 && "BTN_BACK"@.len() == 8
        && "BTN_TASK"@.len() == 8);
    assert("BTN_LEFT"@[4] == 'L' && "BTN_SIDE"@[4] == 'S' && "BTN_BACK"@[4] == 'B'
        && "BTN_TASK"@[4] == 'T');
    assert("BTN_RIGHT"@.len() == 9 && "BTN_EXTRA"@.len() == 9);
    assert("BTN_RIGHT"@[4] == 'R' && "BTN_EXTRA"@[4] == 'E');
    assert("BTN_MIDDLE"@.len() == 10 && "BTN_FORWARD"@.len() == 11 && "BTN_0"@.len() == 5);
    assert("KEY_F1"@.len() == 6 && "KEY_F2"@.len() == 6 && "KEY_F3"@.len() == 6);
    assert("KEY_F1"@[5] == '1' && "KEY_F2"@[5] == '2' && "KEY_F3"@[5] == '3');
}

// ---------------------------------------------------------------------------
// Models
// ---------------------------------------------------------------------------
/// What a device is, or what is wrong with it.
#[derive(Clone, Copy, Debug, PartialEq, Eq, Structural)]
pub struct Models {
    pub is_virtual: bool,
    pub lenovo_scrollpoint: bool,
    pub alps_serial_touchpad: bool,
    pub dell_canvas_totem: bool,
    pub apple_touchpad: bool,
    pub apple_touchpad_onebutton: bool,
    pub wacom_touchpad: bool,
    pub trackball: bool,
    pub tablet_mode_switch_unreliable: bool,
    pub bouncing_keys: bool,
    pub hp_pavilion_dm4_touchpad: bool,
    pub hp_zbook_studio_g3: bool,
    pub invert_horizontal_scrolling: bool,
    pub lenovo_t450_touchpad: bool,
    pub lenovo_x1_gen6_touchpad: bool,
    pub lenovo_x230: bool,
    pub scroll_on_middle_click: bool,
    pub synaptics_serial_touchpad: bool,
    pub tablet_mode_no_suspend: bool,
    pub touchpad_phantom_clicks: bool,
    pub clickfinger_default: bool,
    pub tpkb_combo_layout_below: bool,
}

pub open spec fn no_models() -> Models {
    Models {
        is_virtual: false,
        lenovo_scrollpoint: false,
        alps_serial_touchpad: false,
        dell_canvas_totem: false,
        apple_touchpad: false,
        apple_touchpad_onebutton: false,
        wacom_touchpad: false,
        trackball: false,
        tablet_mode_switch_unreliable: false,
        bouncing_keys: false,
        hp_pavilion_dm4_touchpad: false,
        hp_zbook_studio_g3: false,
        invert_horizontal_scrolling: false,
        lenovo_t450_touchpad: false,
        lenovo_x1_gen6_touchpad: false,
        lenovo_x230: false,
        scroll_on_middle_click: false,
        synaptics_serial_touchpad: false,
        tablet_mode_no_suspend: false,
        touchpad_phantom_clicks: false,
        clickfinger_default: false,
        tpkb_combo_layout_below: false,
    }
}

/// Machines whose touchpads click by the number of fingers.
pub open spec fn is_clickfinger_machine(key: Seq<char>) -> bool {
    key == "ModelChromebook"@ || key == "ModelSystem76Bonobo"@ || key == "ModelSystem76Galago"@
        || key == "ModelSystem76Kudu"@ || key == "ModelClevoW740SU"@
}

impl Models {
    pub fn new() -> (m: Models)
        ensures
            m == no_models(),
    {
        Models {
            is_virtual: false,
            lenovo_scrollpoint: false,
            alps_serial_touchpad: false,
            dell_canvas_totem: false,
            apple_touchpad: false,
            apple_touchpad_onebutton: false,
            wacom_touchpad: false,
            trackball: false,
            tablet_mode_switch_unreliable: false,
            bouncing_keys: false,
            hp_pavilion_dm4_touchpad: false,
            hp_zbook_studio_g3: false,
            invert_horizontal_scrolling: false,
            lenovo_t450_touchpad: false,
            lenovo_x1_gen6_touchpad: false,
            lenovo_x230: false,
            scroll_on_middle_click: false,
            synaptics_serial_touchpad: false,
            tablet_mode_no_suspend: false,
            touchpad_phantom_clicks: false,
            clickfinger_default: false,
            tpkb_combo_layout_below: false,
        }
    }

    /// The models after a line of a section.
    #[verifier::opaque]
    pub open spec fn with(self, key: Seq<char>, value: Seq<char>) -> Models {
        let on = trimmed(value) == "1"@;
        if key == "AttrIsVirtual"@ {
            Models { is_virtual: on, ..self }
        } else if key == "ModelLenovoScrollPoint"@ {
            Models { lenovo_scrollpoint: on, ..self }
        } else if key == "ModelALPSSerialTouchpad"@ {
            Models { alps_serial_touchpad: on, ..self }
        } else if key == "ModelDellCanvasTotem"@ {
            Models { dell_canvas_totem: on, ..self }
        } else if key == "ModelAppleTouchpad"@ {
            Models { apple_touchpad: on, ..self }
        } else if key == "ModelAppleTouchpadOneButton"@ {
            Models { apple_touchpad_onebutton: on, ..self }
        } else if key == "ModelWacomTouchpad"@ {
            Models { wacom_touchpad: on, ..self }
        } else if key == "ModelTrackball"@ {
            Models { trackball: on, ..self }
        } else if key == "ModelTabletModeSwitchUnreliable"@ {
            Models { tablet_mode_switch_unreliable: on, ..self }
        } else if key == "ModelBouncingKeys"@ {
            Models { bouncing_keys: on, ..self }
        } else if key == "ModelHPPavilionDM4Touchpad"@ {
            Models { hp_pavilion_dm4_touchpad: on, ..self }
        } else if key == "ModelHPZBookStudioG3"@ {
            Models { hp_zbook_studio_g3: on, ..self }
        } else if key == "ModelInvertHorizontalScrolling"@ {
            Models { invert_horizontal_scrolling: on, ..self }
        } else if key == "ModelLenovoT450Touchpad"@ {
            Models { lenovo_t450_touchpad: on, ..self }
        } else if key == "ModelLenovoX1Gen6Touchpad"@ {
            Models { lenovo_x1_gen6_touchpad: on, ..self }
        } else if key == "ModelLenovoX230"@ {
            Models { lenovo_x230: on, ..self }
        } else if key == "ModelScrollOnMiddleClick"@ {
            Models { scroll_on_middle_click: on, ..self }
        } else if key == "ModelSynapticsSerialTouchpad"@ {
            Models { synaptics_serial_touchpad: on, ..self }
        } else if key == "ModelTabletModeNoSuspend"@ {
            Models { tablet_mode_no_suspend: on, ..self }
        } else if key == "ModelTouchpadPhantomClicks"@ {
            Models { touchpad_phantom_clicks: on, ..self }
        } else if is_clickfinger_machine(key) {
            Models { clickfinger_default: on, ..self }
        } else if key == "AttrTPKComboLayout"@ {
            Models { tpkb_combo_layout_below: same_folded(trimmed(value), "below"@), ..self }
        } else {
            self
        }
    }

    fn set(self, key: &[char], value: &[char]) -> (m: Models)
        ensures
            m == self.with(key@, value@),
    {
        reveal(Models::with);
        let v = trim(value);
        let on = same_text(v, "1");
        if same_text(key, "AttrIsVirtual") {
            Models { is_virtual: on, ..self }
        } else if same_text(key, "ModelLenovoScrollPoint") {
            Models { lenovo_scrollpoint: on, ..self }
        } else if same_text(key, "ModelALPSSerialTouchpad") {
            Models { alps_serial_touchpad: on, ..self }
        } else if same_text(key, "ModelDellCanvasTotem") {
            Models { dell_canvas_totem: on, ..self }
        } else if same_text(key, "ModelAppleTouchpad") {
            Models { apple_touchpad: on, ..self }
        } else if same_text(key, "ModelAppleTouchpadOneButton") {
            Models { apple_touchpad_onebutton: on, ..self }
        } else if same_text(key, "ModelWacomTouchpad") {
            Models { wacom_touchpad: on, ..self }
        } else if same_text(key, "ModelTrackball") {
            Models { trackball: on, ..self }
        } else if same_text(key, "ModelTabletModeSwitchUnreliable") {
            Models { tablet_mode_switch_unreliable: on, ..self }
        } else if same_text(key, "ModelBouncingKeys") {
            Models { bouncing_keys: on, ..self }
        } else if same_text(key, "ModelHPPavilionDM4Touchpad") {
            Models { hp_pavilion_dm4_touchpad: on, ..self }
        } else if same_text(key, "ModelHPZBookStudioG3") {
            Models { hp_zbook_studio_g3: on, ..self }
        } else if same_text(key, "ModelInvertHorizontalScrolling") {
            Models { invert_horizontal_scrolling: on, ..self }
        } else if same_text(key, "ModelLenovoT450Touchpad") {
            Models { lenovo_t450_touchpad: on, ..self }
        } else if same_text(key, "ModelLenovoX1Gen6Touchpad") {
            Models { lenovo_x1_gen6_touchpad: on, ..self }
        } else if same_text(key, "ModelLenovoX230") {
            Models { lenovo_x230: on, ..self }
        } else if same_text(key, "ModelScrollOnMiddleClick") {
            Models { scroll_on_middle_click: on, ..self }
        } else if same_text(key, "ModelSynapticsSerialTouchpad") {
            Models { synaptics_serial_touchpad: on, ..self }
        } else if same_text(key, "ModelTabletModeNoSuspend") {
            Models { tablet_mode_no_suspend: on, ..self }
        } else if same_text(key, "ModelTouchpadPhantomClicks") {
            Models { touchpad_phantom_clicks: on, ..self }
        } else if same_text(key, "ModelChromebook") || same_text(key, "ModelSystem76Bonobo")
            || same_text(key, "ModelSystem76Galago") || same_text(key, "ModelSystem76Kudu")
            || same_text(key, "ModelClevoW740SU") {
            Models { clickfinger_default: on, ..self }
        } else if same_text(key, "AttrTPKComboLayout") {
            Models { tpkb_combo_layout_below: equal_folded(v, "below"), ..self }
        } else {
            self
        }
    }

    /// The models of two sections together.
    pub open spec fn joined(self, other: Models) -> Models {
        Models {
            is_virtual: self.is_virtual || other.is_virtual,
            lenovo_scrollpoint: self.lenovo_scrollpoint || other.lenovo_scrollpoint,
            alps_serial_touchpad: self.alps_serial_touchpad || other.alps_serial_touchpad,
            dell_canvas_totem: self.dell_canvas_totem || other.dell_canvas_totem,
            apple_touchpad: self.apple_touchpad || other.apple_touchpad,
            apple_touchpad_onebutton: self.apple_touchpad_onebutton || other.apple_touchpad_onebutton,
            wacom_touchpad: self.wacom_touchpad || other.wacom_touchpad,
            trackball: self.trackball || other.trackball,
            tablet_mode_switch_unreliable: self.tablet_mode_switch_unreliable || other.tablet_mode_switch_unreliable,
            bouncing_keys: self.bouncing_keys || other.bouncing_keys,
            hp_pavilion_dm4_touchpad: self.hp_pavilion_dm4_touchpad || other.hp_pavilion_dm4_touchpad,
            hp_zbook_studio_g3: self.hp_zbook_studio_g3 || other.hp_zbook_studio_g3,
            invert_horizontal_scrolling: self.invert_horizontal_scrolling || other.invert_horizontal_scrolling,
            lenovo_t450_touchpad: self.lenovo_t450_touchpad || other.lenovo_t450_touchpad,
            lenovo_x1_gen6_touchpad: self.lenovo_x1_gen6_touchpad || other.lenovo_x1_gen6_touchpad,
            lenovo_x230: self.lenovo_x230 || other.lenovo_x230,
            scroll_on_middle_click: self.scroll_on_middle_click || other.scroll_on_middle_click,
            synaptics_serial_touchpad: self.synaptics_serial_touchpad || other.synaptics_serial_touchpad,
            tablet_mode_no_suspend: self.tablet_mode_no_suspend || other.tablet_mode_no_suspend,
            touchpad_phantom_clicks: self.touchpad_phantom_clicks || other.touchpad_phantom_clicks,
            clickfinger_default: self.clickfinger_default || other.clickfinger_default,
            tpkb_combo_layout_below: self.tpkb_combo_layout_below || other.tpkb_combo_layout_below,
        }
    }

    pub fn join(self, other: Models) -> (m: Models)
        ensures
            m == self.joined(other),
    {
        Models {
            is_virtual: self.is_virtual || other.is_virtual,
            lenovo_scrollpoint: self.lenovo_scrollpoint || other.lenovo_scrollpoint,
            alps_serial_touchpad: self.alps_serial_touchpad || other.alps_serial_touchpad,
            dell_canvas_totem: self.dell_canvas_totem || other.dell_canvas_totem,
            apple_touchpad: self.apple_touchpad || other.apple_touchpad,
            apple_touchpad_onebutton: self.apple_touchpad_onebutton || other.apple_touchpad_onebutton,
            wacom_touchpad: self.wacom_touchpad || other.wacom_touchpad,
            trackball: self.trackball || other.trackball,
            tablet_mode_switch_unreliable: self.tablet_mode_switch_unreliable || other.tablet_mode_switch_unreliable,
            bouncing_keys: self.bouncing_keys || other.bouncing_keys,
            hp_pavilion_dm4_touchpad: self.hp_pavilion_dm4_touchpad || other.hp_pavilion_dm4_touchpad,
            hp_zbook_studio_g3: self.hp_zbook_studio_g3 || other.hp_zbook_studio_g3,
            invert_horizontal_scrolling: self.invert_horizontal_scrolling || other.invert_horizontal_scrolling,
            lenovo_t450_touchpad: self.lenovo_t450_touchpad || other.lenovo_t450_touchpad,
            lenovo_x1_gen6_touchpad: self.lenovo_x1_gen6_touchpad || other.lenovo_x1_gen6_touchpad,
            lenovo_x230: self.lenovo_x230 || other.lenovo_x230,
            scroll_on_middle_click: self.scroll_on_middle_click || other.scroll_on_middle_click,
            synaptics_serial_touchpad: self.synaptics_serial_touchpad || other.synaptics_serial_touchpad,
            tablet_mode_no_suspend: self.tablet_mode_no_suspend || other.tablet_mode_no_suspend,
            touchpad_phantom_clicks: self.touchpad_phantom_clicks || other.touchpad_phantom_clicks,
            clickfinger_default: self.clickfinger_default || other.clickfinger_default,
            tpkb_combo_layout_below: self.tpkb_combo_layout_below || other.tpkb_combo_layout_below,
        }
    }
}

// ---------------------------------------------------------------------------
// Attributes
// ---------------------------------------------------------------------------
/// Attributes that have values. One that is not given is `None`.
#[derive(Clone, Copy, Debug, PartialEq, Eq)]
pub struct Attributes {
    pub visible_marker: Option<bool>,
    pub keyboard_integration: Option<KeyboardIntegration>,
    pub pointing_stick_integration: Option<KeyboardIntegration>,
    pub palm_pressure_threshold: Option<u32>,
    pub palm_size_threshold: Option<u32>,
    pub thumb_pressure_threshold: Option<u32>,
    pub thumb_size_threshold: Option<u32>,
    pub tablet_smoothing: Option<bool>,
    pub msc_timestamp_watch: Option<bool>,
    pub pressure_range: Option<(i32, i32)>,
    pub touch_size_range: Option<(i32, i32)>,
}

pub open spec fn no_attributes() -> Attributes {
    Attributes {
        visible_marker: None,
        keyboard_integration: None,
        pointing_stick_integration: None,
        palm_pressure_threshold: None,
        palm_size_threshold: None,
        thumb_pressure_threshold: None,
        thumb_size_threshold: None,
        tablet_smoothing: None,
        msc_timestamp_watch: None,
        pressure_range: None,
        touch_size_range: None,
    }
}

/// A number without a sign, of at most 32 bits.
pub open spec fn threshold_spec(value: Seq<char>) -> Option<u32> {
    match parsed(trimmed(value), 10, false, 0, u32::MAX as int) {
        Some(n) => Some(n as u32),
        None => None,
    }
}

fn parse_threshold(value: &[char]) -> (n: Option<u32>)
    ensures
        n == threshold_spec(value@),
{
    match parse_unsigned(trim(value), 10, u32::MAX as u64) {
        Some(n) => Some(n as u32),
        None => None,
    }
}

pub open spec fn timestamp_spec(value: Seq<char>) -> Option<bool> {
    if trimmed(value) == "watch"@ {
        Some(true)
    } else if trimmed(value) == "ignore"@ {
        Some(false)
    } else {
        None
    }
}

fn parse_timestamp(value: &[char]) -> (watch: Option<bool>)
    ensures
        watch == timestamp_spec(value@),
{
    let v = trim(value);
    if same_text(v, "watch") {
        Some(true)
    } else if same_text(v, "ignore") {
        Some(false)
    } else {
        None
    }
}

pub open spec fn range_value(value: Seq<char>) -> Option<(i32, i32)> {
    match range_spec(value) {
        Some((down, up)) => Some((down as i32, up as i32)),
        None => None,
    }
}

impl Attributes {
    pub fn new() -> (a: Attributes)
        ensures
            a == no_attributes(),
    {
        Attributes {
            visible_marker: None,
            keyboard_integration: None,
            pointing_stick_integration: None,
            palm_pressure_threshold: None,
            palm_size_threshold: None,
            thumb_pressure_threshold: None,
            thumb_size_threshold: None,
            tablet_smoothing: None,
            msc_timestamp_watch: None,
            pressure_range: None,
            touch_size_range: None,
        }
    }

    /// The attributes after a line of a section. A value that makes no sense
    /// takes back what was given before.
    #[verifier::opaque]
    pub open spec fn with(self, key: Seq<char>, value: Seq<char>) -> Attributes {
        if key == "ModelTouchpadVisibleMarker"@ {
            Attributes { visible_marker: bool_spec(value), ..self }
        } else if key == "AttrKeyboardIntegration"@ {
            Attributes { keyboard_integration: integration_spec(trimmed(value)), ..self }
        } else if key == "AttrPointingStickIntegration"@ {
            Attributes { pointing_stick_integration: integration_spec(trimmed(value)), ..self }
        } else if key == "AttrPalmPressureThreshold"@ {
            Attributes { palm_pressure_threshold: threshold_spec(value), ..self }
        } else if key == "AttrPalmSizeThreshold"@ {
            Attributes { palm_size_threshold: threshold_spec(value), ..self }
        } else if key == "AttrThumbPressureThreshold"@ {
            Attributes { thumb_pressure_threshold: threshold_spec(value), ..self }
        } else if key == "AttrThumbSizeThreshold"@ {
            Attributes { thumb_size_threshold: threshold_spec(value), ..self }
        } else if key == "AttrTabletSmoothing"@ {
            Attributes { tablet_smoothing: bool_spec(value), ..self }
        } else if key == "AttrMscTimestamp"@ {
            Attributes { msc_timestamp_watch: timestamp_spec(value), ..self }
        } else if key == "AttrPressureRange"@ {
            Attributes { pressure_range: range_value(value), ..self }
        } else if key == "AttrTouchSizeRange"@ {
            Attributes { touch_size_range: range_value(value), ..self }
        } else {
            self
        }
    }

    fn set(self, key: &[char], value: &[char]) -> (a: Attributes)
        ensures
            a == self.with(key@, value@),
    {
        reveal(Attributes::with);
        if same_text(key, "ModelTouchpadVisibleMarker") {
            Attributes { visible_marker: parse_bool(value), ..self }
        } else if same_text(key, "AttrKeyboardIntegration") {
            Attributes { keyboard_integration: parse_integration(trim(value)), ..self }
        } else if same_text(key, "AttrPointingStickIntegration") {
            Attributes { pointing_stick_integration: parse_integration(trim(value)), ..self }
        } else if same_text(key, "AttrPalmPressureThreshold") {
            Attributes { palm_pressure_threshold: parse_threshold(value), ..self }
        } else if same_text(key, "AttrPalmSizeThreshold") {
            Attributes { palm_size_threshold: parse_threshold(value), ..self }
        } else if same_text(key, "AttrThumbPressureThreshold") {
            Attributes { thumb_pressure_threshold: parse_threshold(value), ..self }
        } else if same_text(key, "AttrThumbSizeThreshold") {
            Attributes { thumb_size_threshold: parse_threshold(value), ..self }
        } else if same_text(key, "AttrTabletSmoothing") {
            Attributes { tablet_smoothing: parse_bool(value), ..self }
        } else if same_text(key, "AttrMscTimestamp") {
            Attributes { msc_timestamp_watch: parse_timestamp(value), ..self }
        } else if same_text(key, "AttrPressureRange") {
            Attributes { pressure_range: parse_pressure_range(value), ..self }
        } else if same_text(key, "AttrTouchSizeRange") {
            Attributes { touch_size_range: parse_pressure_range(value), ..self }
        } else {
            self
        }
    }

    /// What `other` gives replaces what was given before.
    pub open spec fn replaced(self, other: Attributes) -> Attributes {
        Attributes {
            visible_marker: if other.visible_marker is Some {
                other.visible_marker
            } else {
                self.visible_marker
            },
            keyboard_integration: if other.keyboard_integration is Some {
                other.keyboard_integration
            } else {
                self.keyboard_integration
            },
            pointing_stick_integration: if other.pointing_stick_integration is Some {
                other.pointing_stick_integration
            } else {
                self.pointing_stick_integration
            },
            palm_pressure_threshold: if other.palm_pressure_threshold is Some {
                other.palm_pressure_threshold
            } else {
                self.palm_pressure_threshold
            },
            palm_size_threshold: if other.palm_size_threshold is Some {
                other.palm_size_threshold
            } else {
                self.palm_size_threshold
            },
            thumb_pressure_threshold: if other.thumb_pressure_threshold is Some {
                other.thumb_pressure_threshold
            } else {
                self.thumb_pressure_threshold
            },
            thumb_size_threshold: if other.thumb_size_threshold is Some {
                other.thumb_size_threshold
            } else {
                self.thumb_size_threshold
            },
            tablet_smoothing: if other.tablet_smoothing is Some {
                other.tablet_smoothing
            } else {
                self.tablet_smoothing
            },
            msc_timestamp_watch: if other.msc_timestamp_watch is Some {
                other.msc_timestamp_watch
            } else {
                self.msc_timestamp_watch
            },
            pressure_range: if other.pressure_range is Some {
                other.pressure_range
            } else {
                self.pressure_range
            },
            touch_size_range: if other.touch_size_range is Some {
                other.touch_size_range
            } else {
                self.touch_size_range
            },
        }
    }

    pub fn replace(self, other: Attributes) -> (a: Attributes)
        ensures
            a == self.replaced(other),
    {
        Attributes {
            visible_marker: if other.visible_marker.is_some() {
                other.visible_marker
            } else {
                self.visible_marker
            },
            keyboard_integration: if other.keyboard_integration.is_some() {
                other.keyboard_integration
            } else {
                self.keyboard_integration
            },
            pointing_stick_integration: if other.pointing_stick_integration.is_some() {
                other.pointing_stick_integration
            } else {
                self.pointing_stick_integration
            },
            palm_pressure_threshold: if other.palm_pressure_threshold.is_some() {
                other.palm_pressure_threshold
            } else {
                self.palm_pressure_threshold
            },
            palm_size_threshold: if other.palm_size_threshold.is_some() {
                other.palm_size_threshold
            } else {
                self.palm_size_threshold
            },
            thumb_pressure_threshold: if other.thumb_pressure_threshold.is_some() {
                other.thumb_pressure_threshold
            } else {
                self.thumb_pressure_threshold
            },
            thumb_size_threshold: if other.thumb_size_threshold.is_some() {
                other.thumb_size_threshold
            } else {
                self.thumb_size_threshold
            },
            tablet_smoothing: if other.tablet_smoothing.is_some() {
                other.tablet_smoothing
            } else {
                self.tablet_smoothing
            },
            msc_timestamp_watch: if other.msc_timestamp_watch.is_some() {
                other.msc_timestamp_watch
            } else {
                self.msc_timestamp_watch
            },
            pressure_range: if other.pressure_range.is_some() {
                other.pressure_range
            } else {
                self.pressure_range
            },
            touch_size_range: if other.touch_size_range.is_some() {
                other.touch_size_range
            } else {
                self.touch_size_range
            },
        }
    }
}

// ---------------------------------------------------------------------------
// Sections
// ---------------------------------------------------------------------------
/// One section: what devices it is about, and what it says of them. Sizes,
/// resolutions and multipliers stay as they are written.
pub struct Section {
    pub matches: Vec<(String, String)>,
    pub event_codes: Vec<String>,
    pub input_props: Vec<String>,
    pub models: Models,
    pub attributes: Attributes,
    pub lid_switch_reliability: Option<String>,
    pub size_hint: Option<String>,
    pub resolution_hint: Option<String>,
    pub trackpoint_multiplier: Option<String>,
    pub device_class: Option<String>,
}

/// The contents of a section.
#[verifier::ext_equal]
pub struct SectionView {
    pub matches: Seq<(Seq<char>, Seq<char>)>,
    pub event_codes: Seq<Seq<char>>,
    pub input_props: Seq<Seq<char>>,
    pub models: Models,
    pub attributes: Attributes,
    pub lid_switch_reliability: Option<Seq<char>>,
    pub size_hint: Option<Seq<char>>,
    pub resolution_hint: Option<Seq<char>>,
    pub trackpoint_multiplier: Option<Seq<char>>,
    pub device_class: Option<Seq<char>>,
}

pub open spec fn pair_texts(pairs: Seq<(String, String)>) -> Seq<(Seq<char>, Seq<char>)> {
    Seq::new(pairs.len(), |i: int| (pairs[i].0@, pairs[i].1@))
}

pub open spec fn string_texts(list: Seq<String>) -> Seq<Seq<char>> {
    Seq::new(list.len(), |i: int| list[i]@)
}

pub open spec fn optional_text(text: Option<String>) -> Option<Seq<char>> {
    match text {
        Some(text) => Some(text@),
        None => None,
    }
}

pub open spec fn empty_section() -> SectionView {
    SectionView {
        matches: Seq::empty(),
        event_codes: Seq::empty(),
        input_props: Seq::empty(),
        models: no_models(),
        attributes: no_attributes(),
        lid_switch_reliability: None,
        size_hint: None,
        resolution_hint: None,
        trackpoint_multiplier: None,
        device_class: None,
    }
}

impl SectionView {
    /// The section after one of its lines.
    pub open spec fn with(self, key: Seq<char>, value: Seq<char>) -> SectionView {
        let name = trimmed(key);
        let v = trimmed(value);
        if begins(key, "Match"@) {
            SectionView { matches: self.matches.push((name, v)), ..self }
        } else if name == "AttrEventCode"@ {
            SectionView { event_codes: self.event_codes.push(v), ..self }
        } else if name == "AttrInputProp"@ {
            SectionView { input_props: self.input_props.push(v), ..self }
        } else if name == "AttrSizeHint"@ {
            SectionView { size_hint: Some(v), ..self }
        } else if name == "AttrResolutionHint"@ {
            SectionView { resolution_hint: Some(v), ..self }
        } else if name == "AttrTrackpointMultiplier"@ {
            SectionView { trackpoint_multiplier: Some(v), ..self }
        } else if name == "AttrLidSwitchReliability"@ {
            SectionView { lid_switch_reliability: Some(v), ..self }
        } else if name == "AttrDeviceClass"@ {
            SectionView { device_class: Some(v), ..self }
        } else {
            SectionView {
                models: self.models.with(name, value),
                attributes: self.attributes.with(name, value),
                ..self
            }
        }
    }
}

impl Section {
    pub open spec fn contents(self) -> SectionView {
        SectionView {
            matches: pair_texts(self.matches@),
            event_codes: string_texts(self.event_codes@),
            input_props: string_texts(self.input_props@),
            models: self.models,
            attributes: self.attributes,
            lid_switch_reliability: optional_text(self.lid_switch_reliability),
            size_hint: optional_text(self.size_hint),
            resolution_hint: optional_text(self.resolution_hint),
            trackpoint_multiplier: optional_text(self.trackpoint_multiplier),
            device_class: optional_text(self.device_class),
        }
    }

    pub fn new() -> (s: Section)
        ensures
            s.contents() == empty_section(),
    {
        let s = Section {
            matches: Vec::new(),
            event_codes: Vec::new(),
            input_props: Vec::new(),
            models: Models::new(),
            attributes: Attributes::new(),
            lid_switch_reliability: None,
            size_hint: None,
            resolution_hint: None,
            trackpoint_multiplier: None,
            device_class: None,
        };
        assert(s.contents() =~= empty_section());
        s
    }

    fn add_match(&mut self, name: &[char], v: &[char])
        ensures
            final(self).contents() == (SectionView {
                matches: old(self).contents().matches.push((name@, v@)),
                ..old(self).contents()
            }),
    {
        self.matches.push((string_of(name), string_of(v)));
        assert(self.contents().matches =~= old(self).contents().matches.push((name@, v@)));
    }

    fn add_event_code(&mut self, v: &[char])
        ensures
            final(self).contents() == (SectionView {
                event_codes: old(self).contents().event_codes.push(v@),
                ..old(self).contents()
            }),
    {
        self.event_codes.push(string_of(v));
        assert(self.contents().event_codes =~= old(self).contents().event_codes.push(v@));
    }

    fn add_input_prop(&mut self, v: &[char])
        ensures
            final(self).contents() == (SectionView {
                input_props: old(self).contents().input_props.push(v@),
                ..old(self).contents()
            }),
    {
        self.input_props.push(string_of(v));
        assert(self.contents().input_props =~= old(self).contents().input_props.push(v@));
    }

    fn set_size(&mut self, v: &[char])
        ensures
            final(self).contents() == (SectionView { size_hint: Some(v@), ..old(self).contents() }),
    {
        self.size_hint = Some(string_of(v));
    }

    fn set_resolution(&mut self, v: &[char])
        ensures
            final(self).contents() == (SectionView {
                resolution_hint: Some(v@),
                ..old(self).contents()
            }),
    {
        self.resolution_hint = Some(string_of(v));
    }

    fn set_multiplier(&mut self, v: &[char])
        ensures
            final(self).contents() == (SectionView {
                trackpoint_multiplier: Some(v@),
                ..old(self).contents()
            }),
    {
        self.trackpoint_multiplier = Some(string_of(v));
    }

    fn set_reliability(&mut self, v: &[char])
        ensures
            final(self).contents() == (SectionView {
                lid_switch_reliability: Some(v@),
                ..old(self).contents()
            }),
    {
        self.lid_switch_reliability = Some(string_of(v));
    }

    fn set_class(&mut self, v: &[char])
        ensures
            final(self).contents() == (SectionView {
                device_class: Some(v@),
                ..old(self).contents()
            }),
    {
        self.device_class = Some(string_of(v));
    }

    fn set_values(&mut self, name: &[char], value: &[char])
        ensures
            final(self).contents() == (SectionView {
                models: old(self).contents().models.with(name@, value@),
                attributes: old(self).contents().attributes.with(name@, value@),
                ..old(self).contents()
            }),
    {
        let models = self.models.set(name, value);
        let attributes = self.attributes.set(name, value);
        self.models = models;
        self.attributes = attributes;
    }

    /// Takes in one line of a section.
    pub fn set(&mut self, key: &[char], value: &[char])
        ensures
            final(self).contents() == old(self).contents().with(key@, value@),
    {
        let name = trim(key);
        let v = trim(value);
        if begins_with(key, "Match") {
            self.add_match(name, v);
        } else if same_text(name, "AttrEventCode") {
            self.add_event_code(v);
        } else if same_text(name, "AttrInputProp") {
            self.add_input_prop(v);
        } else if same_text(name, "AttrSizeHint") {
            self.set_size(v);
        } else if same_text(name, "AttrResolutionHint") {
            self.set_resolution(v);
        } else if same_text(name, "AttrTrackpointMultiplier") {
            self.set_multiplier(v);
        } else if same_text(name, "AttrLidSwitchReliability") {
            self.set_reliability(v);
        } else if same_text(name, "AttrDeviceClass") {
            self.set_class(v);
        } else {
            self.set_values(name, value);
        }
    }
}

} // verus!
