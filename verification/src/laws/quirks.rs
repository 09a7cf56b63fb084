//! Quirks: what a line, a condition and a token mean.
use vstd::prelude::*;
use crate::evtrans::law_transition_is_local;
use crate::quirks::apply::{
    is_bus, property_matches, section_matches, token_action, untyped, without_text, AppliedView,
    CodesView, Disabled, IdentityView, PropertiesView, ReadingView,
};
use crate::quirks::glob::glob_result;
use crate::quirks::section::{
    empty_section, key_code_spec, named_key, number_spec, Attributes, KeyboardIntegration, Models,
    SectionView,
};
use crate::text::{begins, found_at, halves, lowered, parsed, same_folded, trimmed};

verus! {

// ---------------------------------------------------------------------------
// Lines
// ---------------------------------------------------------------------------

proof fn lemma_model_names()
    ensures
        "AttrIsVirtual"@.len() == 13,
        "ModelLenovoScrollPoint"@.len() == 22,
        "ModelALPSSerialTouchpad"@.len() == 23,
        "ModelDellCanvasTotem"@.len() == 20,
        "ModelAppleTouchpad"@.len() == 18,
        "ModelAppleTouchpadOneButton"@.len() == 27,
        "ModelWacomTouchpad"@.len() == 18,
        "ModelTrackball"@.len() == 14,
        "ModelTabletModeSwitchUnreliable"@.len() == 31,
        "ModelBouncingKeys"@.len() == 17,
        "ModelHPPavilionDM4Touchpad"@.len() == 26,
        "ModelHPZBookStudioG3"@.len() == 20,
        "ModelInvertHorizontalScrolling"@.len() == 30,
        "ModelLenovoT450Touchpad"@.len() == 23,
        "ModelLenovoX1Gen6Touchpad"@.len() == 25,
        "ModelLenovoX230"@.len() == 15,
        "ModelScrollOnMiddleClick"@.len() == 24,
        "ModelSynapticsSerialTouchpad"@.len() == 28,
        "ModelTabletModeNoSuspend"@.len() == 24,
        "ModelTouchpadPhantomClicks"@.len() == 26,
        "ModelALPSSerialTouchpad"@[5] == 'A' && "ModelLenovoT450Touchpad"@[5] == 'L',
        "ModelDellCanvasTotem"@[5] == 'D' && "ModelHPZBookStudioG3"@[5] == 'H',
        "ModelAppleTouchpad"@[5] == 'A' && "ModelWacomTouchpad"@[5] == 'W',
        "ModelHPPavilionDM4Touchpad"@[5] == 'H' && "ModelTouchpadPhantomClicks"@[5] == 'T',
        "ModelScrollOnMiddleClick"@[5] == 'S' && "ModelTabletModeNoSuspend"@[5] == 'T',
{
    reveal_strlit("AttrIsVirtual");
    reveal_strlit("ModelLenovoScrollPoint");
    reveal_strlit("ModelALPSSerialTouchpad");
    reveal_strlit("ModelDellCanvasTotem");
    reveal_strlit("ModelAppleTouchpad");
    reveal_strlit("ModelAppleTouchpadOneButton");
    reveal_strlit("ModelWacomTouchpad");
    reveal_strlit("ModelTrackball");
    reveal_strlit("ModelTabletModeSwitchUnreliable");
    reveal_strlit("ModelBouncingKeys");
    reveal_strlit("ModelHPPavilionDM4Touchpad");
    reveal_strlit("ModelHPZBookStudioG3");
    reveal_strlit("ModelInvertHorizontalScrolling");
    reveal_strlit("ModelLenovoT450Touchpad");
    reveal_strlit("ModelLenovoX1Gen6Touchpad");
    reveal_strlit("ModelLenovoX230");
    reveal_strlit("ModelScrollOnMiddleClick");
    reveal_strlit("ModelSynapticsSerialTouchpad");
    reveal_strlit("ModelTabletModeNoSuspend");
    reveal_strlit("ModelTouchpadPhantomClicks");
    assert("AttrIsVirtual"@.len() == 13);
    assert("ModelLenovoScrollPoint"@.len() == 22);
    assert("ModelALPSSerialTouchpad"@.len() == 23);
    assert("ModelDellCanvasTotem"@.len() == 20);
    assert("ModelAppleTouchpad"@.len() == 18);
    assert("ModelAppleTouchpadOneButton"@.len() == 27);
    assert("ModelWacomTouchpad"@.len() == 18);
    assert("ModelTrackball"@.len() == 14);
    assert("ModelTabletModeSwitchUnreliable"@.len() == 31);
    assert("ModelBouncingKeys"@.len() == 17);
    assert("ModelHPPavilionDM4Touchpad"@.len() == 26);
    assert("ModelHPZBookStudioG3"@.len() == 20);
    assert("ModelInvertHorizontalScrolling"@.len() == 30);
    assert("ModelLenovoT450Touchpad"@.len() == 23);
    assert("ModelLenovoX1Gen6Touchpad"@.len() == 25);
    assert("ModelLenovoX230"@.len() == 15);
    assert("ModelScrollOnMiddleClick"@.len() == 24);
    assert("ModelSynapticsSerialTouchpad"@.len() == 28);
    assert("ModelTabletModeNoSuspend"@.len() == 24);
    assert("ModelTouchpadPhantomClicks"@.len() == 26);
}

/// A line that names a model switches what it names on with `1` and off with
/// anything else.
#[verifier::rlimit(40)]
pub proof fn law_models_are_switched_by_their_name(m: Models, value: Seq<char>)
    ensures
        ({
            let on = trimmed(value) == "1"@;
            &&& m.with("AttrIsVirtual"@, value).is_virtual == on
            &&& m.with("ModelLenovoScrollPoint"@, value).lenovo_scrollpoint == on
            &&& m.with("ModelALPSSerialTouchpad"@, value).alps_serial_touchpad == on
            &&& m.with("ModelDellCanvasTotem"@, value).dell_canvas_totem == on
            &&& m.with("ModelAppleTouchpad"@, value).apple_touchpad == on
            &&& m.with("ModelAppleTouchpadOneButton"@, value).apple_touchpad_onebutton == on
            &&& m.with("ModelWacomTouchpad"@, value).wacom_touchpad == on
            &&& m.with("ModelTrackball"@, value).trackball == on
            &&& m.with("ModelTabletModeSwitchUnreliable"@, value).tablet_mode_switch_unreliable == on
            &&& m.with("ModelBouncingKeys"@, value).bouncing_keys == on
            &&& m.with("ModelHPPavilionDM4Touchpad"@, value).hp_pavilion_dm4_touchpad == on
            &&& m.with("ModelHPZBookStudioG3"@, value).hp_zbook_studio_g3 == on
            &&& m.with("ModelInvertHorizontalScrolling"@, value).invert_horizontal_scrolling == on
            &&& m.with("ModelLenovoT450Touchpad"@, value).lenovo_t450_touchpad == on
            &&& m.with("ModelLenovoX1Gen6Touchpad"@, value).lenovo_x1_gen6_touchpad == on
            &&& m.with("ModelLenovoX230"@, value).lenovo_x230 == on
            &&& m.with("ModelScrollOnMiddleClick"@, value).scroll_on_middle_click == on
            &&& m.with("ModelSynapticsSerialTouchpad"@, value).synaptics_serial_touchpad == on
            &&& m.with("ModelTabletModeNoSuspend"@, value).tablet_mode_no_suspend == on
            &&& m.with("ModelTouchpadPhantomClicks"@, value).touchpad_phantom_clicks == on
        }),
{
    reveal(Models::with);
    lemma_model_names();
}

/// A line leaves every model alone that it does not name.
pub proof fn law_lines_change_what_they_name(m: Models, key: Seq<char>, value: Seq<char>)
    ensures
        ({
            let after = m.with(key, value);
            &&& key != "AttrIsVirtual"@ ==> after.is_virtual == m.is_virtual
            &&& key != "ModelLenovoScrollPoint"@ ==> after.lenovo_scrollpoint == m.lenovo_scrollpoint
            &&& key != "ModelALPSSerialTouchpad"@ ==> after.alps_serial_touchpad == m.alps_serial_touchpad
            &&& key != "ModelDellCanvasTotem"@ ==> after.dell_canvas_totem == m.dell_canvas_totem
            &&& key != "ModelAppleTouchpad"@ ==> after.apple_touchpad == m.apple_touchpad
            &&& key != "ModelAppleTouchpadOneButton"@ ==> after.apple_touchpad_onebutton == m.apple_touchpad_onebutton
            &&& key != "ModelWacomTouchpad"@ ==> after.wacom_touchpad == m.wacom_touchpad
            &&& key != "ModelTrackball"@ ==> after.trackball == m.trackball
            &&& key != "ModelTabletModeSwitchUnreliable"@ ==> after.tablet_mode_switch_unreliable == m.tablet_mode_switch_unreliable
            &&& key != "ModelBouncingKeys"@ ==> after.bouncing_keys == m.bouncing_keys
            &&& key != "ModelHPPavilionDM4Touchpad"@ ==> after.hp_pavilion_dm4_touchpad == m.hp_pavilion_dm4_touchpad
            &&& key != "ModelHPZBookStudioG3"@ ==> after.hp_zbook_studio_g3 == m.hp_zbook_studio_g3
            &&& key != "ModelInvertHorizontalScrolling"@ ==> after.invert_horizontal_scrolling == m.invert_horizontal_scrolling
            &&& key != "ModelLenovoT450Touchpad"@ ==> after.lenovo_t450_touchpad == m.lenovo_t450_touchpad
            &&& key != "ModelLenovoX1Gen6Touchpad"@ ==> after.lenovo_x1_gen6_touchpad == m.lenovo_x1_gen6_touchpad
            &&& key != "ModelLenovoX230"@ ==> after.lenovo_x230 == m.lenovo_x230
            &&& key != "ModelScrollOnMiddleClick"@ ==> after.scroll_on_middle_click == m.scroll_on_middle_click
            &&& key != "ModelSynapticsSerialTouchpad"@ ==> after.synaptics_serial_touchpad == m.synaptics_serial_touchpad
            &&& key != "ModelTabletModeNoSuspend"@ ==> after.tablet_mode_no_suspend == m.tablet_mode_no_suspend
            &&& key != "ModelTouchpadPhantomClicks"@ ==> after.touchpad_phantom_clicks == m.touchpad_phantom_clicks
            &&& key != "AttrTPKComboLayout"@ ==> after.tpkb_combo_layout_below
                == m.tpkb_combo_layout_below
        }),
{
    reveal(Models::with);
}

proof fn lemma_attribute_names()
    ensures
        "ModelTouchpadVisibleMarker"@.len() == 26,
        "AttrKeyboardIntegration"@.len() == 23,
        "AttrPointingStickIntegration"@.len() == 28,
        "AttrPalmPressureThreshold"@.len() == 25,
        "AttrPalmSizeThreshold"@.len() == 21,
        "AttrThumbPressureThreshold"@.len() == 26,
        "AttrThumbSizeThreshold"@.len() == 22,
        "AttrTabletSmoothing"@.len() == 19,
        "AttrMscTimestamp"@.len() == 16,
        "AttrPressureRange"@.len() == 17,
        "AttrTouchSizeRange"@.len() == 18,
        "ModelTouchpadVisibleMarker"@[0] == 'M' && "AttrThumbPressureThreshold"@[0] == 'A',
{
    reveal_strlit("ModelTouchpadVisibleMarker");
    reveal_strlit("AttrKeyboardIntegration");
    reveal_strlit("AttrPointingStickIntegration");
    reveal_strlit("AttrPalmPressureThreshold");
    reveal_strlit("AttrPalmSizeThreshold");
    reveal_strlit("AttrThumbPressureThreshold");
    reveal_strlit("AttrThumbSizeThreshold");
    reveal_strlit("AttrTabletSmoothing");
    reveal_strlit("AttrMscTimestamp");
    reveal_strlit("AttrPressureRange");
    reveal_strlit("AttrTouchSizeRange");
    assert("ModelTouchpadVisibleMarker"@.len() == 26);
    assert("AttrKeyboardIntegration"@.len() == 23);
    assert("AttrPointingStickIntegration"@.len() == 28);
    assert("AttrPalmPressureThreshold"@.len() == 25);
    assert("AttrPalmSizeThreshold"@.len() == 21);
    assert("AttrThumbPressureThreshold"@.len() == 26);
    assert("AttrThumbSizeThreshold"@.len() == 22);
    assert("AttrTabletSmoothing"@.len() == 19);
    assert("AttrMscTimestamp"@.len() == 16);
    assert("AttrPressureRange"@.len() == 17);
    assert("AttrTouchSizeRange"@.len() == 18);
}

/// Whether a value is a number without a sign.
pub open spec fn says_threshold(value: Seq<char>, given: Option<u32>) -> bool {
    &&& given is Some ==> parsed(trimmed(value), 10, false, 0, 0xffff_ffff) == Some(given->0 as int)
    &&& given is None ==> parsed(trimmed(value), 10, false, 0, 0xffff_ffff) is None
}

/// Whether a value is a switch.
pub open spec fn says_switch(value: Seq<char>, given: Option<bool>) -> bool {
    &&& trimmed(value) == "1"@ ==> given == Some(true)
    &&& trimmed(value) == "0"@ ==> given == Some(false)
    &&& trimmed(value) != "1"@ && trimmed(value) != "0"@ ==> given is None
}

/// Whether a value says that a device is built in, or that it is not.
pub open spec fn says_integration(value: Seq<char>, given: Option<KeyboardIntegration>) -> bool {
    let v = lowered(trimmed(value));
    &&& v == "internal"@ ==> given == Some(KeyboardIntegration::Internal)
    &&& v == "external"@ ==> given == Some(KeyboardIntegration::External)
    &&& v != "internal"@ && v != "external"@ ==> given is None
}

/// Whether a value is two numbers with a colon between them, the one for
/// going down first, and that one not the smaller.
pub open spec fn says_range(value: Seq<char>, given: Option<(i32, i32)>) -> bool {
    match given {
        Some((down, up)) => {
            &&& down >= up
            &&& halves(trimmed(value), ':') matches Some((first, second))
                && parsed(first, 10, true, i32::MIN as int, i32::MAX as int) == Some(down as int)
                && parsed(second, 10, true, i32::MIN as int, i32::MAX as int) == Some(up as int)
        },
        None => true,
    }
}

/// A line that gives an attribute sets that attribute to what its value says.
#[verifier::rlimit(40)]
pub proof fn law_attributes_are_what_their_lines_say(a: Attributes, value: Seq<char>)
    ensures
        says_switch(value, a.with("ModelTouchpadVisibleMarker"@, value).visible_marker),
        says_integration(value, a.with("AttrKeyboardIntegration"@, value).keyboard_integration),
        says_integration(value, a.with("AttrPointingStickIntegration"@, value).pointing_stick_integration),
        says_threshold(value, a.with("AttrPalmPressureThreshold"@, value).palm_pressure_threshold),
        says_threshold(value, a.with("AttrPalmSizeThreshold"@, value).palm_size_threshold),
        says_threshold(value, a.with("AttrThumbPressureThreshold"@, value).thumb_pressure_threshold),
        says_threshold(value, a.with("AttrThumbSizeThreshold"@, value).thumb_size_threshold),
        says_switch(value, a.with("AttrTabletSmoothing"@, value).tablet_smoothing),
        says_range(value, a.with("AttrPressureRange"@, value).pressure_range),
        says_range(value, a.with("AttrTouchSizeRange"@, value).touch_size_range),
        trimmed(value) == "watch"@ ==> a.with("AttrMscTimestamp"@, value).msc_timestamp_watch == Some(
            true,
        ),
        trimmed(value) == "ignore"@ ==> a.with("AttrMscTimestamp"@, value).msc_timestamp_watch
            == Some(false),
{
    reveal(Attributes::with);
    lemma_attribute_names();
    reveal_strlit("1");
    reveal_strlit("0");
    assert("1"@[0] == '1' && "0"@[0] == '0');
    reveal_strlit("internal");
    reveal_strlit("external");
    assert("internal"@[0] == 'i' && "external"@[0] == 'e');
    reveal_strlit("watch");
    reveal_strlit("ignore");
    assert("watch"@.len() == 5 && "ignore"@.len() == 6);
}

/// A line leaves every attribute alone that it does not give.
pub proof fn law_lines_change_what_they_give(a: Attributes, key: Seq<char>, value: Seq<char>)
    ensures
        ({
            let after = a.with(key, value);
            &&& key != "ModelTouchpadVisibleMarker"@ ==> after.visible_marker == a.visible_marker
            &&& key != "AttrKeyboardIntegration"@ ==> after.keyboard_integration == a.keyboard_integration
            &&& key != "AttrPointingStickIntegration"@ ==> after.pointing_stick_integration == a.pointing_stick_integration
            &&& key != "AttrPalmPressureThreshold"@ ==> after.palm_pressure_threshold == a.palm_pressure_threshold
            &&& key != "AttrPalmSizeThreshold"@ ==> after.palm_size_threshold == a.palm_size_threshold
            &&& key != "AttrThumbPressureThreshold"@ ==> after.thumb_pressure_threshold == a.thumb_pressure_threshold
            &&& key != "AttrThumbSizeThreshold"@ ==> after.thumb_size_threshold == a.thumb_size_threshold
            &&& key != "AttrTabletSmoothing"@ ==> after.tablet_smoothing == a.tablet_smoothing
            &&& key != "AttrMscTimestamp"@ ==> after.msc_timestamp_watch == a.msc_timestamp_watch
            &&& key != "AttrPressureRange"@ ==> after.pressure_range == a.pressure_range
            &&& key != "AttrTouchSizeRange"@ ==> after.touch_size_range == a.touch_size_range
        }),
{
    reveal(Attributes::with);
}

/// Of two sections the later decides what both give; what only one gives is
/// kept.
pub proof fn law_later_attributes_prevail(a: Attributes, b: Attributes)
    ensures
        ({
            let c = a.replaced(b);
            &&& c.visible_marker == (if b.visible_marker is Some { b.visible_marker } else { a.visible_marker })
            &&& c.keyboard_integration == (if b.keyboard_integration is Some { b.keyboard_integration } else { a.keyboard_integration })
            &&& c.pointing_stick_integration == (if b.pointing_stick_integration is Some { b.pointing_stick_integration } else { a.pointing_stick_integration })
            &&& c.palm_pressure_threshold == (if b.palm_pressure_threshold is Some { b.palm_pressure_threshold } else { a.palm_pressure_threshold })
            &&& c.palm_size_threshold == (if b.palm_size_threshold is Some { b.palm_size_threshold } else { a.palm_size_threshold })
            &&& c.thumb_pressure_threshold == (if b.thumb_pressure_threshold is Some { b.thumb_pressure_threshold } else { a.thumb_pressure_threshold })
            &&& c.thumb_size_threshold == (if b.thumb_size_threshold is Some { b.thumb_size_threshold } else { a.thumb_size_threshold })
            &&& c.tablet_smoothing == (if b.tablet_smoothing is Some { b.tablet_smoothing } else { a.tablet_smoothing })
            &&& c.msc_timestamp_watch == (if b.msc_timestamp_watch is Some { b.msc_timestamp_watch } else { a.msc_timestamp_watch })
            &&& c.pressure_range == (if b.pressure_range is Some { b.pressure_range } else { a.pressure_range })
            &&& c.touch_size_range == (if b.touch_size_range is Some { b.touch_size_range } else { a.touch_size_range })
        }),
{
}

/// What any of two sections says of a model holds, and nothing else does.
pub proof fn law_models_add_up(a: Models, b: Models)
    ensures
        ({
            let c = a.joined(b);
            &&& c.is_virtual <==> a.is_virtual || b.is_virtual
            &&& c.lenovo_scrollpoint <==> a.lenovo_scrollpoint || b.lenovo_scrollpoint
            &&& c.alps_serial_touchpad <==> a.alps_serial_touchpad || b.alps_serial_touchpad
            &&& c.dell_canvas_totem <==> a.dell_canvas_totem || b.dell_canvas_totem
            &&& c.apple_touchpad <==> a.apple_touchpad || b.apple_touchpad
            &&& c.apple_touchpad_onebutton <==> a.apple_touchpad_onebutton || b.apple_touchpad_onebutton
            &&& c.wacom_touchpad <==> a.wacom_touchpad || b.wacom_touchpad
            &&& c.trackball <==> a.trackball || b.trackball
            &&& c.tablet_mode_switch_unreliable <==> a.tablet_mode_switch_unreliable || b.tablet_mode_switch_unreliable
            &&& c.bouncing_keys <==> a.bouncing_keys || b.bouncing_keys
            &&& c.hp_pavilion_dm4_touchpad <==> a.hp_pavilion_dm4_touchpad || b.hp_pavilion_dm4_touchpad
            &&& c.hp_zbook_studio_g3 <==> a.hp_zbook_studio_g3 || b.hp_zbook_studio_g3
            &&& c.invert_horizontal_scrolling <==> a.invert_horizontal_scrolling || b.invert_horizontal_scrolling
            &&& c.lenovo_t450_touchpad <==> a.lenovo_t450_touchpad || b.lenovo_t450_touchpad
            &&& c.lenovo_x1_gen6_touchpad <==> a.lenovo_x1_gen6_touchpad || b.lenovo_x1_gen6_touchpad
            &&& c.lenovo_x230 <==> a.lenovo_x230 || b.lenovo_x230
            &&& c.scroll_on_middle_click <==> a.scroll_on_middle_click || b.scroll_on_middle_click
            &&& c.synaptics_serial_touchpad <==> a.synaptics_serial_touchpad || b.synaptics_serial_touchpad
            &&& c.tablet_mode_no_suspend <==> a.tablet_mode_no_suspend || b.tablet_mode_no_suspend
            &&& c.touchpad_phantom_clicks <==> a.touchpad_phantom_clicks || b.touchpad_phantom_clicks
            &&& c.clickfinger_default <==> a.clickfinger_default || b.clickfinger_default
            &&& c.tpkb_combo_layout_below <==> a.tpkb_combo_layout_below || b.tpkb_combo_layout_below
        }),
{
}

/// A line that begins with `Match` is a condition; lines of event codes,
/// properties and hints are kept in their order, without the space around
/// them.
pub proof fn law_sections_keep_what_they_are_told(s: SectionView, value: Seq<char>)
    ensures
        ({
            let v = trimmed(value);
            let code = s.with("AttrEventCode"@, value);
            let prop = s.with("AttrInputProp"@, value);
            let size = s.with("AttrSizeHint"@, value);
            let resolution = s.with("AttrResolutionHint"@, value);
            let vendor = s.with("MatchVendor"@, value);
            let class = s.with("AttrDeviceClass"@, value);
            &&& code == (SectionView { event_codes: s.event_codes.push(v), ..s })
            &&& prop == (SectionView { input_props: s.input_props.push(v), ..s })
            &&& size == (SectionView { size_hint: Some(v), ..s })
            &&& resolution == (SectionView { resolution_hint: Some(v), ..s })
            &&& class == (SectionView { device_class: Some(v), ..s })
            &&& vendor.matches.len() == s.matches.len() + 1 && vendor.matches.last()
                == ("MatchVendor"@, v) && vendor.event_codes == s.event_codes && vendor.models
                == s.models
        }),
{
    lemma_key("AttrEventCode"@);
    lemma_key("AttrInputProp"@);
    lemma_key("AttrSizeHint"@);
    lemma_key("AttrResolutionHint"@);
    lemma_key("AttrDeviceClass"@);
    lemma_key("MatchVendor"@);
    lemma_line_names();
    assert("MatchVendor"@.subrange(0, 5) =~= "Match"@);
}

/// No white space stands at either end of a name.
spec fn is_tight(name: Seq<char>) -> bool {
    &&& name.len() > 0
    &&& !crate::text::is_space(name[0])
    &&& !crate::text::is_space(name.last())
}

proof fn lemma_key(name: Seq<char>)
    ensures
        is_tight(name) ==> trimmed(name) == name,
{
    if is_tight(name) {
        assert(crate::text::solid_from(name, 0) == 0);
        assert(crate::text::solid_to(name, name.len() as int) == name.len());
        assert(name.subrange(0, name.len() as int) =~= name);
    }
}

proof fn lemma_line_names()
    ensures
        is_tight("AttrEventCode"@) && is_tight("AttrInputProp"@) && is_tight("AttrSizeHint"@)
            && is_tight("AttrResolutionHint"@) && is_tight("AttrDeviceClass"@) && is_tight(
            "MatchVendor"@,
        ),
        "AttrEventCode"@ != "AttrInputProp"@ && "AttrEventCode"@ != "AttrSizeHint"@
            && "AttrEventCode"@ != "AttrResolutionHint"@ && "AttrEventCode"@ != "AttrDeviceClass"@,
        "AttrInputProp"@ != "AttrSizeHint"@ && "AttrInputProp"@ != "AttrResolutionHint"@
            && "AttrInputProp"@ != "AttrDeviceClass"@,
        "AttrSizeHint"@ != "AttrResolutionHint"@ && "AttrSizeHint"@ != "AttrDeviceClass"@,
        "AttrResolutionHint"@ != "AttrDeviceClass"@,
        "AttrDeviceClass"@ != "AttrTrackpointMultiplier"@ && "AttrDeviceClass"@
            != "AttrLidSwitchReliability"@,
        !begins("AttrEventCode"@, "Match"@) && !begins("AttrInputProp"@, "Match"@) && !begins(
            "AttrSizeHint"@,
            "Match"@,
        ) && !begins("AttrResolutionHint"@, "Match"@) && !begins("AttrDeviceClass"@, "Match"@),
        "Match"@.len() == 5 && "MatchVendor"@.len() == 11,
        "MatchVendor"@[0] == "Match"@[0] && "MatchVendor"@[1] == "Match"@[1] && "MatchVendor"@[2]
            == "Match"@[2] && "MatchVendor"@[3] == "Match"@[3] && "MatchVendor"@[4] == "Match"@[4],
{
    reveal_strlit("AttrEventCode");
    reveal_strlit("AttrInputProp");
    reveal_strlit("AttrSizeHint");
    reveal_strlit("AttrResolutionHint");
    reveal_strlit("AttrDeviceClass");
    reveal_strlit("AttrTrackpointMultiplier");
    reveal_strlit("AttrLidSwitchReliability");
    reveal_strlit("MatchVendor");
    reveal_strlit("Match");
    assert("AttrEventCode"@.len() == 13);
    assert("AttrInputProp"@.len() == 13);
    assert("AttrSizeHint"@.len() == 12);
    assert("AttrResolutionHint"@.len() == 18);
    assert("AttrDeviceClass"@.len() == 15);
    assert("AttrTrackpointMultiplier"@.len() == 24);
    assert("AttrLidSwitchReliability"@.len() == 24);
    assert("MatchVendor"@.len() == 11);
    assert("Match"@.len() == 5);
    assert("AttrEventCode"@[4] == 'E' && "AttrInputProp"@[4] == 'I');
    assert("AttrEventCode"@.subrange(0, 5)[0] == 'A');
    assert("AttrInputProp"@.subrange(0, 5)[0] == 'A');
    assert("AttrSizeHint"@.subrange(0, 5)[0] == 'A');
    assert("AttrResolutionHint"@.subrange(0, 5)[0] == 'A');
    assert("AttrDeviceClass"@.subrange(0, 5)[0] == 'A');
    assert("Match"@[0] == 'M');
}

// ---------------------------------------------------------------------------
// Conditions
// ---------------------------------------------------------------------------
proof fn lemma_condition_names()
    ensures
        "MatchName"@.len() == 9,
        "MatchBus"@.len() == 8,
        "MatchVendor"@.len() == 11,
        "MatchProduct"@.len() == 12,
        "MatchVersion"@.len() == 12,
        "MatchUdevType"@.len() == 13,
        "MatchDMIModalias"@.len() == 16,
        "MatchDeviceTree"@.len() == 15,
        "MatchProduct"@[5] == 'P' && "MatchVersion"@[5] == 'V',
{
    reveal_strlit("MatchName");
    reveal_strlit("MatchBus");
    reveal_strlit("MatchVendor");
    reveal_strlit("MatchProduct");
    reveal_strlit("MatchVersion");
    reveal_strlit("MatchUdevType");
    reveal_strlit("MatchDMIModalias");
    reveal_strlit("MatchDeviceTree");
    assert("MatchName"@.len() == 9);
    assert("MatchBus"@.len() == 8);
    assert("MatchVendor"@.len() == 11);
    assert("MatchProduct"@.len() == 12);
    assert("MatchVersion"@.len() == 12);
    assert("MatchUdevType"@.len() == 13);
    assert("MatchDMIModalias"@.len() == 16);
    assert("MatchDeviceTree"@.len() == 15);
}

/// A condition is held against what it names: names, firmware and device tree
/// by pattern, vendor, product and version by number, types without regard to
/// case.
pub proof fn law_conditions_are_about_what_they_name(value: Seq<char>, id: IdentityView)
    ensures
        property_matches("MatchName"@, value, id) == glob_result(value, id.name),
        property_matches("MatchVendor"@, value, id) == (number_spec(value) == Some(
            id.vendor as int,
        )),
        property_matches("MatchProduct"@, value, id) == (number_spec(value) == Some(
            id.product as int,
        )),
        property_matches("MatchVersion"@, value, id) == (number_spec(value) == Some(
            id.version as int,
        )),
        property_matches("MatchUdevType"@, value, id) <==> exists|i: int|
            0 <= i < id.udev_types.len() && lowered(value) == lowered(#[trigger] id.udev_types[i]),
        property_matches("MatchDMIModalias"@, value, id) == glob_result(value, id.dmi_modalias),
        property_matches("MatchDeviceTree"@, value, id) == glob_result(value, id.device_tree),
{
    reveal(property_matches);
    lemma_condition_names();
    if exists|i: int|
        0 <= i < id.udev_types.len() && lowered(value) == lowered(#[trigger] id.udev_types[i]) {
        let i = choose|i: int|
            0 <= i < id.udev_types.len() && lowered(value) == lowered(#[trigger] id.udev_types[i]);
        assert(same_folded(value, id.udev_types[i]));
    }
    if property_matches("MatchUdevType"@, value, id) {
        let i = choose|i: int|
            0 <= i < id.udev_types.len() && same_folded(value, #[trigger] id.udev_types[i]);
        assert(lowered(value) == lowered(id.udev_types[i]));
    }
}

/// Buses go by their kernel numbers.
pub proof fn law_buses_have_numbers(name: Seq<char>, bus: u16)
    ensures
        lowered(name) == "usb"@ ==> (is_bus(name, bus) <==> bus == 3),
        lowered(name) == "bluetooth"@ ==> (is_bus(name, bus) <==> bus == 5),
        lowered(name) == "ps2"@ ==> (is_bus(name, bus) <==> bus == 0x11),
        lowered(name) == "i2c"@ ==> (is_bus(name, bus) <==> bus == 0x18),
        lowered(name) == "spi"@ ==> (is_bus(name, bus) <==> bus == 0x1c),
        lowered(name) == "rmi"@ ==> (is_bus(name, bus) <==> bus == 0x1d),
        is_bus(name, bus) ==> bus == 3 || bus == 5 || bus == 0x11 || bus == 0x18 || bus == 0x1c
            || bus == 0x1d,
{
    reveal_strlit("usb");
    reveal_strlit("bluetooth");
    reveal_strlit("ps2");
    reveal_strlit("i8042");
    reveal_strlit("i2c");
    reveal_strlit("spi");
    reveal_strlit("rmi");
    assert("usb"@[0] == 'u' && "ps2"@[0] == 'p' && "i2c"@[0] == 'i' && "spi"@[0] == 's'
        && "rmi"@[0] == 'r');
    assert("usb"@.len() == 3 && "ps2"@.len() == 3 && "i2c"@.len() == 3 && "spi"@.len() == 3
        && "rmi"@.len() == 3 && "bluetooth"@.len() == 9 && "i8042"@.len() == 5);
}

/// A section is about a device only if every one of its conditions holds; a
/// section without conditions is about every device. What is not about the
/// device changes nothing.
pub proof fn law_every_condition_counts(
    a: AppliedView,
    section: SectionView,
    key: Seq<char>,
    value: Seq<char>,
    id: IdentityView,
)
    ensures
        ({
            let more = SectionView { matches: section.matches.push((key, value)), ..section };
            &&& section_matches(more, id) <==> section_matches(section, id) && property_matches(
                key,
                value,
                id,
            )
            &&& section.matches.len() == 0 ==> section_matches(section, id)
            &&& !section_matches(section, id) ==> a.with_section(section, id) == a
        }),
{
    let more = SectionView { matches: section.matches.push((key, value)), ..section };
    if section_matches(more, id) {
        assert(more.matches[section.matches.len() as int] == (key, value));
        assert forall|i: int| 0 <= i < section.matches.len() implies property_matches(
            (#[trigger] section.matches[i]).0,
            section.matches[i].1,
            id,
        ) by {
            assert(more.matches[i] == section.matches[i]);
        }
    }
    if section_matches(section, id) && property_matches(key, value, id) {
        assert forall|i: int| 0 <= i < more.matches.len() implies property_matches(
            (#[trigger] more.matches[i]).0,
            more.matches[i].1,
            id,
        ) by {
            if i < section.matches.len() {
                assert(more.matches[i] == section.matches[i]);
            }
        }
    }
}

// ---------------------------------------------------------------------------
// Tokens
// ---------------------------------------------------------------------------
/// A token switches on with a plus and off with a minus; anything else does
/// nothing.
pub proof fn law_tokens_switch_on_and_off(name: Seq<char>)
    ensures
        token_action(seq!['+'] + name) == Some((true, name)),
        token_action(seq!['-'] + name) == Some((false, name)),
        name.len() > 0 && name[0] != '+' && name[0] != '-' ==> token_action(name) is None,
        token_action(Seq::empty()) is None,
{
    assert((seq!['+'] + name).skip(1) =~= name);
    assert((seq!['-'] + name).skip(1) =~= name);
    assert((seq!['+'] + name)[0] == '+');
    assert((seq!['-'] + name)[0] == '-');
}

/// A key that is switched on is among the keys of the device, one that is
/// switched off is not; no other key changes, and neither do the axes.
pub proof fn law_keys_are_switched(v: CodesView, name: Seq<char>, code: u16, other: u16)
    requires
        key_code_spec(name) == Some(code as int),
        v.disabled.with(name, true) is None,
        v.disabled.with(name, false) is None,
        other != code,
    ensures
        ({
            let on = v.with_token(seq!['+'] + name);
            let off = v.with_token(seq!['-'] + name);
            &&& on.codes.contains(code)
            &&& !off.codes.contains(code)
            &&& on.codes.contains(other) == v.codes.contains(other)
            &&& off.codes.contains(other) == v.codes.contains(other)
            &&& on.disabled == v.disabled && off.disabled == v.disabled
            &&& on.messages.len() == v.messages.len() + 1 && off.messages.len() == v.messages.len()
                + 1
        }),
{
    law_tokens_switch_on_and_off(name);
    law_transition_is_local(v.codes, code, true, other);
    law_transition_is_local(v.codes, code, false, other);
}

proof fn lemma_axis_names()
    ensures
        forall|prefix: Seq<char>|
            #![trigger untyped("ABS_TILT_X"@, prefix)]
            prefix.len() > 0 && prefix[0] == 'E' ==> untyped("ABS_TILT_X"@, prefix)
                == "ABS_TILT_X"@,
        forall|prefix: Seq<char>|
            #![trigger untyped("ABS_TILT_Y"@, prefix)]
            prefix.len() > 0 && prefix[0] == 'E' ==> untyped("ABS_TILT_Y"@, prefix)
                == "ABS_TILT_Y"@,
        forall|prefix: Seq<char>|
            #![trigger untyped("ABS_PRESSURE"@, prefix)]
            prefix.len() > 0 && prefix[0] == 'E' ==> untyped("ABS_PRESSURE"@, prefix)
                == "ABS_PRESSURE"@,
        forall|prefix: Seq<char>|
            #![trigger untyped("ABS_DISTANCE"@, prefix)]
            prefix.len() > 0 && prefix[0] == 'E' ==> untyped("ABS_DISTANCE"@, prefix)
                == "ABS_DISTANCE"@,
        forall|prefix: Seq<char>|
            #![trigger untyped("REL_WHEEL_HI_RES"@, prefix)]
            prefix.len() > 0 && prefix[0] == 'E' ==> untyped("REL_WHEEL_HI_RES"@, prefix)
                == "REL_WHEEL_HI_RES"@,
        forall|prefix: Seq<char>|
            #![trigger untyped("REL_HWHEEL_HI_RES"@, prefix)]
            prefix.len() > 0 && prefix[0] == 'E' ==> untyped("REL_HWHEEL_HI_RES"@, prefix)
                == "REL_HWHEEL_HI_RES"@,
        "EV_REL:"@.len() == 7 && "EV_REL:"@[0] == 'E' && "EV_ABS:"@.len() == 7 && "EV_ABS:"@[0]
            == 'E',
{
    reveal_strlit("EV_REL:");
    reveal_strlit("EV_ABS:");
    lemma_untyped("ABS_TILT_X"@);
    lemma_untyped("ABS_TILT_Y"@);
    lemma_untyped("ABS_PRESSURE"@);
    lemma_untyped("ABS_DISTANCE"@);
    lemma_untyped("REL_WHEEL_HI_RES"@);
    lemma_untyped("REL_HWHEEL_HI_RES"@);
    reveal_strlit("ABS_TILT_X");
    reveal_strlit("ABS_TILT_Y");
    reveal_strlit("ABS_PRESSURE");
    reveal_strlit("ABS_DISTANCE");
    reveal_strlit("REL_WHEEL_HI_RES");
    reveal_strlit("REL_HWHEEL_HI_RES");
}

proof fn lemma_untyped(name: Seq<char>)
    ensures
        name.len() > 0 && name[0] != 'E' ==> forall|prefix: Seq<char>|
            #![trigger untyped(name, prefix)]
            prefix.len() > 0 && prefix[0] == 'E' ==> untyped(name, prefix) == name,
{
    if name.len() > 0 && name[0] != 'E' {
        assert forall|prefix: Seq<char>|
            #![trigger untyped(name, prefix)]
            prefix.len() > 0 && prefix[0] == 'E' implies untyped(name, prefix) == name by {
            if found_at(name, prefix, 0) {
                assert(name.subrange(0, prefix.len() as int)[0] == name[0]);
            }
        }
    }
}

/// An axis that is switched off is not believed, one that is switched on is
/// again; each on its own.
pub proof fn law_axes_are_switched(d: Disabled, enable: bool)
    ensures
        d.with("ABS_TILT_X"@, enable) == Some(Disabled { tablet_tilt_x: !enable, ..d }),
        d.with("ABS_TILT_Y"@, enable) == Some(Disabled { tablet_tilt_y: !enable, ..d }),
        d.with("ABS_PRESSURE"@, enable) == Some(Disabled { abs_pressure: !enable, ..d }),
        d.with("ABS_DISTANCE"@, enable) == Some(Disabled { abs_distance: !enable, ..d }),
        d.with("REL_WHEEL_HI_RES"@, enable) == Some(
            Disabled { hi_res_wheel_vertical: !enable, ..d },
        ),
        d.with("REL_HWHEEL_HI_RES"@, enable) == Some(
            Disabled { hi_res_wheel_horizontal: !enable, ..d },
        ),
{
    reveal(Disabled::with);
    lemma_axis_names();
    reveal_strlit("ABS_TILT_X");
    reveal_strlit("ABS_TILT_Y");
    reveal_strlit("ABS_PRESSURE");
    reveal_strlit("ABS_DISTANCE");
    reveal_strlit("ABS_MT_PRESSURE");
    reveal_strlit("REL_WHEEL_HI_RES");
    reveal_strlit("REL_HWHEEL_HI_RES");
    assert("ABS_TILT_X"@.len() == 10);
    assert("ABS_TILT_Y"@.len() == 10);
    assert("ABS_PRESSURE"@.len() == 12);
    assert("ABS_DISTANCE"@.len() == 12);
    assert("ABS_MT_PRESSURE"@.len() == 15);
    assert("REL_WHEEL_HI_RES"@.len() == 16);
    assert("REL_HWHEEL_HI_RES"@.len() == 17);
    assert("ABS_TILT_X"@[9] == 'X' && "ABS_TILT_Y"@[9] == 'Y');
    assert("ABS_PRESSURE"@[4] == 'P' && "ABS_DISTANCE"@[4] == 'D');
}

proof fn lemma_kept(list: Seq<Seq<char>>, text: Seq<char>, other: Seq<char>)
    ensures
        without_text(list, text).contains(other) <==> list.contains(other) && other != text,
    decreases list.len(),
{
    if list.len() > 0 {
        let head = list.drop_last();
        lemma_kept(head, text, other);
        let kept = without_text(head, text);
        let all = without_text(list, text);
        assert(list =~= head.push(list.last()));
        assert(list[list.len() - 1] == list.last());
        if list.last() != text {
            assert(all == kept.push(list.last()));
            assert(all[kept.len() as int] == list.last());
            if kept.contains(other) {
                let i = choose|i: int| 0 <= i < kept.len() && kept[i] == other;
                assert(all[i] == other);
            }
            if all.contains(other) && other != list.last() {
                let i = choose|i: int| 0 <= i < all.len() && all[i] == other;
                assert(kept[i] == other);
            }
        }
        if head.contains(other) {
            let i = choose|i: int| 0 <= i < head.len() && head[i] == other;
            assert(list[i] == other);
        }
        if list.contains(other) && other != list.last() {
            let i = choose|i: int| 0 <= i < list.len() && list[i] == other;
            assert(head[i] == other);
        }
    }
}

proof fn lemma_pushed(list: Seq<Seq<char>>, text: Seq<char>, other: Seq<char>)
    ensures
        list.push(text).contains(other) <==> list.contains(other) || other == text,
{
    let more = list.push(text);
    assert(more[list.len() as int] == text);
    if list.contains(other) {
        let i = choose|i: int| 0 <= i < list.len() && list[i] == other;
        assert(more[i] == other);
    }
    if more.contains(other) && other != text {
        let i = choose|i: int| 0 <= i < more.len() && more[i] == other;
        assert(list[i] == other);
    }
}

/// A property that is switched on is on and not off, one that is switched off
/// is off and not on; others stay as they are.
pub proof fn law_properties_are_switched(p: PropertiesView, name: Seq<char>, other: Seq<char>)
    requires
        other != name,
    ensures
        ({
            let on = p.with_token(seq!['+'] + name);
            let off = p.with_token(seq!['-'] + name);
            &&& on.enabled.contains(name) && !on.disabled.contains(name)
            &&& off.disabled.contains(name) && !off.enabled.contains(name)
            &&& on.enabled.contains(other) == p.enabled.contains(other)
            &&& off.enabled.contains(other) == p.enabled.contains(other)
            &&& on.disabled.contains(other) == p.disabled.contains(other)
            &&& off.disabled.contains(other) == p.disabled.contains(other)
        }),
{
    law_tokens_switch_on_and_off(name);
    lemma_kept(p.enabled, name, name);
    lemma_kept(p.disabled, name, name);
    lemma_kept(p.enabled, name, other);
    lemma_kept(p.disabled, name, other);
    lemma_pushed(without_text(p.enabled, name), name, name);
    lemma_pushed(without_text(p.enabled, name), name, other);
    lemma_pushed(without_text(p.disabled, name), name, name);
    lemma_pushed(without_text(p.disabled, name), name, other);
}

// ---------------------------------------------------------------------------
// Files
// ---------------------------------------------------------------------------
/// A line in square brackets begins a section, and only then does the section
/// before it count. Comments, empty lines and what precedes the first section
/// change nothing; any other line with an equals sign belongs to its section.
pub proof fn law_lines_belong_to_their_section(r: ReadingView, raw: Seq<char>, id: IdentityView)
    ensures
        ({
            let line = trimmed(raw);
            let after = r.with_line(raw, id);
            let header = line.len() > 0 && line[0] == '[' && line.last() == ']';
            &&& header ==> after.section == Some(empty_section())
            &&& header && r.section is None ==> after.applied == r.applied
            &&& header && r.section is Some ==> after.applied == r.applied.with_section(
                r.section->0,
                id,
            )
            &&& !header ==> after.applied == r.applied
            &&& !header && (line.len() == 0 || line[0] == '#' || r.section is None) ==> after == r
            &&& !header && line.len() > 0 && line[0] != '#' && r.section is Some ==> (match halves(
                line,
                '=',
            ) {
                Some((key, value)) => after.section == Some(r.section->0.with(key, value)),
                None => after == r,
            })
        }),
{
}

/// Names of keys stand for their kernel codes.
pub proof fn law_key_names_stand_for_codes()
    ensures
        named_key("BTN_LEFT"@) == Some(0x110u16),
        named_key("BTN_RIGHT"@) == Some(0x111u16),
        named_key("BTN_MIDDLE"@) == Some(0x112u16),
        named_key("BTN_SIDE"@) == Some(0x113u16),
        named_key("BTN_EXTRA"@) == Some(0x114u16),
        named_key("BTN_0"@) == Some(0x100u16),
        named_key("KEY_F1"@) == Some(59u16),
{
    reveal_strlit("BTN_LEFT");
    reveal_strlit("BTN_RIGHT");
    reveal_strlit("BTN_MIDDLE");
    reveal_strlit("BTN_SIDE");
    reveal_strlit("BTN_EXTRA");
    reveal_strlit("BTN_FORWARD");
    reveal_strlit("BTN_BACK");
    reveal_strlit("BTN_TASK");
    reveal_strlit("BTN_0");
    reveal_strlit("KEY_F1");
    assert("BTN_LEFT"@.len() == 8 && "BTN_SIDE"@.len() == 8 && "BTN_RIGHT"@.len() == 9
        && "BTN_EXTRA"@.len() == 9 && "BTN_MIDDLE"@.len() == 10 && "BTN_FORWARD"@.len() == 11
        && "BTN_BACK"@.len() == 8 && "BTN_TASK"@.len() == 8 && "BTN_0"@.len() == 5
        && "KEY_F1"@.len() == 6);
    assert("BTN_LEFT"@[4] == 'L' && "BTN_SIDE"@[4] == 'S' && "BTN_RIGHT"@[4] == 'R'
        && "BTN_EXTRA"@[4] == 'E');
}

/// Without quirks every axis is believed, no property is switched, and the keys
/// are those of the device.
pub proof fn law_without_quirks_nothing_changes(codes: Seq<u16>)
    ensures
        ({
            let a = crate::quirks::apply::unchanged(codes);
            let d = a.disabled;
            &&& a.codes == codes
            &&& !d.hi_res_wheel_vertical && !d.hi_res_wheel_horizontal && !d.tablet_tilt_x
                && !d.tablet_tilt_y && !d.abs_distance && !d.abs_mt_pressure && !d.abs_pressure
                && !d.abs_mt_tool_type && !d.all_absolute_axes
            &&& a.enabled_input_props.len() == 0 && a.disabled_input_props.len() == 0
            &&& a.messages.len() == 0 && a.size_hints.len() == 0 && a.resolution_hints.len() == 0
            &&& a.attributes.keyboard_integration is None && a.attributes.pressure_range is None
                && a.attributes.palm_pressure_threshold is None
            &&& !a.models.is_virtual && !a.models.lenovo_scrollpoint && !a.models.bouncing_keys
                && !a.models.dell_canvas_totem && !a.models.alps_serial_touchpad
        }),
{
}

/// A number of 32 bits may stand behind a minus sign, which turns it around.
pub proof fn law_numbers_can_be_negative(digits: Seq<char>)
    requires
        digits.len() > 0,
        crate::text::all_digits(digits, 10),
        0 <= crate::text::numeral(digits, 10) <= i32::MAX,
    ensures
        crate::quirks::section::i32_spec(seq!['-'] + digits) == Some(
            -crate::text::numeral(digits, 10),
        ),
        crate::quirks::section::i32_spec(seq!['+'] + digits) == Some(
            crate::text::numeral(digits, 10),
        ),
{
    assert((seq!['-'] + digits).skip(1) =~= digits);
    assert((seq!['+'] + digits).skip(1) =~= digits);
}

/// Without quirks a device is of no special model.
pub proof fn law_devices_are_of_no_model_at_first()
    ensures
        ({
            let m = crate::quirks::section::no_models();
            &&& !m.apple_touchpad && !m.apple_touchpad_onebutton && !m.wacom_touchpad
            &&& !m.trackball && !m.tablet_mode_switch_unreliable && !m.hp_pavilion_dm4_touchpad
            &&& !m.hp_zbook_studio_g3 && !m.invert_horizontal_scrolling
            &&& !m.lenovo_t450_touchpad && !m.lenovo_x1_gen6_touchpad && !m.lenovo_x230
            &&& !m.scroll_on_middle_click && !m.synaptics_serial_touchpad
            &&& !m.tablet_mode_no_suspend && !m.touchpad_phantom_clicks
            &&& !m.clickfinger_default && !m.tpkb_combo_layout_below
        }),
{
}

} // verus!
