//! The companion's settings.
use vstd::prelude::*;

verus! {

/// What the companion does with a touchpad. Its pointer speed is a scale
/// factor that the caller applies.
#[derive(Clone, Copy, Debug, PartialEq, Eq, Structural)]
pub struct InputConfig {
    pub tap_to_click: bool,
    pub natural_scrolling: bool,
    pub disable_while_typing: bool,
}

impl Default for InputConfig {
    fn default() -> (config: InputConfig)
        ensures
            config.tap_to_click && config.natural_scrolling && config.disable_while_typing,
    {
        InputConfig { tap_to_click: true, natural_scrolling: true, disable_while_typing: true }
    }
}

} // verus!
