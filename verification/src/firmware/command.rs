//! Commands sent to the light engine.

use vstd::prelude::*;

use crate::effect::EffectSlot;

verus! {

/// Duration (ms) of a color crossfade requested from Home Assistant.
pub const COLOR_TRANSITION_MS: u64 = 300;

/// Duration (ms) of a brightness change requested from Home Assistant.
pub const BRIGHTNESS_TRANSITION_MS: u64 = 300;

/// A command for the light engine.
#[derive(Clone, Copy, Debug)]
pub enum Command {
    /// Switch to another effect
    SwitchEffect(EffectSlot),
    /// Crossfade to a color
    SetColor { r: u8, g: u8, b: u8, duration_ms: u64 },
    /// Fade to a brightness
    SetBrightness { brightness: u8, duration_ms: u64 },
    /// Fade out over the given duration
    PowerOff(u64),
    /// Fade in over the given duration
    PowerOn(u64),
}

} // verus!
