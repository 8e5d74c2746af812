//! Effects: the static color effect, the effect slot that holds the active effect, and the
//! names by which effects are requested.

use vstd::prelude::*;

use crate::color::Rgb;
use crate::gradient::{RainbowEffect, RainbowFlowEffect};
use crate::state::EffectId;
use crate::text::str_eq;
use crate::transition::{spec_tick, ColorTransition, ColorTransitionModel};

verus! {

/// Frame delta, in milliseconds, by which a static color advances its transition per frame
/// (about 60 frames per second).
pub const DEFAULT_FRAME_DELTA_MS: u64 = 16;

/// Static color effect: every pixel shows one color, with smooth crossfades between colors.
#[derive(Clone, Copy, Debug)]
pub struct StaticColorEffect {
    color: ColorTransition,
}

impl View for StaticColorEffect {
    type V = ColorTransitionModel;

    closed spec fn view(&self) -> ColorTransitionModel {
        self.color@
    }
}

/// A transition resting at `c`.
pub open spec fn resting(c: Rgb) -> ColorTransitionModel {
    ColorTransitionModel { current: c, from: c, target: None, duration_ms: 0, elapsed_ms: 0 }
}

impl StaticColorEffect {
    /// A static white.
    pub fn default_effect() -> (e: Self)
        ensures
            e@ == resting(Rgb { r: 255, g: 255, b: 255 }),
    {
        StaticColorEffect { color: ColorTransition::new(Rgb { r: 255, g: 255, b: 255 }) }
    }

    /// A static color effect showing `color`.
    pub fn new(color: Rgb) -> (e: Self)
        ensures
            e@ == resting(color),
    {
        StaticColorEffect { color: ColorTransition::new(color) }
    }

    /// A static color effect from channel values.
    pub fn from_rgb(r: u8, g: u8, b: u8) -> (e: Self)
        ensures
            e@ == resting(Rgb { r, g, b }),
    {
        Self::new(Rgb { r, g, b })
    }

    /// Change the color over `duration_ms` (0 for an immediate change).
    pub fn set_color(&mut self, color: Rgb, duration_ms: u64)
        ensures
            duration_ms == 0 ==> final(self)@ == (ColorTransitionModel {
                current: color,
                from: color,
                target: None,
                elapsed_ms: 0,
                ..old(self)@
            }),
            duration_ms != 0 ==> final(self)@ == (ColorTransitionModel {
                current: old(self)@.current,
                from: old(self)@.current,
                target: Some(color),
                duration_ms,
                elapsed_ms: 0,
            }),
    {
        self.color.set(color, duration_ms);
    }

    /// Change the color at once.
    pub fn set_color_immediate(&mut self, color: Rgb)
        ensures
            final(self)@ == (ColorTransitionModel {
                current: color,
                from: color,
                target: None,
                elapsed_ms: 0,
                ..old(self)@
            }),
    {
        self.color.set_immediate(color);
    }

    /// The color currently shown.
    pub fn color(&self) -> (c: Rgb)
        ensures
            c == self@.current,
    {
        self.color.current()
    }

    /// Whether a color transition is in progress.
    pub fn is_transitioning(&self) -> (b: bool)
        ensures
            b == self@.target is Some,
    {
        self.color.is_transitioning()
    }

    /// Render a frame of `n` pixels: advance the transition by one frame delta, then fill every
    /// pixel with the current color.
    pub fn render(&mut self, n: usize) -> (frame: Vec<Rgb>)
        requires
            old(self)@.target is Some ==> old(self)@.elapsed_ms + DEFAULT_FRAME_DELTA_MS <= u64::MAX,
        ensures
            final(self)@ == spec_tick(old(self)@, DEFAULT_FRAME_DELTA_MS),
            frame@ == Seq::new(n as nat, |j: int| final(self)@.current),
    {
        self.color.tick(DEFAULT_FRAME_DELTA_MS);
        let c = self.color.current();
        let mut frame: Vec<Rgb> = Vec::new();
        let mut k: usize = 0;
        while k < n
            invariant
                k <= n,
                frame@ == Seq::new(k as nat, |j: int| c),
            decreases n - k,
        {
            frame.push(c);
            k += 1;
            assert(frame@ =~= Seq::new(k as nat, |j: int| c));
        }
        frame
    }

    /// Reset the effect; the current color is kept.
    pub fn reset(&mut self)
        ensures
            *final(self) == *old(self),
    {
    }
}

/// The slot that holds the active effect.
#[derive(Clone, Copy, Debug)]
pub enum EffectSlot {
    /// No effect: all pixels off
    Off,
    /// Rainbow cycling effect (fixed-point gradient)
    Rainbow(RainbowEffect),
    /// Rainbow flow effect (three-point mirrored gradient)
    RainbowFlow(RainbowFlowEffect),
    /// Static single color
    Static(StaticColorEffect),
}

/// The identifier an effect slot reports (both rainbows report `Rainbow`).
pub open spec fn slot_effect_id(s: EffectSlot) -> EffectId {
    match s {
        EffectSlot::Off => EffectId::Off,
        EffectSlot::Rainbow(_) => EffectId::Rainbow,
        EffectSlot::RainbowFlow(_) => EffectId::Rainbow,
        EffectSlot::Static(_) => EffectId::Static,
    }
}

impl EffectSlot {
    /// The empty slot.
    pub fn default_slot() -> (s: Self)
        ensures
            s is Off,
    {
        EffectSlot::Off
    }

    /// Reset the effect state (no effect keeps any state to reset).
    pub fn reset(&mut self)
        ensures
            *final(self) == *old(self),
    {
        match self {
            EffectSlot::Static(effect) => effect.reset(),
            _ => {},
        }
    }

    /// Whether the slot is empty.
    pub fn is_off(&self) -> (b: bool)
        ensures
            b == self is Off,
    {
        matches!(self, EffectSlot::Off)
    }

    /// The effect identifier reported for this slot.
    pub fn effect_id(&self) -> (e: EffectId)
        ensures
            e == slot_effect_id(*self),
    {
        match self {
            EffectSlot::Off => EffectId::Off,
            EffectSlot::Rainbow(_) | EffectSlot::RainbowFlow(_) => EffectId::Rainbow,
            EffectSlot::Static(_) => EffectId::Static,
        }
    }

    /// The current color of a static effect; white for every other slot.
    pub fn color(&self) -> (c: (u8, u8, u8))
        ensures
            match *self {
                EffectSlot::Static(e) => c == (e@.current.r, e@.current.g, e@.current.b),
                _ => c == (255u8, 255u8, 255u8),
            },
    {
        match self {
            EffectSlot::Static(effect) => {
                let c = effect.color();
                (c.r, c.g, c.b)
            },
            _ => (255, 255, 255),
        }
    }

    /// The current color, only for an effect that has one.
    pub fn color_if_supported(&self) -> (c: Option<(u8, u8, u8)>)
        ensures
            match *self {
                EffectSlot::Static(e) => c == Some((e@.current.r, e@.current.g, e@.current.b)),
                _ => c is None,
            },
    {
        match self {
            EffectSlot::Static(_) => Some(self.color()),
            _ => None,
        }
    }

    /// Change the color of a static effect over `duration_ms`; other slots are unchanged.
    pub fn set_color(&mut self, color: Rgb, duration_ms: u64)
        ensures
            match *old(self) {
                EffectSlot::Static(e) => match *final(self) {
                    EffectSlot::Static(f) => if duration_ms == 0 {
                        f@ == (ColorTransitionModel {
                            current: color,
                            from: color,
                            target: None,
                            elapsed_ms: 0,
                            ..e@
                        })
                    } else {
                        f@ == (ColorTransitionModel {
                            current: e@.current,
                            from: e@.current,
                            target: Some(color),
                            duration_ms,
                            elapsed_ms: 0,
                        })
                    },
                    _ => false,
                },
                _ => *final(self) == *old(self),
            },
    {
        match self {
            EffectSlot::Static(effect) => effect.set_color(color, duration_ms),
            _ => {},
        }
    }

    /// Change the color of a static effect from channel values.
    pub fn set_color_rgb(&mut self, r: u8, g: u8, b: u8, duration_ms: u64)
        ensures
            match *old(self) {
                EffectSlot::Static(e) => match *final(self) {
                    EffectSlot::Static(f) => if duration_ms == 0 {
                        f@ == (ColorTransitionModel {
                            current: Rgb { r, g, b },
                            from: Rgb { r, g, b },
                            target: None,
                            elapsed_ms: 0,
                            ..e@
                        })
                    } else {
                        f@ == (ColorTransitionModel {
                            current: e@.current,
                            from: e@.current,
                            target: Some(Rgb { r, g, b }),
                            duration_ms,
                            elapsed_ms: 0,
                        })
                    },
                    _ => false,
                },
                _ => *final(self) == *old(self),
            },
    {
        self.set_color(Rgb { r, g, b }, duration_ms);
    }
}

/// Known effect names that can be requested.
#[derive(Clone, Copy, Debug, PartialEq, Eq, Structural)]
pub enum EffectName {
    /// Static single color
    Static,
    /// Rainbow cycling effect
    Rainbow,
    /// Rainbow flow effect (three-point mirrored)
    RainbowFlow,
}

pub const EFFECT_NAME_STATIC: &'static str = "static";
pub const EFFECT_NAME_RAINBOW: &'static str = "rainbow";
pub const EFFECT_NAME_RAINBOW_FLOW: &'static str = "rainbow_flow";

/// The name an effect is requested by.
pub open spec fn effect_name_text(e: EffectName) -> Seq<char> {
    match e {
        EffectName::Static => "static"@,
        EffectName::Rainbow => "rainbow"@,
        EffectName::RainbowFlow => "rainbow_flow"@,
    }
}

/// The effect named `s`, if any.
pub open spec fn spec_parse_effect_name(s: Seq<char>) -> Option<EffectName> {
    if s == "static"@ {
        Some(EffectName::Static)
    } else if s == "rainbow"@ {
        Some(EffectName::Rainbow)
    } else if s == "rainbow_flow"@ {
        Some(EffectName::RainbowFlow)
    } else {
        None
    }
}

/// The effect name of an identifier (`Off` has none).
pub open spec fn spec_effect_name_from_id(id: EffectId) -> Option<EffectName> {
    match id {
        EffectId::Static => Some(EffectName::Static),
        EffectId::Rainbow => Some(EffectName::Rainbow),
        EffectId::RainbowFlow => Some(EffectName::RainbowFlow),
        EffectId::Off => None,
    }
}

/// The identifier of an effect name.
pub open spec fn spec_effect_name_to_id(e: EffectName) -> EffectId {
    match e {
        EffectName::Static => EffectId::Static,
        EffectName::Rainbow => EffectId::Rainbow,
        EffectName::RainbowFlow => EffectId::RainbowFlow,
    }
}

impl EffectName {
    /// The slot that starts the named effect; a static effect takes the given color.
    pub fn to_effect_slot(self, r: u8, g: u8, b: u8) -> (s: EffectSlot)
        ensures
            match self {
                EffectName::Static => s matches EffectSlot::Static(e) && e@ == resting(Rgb { r, g, b }),
                EffectName::Rainbow => s == EffectSlot::Rainbow(RainbowEffect {
                    cycle_ms: crate::gradient::DEFAULT_CYCLE_MS,
                    value: 255,
                    saturation: 255,
                }),
                EffectName::RainbowFlow => s == EffectSlot::RainbowFlow(RainbowFlowEffect {
                    cycle_ms: crate::gradient::DEFAULT_CYCLE_MS,
                    value: 255,
                    saturation: 255,
                }),
            },
    {
        match self {
            EffectName::Static => EffectSlot::Static(StaticColorEffect::from_rgb(r, g, b)),
            EffectName::Rainbow => EffectSlot::Rainbow(RainbowEffect::default_effect()),
            EffectName::RainbowFlow => EffectSlot::RainbowFlow(RainbowFlowEffect::default_effect()),
        }
    }

    /// The effect name of an identifier; `Off` has none.
    pub fn from_id(id: EffectId) -> (e: Option<EffectName>)
        ensures
            e == spec_effect_name_from_id(id),
    {
        match id {
            EffectId::Static => Some(EffectName::Static),
            EffectId::Rainbow => Some(EffectName::Rainbow),
            EffectId::RainbowFlow => Some(EffectName::RainbowFlow),
            EffectId::Off => None,
        }
    }

    /// The identifier of this effect name (always present).
    pub fn to_id(self) -> (id: Option<EffectId>)
        ensures
            id == Some(spec_effect_name_to_id(self)),
    {
        match self {
            EffectName::Static => Some(EffectId::Static),
            EffectName::Rainbow => Some(EffectId::Rainbow),
            EffectName::RainbowFlow => Some(EffectId::RainbowFlow),
        }
    }

    /// The name this effect is requested by.
    pub fn as_str(self) -> (s: &'static str)
        ensures
            s@ == effect_name_text(self),
    {
        match self {
            EffectName::Static => EFFECT_NAME_STATIC,
            EffectName::Rainbow => EFFECT_NAME_RAINBOW,
            EffectName::RainbowFlow => EFFECT_NAME_RAINBOW_FLOW,
        }
    }

    /// The effect requested by name `s`, if it is one of the known names.
    pub fn parse_from_str(s: &str) -> (e: Option<EffectName>)
        ensures
            e == spec_parse_effect_name(s@),
    {
        if str_eq(s, EFFECT_NAME_STATIC) {
            Some(EffectName::Static)
        } else if str_eq(s, EFFECT_NAME_RAINBOW) {
            Some(EffectName::Rainbow)
        } else if str_eq(s, EFFECT_NAME_RAINBOW_FLOW) {
            Some(EffectName::RainbowFlow)
        } else {
            None
        }
    }
}

/// Parsing the name of an effect gives the effect back.
pub proof fn law_effect_name_roundtrip(e: EffectName)
    ensures
        spec_parse_effect_name(effect_name_text(e)) == Some(e),
{
    reveal_strlit("static");
    reveal_strlit("rainbow");
    reveal_strlit("rainbow_flow");
    assert("static"@.len() == 6);
    assert("rainbow"@.len() == 7);
    assert("rainbow_flow"@.len() == 12);
}

/// An effect name and its identifier convert into each other.
pub proof fn law_effect_id_roundtrip(e: EffectName)
    ensures
        spec_effect_name_from_id(spec_effect_name_to_id(e)) == Some(e),
{
}

} // verus!
