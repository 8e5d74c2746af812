//! Modes: the rendering programs the engine switches between, and their identifiers.

use vstd::prelude::*;

use crate::color::Rgb;
use crate::effect::{resting, StaticColorEffect, DEFAULT_FRAME_DELTA_MS};
use crate::gradient::{rainbow_base_hue, rainbow_frame, RainbowEffect, DEFAULT_CYCLE_MS};
use crate::text::str_eq;
use crate::transition::{spec_tick, ColorTransitionModel};

verus! {

pub const MODE_NAME_STATIC: &'static str = "static";
pub const MODE_NAME_RAINBOW: &'static str = "rainbow";

pub const MODE_ID_STATIC: u8 = 0;
pub const MODE_ID_RAINBOW: u8 = 1;

/// The slot holding the active mode.
#[derive(Clone, Copy, Debug)]
pub enum ModeSlot {
    /// Rainbow cycling mode
    Rainbow(RainbowEffect),
    /// Static single color
    Static(StaticColorEffect),
}

/// Known mode ids that can be requested.
#[derive(Clone, Copy, Debug, PartialEq, Eq, Structural)]
pub enum ModeId {
    Static,
    Rainbow,
}

/// The raw code of a mode id.
pub open spec fn mode_code(m: ModeId) -> u8 {
    match m {
        ModeId::Static => 0,
        ModeId::Rainbow => 1,
    }
}

/// The mode id of a raw code, if any.
pub open spec fn spec_mode_from_raw(v: u8) -> Option<ModeId> {
    if v == 0 {
        Some(ModeId::Static)
    } else if v == 1 {
        Some(ModeId::Rainbow)
    } else {
        None
    }
}

/// The name a mode is requested by.
pub open spec fn mode_name_text(m: ModeId) -> Seq<char> {
    match m {
        ModeId::Static => "static"@,
        ModeId::Rainbow => "rainbow"@,
    }
}

/// The mode named `s`, if any.
pub open spec fn spec_parse_mode_name(s: Seq<char>) -> Option<ModeId> {
    if s == "static"@ {
        Some(ModeId::Static)
    } else if s == "rainbow"@ {
        Some(ModeId::Rainbow)
    } else {
        None
    }
}

/// The default rainbow effect.
pub open spec fn default_rainbow() -> RainbowEffect {
    RainbowEffect { cycle_ms: DEFAULT_CYCLE_MS, value: 255, saturation: 255 }
}

impl ModeId {
    /// The mode with raw code `value` (0 static, 1 rainbow), if any.
    pub fn from_raw(value: u8) -> (m: Option<ModeId>)
        ensures
            m == spec_mode_from_raw(value),
    {
        match value {
            MODE_ID_STATIC => Some(ModeId::Static),
            MODE_ID_RAINBOW => Some(ModeId::Rainbow),
            _ => None,
        }
    }

    /// The raw code of this mode.
    pub fn as_raw(self) -> (v: u8)
        ensures
            v == mode_code(self),
    {
        match self {
            ModeId::Static => MODE_ID_STATIC,
            ModeId::Rainbow => MODE_ID_RAINBOW,
        }
    }

    /// A fresh slot for this mode; a static mode shows `color`.
    pub fn to_mode_slot(self, color: Rgb) -> (s: ModeSlot)
        ensures
            match self {
                ModeId::Static => s matches ModeSlot::Static(e) && e@ == resting(color),
                ModeId::Rainbow => s == ModeSlot::Rainbow(default_rainbow()),
            },
    {
        match self {
            ModeId::Static => ModeSlot::Static(StaticColorEffect::new(color)),
            ModeId::Rainbow => ModeSlot::Rainbow(RainbowEffect::default_effect()),
        }
    }

    /// The name this mode is requested by.
    pub fn as_str(self) -> (s: &'static str)
        ensures
            s@ == mode_name_text(self),
    {
        match self {
            ModeId::Static => MODE_NAME_STATIC,
            ModeId::Rainbow => MODE_NAME_RAINBOW,
        }
    }

    /// The mode requested by name `s`, if it is a known name.
    pub fn parse_from_str(s: &str) -> (m: Option<ModeId>)
        ensures
            m == spec_parse_mode_name(s@),
    {
        if str_eq(s, MODE_NAME_STATIC) {
            Some(ModeId::Static)
        } else if str_eq(s, MODE_NAME_RAINBOW) {
            Some(ModeId::Rainbow)
        } else {
            None
        }
    }
}

/// A mode's raw code and its name both lead back to the mode.
pub proof fn law_mode_id_roundtrip(m: ModeId)
    ensures
        spec_mode_from_raw(mode_code(m)) == Some(m),
        spec_parse_mode_name(mode_name_text(m)) == Some(m),
{
    reveal_strlit("static");
    reveal_strlit("rainbow");
    assert("static"@.len() == 6);
    assert("rainbow"@.len() == 7);
}

/// The mode id a slot reports.
pub open spec fn slot_mode_id(s: ModeSlot) -> ModeId {
    match s {
        ModeSlot::Rainbow(_) => ModeId::Rainbow,
        ModeSlot::Static(_) => ModeId::Static,
    }
}

impl ModeSlot {
    /// The rainbow slot.
    pub fn default_slot() -> (s: Self)
        ensures
            s == ModeSlot::Rainbow(default_rainbow()),
    {
        ModeSlot::Rainbow(RainbowEffect::default_effect())
    }

    /// Render a frame of `n` pixels at time `time_ms`.
    pub fn render(&mut self, time_ms: u64, n: usize) -> (frame: Vec<Rgb>)
        requires
            n <= i32::MAX,
            match *old(self) {
                ModeSlot::Static(e) => e@.target is Some ==> e@.elapsed_ms + DEFAULT_FRAME_DELTA_MS
                    <= u64::MAX,
                _ => true,
            },
        ensures
            match *old(self) {
                ModeSlot::Rainbow(e) => *final(self) == *old(self) && frame@ == rainbow_frame(
                    n as int,
                    rainbow_base_hue(e.cycle_ms, time_ms),
                    e.saturation,
                    e.value,
                ),
                ModeSlot::Static(e) => match *final(self) {
                    ModeSlot::Static(f) => f@ == spec_tick(e@, DEFAULT_FRAME_DELTA_MS) && frame@
                        == Seq::new(n as nat, |j: int| f@.current),
                    _ => false,
                },
            },
    {
        match self {
            ModeSlot::Rainbow(mode) => mode.render(time_ms, n),
            ModeSlot::Static(mode) => mode.render(n),
        }
    }

    /// Reset the mode state (modes keep no state to reset).
    pub fn reset(&mut self)
        ensures
            *final(self) == *old(self),
    {
        match self {
            ModeSlot::Static(mode) => mode.reset(),
            ModeSlot::Rainbow(_) => {},
        }
    }

    /// The mode id of this slot.
    pub fn mode_id(&self) -> (m: ModeId)
        ensures
            m == slot_mode_id(*self),
    {
        match self {
            ModeSlot::Rainbow(_) => ModeId::Rainbow,
            ModeSlot::Static(_) => ModeId::Static,
        }
    }

    /// Change the color of a static mode over `duration_ms`; a rainbow is unchanged.
    pub fn set_color(&mut self, color: Rgb, duration_ms: u64)
        ensures
            match *old(self) {
                ModeSlot::Static(e) => match *final(self) {
                    ModeSlot::Static(f) => if duration_ms == 0 {
                        f@ == (ColorTransitionModel {
                            current: color,
                            from: color,
                            target: None,
                            elapsed_ms: 0,
                            ..e@
                        })
                    } else {
                        f@ == (ColorTransitionModel {
                            current: e@.current,
                            from: e@.current,
                            target: Some(color),
                            duration_ms,
                            elapsed_ms: 0,
                        })
                    },
                    _ => false,
                },
                _ => *final(self) == *old(self),
            },
    {
        match self {
            ModeSlot::Static(mode) => mode.set_color(color, duration_ms),
            ModeSlot::Rainbow(_) => {},
        }
    }

    /// Whether a static mode is in a color transition.
    pub fn is_transitioning(&self) -> (b: bool)
        ensures
            b == (*self matches ModeSlot::Static(e) && e@.target is Some),
    {
        match self {
            ModeSlot::Static(mode) => mode.is_transitioning(),
            ModeSlot::Rainbow(_) => false,
        }
    }
}

} // verus!
