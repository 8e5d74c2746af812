//! Shared light state for external observation.
//!
//! `brightness` is the **target** brightness: the level the light has when it is on. It keeps
//! its value while the light is off, so external systems can show and change it meanwhile.

use vstd::prelude::*;

verus! {

/// Effect identifier for external observation.
#[derive(Clone, Copy, Debug, PartialEq, Eq, Structural)]
pub enum EffectId {
    Off,
    Rainbow,
    Static,
    RainbowFlow,
}

/// The wire code of an effect identifier.
pub open spec fn effect_code(e: EffectId) -> u8 {
    match e {
        EffectId::Off => 0,
        EffectId::Rainbow => 1,
        EffectId::Static => 2,
        EffectId::RainbowFlow => 3,
    }
}

/// The effect identifier of a wire code (unknown codes mean `Off`).
pub open spec fn effect_from_code(v: u8) -> EffectId {
    if v == 1 {
        EffectId::Rainbow
    } else if v == 2 {
        EffectId::Static
    } else if v == 3 {
        EffectId::RainbowFlow
    } else {
        EffectId::Off
    }
}

impl EffectId {
    /// Decode an effect identifier: 1, 2 and 3 are rainbow, static and rainbow flow; every
    /// other value is `Off`.
    pub fn from_u8(value: u8) -> (e: EffectId)
        ensures
            e == effect_from_code(value),
    {
        match value {
            1 => EffectId::Rainbow,
            2 => EffectId::Static,
            3 => EffectId::RainbowFlow,
            _ => EffectId::Off,
        }
    }

    /// The wire code of this identifier (0 to 3).
    pub fn as_u8(self) -> (v: u8)
        ensures
            v == effect_code(self),
    {
        match self {
            EffectId::Off => 0,
            EffectId::Rainbow => 1,
            EffectId::Static => 2,
            EffectId::RainbowFlow => 3,
        }
    }
}

/// Decoding the wire code of an effect identifier gives the identifier back.
pub proof fn law_effect_code_roundtrip(e: EffectId)
    ensures
        effect_from_code(effect_code(e)) == e,
{
}

/// What a [`SharedState`] reports.
pub struct SharedStateModel {
    /// Target brightness
    pub brightness: u8,
    /// Whether the light is on
    pub is_on: bool,
    /// Current effect
    pub effect: EffectId,
    pub r: u8,
    pub g: u8,
    pub b: u8,
}

/// Shared light state, written by the engine and read by external code.
pub struct SharedState {
    brightness: u8,
    is_on: u8,
    effect: u8,
    r: u8,
    g: u8,
    b: u8,
}

impl View for SharedState {
    type V = SharedStateModel;

    closed spec fn view(&self) -> SharedStateModel {
        SharedStateModel {
            brightness: self.brightness,
            is_on: self.is_on != 0,
            effect: effect_from_code(self.effect),
            r: self.r,
            g: self.g,
            b: self.b,
        }
    }
}

impl SharedState {
    /// A state with full target brightness, off, no effect and a white color.
    pub fn new() -> (s: Self)
        ensures
            s@ == (SharedStateModel {
                brightness: 255,
                is_on: false,
                effect: EffectId::Off,
                r: 255,
                g: 255,
                b: 255,
            }),
    {
        SharedState { brightness: 255, is_on: 0, effect: 0, r: 255, g: 255, b: 255 }
    }

    /// Target brightness.
    pub fn brightness(&self) -> (v: u8)
        ensures
            v == self@.brightness,
    {
        self.brightness
    }

    /// Whether the light is on.
    pub fn is_on(&self) -> (v: bool)
        ensures
            v == self@.is_on,
    {
        self.is_on != 0
    }

    /// Current effect.
    pub fn effect(&self) -> (v: EffectId)
        ensures
            v == self@.effect,
    {
        EffectId::from_u8(self.effect)
    }

    /// Current color.
    pub fn rgb(&self) -> (v: (u8, u8, u8))
        ensures
            v == (self@.r, self@.g, self@.b),
    {
        (self.r, self.g, self.b)
    }

    /// Set the target brightness.
    pub fn set_brightness(&mut self, value: u8)
        ensures
            final(self)@ == (SharedStateModel { brightness: value, ..old(self)@ }),
    {
        self.brightness = value;
    }

    /// Set the on/off state.
    pub fn set_on(&mut self, on: bool)
        ensures
            final(self)@ == (SharedStateModel { is_on: on, ..old(self)@ }),
    {
        self.is_on = if on {
            1
        } else {
            0
        };
    }

    /// Set the current effect.
    pub fn set_effect(&mut self, effect: EffectId)
        ensures
            final(self)@ == (SharedStateModel { effect, ..old(self)@ }),
    {
        self.effect = effect.as_u8();
    }

    /// Set the current color.
    pub fn set_rgb(&mut self, r: u8, g: u8, b: u8)
        ensures
            final(self)@ == (SharedStateModel { r, g, b, ..old(self)@ }),
    {
        self.r = r;
        self.g = g;
        self.b = b;
    }

    /// Set every field from a snapshot.
    pub fn set_from_snapshot(&mut self, snapshot: LightSnapshot)
        ensures
            final(self)@ == snapshot_model(snapshot),
    {
        self.set_brightness(snapshot.brightness);
        self.set_on(snapshot.is_on);
        self.set_effect(snapshot.effect);
        self.set_rgb(snapshot.r, snapshot.g, snapshot.b);
    }
}

/// A snapshot of the observable light state.
#[derive(Clone, Copy, Debug, PartialEq, Eq, Structural)]
pub struct LightSnapshot {
    /// Whether the light is on
    pub is_on: bool,
    /// Target brightness (0-255)
    pub brightness: u8,
    /// Current effect
    pub effect: EffectId,
    pub r: u8,
    pub g: u8,
    pub b: u8,
}

/// The shared-state model that holds exactly the values of a snapshot.
pub open spec fn snapshot_model(s: LightSnapshot) -> SharedStateModel {
    SharedStateModel { brightness: s.brightness, is_on: s.is_on, effect: s.effect, r: s.r, g: s.g, b: s.b }
}

impl LightSnapshot {
    /// The default snapshot: on, full brightness, rainbow, white.
    pub fn default_snapshot() -> (s: Self)
        ensures
            s == (LightSnapshot {
                is_on: true,
                brightness: 255,
                effect: EffectId::Rainbow,
                r: 255,
                g: 255,
                b: 255,
            }),
    {
        LightSnapshot { is_on: true, brightness: 255, effect: EffectId::Rainbow, r: 255, g: 255, b: 255 }
    }

    /// Capture the shared state.
    pub fn from_shared(shared: &SharedState) -> (s: Self)
        ensures
            snapshot_model(s) == shared@,
    {
        let (r, g, b) = shared.rgb();
        LightSnapshot {
            is_on: shared.is_on(),
            brightness: shared.brightness(),
            effect: shared.effect(),
            r,
            g,
            b,
        }
    }
}

/// Storing a snapshot in the shared state and capturing it again gives the same snapshot.
pub proof fn law_snapshot_roundtrip(after: SharedState, snapshot: LightSnapshot, captured: LightSnapshot)
    requires
        after@ == snapshot_model(snapshot),
        snapshot_model(captured) == after@,
    ensures
        captured == snapshot,
{
}

} // verus!
