//! Light entity: discovery description, builder, and the state/command values exchanged
//! with Home Assistant.

use vstd::prelude::*;

use crate::builder::require_field;
use crate::ha::device::Device;
use crate::text::str_eq;
use crate::topic::{
    bounded_concat, bounded_push, build_bounded, fits_usize, lemma_literal_fits, push_bounded,
    spec_state_topic, spec_unique_id, utf8_len,
};

verus! {

/// Maximum number of effects supported.
pub const MAX_EFFECTS: usize = 8;

/// Maximum number of color modes supported.
pub const MAX_COLOR_MODES: usize = 4;

/// RGB color as exchanged with Home Assistant.
#[derive(Clone, Copy, Debug, PartialEq, Eq, Structural)]
pub struct RgbColor {
    pub r: u8,
    pub g: u8,
    pub b: u8,
}

impl RgbColor {
    /// A color from its channels.
    pub fn new(r: u8, g: u8, b: u8) -> (c: Self)
        ensures
            c == (RgbColor { r, g, b }),
    {
        RgbColor { r, g, b }
    }
}

/// Supported color modes.
#[derive(Clone, Copy, Debug, PartialEq, Eq, Structural)]
pub enum ColorMode {
    /// RGB color mode
    Rgb,
    /// Color temperature mode (in mireds)
    ColorTemp,
    /// Brightness only (no color)
    Brightness,
    /// On/Off only
    Onoff,
}

/// The name Home Assistant uses for a color mode.
pub open spec fn color_mode_text(m: ColorMode) -> Seq<char> {
    match m {
        ColorMode::Rgb => "rgb"@,
        ColorMode::ColorTemp => "color_temp"@,
        ColorMode::Brightness => "brightness"@,
        ColorMode::Onoff => "onoff"@,
    }
}

impl ColorMode {
    /// The name Home Assistant uses for this color mode.
    pub fn as_str(&self) -> (s: &'static str)
        ensures
            s@ == color_mode_text(*self),
    {
        match self {
            ColorMode::Rgb => "rgb",
            ColorMode::ColorTemp => "color_temp",
            ColorMode::Brightness => "brightness",
            ColorMode::Onoff => "onoff",
        }
    }
}

/// Light entity configuration for Home Assistant discovery.
#[derive(Clone, Copy, Debug)]
pub struct LightEntity<'a> {
    /// Human-readable name
    pub name: &'a str,
    /// Parent device
    pub device: &'a Device<'a>,
    /// MDI icon (e.g. "mdi:lightbulb")
    pub icon: Option<&'a str>,
    /// Whether brightness is supported
    pub brightness: bool,
    /// Supported color modes
    pub color_modes: &'a [ColorMode],
    /// Available effects
    pub effects: Option<&'a [&'a str]>,
    /// Minimum color temperature in mireds
    pub min_mireds: Option<u16>,
    /// Maximum color temperature in mireds
    pub max_mireds: Option<u16>,
    /// Whether the entity works in optimistic mode
    pub optimistic: bool,
}

/// Discovery config topic of a light: `homeassistant/light/{device_id}_light/config`,
/// in a buffer of `cap` bytes.
pub open spec fn spec_light_config_topic(cap: int, device_id: Seq<char>) -> Seq<char> {
    bounded_concat(seq!["homeassistant/light/"@, device_id, "_"@, "light"@, "/config"@], cap)
}

impl<'a> LightEntity<'a> {
    /// Unique id of the light: `{device_id}_light`.
    pub fn unique_id<const N: usize>(&self) -> (t: String)
        requires
            fits_usize(self.device.id),
        ensures
            t@ == spec_unique_id(N as int, self.device.id@, "light"@),
            utf8_len(t@) <= N,
    {
        proof {
            reveal_strlit("_");
            reveal_strlit("light");
            lemma_literal_fits("_");
            lemma_literal_fits("light");
        }
        let pieces: Vec<&str> = vec![self.device.id, "_", "light"];
        let t = build_bounded::<N>(&pieces);
        assert(pieces@.map_values(|p: &str| p@) =~= seq![self.device.id@, "_"@, "light"@]);
        t
    }

    /// State topic of the light: `{device_id}/light`.
    pub fn state_topic<const N: usize>(&self) -> (t: String)
        requires
            fits_usize(self.device.id),
        ensures
            t@ == spec_state_topic(N as int, self.device.id@, "light"@),
            utf8_len(t@) <= N,
    {
        proof {
            reveal_strlit("/");
            reveal_strlit("light");
            lemma_literal_fits("/");
            lemma_literal_fits("light");
        }
        let pieces: Vec<&str> = vec![self.device.id, "/", "light"];
        let t = build_bounded::<N>(&pieces);
        assert(pieces@.map_values(|p: &str| p@) =~= seq![self.device.id@, "/"@, "light"@]);
        t
    }

    /// Command topic of the light: the state topic followed by `/set`.
    pub fn command_topic<const N: usize>(&self) -> (t: String)
        requires
            fits_usize(self.device.id),
        ensures
            t@ == bounded_push(spec_state_topic(N as int, self.device.id@, "light"@), "/set"@, N as int),
            utf8_len(t@) <= N,
    {
        proof {
            reveal_strlit("/set");
            lemma_literal_fits("/set");
        }
        let mut t = self.state_topic::<N>();
        push_bounded::<N>(&mut t, "/set");
        t
    }

    /// Discovery config topic of the light.
    pub fn config_topic<const N: usize>(&self) -> (t: String)
        requires
            fits_usize(self.device.id),
        ensures
            t@ == spec_light_config_topic(N as int, self.device.id@),
            utf8_len(t@) <= N,
    {
        proof {
            reveal_strlit("homeassistant/light/");
            reveal_strlit("_");
            reveal_strlit("light");
            reveal_strlit("/config");
            lemma_literal_fits("homeassistant/light/");
            lemma_literal_fits("_");
            lemma_literal_fits("light");
            lemma_literal_fits("/config");
        }
        let pieces: Vec<&str> = vec!["homeassistant/light/", self.device.id, "_", "light", "/config"];
        let t = build_bounded::<N>(&pieces);
        assert(pieces@.map_values(|p: &str| p@) =~= seq!["homeassistant/light/"@, self.device.id@, "_"@, "light"@, "/config"@]);
        t
    }
}

/// A light entity registered together with its callbacks.
pub struct LightRegistration<'a, P, C> {
    pub entity: LightEntity<'a>,
    /// Produces the state to publish
    pub provide_state: P,
    /// Handles a command from Home Assistant
    pub on_command: C,
}

/// Builder for a [`LightRegistration`].
pub struct LightBuilder<'a, P, C> {
    pub device: &'a Device<'a>,
    pub name: Option<&'a str>,
    pub icon: Option<&'a str>,
    pub brightness: bool,
    pub color_modes: &'a [ColorMode],
    pub effects: Option<&'a [&'a str]>,
    pub min_mireds: Option<u16>,
    pub max_mireds: Option<u16>,
    pub provide_state: Option<P>,
    pub on_command: Option<C>,
}

impl<'a, P, C> LightBuilder<'a, P, C> {
    /// A builder for a light of `device` with nothing else set.
    pub fn new(device: &'a Device<'a>) -> (b: Self)
        ensures
            b.device == device,
            b.name is None,
            b.icon is None,
            !b.brightness,
            b.color_modes@.len() == 0,
            b.effects is None,
            b.min_mireds is None,
            b.max_mireds is None,
            b.provide_state is None,
            b.on_command is None,
    {
        LightBuilder {
            device,
            name: None,
            icon: None,
            brightness: false,
            color_modes: &[],
            effects: None,
            min_mireds: None,
            max_mireds: None,
            provide_state: None,
            on_command: None,
        }
    }

    /// Set the entity name.
    pub fn name(self, name: &'a str) -> (b: Self)
        ensures
            b == (LightBuilder { name: Some(name), ..self }),
    {
        LightBuilder { name: Some(name), ..self }
    }

    /// Set the MDI icon.
    pub fn icon(self, icon: &'a str) -> (b: Self)
        ensures
            b == (LightBuilder { icon: Some(icon), ..self }),
    {
        LightBuilder { icon: Some(icon), ..self }
    }

    /// Enable or disable brightness support.
    pub fn brightness(self, enabled: bool) -> (b: Self)
        ensures
            b == (LightBuilder { brightness: enabled, ..self }),
    {
        LightBuilder { brightness: enabled, ..self }
    }

    /// Set the supported color modes.
    pub fn color_modes(self, modes: &'a [ColorMode]) -> (b: Self)
        ensures
            b == (LightBuilder { color_modes: modes, ..self }),
    {
        LightBuilder { color_modes: modes, ..self }
    }

    /// Set the available effects.
    pub fn effects(self, effects: &'a [&'a str]) -> (b: Self)
        ensures
            b == (LightBuilder { effects: Some(effects), ..self }),
    {
        LightBuilder { effects: Some(effects), ..self }
    }

    /// Set the color temperature range in mireds.
    pub fn mireds_range(self, min: u16, max: u16) -> (b: Self)
        ensures
            b == (LightBuilder { min_mireds: Some(min), max_mireds: Some(max), ..self }),
    {
        LightBuilder { min_mireds: Some(min), max_mireds: Some(max), ..self }
    }

    /// Set the state provider callback.
    pub fn provide_state(self, f: P) -> (b: Self)
        ensures
            b == (LightBuilder { provide_state: Some(f), ..self }),
    {
        LightBuilder { provide_state: Some(f), ..self }
    }

    /// Set the command handler callback.
    pub fn on_command(self, f: C) -> (b: Self)
        ensures
            b == (LightBuilder { on_command: Some(f), ..self }),
    {
        LightBuilder { on_command: Some(f), ..self }
    }

    /// Build the registration. Both callbacks must have been set; the name defaults to
    /// `light` and the entity is optimistic.
    pub fn build(self) -> (r: LightRegistration<'a, P, C>)
        requires
            self.provide_state is Some,
            self.on_command is Some,
        ensures
            r.entity.name == match self.name {
                Some(n) => n,
                None => "light",
            },
            r.entity.device == self.device,
            r.entity.icon == self.icon,
            r.entity.brightness == self.brightness,
            r.entity.color_modes == self.color_modes,
            r.entity.effects == self.effects,
            r.entity.min_mireds == self.min_mireds,
            r.entity.max_mireds == self.max_mireds,
            r.entity.optimistic,
            self.provide_state == Some(r.provide_state),
            self.on_command == Some(r.on_command),
    {
        LightRegistration {
            entity: LightEntity {
                name: match self.name {
                    Some(n) => n,
                    None => "light",
                },
                device: self.device,
                icon: self.icon,
                brightness: self.brightness,
                color_modes: self.color_modes,
                effects: self.effects,
                min_mireds: self.min_mireds,
                max_mireds: self.max_mireds,
                optimistic: true,
            },
            provide_state: require_field(self.provide_state),
            on_command: require_field(self.on_command),
        }
    }
}

/// Light state for publishing to Home Assistant.
#[derive(Clone, Copy, Debug)]
pub struct LightState<'a> {
    /// "ON" or "OFF"
    pub state: &'a str,
    /// Brightness (0-255)
    pub brightness: Option<u8>,
    /// Color mode
    pub color_mode: Option<&'a str>,
    /// Color temperature in mireds
    pub color_temp: Option<u16>,
    /// RGB color
    pub color: Option<RgbColor>,
    /// Effect name
    pub effect: Option<&'a str>,
}

impl<'a> LightState<'a> {
    /// An "ON" state with nothing else set.
    pub fn on() -> (s: Self)
        ensures
            s.state@ == "ON"@,
            s.brightness is None,
            s.color_mode is None,
            s.color_temp is None,
            s.color is None,
            s.effect is None,
    {
        LightState { state: "ON", brightness: None, color_mode: None, color_temp: None, color: None, effect: None }
    }

    /// An "OFF" state with nothing else set.
    pub fn off() -> (s: Self)
        ensures
            s.state@ == "OFF"@,
            s.brightness is None,
            s.color_mode is None,
            s.color_temp is None,
            s.color is None,
            s.effect is None,
    {
        LightState { state: "OFF", brightness: None, color_mode: None, color_temp: None, color: None, effect: None }
    }

    /// Set the brightness.
    pub fn brightness(self, brightness: u8) -> (s: Self)
        ensures
            s == (LightState { brightness: Some(brightness), ..self }),
    {
        LightState { brightness: Some(brightness), ..self }
    }

    /// Set the color temperature; the color mode becomes `color_temp`.
    pub fn color_temp(self, mireds: u16) -> (s: Self)
        ensures
            s.color_temp == Some(mireds),
            s.color_mode matches Some(m) && m@ == "color_temp"@,
            s.state == self.state,
            s.brightness == self.brightness,
            s.color == self.color,
            s.effect == self.effect,
    {
        LightState { color_temp: Some(mireds), color_mode: Some("color_temp"), ..self }
    }

    /// Set the RGB color; the color mode becomes `rgb`.
    pub fn rgb(self, r: u8, g: u8, b: u8) -> (s: Self)
        ensures
            s.color == Some(RgbColor { r, g, b }),
            s.color_mode matches Some(m) && m@ == "rgb"@,
            s.state == self.state,
            s.brightness == self.brightness,
            s.color_temp == self.color_temp,
            s.effect == self.effect,
    {
        LightState { color: Some(RgbColor::new(r, g, b)), color_mode: Some("rgb"), ..self }
    }

    /// Set the effect.
    pub fn effect(self, effect: &'a str) -> (s: Self)
        ensures
            s == (LightState { effect: Some(effect), ..self }),
    {
        LightState { effect: Some(effect), ..self }
    }
}

/// Command received from Home Assistant.
#[derive(Clone, Copy, Debug)]
pub struct LightCommand<'a> {
    /// Requested state ("ON" or "OFF")
    pub state: Option<&'a str>,
    /// Requested brightness (0-255)
    pub brightness: Option<u8>,
    /// Requested color temperature in mireds
    pub color_temp: Option<u16>,
    /// Requested RGB color
    pub color: Option<RgbColor>,
    /// Requested effect
    pub effect: Option<&'a str>,
}

/// Whether the command's state is exactly `text`.
pub open spec fn command_state_is(c: LightCommand, text: Seq<char>) -> bool {
    c.state matches Some(s) && s@ == text
}

impl<'a> LightCommand<'a> {
    /// Whether this is a turn-on command (state "ON").
    pub fn is_on(&self) -> (b: bool)
        ensures
            b == command_state_is(*self, "ON"@),
    {
        match self.state {
            Some(s) => str_eq(s, "ON"),
            None => false,
        }
    }

    /// Whether this is a turn-off command (state "OFF").
    pub fn is_off(&self) -> (b: bool)
        ensures
            b == command_state_is(*self, "OFF"@),
    {
        match self.state {
            Some(s) => str_eq(s, "OFF"),
            None => false,
        }
    }
}

} // verus!
