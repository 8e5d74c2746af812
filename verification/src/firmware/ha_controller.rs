//! Home Assistant light controller: publishes the shared light state and turns light
//! commands into engine commands.

use vstd::prelude::*;

use crate::effect::{resting, EffectSlot, StaticColorEffect};
use crate::firmware::command::{Command, BRIGHTNESS_TRANSITION_MS, COLOR_TRANSITION_MS};
use crate::gradient::{RainbowEffect, RainbowFlowEffect, DEFAULT_CYCLE_MS};
use crate::ha::light::{command_state_is, LightCommand, LightState, RgbColor};
use crate::state::{EffectId, SharedState};
use crate::text::str_eq;

verus! {

/// Effect names offered to Home Assistant.
pub const EFFECT_STATIC: &'static str = "static";
pub const EFFECT_RAINBOW: &'static str = "rainbow";
pub const EFFECT_RAINBOW_FLOW: &'static str = "rainbow_flow";

/// The effect name published for an effect identifier: rainbow, or static for all others.
pub open spec fn published_effect_name(id: EffectId) -> Seq<char> {
    if id == EffectId::Rainbow {
        "rainbow"@
    } else {
        "static"@
    }
}

/// The effect name published for an effect identifier.
pub fn get_effect_name(id: EffectId) -> (s: &'static str)
    ensures
        s@ == published_effect_name(id),
{
    match id {
        EffectId::Rainbow => EFFECT_RAINBOW,
        _ => EFFECT_STATIC,
    }
}

/// Whether `s` is the plain "OFF" state with nothing else set.
pub open spec fn is_plain_off(s: LightState) -> bool {
    &&& s.state@ == "OFF"@
    &&& s.brightness is None
    &&& s.color_mode is None
    &&& s.color_temp is None
    &&& s.color is None
    &&& s.effect is None
}

/// The state published for the shared light state: when on, "ON" with brightness, RGB color
/// and effect name; when off, a plain "OFF".
pub fn get_light_state(shared: &SharedState) -> (s: LightState<'static>)
    ensures
        shared@.is_on ==> {
            &&& s.state@ == "ON"@
            &&& s.brightness == Some(shared@.brightness)
            &&& s.color == Some(RgbColor { r: shared@.r, g: shared@.g, b: shared@.b })
            &&& s.color_mode matches Some(m) && m@ == "rgb"@
            &&& s.color_temp is None
            &&& s.effect matches Some(e) && e@ == published_effect_name(shared@.effect)
        },
        !shared@.is_on ==> is_plain_off(s),
{
    if shared.is_on() {
        let (r, g, b) = shared.rgb();
        LightState::on().brightness(shared.brightness()).rgb(r, g, b).effect(
            get_effect_name(shared.effect()),
        )
    } else {
        LightState::off()
    }
}

/// The default rainbow effect.
pub open spec fn default_rainbow_slot() -> EffectSlot {
    EffectSlot::Rainbow(RainbowEffect { cycle_ms: DEFAULT_CYCLE_MS, value: 255, saturation: 255 })
}

/// The default flowing rainbow effect.
pub open spec fn default_rainbow_flow_slot() -> EffectSlot {
    EffectSlot::RainbowFlow(RainbowFlowEffect { cycle_ms: DEFAULT_CYCLE_MS, value: 255, saturation: 255 })
}

/// The animated effect requested by name, if the name is one of the rainbows.
pub open spec fn spec_parse_effect(effect: Seq<char>) -> Option<EffectSlot> {
    if effect == "rainbow"@ {
        Some(default_rainbow_slot())
    } else if effect == "rainbow_flow"@ {
        Some(default_rainbow_flow_slot())
    } else {
        None
    }
}

/// The animated effect requested by name, if any.
pub fn parse_effect(effect: &str) -> (r: Option<EffectSlot>)
    ensures
        r == spec_parse_effect(effect@),
{
    if str_eq(effect, EFFECT_RAINBOW) {
        Some(EffectSlot::Rainbow(RainbowEffect::default_effect()))
    } else if str_eq(effect, EFFECT_RAINBOW_FLOW) {
        Some(EffectSlot::RainbowFlow(RainbowFlowEffect::default_effect()))
    } else {
        None
    }
}

/// Whether `c` switches to the effect named `name`: a rainbow by its name, otherwise a
/// static effect showing the current color.
pub open spec fn switches_to(c: Command, name: Seq<char>, rgb: (u8, u8, u8)) -> bool {
    match spec_parse_effect(name) {
        Some(slot) => c == Command::SwitchEffect(slot),
        None => c matches Command::SwitchEffect(EffectSlot::Static(e)) && e@ == resting(
            crate::color::Rgb { r: rgb.0, g: rgb.1, b: rgb.2 },
        ),
    }
}

/// Whether the command asks for a brightness change at all.
pub open spec fn touches_brightness(cmd: LightCommand) -> bool {
    command_state_is(cmd, "OFF"@) || command_state_is(cmd, "ON"@) || cmd.brightness is Some
}

/// The commands a light command turns into, in order: an effect switch when an effect is
/// named, a color crossfade when a color is given, and a brightness fade when the command
/// turns the light off (to 0), on, or changes the brightness (to the remembered target).
pub open spec fn light_commands_ok(
    cmds: Seq<Command>,
    cmd: LightCommand,
    rgb: (u8, u8, u8),
    target: u8,
) -> bool {
    let ne: int = if cmd.effect is Some { 1 } else { 0 };
    let nc: int = if cmd.color is Some { 1 } else { 0 };
    let nb: int = if touches_brightness(cmd) { 1 } else { 0 };
    &&& cmds.len() == ne + nc + nb
    &&& (cmd.effect matches Some(e) ==> switches_to(cmds[0], e@, rgb))
    &&& (cmd.color matches Some(c) ==> cmds[ne] == Command::SetColor {
        r: c.r,
        g: c.g,
        b: c.b,
        duration_ms: COLOR_TRANSITION_MS,
    })
    &&& (touches_brightness(cmd) ==> cmds[ne + nc] == Command::SetBrightness {
        brightness: if command_state_is(cmd, "OFF"@) { 0 } else { target },
        duration_ms: BRIGHTNESS_TRANSITION_MS,
    })
}

/// A brightness-only command (no state, effect or color) turns into exactly one command,
/// a fade to that brightness, which also becomes the brightness to restore.
pub proof fn law_brightness_only_command(cmds: Seq<Command>, cmd: LightCommand, rgb: (u8, u8, u8), b: u8)
    requires
        cmd.state is None,
        cmd.effect is None,
        cmd.color is None,
        cmd.brightness == Some(b),
        light_commands_ok(cmds, cmd, rgb, b),
    ensures
        cmds == seq![(Command::SetBrightness { brightness: b, duration_ms: 300 })],
{
    assert(cmds =~= seq![Command::SetBrightness { brightness: b, duration_ms: 300 }]);
}

/// A command that turns the light off always ends with a fade to 0, and one that turns it on
/// (and not off) always ends with a fade to the brightness to restore.
pub proof fn law_power_commands_fade(cmds: Seq<Command>, cmd: LightCommand, rgb: (u8, u8, u8), target: u8)
    requires
        light_commands_ok(cmds, cmd, rgb, target),
    ensures
        command_state_is(cmd, "OFF"@) ==> cmds.len() >= 1 && cmds.last() == (Command::SetBrightness {
            brightness: 0,
            duration_ms: 300,
        }),
        !command_state_is(cmd, "OFF"@) && command_state_is(cmd, "ON"@) ==> (cmds.len() >= 1
            && cmds.last() == (Command::SetBrightness { brightness: target, duration_ms: 300 })),
{
}

/// Controller state: the brightness to restore when the light is turned on.
pub struct HaLightController {
    pub target_brightness: u8,
}

impl HaLightController {
    /// A controller that restores full brightness.
    pub fn new() -> (c: Self)
        ensures
            c.target_brightness == 255,
    {
        HaLightController { target_brightness: 255 }
    }

    /// Turn a light command into engine commands. A requested brightness becomes the
    /// target to restore; the current color comes from the shared state.
    pub fn handle_light_command(&mut self, cmd: &LightCommand, shared: &SharedState) -> (cmds: Vec<Command>)
        ensures
            final(self).target_brightness == match cmd.brightness {
                Some(b) => b,
                None => old(self).target_brightness,
            },
            light_commands_ok(
                cmds@,
                *cmd,
                (shared@.r, shared@.g, shared@.b),
                final(self).target_brightness,
            ),
    {
        let mut cmds: Vec<Command> = Vec::new();
        if let Some(effect) = cmd.effect {
            let (r, g, b) = shared.rgb();
            let slot = match parse_effect(effect) {
                Some(s) => s,
                None => EffectSlot::Static(StaticColorEffect::from_rgb(r, g, b)),
            };
            cmds.push(Command::SwitchEffect(slot));
        }
        let ghost after_effect = cmds@;
        if let Some(color) = cmd.color {
            cmds.push(Command::SetColor { r: color.r, g: color.g, b: color.b, duration_ms: COLOR_TRANSITION_MS });
        }
        let ghost after_color = cmds@;
        if let Some(brightness) = cmd.brightness {
            self.target_brightness = brightness;
        }
        if cmd.is_off() {
            cmds.push(Command::SetBrightness { brightness: 0, duration_ms: BRIGHTNESS_TRANSITION_MS });
        } else if cmd.is_on() {
            cmds.push(Command::SetBrightness { brightness: self.target_brightness, duration_ms: BRIGHTNESS_TRANSITION_MS });
        } else if cmd.brightness.is_some() {
            cmds.push(Command::SetBrightness { brightness: self.target_brightness, duration_ms: BRIGHTNESS_TRANSITION_MS });
        }
        proof {
            if cmd.effect is Some {
                assert(cmds@[0] == after_effect[0]);
            }
            if cmd.color is Some {
                let ne: int = if cmd.effect is Some { 1 } else { 0 };
                assert(cmds@[ne] == after_color[ne]);
            }
        }
        cmds
    }
}

} // verus!
