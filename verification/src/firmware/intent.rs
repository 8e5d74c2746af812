//! Light change intents: a requested change of power, brightness, color and effect, what
//! applying one does to the runtime light state, and which engine commands it sends.

use vstd::prelude::*;

use crate::color::Rgb;
use crate::effect::{resting, spec_effect_name_from_id, EffectName, EffectSlot};
use crate::firmware::command::{Command, COLOR_TRANSITION_MS};
use crate::gradient::{RainbowEffect, RainbowFlowEffect, DEFAULT_CYCLE_MS};
use crate::state::{effect_from_code, EffectId};

verus! {

/// Duration (ms) of the brightness and power fades an intent starts.
pub const INTENT_BRIGHTNESS_TRANSITION_MS: u64 = 400;

/// The light state the firmware keeps at run time.
#[derive(Clone, Copy, Debug)]
pub struct RuntimeLightState {
    pub power: bool,
    pub brightness: u8,
    /// Wire code of the active effect
    pub effect_id: u8,
    pub color: (u8, u8, u8),
}

/// A requested change of the light; absent fields stay as they are.
#[derive(Clone, Copy, Debug)]
pub struct LightChangeIntent {
    /// Turn the light on (`true`) or off (`false`)
    pub power: Option<bool>,
    pub brightness: Option<u8>,
    pub color: Option<(u8, u8, u8)>,
    /// Wire code of the effect to switch to
    pub effect: Option<u8>,
}

impl LightChangeIntent {
    /// Whether the intent turns the light off.
    pub fn is_off(&self) -> (b: bool)
        ensures
            b == (self.power == Some(false)),
    {
        match self.power {
            Some(p) => !p,
            None => false,
        }
    }

    /// Whether the intent turns the light on.
    pub fn implies_on(&self) -> (b: bool)
        ensures
            b == (self.power == Some(true)),
    {
        match self.power {
            Some(p) => p,
            None => false,
        }
    }

    /// The intent that restores a state: every field set to the state's value.
    pub fn from_state(state: RuntimeLightState) -> (i: Self)
        ensures
            i == (LightChangeIntent {
                power: Some(state.power),
                brightness: Some(state.brightness),
                color: Some(state.color),
                effect: Some(state.effect_id),
            }),
    {
        LightChangeIntent {
            power: Some(state.power),
            brightness: Some(state.brightness),
            color: Some(state.color),
            effect: Some(state.effect_id),
        }
    }
}

/// Whether `slot` is the slot that starts the effect `name`, a static one showing `rgb`.
pub open spec fn starts_named_effect(slot: EffectSlot, name: EffectName, rgb: (u8, u8, u8)) -> bool {
    match name {
        EffectName::Static => slot matches EffectSlot::Static(e) && e@ == resting(
            Rgb { r: rgb.0, g: rgb.1, b: rgb.2 },
        ),
        EffectName::Rainbow => slot == EffectSlot::Rainbow(
            RainbowEffect { cycle_ms: DEFAULT_CYCLE_MS, value: 255, saturation: 255 },
        ),
        EffectName::RainbowFlow => slot == EffectSlot::RainbowFlow(
            RainbowFlowEffect { cycle_ms: DEFAULT_CYCLE_MS, value: 255, saturation: 255 },
        ),
    }
}

/// Whether an intent can be applied: an effect it names must be a known, non-off effect.
pub open spec fn intent_applicable(intent: LightChangeIntent) -> bool {
    intent.effect matches Some(code) ==> spec_effect_name_from_id(effect_from_code(code)) is Some
}

/// The state after applying `intent` to `s`.
pub open spec fn spec_apply_intent(s: RuntimeLightState, intent: LightChangeIntent) -> RuntimeLightState {
    RuntimeLightState {
        power: match intent.power {
            Some(p) => p,
            None => s.power,
        },
        brightness: match intent.brightness {
            Some(b) => b,
            None => s.brightness,
        },
        effect_id: match intent.effect {
            Some(e) => e,
            None => s.effect_id,
        },
        color: match intent.color {
            Some(c) => c,
            None => s.color,
        },
    }
}

/// The commands applying `intent` to `s` sends, in order: the effect switch (a static effect
/// takes the color held before the intent), the color crossfade, the brightness fade, and
/// the power fade.
pub open spec fn intent_commands_ok(cmds: Seq<Command>, s: RuntimeLightState, intent: LightChangeIntent) -> bool {
    let ne: int = if intent.effect is Some { 1 } else { 0 };
    let nc: int = if intent.color is Some { 1 } else { 0 };
    let nb: int = if intent.brightness is Some { 1 } else { 0 };
    let np: int = if intent.power is Some { 1 } else { 0 };
    &&& cmds.len() == ne + nc + nb + np
    &&& (intent.effect matches Some(code) ==> (cmds[0] matches Command::SwitchEffect(slot)
        && starts_named_effect(
        slot,
        spec_effect_name_from_id(effect_from_code(code))->0,
        s.color,
    )))
    &&& (intent.color matches Some(c) ==> cmds[ne] == Command::SetColor {
        r: c.0,
        g: c.1,
        b: c.2,
        duration_ms: COLOR_TRANSITION_MS,
    })
    &&& (intent.brightness matches Some(b) ==> cmds[ne + nc] == Command::SetBrightness {
        brightness: b,
        duration_ms: INTENT_BRIGHTNESS_TRANSITION_MS,
    })
    &&& (intent.power matches Some(p) ==> cmds[ne + nc + nb] == if p {
        Command::PowerOn(INTENT_BRIGHTNESS_TRANSITION_MS)
    } else {
        Command::PowerOff(INTENT_BRIGHTNESS_TRANSITION_MS)
    })
}

/// Apply an intent: update the state and return the engine commands to send, in order.
pub fn apply_intent(state: &mut RuntimeLightState, intent: &LightChangeIntent) -> (cmds: Vec<Command>)
    requires
        intent_applicable(*intent),
    ensures
        *final(state) == spec_apply_intent(*old(state), *intent),
        intent_commands_ok(cmds@, *old(state), *intent),
{
    let mut cmds: Vec<Command> = Vec::new();
    if let Some(code) = intent.effect {
        let id = EffectId::from_u8(code);
        let name = match EffectName::from_id(id) {
            Some(n) => n,
            None => {
                assert(false);
                return cmds;
            },
        };
        let slot = name.to_effect_slot(state.color.0, state.color.1, state.color.2);
        state.effect_id = code;
        cmds.push(Command::SwitchEffect(slot));
    }
    let ghost after_effect = cmds@;
    if let Some((r, g, b)) = intent.color {
        state.color = (r, g, b);
        cmds.push(Command::SetColor { r, g, b, duration_ms: COLOR_TRANSITION_MS });
    }
    let ghost after_color = cmds@;
    if let Some(brightness) = intent.brightness {
        state.brightness = brightness;
        cmds.push(Command::SetBrightness { brightness, duration_ms: INTENT_BRIGHTNESS_TRANSITION_MS });
    }
    let ghost after_brightness = cmds@;
    let off = intent.is_off();
    let on = intent.implies_on();
    proof {
        if intent.power is Some {
            if intent.power->0 {
                assert(intent.power == Some(true));
            } else {
                assert(intent.power == Some(false));
            }
        }
    }
    if off {
        state.power = false;
        cmds.push(Command::PowerOff(INTENT_BRIGHTNESS_TRANSITION_MS));
    } else if on {
        state.power = true;
        cmds.push(Command::PowerOn(INTENT_BRIGHTNESS_TRANSITION_MS));
    }
    proof {
        let ne: int = if intent.effect is Some { 1 } else { 0 };
        let nc: int = if intent.color is Some { 1 } else { 0 };
        let nb: int = if intent.brightness is Some { 1 } else { 0 };
        if intent.effect is Some {
            assert(cmds@[0] == after_effect[0]);
        }
        if intent.color is Some {
            assert(cmds@[ne] == after_color[ne]);
        }
        if intent.brightness is Some {
            assert(cmds@[ne + nc] == after_brightness[ne + nc]);
        }
    }
    cmds
}

/// What to do next while the commands of an intent are delivered.
#[derive(Clone, Copy, Debug)]
pub enum DeliveryStep {
    /// Send this command to the engine.
    Send(Command),
    /// Every command went out: store this state and report success.
    Commit(RuntimeLightState),
    /// A send failed: keep this (the old) state, send nothing more and report failure.
    Abandon(RuntimeLightState),
}

/// The delivery of an intent's commands, one send at a time.
pub struct IntentDelivery {
    /// The commands to send, in order
    pub commands: Vec<Command>,
    /// How many of them went out
    pub sent: usize,
    /// Whether a send failed
    pub failed: bool,
    /// The state before the intent
    pub before: RuntimeLightState,
    /// The state once the intent is applied
    pub after: RuntimeLightState,
}

impl IntentDelivery {
    /// Whether the count of sent commands is within the command list.
    pub open spec fn well_formed(&self) -> bool {
        self.sent <= self.commands@.len()
    }

    /// Start delivering `intent` to a light in `state`: nothing sent yet.
    pub fn begin(state: RuntimeLightState, intent: &LightChangeIntent) -> (d: Self)
        requires
            intent_applicable(*intent),
        ensures
            d.well_formed(),
            d.sent == 0,
            !d.failed,
            d.before == state,
            d.after == spec_apply_intent(state, *intent),
            intent_commands_ok(d.commands@, state, *intent),
    {
        let mut after = state;
        let commands = apply_intent(&mut after, intent);
        IntentDelivery { commands, sent: 0, failed: false, before: state, after }
    }

    /// The next step: after a failed send, abandon with the old state; otherwise send the
    /// next command, and commit the new state once all went out.
    pub fn step(&self) -> (s: DeliveryStep)
        requires
            self.well_formed(),
        ensures
            s == if self.failed {
                DeliveryStep::Abandon(self.before)
            } else if self.sent < self.commands@.len() {
                DeliveryStep::Send(self.commands@[self.sent as int])
            } else {
                DeliveryStep::Commit(self.after)
            },
    {
        if self.failed {
            DeliveryStep::Abandon(self.before)
        } else if self.sent < self.commands.len() {
            DeliveryStep::Send(self.commands[self.sent])
        } else {
            DeliveryStep::Commit(self.after)
        }
    }

    /// Record whether the command just sent was delivered.
    pub fn record_send(&mut self, delivered: bool)
        requires
            old(self).well_formed(),
            !old(self).failed,
            old(self).sent < old(self).commands@.len(),
        ensures
            final(self).well_formed(),
            final(self).commands@ == old(self).commands@,
            final(self).before == old(self).before,
            final(self).after == old(self).after,
            delivered ==> final(self).sent == old(self).sent + 1 && !final(self).failed,
            !delivered ==> final(self).sent == old(self).sent && final(self).failed,
    {
        if delivered {
            let total = self.commands.len();
            assert(self.sent < total);
            self.sent = self.sent + 1;
        } else {
            self.failed = true;
        }
    }
}

/// An intent changes only what it names: each field the intent leaves absent keeps its old
/// value, and each field it gives takes that value.
pub proof fn law_intent_frame(s: RuntimeLightState, intent: LightChangeIntent)
    ensures
        intent.power is None ==> spec_apply_intent(s, intent).power == s.power,
        intent.brightness is None ==> spec_apply_intent(s, intent).brightness == s.brightness,
        intent.color is None ==> spec_apply_intent(s, intent).color == s.color,
        intent.effect is None ==> spec_apply_intent(s, intent).effect_id == s.effect_id,
        intent.power matches Some(p) ==> spec_apply_intent(s, intent).power == p,
        intent.brightness matches Some(b) ==> spec_apply_intent(s, intent).brightness == b,
        intent.color matches Some(c) ==> spec_apply_intent(s, intent).color == c,
        intent.effect matches Some(e) ==> spec_apply_intent(s, intent).effect_id == e,
{
}

/// An intent that names nothing changes nothing and sends nothing.
pub proof fn law_empty_intent(s: RuntimeLightState, cmds: Seq<Command>)
    requires
        intent_commands_ok(
            cmds,
            s,
            LightChangeIntent { power: None, brightness: None, color: None, effect: None },
        ),
    ensures
        spec_apply_intent(s, LightChangeIntent { power: None, brightness: None, color: None, effect: None }) == s,
        cmds.len() == 0,
{
}

/// Applying the intent that restores a state to any state gives that state back.
pub proof fn law_restore_intent(current: RuntimeLightState, stored: RuntimeLightState)
    ensures
        spec_apply_intent(
            current,
            LightChangeIntent {
                power: Some(stored.power),
                brightness: Some(stored.brightness),
                color: Some(stored.color),
                effect: Some(stored.effect_id),
            },
        ) == stored,
{
}

} // verus!
