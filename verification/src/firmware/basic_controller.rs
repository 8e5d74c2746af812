//! Brightness-only light controller: remembers whether the light is on and at what
//! brightness, and turns Home Assistant commands into brightness fades.

use vstd::prelude::*;

use crate::firmware::command::{Command, BRIGHTNESS_TRANSITION_MS};
use crate::firmware::ha_controller::is_plain_off;
use crate::ha::light::{command_state_is, LightCommand, LightState};

verus! {

/// Controller state: the current brightness and whether the light is on.
pub struct BasicLightController {
    pub current_brightness: u8,
    pub is_on: bool,
}

impl BasicLightController {
    /// A controller for a light that is off at brightness 0.
    pub fn new() -> (c: Self)
        ensures
            c.current_brightness == 0,
            !c.is_on,
    {
        BasicLightController { current_brightness: 0, is_on: false }
    }

    /// The state to publish: "ON" with the brightness when the light is on at a non-zero
    /// brightness, a plain "OFF" otherwise.
    pub fn get_light_state(&self) -> (s: LightState<'static>)
        ensures
            self.is_on && self.current_brightness > 0 ==> {
                &&& s.state@ == "ON"@
                &&& s.brightness == Some(self.current_brightness)
                &&& s.color_mode is None
                &&& s.color_temp is None
                &&& s.color is None
                &&& s.effect is None
            },
            !(self.is_on && self.current_brightness > 0) ==> is_plain_off(s),
    {
        if self.is_on && self.current_brightness > 0 {
            LightState::on().brightness(self.current_brightness)
        } else {
            LightState::off()
        }
    }

    /// Turn a command into a brightness fade: off fades to 0; on fades to the requested
    /// brightness (full when none is given); a bare brightness fades to it.
    pub fn handle_light_command(&mut self, cmd: &LightCommand) -> (c: Option<Command>)
        ensures
            command_state_is(*cmd, "OFF"@) ==> {
                &&& !final(self).is_on
                &&& final(self).current_brightness == 0
                &&& c == Some(Command::SetBrightness { brightness: 0, duration_ms: BRIGHTNESS_TRANSITION_MS })
            },
            !command_state_is(*cmd, "OFF"@) && command_state_is(*cmd, "ON"@) ==> {
                let b = match cmd.brightness {
                    Some(b) => b,
                    None => 255u8,
                };
                &&& final(self).is_on
                &&& final(self).current_brightness == b
                &&& c == Some(Command::SetBrightness { brightness: b, duration_ms: BRIGHTNESS_TRANSITION_MS })
            },
            !command_state_is(*cmd, "OFF"@) && !command_state_is(*cmd, "ON"@) ==> match cmd.brightness {
                Some(b) => {
                    &&& final(self).is_on == old(self).is_on
                    &&& final(self).current_brightness == b
                    &&& c == Some(Command::SetBrightness { brightness: b, duration_ms: BRIGHTNESS_TRANSITION_MS })
                },
                None => *final(self) == *old(self) && c is None,
            },
    {
        if cmd.is_off() {
            self.is_on = false;
            self.current_brightness = 0;
            Some(Command::SetBrightness { brightness: 0, duration_ms: BRIGHTNESS_TRANSITION_MS })
        } else if cmd.is_on() {
            let brightness = match cmd.brightness {
                Some(b) => b,
                None => 255,
            };
            self.is_on = true;
            self.current_brightness = brightness;
            Some(Command::SetBrightness { brightness, duration_ms: BRIGHTNESS_TRANSITION_MS })
        } else if let Some(brightness) = cmd.brightness {
            self.current_brightness = brightness;
            Some(Command::SetBrightness { brightness, duration_ms: BRIGHTNESS_TRANSITION_MS })
        } else {
            None
        }
    }
}

} // verus!
