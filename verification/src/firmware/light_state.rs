//! The light state the firmware persists across power cycles, and its binary encoding.

use vstd::prelude::*;

use crate::storage::Encodable;

verus! {

/// Size of an encoded light state, in bytes.
pub const LIGHT_STATE_SIZE: usize = 10;

/// Size of the stored record: magic header plus encoded state.
pub const STORAGE_SIZE: usize = 12;

/// Color mode of the light.
#[derive(Clone, Copy, Debug, PartialEq, Eq, Structural)]
pub enum ColorMode {
    /// RGB color
    Rgb,
    /// Color temperature
    Temperature,
}

/// The stored code of a color mode.
pub open spec fn color_mode_code(m: ColorMode) -> u8 {
    match m {
        ColorMode::Rgb => 0,
        ColorMode::Temperature => 1,
    }
}

/// The color mode of a stored code, if it is one.
pub open spec fn color_mode_from_code(v: u8) -> Option<ColorMode> {
    if v == 0 {
        Some(ColorMode::Rgb)
    } else if v == 1 {
        Some(ColorMode::Temperature)
    } else {
        None
    }
}

impl ColorMode {
    /// The stored code of this color mode.
    pub fn as_u8(self) -> (v: u8)
        ensures
            v == color_mode_code(self),
    {
        match self {
            ColorMode::Rgb => 0,
            ColorMode::Temperature => 1,
        }
    }

    /// The color mode of a stored code, if it is one.
    pub fn from_u8(v: u8) -> (m: Option<ColorMode>)
        ensures
            m == color_mode_from_code(v),
    {
        match v {
            0 => Some(ColorMode::Rgb),
            1 => Some(ColorMode::Temperature),
            _ => None,
        }
    }
}

/// The light state.
#[derive(Clone, Copy, Debug)]
pub struct LightState {
    pub power: bool,
    pub brightness: u8,
    pub mode_id: u8,
    pub color_temp: u16,
    pub color_mode: ColorMode,
    pub color: (u8, u8, u8),
}

impl LightState {
    /// The state a fresh light starts in: on, full brightness, white, rainbow mode.
    pub fn new() -> (s: Self)
        ensures
            s == (LightState {
                power: true,
                brightness: 255,
                mode_id: 1,
                color_temp: 0,
                color_mode: ColorMode::Rgb,
                color: (255, 255, 255),
            }),
    {
        LightState {
            power: true,
            brightness: 255,
            mode_id: 1,
            color_temp: 0,
            color_mode: ColorMode::Rgb,
            color: (255, 255, 255),
        }
    }
}

/// The encoding of a light state: power, brightness, mode, color temperature (little-endian),
/// color mode, red, green, blue, and a padding byte.
pub open spec fn spec_encode_state(s: LightState) -> Seq<u8> {
    seq![
        if s.power { 1u8 } else { 0u8 },
        s.brightness,
        s.mode_id,
        (s.color_temp % 256) as u8,
        (s.color_temp / 256) as u8,
        color_mode_code(s.color_mode),
        s.color.0,
        s.color.1,
        s.color.2,
        0u8,
    ]
}

/// The light state held by ten bytes (any non-zero power byte means on).
pub open spec fn spec_decode_state(data: Seq<u8>) -> Option<LightState> {
    if data.len() != 10 {
        None
    } else {
        match color_mode_from_code(data[5]) {
            Some(mode) => Some(
                LightState {
                    power: data[0] != 0,
                    brightness: data[1],
                    mode_id: data[2],
                    color_temp: (data[3] + data[4] * 256) as u16,
                    color_mode: mode,
                    color: (data[6], data[7], data[8]),
                },
            ),
            None => None,
        }
    }
}

impl Encodable<10> for LightState {
    open spec fn spec_encode(self) -> Seq<u8> {
        spec_encode_state(self)
    }

    open spec fn spec_decode(data: Seq<u8>) -> Option<Self> {
        spec_decode_state(data)
    }

    /// Ten bytes decode only when byte 5 is a known color mode; other lengths decode to nothing.
    open spec fn decodable(data: Seq<u8>) -> bool {
        data.len() != 10 || color_mode_from_code(data[5]) is Some
    }

    fn encode(self) -> (r: [u8; 10]) {
        let lo: u8 = (self.color_temp % 256) as u8;
        let hi: u8 = (self.color_temp / 256) as u8;
        let r = [
            if self.power {
                1u8
            } else {
                0u8
            },
            self.brightness,
            self.mode_id,
            lo,
            hi,
            self.color_mode.as_u8(),
            self.color.0,
            self.color.1,
            self.color.2,
            0u8,
        ];
        assert(r@ =~= spec_encode_state(self));
        r
    }

    fn decode(data: &[u8]) -> (r: Option<Self>) {
        if data.len() != LIGHT_STATE_SIZE {
            return None;
        }
        let mode = match ColorMode::from_u8(data[5]) {
            Some(m) => m,
            None => {
                assert(false);
                return None;
            },
        };
        Some(
            LightState {
                power: data[0] != 0,
                brightness: data[1],
                mode_id: data[2],
                color_temp: data[3] as u16 + (data[4] as u16) * 256,
                color_mode: mode,
                color: (data[6], data[7], data[8]),
            },
        )
    }
}

/// The encoding of a light state can always be decoded, and decoding it gives the state back.
pub proof fn law_light_state_codec_roundtrip(s: LightState)
    ensures
        <LightState as Encodable<10>>::decodable(spec_encode_state(s)),
        spec_decode_state(spec_encode_state(s)) == Some(s),
{
    let e = spec_encode_state(s);
    assert(e[3] + e[4] * 256 == s.color_temp);
}

} // verus!
