//! Output processing applied to rendered frames before they go to the hardware:
//! a brightness envelope (global brightness and fades) and color correction.

use vstd::prelude::*;

use crate::color::{rgb_from_u32, spec_rgb_from_u32, Rgb};
use crate::math8::{scale8, spec_scale8};

verus! {

/// A pixel with every channel scaled by `factor`.
pub open spec fn scale_pixel(p: Rgb, factor: u8) -> Rgb {
    Rgb {
        r: spec_scale8(p.r, factor) as u8,
        g: spec_scale8(p.g, factor) as u8,
        b: spec_scale8(p.b, factor) as u8,
    }
}

/// A pixel with each channel scaled by the matching channel of `factors`.
pub open spec fn correct_pixel(p: Rgb, factors: Rgb) -> Rgb {
    Rgb {
        r: spec_scale8(p.r, factors.r) as u8,
        g: spec_scale8(p.g, factors.g) as u8,
        b: spec_scale8(p.b, factors.b) as u8,
    }
}

fn scale_pixel_exec(p: Rgb, factor: u8) -> (q: Rgb)
    ensures
        q == scale_pixel(p, factor),
{
    Rgb { r: scale8(p.r, factor), g: scale8(p.g, factor), b: scale8(p.b, factor) }
}

/// Color correction: per-channel multiplicative scaling for white balance.
/// All channels at 255 means no correction.
#[derive(Clone, Copy, Debug, PartialEq, Eq, Structural)]
pub struct ColorCorrection {
    /// Correction factors for each channel (0-255 = 0%-100%)
    pub factors: Rgb,
}

/// Whether a correction changes anything (not all channels at 255).
pub open spec fn correction_active(factors: Rgb) -> bool {
    factors.r != 255 || factors.g != 255 || factors.b != 255
}

impl ColorCorrection {
    /// No correction.
    pub fn new() -> (c: Self)
        ensures
            c.factors == (Rgb { r: 255, g: 255, b: 255 }),
    {
        ColorCorrection { factors: Rgb { r: 255, g: 255, b: 255 } }
    }

    /// Correction from a `0xRRGGBB` value.
    pub fn from_rgb(color: u32) -> (c: Self)
        ensures
            c.factors == spec_rgb_from_u32(color),
    {
        ColorCorrection { factors: rgb_from_u32(color) }
    }

    /// Set the correction from a `0xRRGGBB` value (`0xFFAA78` keeps red, scales green to 67%
    /// and blue to 47%).
    pub fn set(&mut self, color: u32)
        ensures
            final(self).factors == spec_rgb_from_u32(color),
    {
        self.factors = rgb_from_u32(color);
    }

    /// Set the correction from channel factors.
    pub fn set_rgb(&mut self, r: u8, g: u8, b: u8)
        ensures
            final(self).factors == (Rgb { r, g, b }),
    {
        self.factors = Rgb { r, g, b };
    }

    /// The correction factors.
    pub fn factors(&self) -> (f: Rgb)
        ensures
            f == self.factors,
    {
        self.factors
    }

    /// Whether the correction changes anything.
    pub fn is_active(&self) -> (b: bool)
        ensures
            b == correction_active(self.factors),
    {
        self.factors.r != 255 || self.factors.g != 255 || self.factors.b != 255
    }

    /// Apply the correction to a frame; an inactive correction leaves the frame as it is.
    pub fn apply(&self, frame: &mut [Rgb])
        ensures
            final(frame)@.len() == old(frame)@.len(),
            forall|j: int|
                0 <= j < old(frame)@.len() ==> #[trigger] final(frame)@[j] == if correction_active(
                    self.factors,
                ) {
                    correct_pixel(old(frame)@[j], self.factors)
                } else {
                    old(frame)@[j]
                },
    {
        if !self.is_active() {
            return;
        }
        let n = frame.len();
        let ghost orig = frame@;
        let mut i: usize = 0;
        while i < n
            invariant
                n == frame@.len(),
                orig.len() == n,
                i <= n,
                correction_active(self.factors),
                forall|j: int|
                    0 <= j < n ==> #[trigger] frame@[j] == if j < i {
                        correct_pixel(orig[j], self.factors)
                    } else {
                        orig[j]
                    },
            decreases n - i,
        {
            let p = frame[i];
            frame[i] = Rgb {
                r: scale8(p.r, self.factors.r),
                g: scale8(p.g, self.factors.g),
                b: scale8(p.b, self.factors.b),
            };
            i += 1;
        }
    }
}

/// An in-progress brightness fade.
#[derive(Clone, Copy, Debug, PartialEq, Eq, Structural)]
pub struct BrightnessTransition {
    /// Starting brightness
    pub start_value: u8,
    /// Target brightness
    pub end_value: u8,
    /// Total transition duration, in milliseconds
    pub duration_ms: u64,
    /// Time elapsed since the transition started, in milliseconds
    pub elapsed_ms: u64,
}

/// The observable state of a [`BrightnessEnvelope`].
pub struct BrightnessModel {
    /// Scale factor (0-255 = 0.0-1.0) applied to requested brightness
    pub scale: u8,
    /// Current brightness
    pub current: u8,
    /// Target brightness
    pub target: u8,
    /// Fade in progress
    pub transition: Option<BrightnessTransition>,
    /// Frame time, in milliseconds
    pub frame_time_ms: u64,
}

/// Brightness envelope with smooth transitions.
#[derive(Clone, Copy, Debug)]
pub struct BrightnessEnvelope {
    scale: u8,
    current: u8,
    target: u8,
    transition: Option<BrightnessTransition>,
    frame_time_ms: u64,
}

impl View for BrightnessEnvelope {
    type V = BrightnessModel;

    closed spec fn view(&self) -> BrightnessModel {
        BrightnessModel {
            scale: self.scale,
            current: self.current,
            target: self.target,
            transition: self.transition,
            frame_time_ms: self.frame_time_ms,
        }
    }
}

impl BrightnessEnvelope {
    /// Full brightness, no scaling, 16 ms frames.
    pub fn default_envelope() -> (e: Self)
        ensures
            e@ == (BrightnessModel {
                scale: 255,
                current: 255,
                target: 255,
                transition: None,
                frame_time_ms: 16,
            }),
    {
        BrightnessEnvelope { scale: 255, current: 255, target: 255, transition: None, frame_time_ms: 16 }
    }

    /// An envelope at `brightness` with the given frame time.
    pub fn new(brightness: u8, frame_time_ms: u64) -> (e: Self)
        ensures
            e@ == (BrightnessModel {
                scale: 255,
                current: brightness,
                target: brightness,
                transition: None,
                frame_time_ms,
            }),
    {
        BrightnessEnvelope { scale: 255, current: brightness, target: brightness, transition: None, frame_time_ms }
    }

    /// Set the scale factor and rescale the current and target brightness by it.
    pub fn set_scale(&mut self, scale: u8)
        ensures
            final(self)@ == (BrightnessModel {
                scale,
                current: spec_scale8(old(self)@.current, scale) as u8,
                target: spec_scale8(old(self)@.target, scale) as u8,
                ..old(self)@
            }),
    {
        self.scale = scale;
        self.current = scale8(self.current, scale);
        self.target = scale8(self.target, scale);
    }

    /// Set the brightness at once (scaled), ending any fade.
    pub fn set_immediate(&mut self, brightness: u8)
        ensures
            final(self)@ == (BrightnessModel {
                current: spec_scale8(brightness, old(self)@.scale) as u8,
                target: spec_scale8(brightness, old(self)@.scale) as u8,
                transition: None,
                ..old(self)@
            }),
    {
        let scaled = scale8(brightness, self.scale);
        self.current = scaled;
        self.target = scaled;
        self.transition = None;
    }

    /// Fade to `brightness` (scaled) over `duration_ms`; a zero duration sets it at once.
    pub fn set(&mut self, brightness: u8, duration_ms: u64)
        ensures
            duration_ms == 0 ==> final(self)@ == (BrightnessModel {
                current: spec_scale8(brightness, old(self)@.scale) as u8,
                target: spec_scale8(brightness, old(self)@.scale) as u8,
                transition: None,
                ..old(self)@
            }),
            duration_ms != 0 ==> final(self)@ == (BrightnessModel {
                target: spec_scale8(brightness, old(self)@.scale) as u8,
                transition: Some(
                    BrightnessTransition {
                        start_value: old(self)@.current,
                        end_value: spec_scale8(brightness, old(self)@.scale) as u8,
                        duration_ms,
                        elapsed_ms: 0,
                    },
                ),
                ..old(self)@
            }),
    {
        if duration_ms == 0 {
            self.set_immediate(brightness);
            return;
        }
        self.target = scale8(brightness, self.scale);
        self.transition = Some(
            BrightnessTransition {
                start_value: self.current,
                end_value: self.target,
                duration_ms,
                elapsed_ms: 0,
            },
        );
    }

    /// Fade out to zero.
    pub fn fade_out(&mut self, duration_ms: u64)
        ensures
            duration_ms == 0 ==> final(self)@ == (BrightnessModel {
                current: 0,
                target: 0,
                transition: None,
                ..old(self)@
            }),
            duration_ms != 0 ==> final(self)@ == (BrightnessModel {
                target: 0,
                transition: Some(
                    BrightnessTransition {
                        start_value: old(self)@.current,
                        end_value: 0,
                        duration_ms,
                        elapsed_ms: 0,
                    },
                ),
                ..old(self)@
            }),
    {
        self.set(0, duration_ms);
    }

    /// Fade in to `target` (scaled).
    pub fn fade_in(&mut self, target: u8, duration_ms: u64)
        ensures
            duration_ms == 0 ==> final(self)@ == (BrightnessModel {
                current: spec_scale8(target, old(self)@.scale) as u8,
                target: spec_scale8(target, old(self)@.scale) as u8,
                transition: None,
                ..old(self)@
            }),
            duration_ms != 0 ==> final(self)@ == (BrightnessModel {
                target: spec_scale8(target, old(self)@.scale) as u8,
                transition: Some(
                    BrightnessTransition {
                        start_value: old(self)@.current,
                        end_value: spec_scale8(target, old(self)@.scale) as u8,
                        duration_ms,
                        elapsed_ms: 0,
                    },
                ),
                ..old(self)@
            }),
    {
        self.set(target, duration_ms);
    }

    /// Whether a fade is in progress.
    pub fn is_transitioning(&self) -> (b: bool)
        ensures
            b == self@.transition is Some,
    {
        self.transition.is_some()
    }

    /// Whether the brightness is zero with no fade in progress.
    pub fn is_faded_out(&self) -> (b: bool)
        ensures
            b == (self@.current == 0 && self@.transition is None),
    {
        self.current == 0 && self.transition.is_none()
    }

    /// The current brightness.
    pub fn current(&self) -> (v: u8)
        ensures
            v == self@.current,
    {
        self.current
    }

    /// Advance a fade by one frame.
    ///
    /// When the elapsed time reaches the duration the fade ends at its end value. Before that
    /// the current brightness is what `interpolate(start, end, elapsed_ms, duration_ms)` returns.
    pub fn tick<F: Fn(u8, u8, u64, u64) -> u8>(&mut self, interpolate: F)
        requires
            old(self)@.transition matches Some(t) ==> {
                &&& t.elapsed_ms + old(self)@.frame_time_ms <= u64::MAX
                &&& t.elapsed_ms + old(self)@.frame_time_ms < t.duration_ms ==> call_requires(
                    interpolate,
                    (
                        t.start_value,
                        t.end_value,
                        (t.elapsed_ms + old(self)@.frame_time_ms) as u64,
                        t.duration_ms,
                    ),
                )
            },
        ensures
            match old(self)@.transition {
                None => final(self)@ == old(self)@,
                Some(t) => {
                    let elapsed = (t.elapsed_ms + old(self)@.frame_time_ms) as u64;
                    if elapsed >= t.duration_ms {
                        final(self)@ == (BrightnessModel {
                            current: t.end_value,
                            transition: None,
                            ..old(self)@
                        })
                    } else {
                        &&& final(self)@ == (BrightnessModel {
                            current: final(self)@.current,
                            transition: Some(BrightnessTransition { elapsed_ms: elapsed, ..t }),
                            ..old(self)@
                        })
                        &&& call_ensures(
                            interpolate,
                            (t.start_value, t.end_value, elapsed, t.duration_ms),
                            final(self)@.current,
                        )
                    }
                },
            },
    {
        if let Some(t) = self.transition {
            let elapsed = t.elapsed_ms + self.frame_time_ms;
            if elapsed >= t.duration_ms {
                self.current = t.end_value;
                self.transition = None;
            } else {
                self.transition = Some(BrightnessTransition { elapsed_ms: elapsed, ..t });
                self.current = interpolate(t.start_value, t.end_value, elapsed, t.duration_ms);
            }
        }
    }

    /// Apply the brightness to a frame: full brightness leaves it as it is, otherwise every
    /// channel is scaled by the current brightness (zero gives black).
    pub fn apply(&self, frame: &mut [Rgb])
        ensures
            final(frame)@.len() == old(frame)@.len(),
            forall|j: int|
                0 <= j < old(frame)@.len() ==> #[trigger] final(frame)@[j] == if self@.current
                    == 255 {
                    old(frame)@[j]
                } else {
                    scale_pixel(old(frame)@[j], self@.current)
                },
    {
        if self.current == 255 {
            return;
        }
        let n = frame.len();
        let ghost orig = frame@;
        if self.current == 0 {
            let mut i: usize = 0;
            while i < n
                invariant
                    n == frame@.len(),
                    orig.len() == n,
                    i <= n,
                    self.current == 0,
                    forall|j: int|
                        0 <= j < n ==> #[trigger] frame@[j] == if j < i {
                            scale_pixel(orig[j], 0)
                        } else {
                            orig[j]
                        },
                decreases n - i,
            {
                let ghost p = frame@[i as int];
                frame[i] = Rgb { r: 0, g: 0, b: 0 };
                assert(scale_pixel(p, 0) == (Rgb { r: 0, g: 0, b: 0 }));
                i += 1;
            }
            return;
        }
        let mut i: usize = 0;
        while i < n
            invariant
                n == frame@.len(),
                orig.len() == n,
                i <= n,
                forall|j: int|
                    0 <= j < n ==> #[trigger] frame@[j] == if j < i {
                        scale_pixel(orig[j], self.current)
                    } else {
                        orig[j]
                    },
            decreases n - i,
        {
            let p = frame[i];
            frame[i] = scale_pixel_exec(p, self.current);
            i += 1;
        }
    }
}

/// Output processor: brightness envelope, then color correction.
#[derive(Clone, Copy, Debug)]
pub struct OutputProcessor {
    /// Brightness envelope for fades
    pub brightness: BrightnessEnvelope,
    /// Color correction for white balance
    pub color_correction: ColorCorrection,
}

impl OutputProcessor {
    /// Full brightness, no correction.
    pub fn new() -> (p: Self)
        ensures
            p.brightness@ == (BrightnessModel {
                scale: 255,
                current: 255,
                target: 255,
                transition: None,
                frame_time_ms: 16,
            }),
            p.color_correction.factors == (Rgb { r: 255, g: 255, b: 255 }),
    {
        OutputProcessor {
            brightness: BrightnessEnvelope::default_envelope(),
            color_correction: ColorCorrection::new(),
        }
    }

    /// A processor starting at `brightness`.
    pub fn with_brightness(brightness: u8, frame_time_ms: u64) -> (p: Self)
        ensures
            p.brightness@ == (BrightnessModel {
                scale: 255,
                current: brightness,
                target: brightness,
                transition: None,
                frame_time_ms,
            }),
            p.color_correction.factors == (Rgb { r: 255, g: 255, b: 255 }),
    {
        OutputProcessor {
            brightness: BrightnessEnvelope::new(brightness, frame_time_ms),
            color_correction: ColorCorrection::new(),
        }
    }

    /// Apply brightness scaling, then color correction.
    pub fn apply(&self, frame: &mut [Rgb])
        ensures
            final(frame)@.len() == old(frame)@.len(),
            forall|j: int|
                0 <= j < old(frame)@.len() ==> #[trigger] final(frame)@[j] == ({
                    let b = if self.brightness@.current == 255 {
                        old(frame)@[j]
                    } else {
                        scale_pixel(old(frame)@[j], self.brightness@.current)
                    };
                    if correction_active(self.color_correction.factors) {
                        correct_pixel(b, self.color_correction.factors)
                    } else {
                        b
                    }
                }),
    {
        let ghost orig = frame@;
        self.brightness.apply(frame);
        let ghost mid = frame@;
        self.color_correction.apply(frame);
        assert forall|j: int| 0 <= j < orig.len() implies #[trigger] frame@[j] == ({
            let b = if self.brightness@.current == 255 {
                orig[j]
            } else {
                scale_pixel(orig[j], self.brightness@.current)
            };
            if correction_active(self.color_correction.factors) {
                correct_pixel(b, self.color_correction.factors)
            } else {
                b
            }
        }) by {
            assert(mid[j] == if self.brightness@.current == 255 {
                orig[j]
            } else {
                scale_pixel(orig[j], self.brightness@.current)
            });
        }
    }

    /// Advance the brightness fade by one frame; the color correction is left as it is.
    pub fn tick<F: Fn(u8, u8, u64, u64) -> u8>(&mut self, interpolate: F)
        requires
            old(self).brightness@.transition matches Some(t) ==> {
                &&& t.elapsed_ms + old(self).brightness@.frame_time_ms <= u64::MAX
                &&& t.elapsed_ms + old(self).brightness@.frame_time_ms < t.duration_ms
                    ==> call_requires(
                    interpolate,
                    (
                        t.start_value,
                        t.end_value,
                        (t.elapsed_ms + old(self).brightness@.frame_time_ms) as u64,
                        t.duration_ms,
                    ),
                )
            },
        ensures
            final(self).color_correction == old(self).color_correction,
            match old(self).brightness@.transition {
                None => final(self).brightness@ == old(self).brightness@,
                Some(t) => {
                    let elapsed = (t.elapsed_ms + old(self).brightness@.frame_time_ms) as u64;
                    if elapsed >= t.duration_ms {
                        final(self).brightness@ == (BrightnessModel {
                            current: t.end_value,
                            transition: None,
                            ..old(self).brightness@
                        })
                    } else {
                        &&& final(self).brightness@ == (BrightnessModel {
                            current: final(self).brightness@.current,
                            transition: Some(BrightnessTransition { elapsed_ms: elapsed, ..t }),
                            ..old(self).brightness@
                        })
                        &&& call_ensures(
                            interpolate,
                            (t.start_value, t.end_value, elapsed, t.duration_ms),
                            final(self).brightness@.current,
                        )
                    }
                },
            },
    {
        self.brightness.tick(interpolate);
    }

    /// Whether a brightness fade is in progress.
    pub fn is_transitioning(&self) -> (b: bool)
        ensures
            b == self.brightness@.transition is Some,
    {
        self.brightness.is_transitioning()
    }
}

/// A correction factor of 255 keeps its channel at 100%: each channel of a corrected pixel
/// whose factor is 255 is the channel as it was.
pub proof fn law_full_factor_keeps_channel(p: Rgb, factors: Rgb)
    ensures
        factors.r == 255 ==> correct_pixel(p, factors).r == p.r,
        factors.g == 255 ==> correct_pixel(p, factors).g == p.g,
        factors.b == 255 ==> correct_pixel(p, factors).b == p.b,
{
    crate::math8::law_math8_identities(p.r, 0, 0, 0);
    crate::math8::law_math8_identities(p.g, 0, 0, 0);
    crate::math8::law_math8_identities(p.b, 0, 0, 0);
}

} // verus!
