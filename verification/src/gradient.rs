//! Fixed-point HSV gradients (8.24 accumulators) used by the rainbow effects.

use vstd::prelude::*;

use crate::color::{hsv2rgb, spec_hsv2rgb, Hsv, Rgb};

verus! {

/// Which way around the hue circle a gradient travels.
#[derive(Clone, Copy, Debug, PartialEq, Eq, Structural)]
pub enum GradientDirection {
    Forward,
    Backward,
    Shortest,
}

/// Direction for the integer hue-distance helper of the flowing rainbow.
#[derive(Clone, Copy, Debug, PartialEq, Eq, Structural)]
pub enum HueDirection {
    Forward,
    Backward,
}

/// 2^24: one unit of an 8.24 fixed-point accumulator.
pub open spec fn unit824() -> int {
    16777216
}

/// 2^32: the modulus of a `u32` accumulator.
pub open spec fn modulus32() -> int {
    4294967296
}

/// Colors of a gradient after the black/white fix-up: a color without saturation or value
/// takes the other end's hue (the end color is fixed first, then the start color).
pub open spec fn fix_hues(start: Hsv, end: Hsv) -> (Hsv, Hsv) {
    let e = if end.val == 0 || end.sat == 0 {
        Hsv { hue: start.hue, ..end }
    } else {
        end
    };
    let s = if start.val == 0 || start.sat == 0 {
        Hsv { hue: e.hue, ..start }
    } else {
        start
    };
    (s, e)
}

/// Hue distance in 8.7 fixed point, along the requested direction.
pub open spec fn hue_distance87(start: Hsv, end: Hsv, dir: GradientDirection) -> int {
    let delta = (end.hue - start.hue) % 256;
    let forward = match dir {
        GradientDirection::Forward => true,
        GradientDirection::Backward => false,
        GradientDirection::Shortest => delta <= 127,
    };
    if forward {
        delta * 128
    } else {
        -(((256 - delta) % 256) * 128)
    }
}

/// Integer division rounding toward zero (Rust's `/` on signed integers), for `d > 0`.
pub open spec fn trunc_div(x: int, d: int) -> int {
    if x >= 0 {
        x / d
    } else {
        -((-x) / d)
    }
}

/// Per-pixel step, in 8.24 fixed point, of a channel that changes by `dist87` (8.7 fixed
/// point) over `span` pixels, taken modulo 2^32 as the accumulator adds it.
pub open spec fn step824(dist87: int, span: int) -> int {
    let divisor = if span == 0 {
        1
    } else {
        span
    };
    (trunc_div(dist87 * 65536, divisor) * 2) % modulus32()
}

/// A `u32` accumulator that starts at `x0` and adds `d` (wrapping) `k` times.
pub open spec fn accumulate(x0: int, d: int, k: nat) -> int
    decreases k,
{
    if k == 0 {
        x0
    } else {
        (accumulate(x0, d, (k - 1) as nat) + d) % modulus32()
    }
}

/// The 8-bit channel value that a channel starting at `start` shows after `k` steps of `d`.
pub open spec fn channel_at(start: u8, d: int, k: nat) -> u8 {
    (accumulate(start * unit824(), d, k) / unit824()) as u8
}

/// Color of pixel `k` (counted from the start) of a gradient over `span` pixels between two
/// colors that are already in position order.
pub open spec fn segment_pixel(
    start_color: Hsv,
    end_color: Hsv,
    span: int,
    dir: GradientDirection,
    k: nat,
) -> Rgb {
    let (s, e) = fix_hues(start_color, end_color);
    let dh = step824(hue_distance87(s, e, dir), span);
    let ds = step824((e.sat - s.sat) * 128, span);
    let dv = step824((e.val - s.val) * 128, span);
    spec_hsv2rgb(
        Hsv { hue: channel_at(s.hue, dh, k), sat: channel_at(s.sat, ds, k), val: channel_at(s.val, dv, k) },
    )
}

/// Color of pixel `j` of a three-point gradient filled into a strip of `len` pixels.
pub open spec fn three_point_pixel(len: int, c1: Hsv, c2: Hsv, c3: Hsv, j: int) -> Rgb {
    let half = len / 2;
    let last = len - 1;
    if last > half && j >= half {
        segment_pixel(c2, c3, last - half, GradientDirection::Forward, (j - half) as nat)
    } else {
        segment_pixel(c1, c2, half, GradientDirection::Forward, j as nat)
    }
}

/// The step of one channel as the `u32` the accumulator adds.
fn step824_exec(dist87: i64, divisor: u64) -> (r: u32)
    requires
        -32640 <= dist87 <= 32640,
        1 <= divisor,
    ensures
        r == step824(dist87 as int, divisor as int),
{
    if dist87 >= 0 {
        let num: u64 = (dist87 as u64) * 65536;
        let q: u64 = num / divisor;
        assert(q <= num) by (nonlinear_arith)
            requires
                q == num / divisor,
                divisor >= 1,
        ;
        assert((q * 2) % modulus32() == q * 2);
        (q * 2) as u32
    } else {
        let num: u64 = ((-dist87) as u64) * 65536;
        let q: u64 = num / divisor;
        assert(q <= num) by (nonlinear_arith)
            requires
                q == num / divisor,
                divisor >= 1,
        ;
        let twice: u64 = q * 2;
        let r: u64 = (4294967296 - twice) % 4294967296;
        assert(r == (-(twice as int)) % modulus32());
        r as u32
    }
}

/// Fill `leds[start_pos..=end_pos]` (clipped to the strip) with a gradient between two HSV
/// colors, stepping hue, saturation and value in 8.24 fixed point.
///
/// The two ends may be given in either order; pixels outside the filled range keep their color.
#[verifier::rlimit(40)]
pub fn fill_gradient_fp(
    leds: &mut [Rgb],
    start_pos: usize,
    start_color: Hsv,
    end_pos: usize,
    end_color: Hsv,
    direction: GradientDirection,
)
    requires
        start_pos <= end_pos ==> end_pos - start_pos <= i32::MAX,
        end_pos < start_pos ==> start_pos - end_pos <= i32::MAX,
    ensures
        final(leds)@.len() == old(leds)@.len(),
        ({
            let n = old(leds)@.len() as int;
            let (s, sc, e, ec) = if end_pos < start_pos {
                (end_pos as int, end_color, start_pos as int, start_color)
            } else {
                (start_pos as int, start_color, end_pos as int, end_color)
            };
            forall|j: int|
                0 <= j < n ==> #[trigger] final(leds)@[j] == if s <= j <= e {
                    segment_pixel(sc, ec, e - s, direction, (j - s) as nat)
                } else {
                    old(leds)@[j]
                }
        }),
{
    let n = leds.len();
    if n == 0 {
        return;
    }
    let (start_pos, end_pos, start_color, end_color) = if end_pos < start_pos {
        (end_pos, start_pos, end_color, start_color)
    } else {
        (start_pos, end_pos, start_color, end_color)
    };
    let ghost fixed = fix_hues(start_color, end_color);
    let ghost given_start = start_color;
    let ghost given_end = end_color;
    let mut end_color = end_color;
    let mut start_color = start_color;
    if end_color.val == 0 || end_color.sat == 0 {
        end_color.hue = start_color.hue;
    }
    if start_color.val == 0 || start_color.sat == 0 {
        start_color.hue = end_color.hue;
    }
    assert(start_color == fixed.0 && end_color == fixed.1);

    let sat_distance87: i64 = (end_color.sat as i64 - start_color.sat as i64) * 128;
    let val_distance87: i64 = (end_color.val as i64 - start_color.val as i64) * 128;
    let hue_delta: u8 = end_color.hue.wrapping_sub(start_color.hue);
    assert(hue_delta == (end_color.hue - start_color.hue) % 256);
    let forward = match direction {
        GradientDirection::Forward => true,
        GradientDirection::Backward => false,
        GradientDirection::Shortest => hue_delta <= 127,
    };
    let hue_dist87: i64 = if forward {
        hue_delta as i64 * 128
    } else {
        let backward_delta: u16 = (256u16 - hue_delta as u16) % 256;
        -(backward_delta as i64 * 128)
    };
    assert(hue_dist87 == hue_distance87(start_color, end_color, direction));

    let pixel_distance: usize = end_pos - start_pos;
    let divisor: u64 = if pixel_distance == 0 {
        1
    } else {
        pixel_distance as u64
    };
    let hue_step: u32 = step824_exec(hue_dist87, divisor);
    let sat_step: u32 = step824_exec(sat_distance87, divisor);
    let val_step: u32 = step824_exec(val_distance87, divisor);

    let mut hue824: u32 = (start_color.hue as u32) * 16777216;
    let mut sat824: u32 = (start_color.sat as u32) * 16777216;
    let mut val824: u32 = (start_color.val as u32) * 16777216;

    let last: usize = if end_pos < n - 1 {
        end_pos
    } else {
        n - 1
    };
    let ghost orig = leds@;
    let mut i: usize = start_pos;
    while i <= last
        invariant
            n == leds@.len(),
            orig.len() == n,
            1 <= n,
            last < n,
            last <= end_pos,
            start_pos <= i,
            i == start_pos || i <= last + 1,
            start_color == fixed.0,
            end_color == fixed.1,
            fixed == fix_hues(given_start, given_end),
            hue_step == step824(hue_distance87(fixed.0, fixed.1, direction), end_pos - start_pos),
            sat_step == step824((fixed.1.sat - fixed.0.sat) * 128, end_pos - start_pos),
            val_step == step824((fixed.1.val - fixed.0.val) * 128, end_pos - start_pos),
            hue824 == accumulate(start_color.hue * unit824(), hue_step as int, (i - start_pos) as nat),
            sat824 == accumulate(start_color.sat * unit824(), sat_step as int, (i - start_pos) as nat),
            val824 == accumulate(start_color.val * unit824(), val_step as int, (i - start_pos) as nat),
            forall|j: int|
                0 <= j < n ==> #[trigger] leds@[j] == if start_pos <= j < i {
                    segment_pixel(
                        given_start,
                        given_end,
                        end_pos - start_pos,
                        direction,
                        (j - start_pos) as nat,
                    )
                } else {
                    orig[j]
                },
        decreases last + 1 - i,
    {
        let h: u32 = hue824 >> 24;
        let s: u32 = sat824 >> 24;
        let v: u32 = val824 >> 24;
        assert(h == hue824 / 16777216 && h < 256) by (bit_vector)
            requires
                h == hue824 >> 24,
        ;
        assert(s == sat824 / 16777216 && s < 256) by (bit_vector)
            requires
                s == sat824 >> 24,
        ;
        assert(v == val824 / 16777216 && v < 256) by (bit_vector)
            requires
                v == val824 >> 24,
        ;
        let px = hsv2rgb(Hsv { hue: h as u8, sat: s as u8, val: v as u8 });
        proof {
            let k = (i - start_pos) as nat;
            assert(h as u8 == channel_at(start_color.hue, hue_step as int, k));
            assert(s as u8 == channel_at(start_color.sat, sat_step as int, k));
            assert(v as u8 == channel_at(start_color.val, val_step as int, k));
            assert(px == segment_pixel(given_start, given_end, end_pos - start_pos, direction, k));
        }
        leds[i] = px;
        let ghost old_h = hue824;
        let ghost old_s = sat824;
        let ghost old_v = val824;
        hue824 = hue824.wrapping_add(hue_step);
        sat824 = sat824.wrapping_add(sat_step);
        val824 = val824.wrapping_add(val_step);
        proof {
            assert(hue824 == (old_h + hue_step) % modulus32());
            assert(sat824 == (old_s + sat_step) % modulus32());
            assert(val824 == (old_v + val_step) % modulus32());
        }
        i += 1;
    }
}

/// Fill the strip with a three-point gradient: `c1` to `c2` over the first half, then `c2` to
/// `c3` over the rest (the second part starts at the middle pixel).
pub fn fill_gradient_three_fp(leds: &mut [Rgb], c1: Hsv, c2: Hsv, c3: Hsv)
    requires
        old(leds)@.len() <= i32::MAX,
    ensures
        final(leds)@.len() == old(leds)@.len(),
        forall|j: int|
            0 <= j < old(leds)@.len() ==> #[trigger] final(leds)@[j] == three_point_pixel(
                old(leds)@.len() as int,
                c1,
                c2,
                c3,
                j,
            ),
{
    let len = leds.len();
    if len == 0 {
        return;
    }
    let half = len / 2;
    let last = len - 1;
    fill_gradient_fp(leds, 0, c1, half, c2, GradientDirection::Forward);
    if last > half {
        fill_gradient_fp(leds, half, c2, last, c3, GradientDirection::Forward);
    }
}

/// Default duration of one full rainbow cycle, in milliseconds.
pub const DEFAULT_CYCLE_MS: u64 = 12_000;

/// Hue offset between the three points of a rainbow gradient.
pub const HUE_STEP: u8 = 60;

/// Number of pixels in the first (rendered) half of a mirrored strip of `n` pixels.
pub open spec fn center_len(n: int) -> int {
    n / 2 + n % 2
}

/// Base hue of a rainbow with cycle `cycle_ms` at time `time_ms`: the position within the
/// cycle scaled to 0..255 (a zero cycle counts as 1 ms).
pub open spec fn rainbow_base_hue(cycle_ms: u64, time_ms: u64) -> u8 {
    let cycle = if cycle_ms == 0 {
        1
    } else {
        cycle_ms as int
    };
    ((((time_ms as int) % cycle) * 255) / cycle) as u8
}

/// The three gradient points of a rainbow whose first point has hue `base`.
pub open spec fn rainbow_points(base: u8, sat: u8, val: u8) -> (Hsv, Hsv, Hsv) {
    (
        Hsv { hue: base, sat, val },
        Hsv { hue: ((base + 60) % 256) as u8, sat, val },
        Hsv { hue: ((base + 120) % 256) as u8, sat, val },
    )
}

/// A rainbow frame of `n` pixels: a three-point gradient over the first half, mirrored.
pub open spec fn rainbow_frame(n: int, base: u8, sat: u8, val: u8) -> Seq<Rgb> {
    let (c1, c2, c3) = rainbow_points(base, sat, val);
    Seq::new(
        n as nat,
        |j: int| three_point_pixel(center_len(n), c1, c2, c3, crate::color::mirror_source(n, j)),
    )
}

/// Rainbow cycling effect: a three-point HSV gradient rendered with 8.24 fixed-point steps,
/// mirrored around the strip's center and rotating through the hue circle once per cycle.
#[derive(Clone, Copy, Debug, PartialEq, Eq, Structural)]
pub struct RainbowEffect {
    /// Duration of one complete rainbow cycle, in milliseconds
    pub cycle_ms: u64,
    /// Brightness value (0-255)
    pub value: u8,
    /// Saturation (0-255)
    pub saturation: u8,
}

impl RainbowEffect {
    /// The default rainbow: a 12 s cycle at full value and saturation.
    pub fn default_effect() -> (e: Self)
        ensures
            e == (RainbowEffect { cycle_ms: DEFAULT_CYCLE_MS, value: 255, saturation: 255 }),
    {
        RainbowEffect { cycle_ms: DEFAULT_CYCLE_MS, value: 255, saturation: 255 }
    }

    /// Create a rainbow effect with custom parameters.
    pub fn new(cycle_ms: u64, value: u8, saturation: u8) -> (e: Self)
        ensures
            e == (RainbowEffect { cycle_ms, value, saturation }),
    {
        RainbowEffect { cycle_ms, value, saturation }
    }

    /// Set the cycle duration.
    pub fn with_cycle_duration(self, cycle_ms: u64) -> (e: Self)
        ensures
            e == (RainbowEffect { cycle_ms, ..self }),
    {
        RainbowEffect { cycle_ms, ..self }
    }

    /// Set the brightness value.
    pub fn with_value(self, value: u8) -> (e: Self)
        ensures
            e == (RainbowEffect { value, ..self }),
    {
        RainbowEffect { value, ..self }
    }

    /// Set the saturation.
    pub fn with_saturation(self, saturation: u8) -> (e: Self)
        ensures
            e == (RainbowEffect { saturation, ..self }),
    {
        RainbowEffect { saturation, ..self }
    }

    /// Render a frame of `n` pixels at time `time_ms`.
    pub fn render(&self, time_ms: u64, n: usize) -> (frame: Vec<Rgb>)
        requires
            n <= i32::MAX,
        ensures
            frame@ == rainbow_frame(
                n as int,
                rainbow_base_hue(self.cycle_ms, time_ms),
                self.saturation,
                self.value,
            ),
    {
        let mut leds: Vec<Rgb> = Vec::new();
        let mut k: usize = 0;
        while k < n
            invariant
                k <= n,
                leds@.len() == k,
            decreases n - k,
        {
            leds.push(Rgb { r: 0, g: 0, b: 0 });
            k += 1;
        }
        if n == 0 {
            assert(leds@ =~= rainbow_frame(
                n as int,
                rainbow_base_hue(self.cycle_ms, time_ms),
                self.saturation,
                self.value,
            ));
            return leds;
        }
        let cycle_ms: u64 = if self.cycle_ms == 0 {
            1
        } else {
            self.cycle_ms
        };
        let progress_ms: u64 = time_ms % cycle_ms;
        let scaled: u128 = (progress_ms as u128) * 255;
        let base: u128 = scaled / (cycle_ms as u128);
        assert(base < 255) by (nonlinear_arith)
            requires
                base == scaled / (cycle_ms as u128),
                scaled == progress_ms * 255,
                progress_ms < cycle_ms,
        ;
        let base_hue: u8 = base as u8;
        let c1 = Hsv { hue: base_hue, sat: self.saturation, val: self.value };
        let c2 = Hsv { hue: base_hue.wrapping_add(HUE_STEP), sat: self.saturation, val: self.value };
        let c3 = Hsv {
            hue: base_hue.wrapping_add(120u8),
            sat: self.saturation,
            val: self.value,
        };
        let center = n / 2 + n % 2;
        let ghost pts = rainbow_points(base_hue, self.saturation, self.value);
        assert(pts == (c1, c2, c3));
        {
            let (first_half, _rest) = leds.as_mut_slice().split_at_mut(center);
            fill_gradient_three_fp(first_half, c1, c2, c3);
        }
        let ghost filled = leds@;
        assert(forall|j: int| 0 <= j < center ==> #[trigger] filled[j] == three_point_pixel(center as int, c1, c2, c3, j));
        crate::color::mirror_half(leds.as_mut_slice());
        assert(leds@ =~= rainbow_frame(
            n as int,
            rainbow_base_hue(self.cycle_ms, time_ms),
            self.saturation,
            self.value,
        ));
        leds
    }
}

/// Rainbow flow effect: the same mirrored three-point rainbow, interpolated in floating point.
///
/// Its frames are rendered outside this library; this type holds its parameters.
#[derive(Clone, Copy, Debug, PartialEq, Eq, Structural)]
pub struct RainbowFlowEffect {
    /// Duration of one complete rainbow cycle, in milliseconds
    pub cycle_ms: u64,
    /// Brightness value (0-255)
    pub value: u8,
    /// Saturation (0-255)
    pub saturation: u8,
}

impl RainbowFlowEffect {
    /// The default flowing rainbow: a 12 s cycle at full value and saturation.
    pub fn default_effect() -> (e: Self)
        ensures
            e == (RainbowFlowEffect { cycle_ms: DEFAULT_CYCLE_MS, value: 255, saturation: 255 }),
    {
        RainbowFlowEffect { cycle_ms: DEFAULT_CYCLE_MS, value: 255, saturation: 255 }
    }

    /// Create a flowing rainbow with custom parameters.
    pub fn new(cycle_ms: u64, value: u8, saturation: u8) -> (e: Self)
        ensures
            e == (RainbowFlowEffect { cycle_ms, value, saturation }),
    {
        RainbowFlowEffect { cycle_ms, value, saturation }
    }

    /// Set the cycle duration.
    pub fn with_cycle_duration(self, cycle_ms: u64) -> (e: Self)
        ensures
            e == (RainbowFlowEffect { cycle_ms, ..self }),
    {
        RainbowFlowEffect { cycle_ms, ..self }
    }

    /// Set the brightness value.
    pub fn with_value(self, value: u8) -> (e: Self)
        ensures
            e == (RainbowFlowEffect { value, ..self }),
    {
        RainbowFlowEffect { value, ..self }
    }

    /// Set the saturation.
    pub fn with_saturation(self, saturation: u8) -> (e: Self)
        ensures
            e == (RainbowFlowEffect { saturation, ..self }),
    {
        RainbowFlowEffect { saturation, ..self }
    }
}

/// Signed hue distance from `start` to `end` going the given way round the circle:
/// forward it is in 0..=255, backward in -255..=0.
pub open spec fn spec_hue_distance(start: u8, end: u8, direction: HueDirection) -> int {
    match direction {
        HueDirection::Forward => (end - start) % 256,
        HueDirection::Backward => -((start - end) % 256),
    }
}

/// Hue distance used by the floating-point gradient of the flowing rainbow.
pub fn hue_distance_float(start: u8, end: u8, direction: HueDirection) -> (d: i16)
    ensures
        d == spec_hue_distance(start, end, direction),
{
    match direction {
        HueDirection::Forward => end.wrapping_sub(start) as i16,
        HueDirection::Backward => -(start.wrapping_sub(end) as i16),
    }
}


/// The first pixel of a gradient shows its start color (after the black/white fix-up).
pub proof fn law_segment_starts_at_start(start_color: Hsv, end_color: Hsv, span: int, dir: GradientDirection)
    ensures
        segment_pixel(start_color, end_color, span, dir, 0) == spec_hsv2rgb(fix_hues(start_color, end_color).0),
{
    let s = fix_hues(start_color, end_color).0;
    assert((s.hue * unit824()) / unit824() == s.hue);
    assert((s.sat * unit824()) / unit824() == s.sat);
    assert((s.val * unit824()) / unit824() == s.val);
}

/// A rainbow frame reads the same from both ends of the strip.
pub proof fn law_rainbow_frame_symmetric(n: int, base: u8, sat: u8, val: u8, j: int)
    requires
        0 <= j < n,
    ensures
        rainbow_frame(n, base, sat, val)[j] == rainbow_frame(n, base, sat, val)[n - 1 - j],
{
}

/// A rainbow repeats after one cycle: the frame at `time_ms` and the frame one cycle later
/// are the same.
pub proof fn law_rainbow_periodic(cycle_ms: u64, time_ms: u64, n: int, sat: u8, val: u8)
    requires
        time_ms + cycle_ms <= u64::MAX,
    ensures
        rainbow_base_hue(cycle_ms, time_ms) == rainbow_base_hue(cycle_ms, (time_ms + cycle_ms) as u64),
        rainbow_frame(n, rainbow_base_hue(cycle_ms, time_ms), sat, val) == rainbow_frame(
            n,
            rainbow_base_hue(cycle_ms, (time_ms + cycle_ms) as u64),
            sat,
            val,
        ),
{
    if cycle_ms > 0 {
        let c = cycle_ms as int;
        let t = time_ms as int;
        assert((t + c) % c == t % c) by (nonlinear_arith)
            requires
                c > 0,
                t >= 0,
        ;
    }
}

} // verus!
