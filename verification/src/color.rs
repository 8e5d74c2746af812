//! Colors: RGB/HSV values and the per-frame color utilities.

use vstd::prelude::*;

use crate::math8::{blend8, spec_blend8};

verus! {

/// An RGB color with 8 bits per channel.
#[derive(Clone, Copy, Debug, PartialEq, Eq, Structural)]
pub struct Rgb {
    pub r: u8,
    pub g: u8,
    pub b: u8,
}

/// An HSV color with 8 bits per component (hue 0..=255 spans the whole circle).
#[derive(Clone, Copy, Debug, PartialEq, Eq, Structural)]
pub struct Hsv {
    pub hue: u8,
    pub sat: u8,
    pub val: u8,
}

impl Rgb {
    /// Create a color from its three channels.
    pub fn new(r: u8, g: u8, b: u8) -> (c: Rgb)
        ensures
            c == (Rgb { r, g, b }),
    {
        Rgb { r, g, b }
    }

    /// The color as a `(r, g, b)` triple.
    pub open spec fn triple(self) -> (u8, u8, u8) {
        (self.r, self.g, self.b)
    }
}

/// All channels off.
pub open spec fn black() -> Rgb {
    Rgb { r: 0, g: 0, b: 0 }
}

/// The RGB color that `smart_leds::hsv::hsv2rgb` gives for an HSV color, as `(r, g, b)`.
pub uninterp spec fn hsv2rgb_result(hue: u8, sat: u8, val: u8) -> (u8, u8, u8);

/// The RGB color of an HSV color, by `hsv2rgb_result`.
pub open spec fn spec_hsv2rgb(c: Hsv) -> Rgb {
    let t = hsv2rgb_result(c.hue, c.sat, c.val);
    Rgb { r: t.0, g: t.1, b: t.2 }
}

/// Converts an HSV color to RGB with `smart_leds::hsv::hsv2rgb`.
///
/// Trusted: the result is the value named `hsv2rgb_result` of the three components; nothing
/// more of the conversion formula is stated here.
#[verifier::external_body]
pub(crate) fn hsv2rgb(c: Hsv) -> (r: Rgb)
    ensures
        r.triple() == hsv2rgb_result(c.hue, c.sat, c.val),
{
    let out = smart_leds::hsv::hsv2rgb(smart_leds::hsv::Hsv { hue: c.hue, sat: c.sat, val: c.val });
    Rgb { r: out.r, g: out.g, b: out.b }
}

/// Channel-wise blend of two colors.
pub open spec fn spec_blend_colors(a: Rgb, b: Rgb, amount_of_b: u8) -> Rgb {
    Rgb {
        r: spec_blend8(a.r, b.r, amount_of_b) as u8,
        g: spec_blend8(a.g, b.g, amount_of_b) as u8,
        b: spec_blend8(a.b, b.b, amount_of_b) as u8,
    }
}

/// Blend two RGB colors channel by channel (`amount_of_b` 0 keeps `a`).
pub fn blend_colors(a: Rgb, b: Rgb, amount_of_b: u8) -> (c: Rgb)
    ensures
        c == spec_blend_colors(a, b, amount_of_b),
{
    Rgb {
        r: blend8(a.r, b.r, amount_of_b),
        g: blend8(a.g, b.g, amount_of_b),
        b: blend8(a.b, b.b, amount_of_b),
    }
}

/// The color packed in the low 24 bits of `color` as `0xRRGGBB`.
pub open spec fn spec_rgb_from_u32(color: u32) -> Rgb {
    Rgb {
        r: ((color / 65536) % 256) as u8,
        g: ((color / 256) % 256) as u8,
        b: (color % 256) as u8,
    }
}

/// Create an RGB color from a `0xRRGGBB` value (the top byte is ignored).
pub fn rgb_from_u32(color: u32) -> (c: Rgb)
    ensures
        c == spec_rgb_from_u32(color),
{
    let r: u32 = (color >> 16) & 0xFF;
    let g: u32 = (color >> 8) & 0xFF;
    let b: u32 = color & 0xFF;
    assert(r == (color / 65536) % 256) by (bit_vector)
        requires
            r == (color >> 16) & 0xFF,
    ;
    assert(g == (color / 256) % 256) by (bit_vector)
        requires
            g == (color >> 8) & 0xFF,
    ;
    assert(b == color % 256) by (bit_vector)
        requires
            b == color & 0xFF,
    ;
    Rgb { r: r as u8, g: g as u8, b: b as u8 }
}

/// Index of the first-half pixel that pixel `j` of a strip of `n` shows after mirroring.
pub open spec fn mirror_source(n: int, j: int) -> int {
    if j <= n - 1 - j {
        j
    } else {
        n - 1 - j
    }
}

/// The strip `s` with its first half mirrored onto its second half.
pub open spec fn spec_mirror_half<T>(s: Seq<T>) -> Seq<T> {
    Seq::new(s.len(), |j: int| s[mirror_source(s.len() as int, j)])
}

/// Mirror the first half of the strip around its center.
///
/// Pixel `j` of the result is pixel `min(j, n - 1 - j)` of the input, so the strip reads the
/// same from both ends.
pub fn mirror_half(leds: &mut [Rgb])
    ensures
        final(leds)@ == spec_mirror_half(old(leds)@),
{
    let leds_len = leds.len();
    if leds_len == 0 {
        assert(final(leds)@ =~= spec_mirror_half(old(leds)@));
        return;
    }
    let mut center = leds_len / 2;
    if leds_len % 2 != 0 {
        center += 1;
    }
    if center > leds_len {
        center = leds_len;
    }
    let ghost orig = leds@;
    let mut i: usize = 0;
    while i < center
        invariant
            leds_len == leds@.len(),
            orig.len() == leds_len,
            center == leds_len / 2 + leds_len % 2,
            i <= center,
            forall|j: int| 0 <= j < leds_len ==> {
                #[trigger] leds@[j] == if j < leds_len - i {
                    orig[j]
                } else {
                    orig[leds_len - 1 - j]
                }
            },
        decreases center - i,
    {
        let mirrored = leds_len - 1 - i;
        let v = leds[i];
        leds[mirrored] = v;
        i += 1;
    }
    assert(leds@ =~= spec_mirror_half(orig));
}


/// Whether every channel of `c` lies between the matching channels of `a` and `b`.
pub open spec fn channel_between(a: Rgb, b: Rgb, c: Rgb) -> bool {
    &&& (a.r <= c.r <= b.r || b.r <= c.r <= a.r)
    &&& (a.g <= c.g <= b.g || b.g <= c.g <= a.g)
    &&& (a.b <= c.b <= b.b || b.b <= c.b <= a.b)
}

/// A blend of two colors lies between them channel by channel.
pub proof fn lemma_blend_colors_between(a: Rgb, b: Rgb, amount: u8)
    ensures
        channel_between(a, b, spec_blend_colors(a, b, amount)),
{
    crate::math8::lemma_blend8_bounds(a.r, b.r, amount);
    crate::math8::lemma_blend8_bounds(a.g, b.g, amount);
    crate::math8::lemma_blend8_bounds(a.b, b.b, amount);
}

/// A mirrored strip reads the same from both ends.
pub proof fn law_mirror_symmetric<T>(s: Seq<T>, j: int)
    requires
        0 <= j < s.len(),
    ensures
        spec_mirror_half(s)[j] == spec_mirror_half(s)[s.len() - 1 - j],
{
}

/// Mirroring an already mirrored strip changes nothing.
pub proof fn law_mirror_idempotent<T>(s: Seq<T>)
    ensures
        spec_mirror_half(spec_mirror_half(s)) == spec_mirror_half(s),
{
    assert(spec_mirror_half(spec_mirror_half(s)) =~= spec_mirror_half(s));
}

/// Blending by 0 keeps the first color, and blending a color with itself keeps it.
pub proof fn law_blend_colors_fixed(a: Rgb, b: Rgb, amount: u8)
    ensures
        spec_blend_colors(a, b, 0) == a,
        spec_blend_colors(a, a, amount) == a,
{
}

} // verus!
