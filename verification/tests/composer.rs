use myrtio_light::color::{blend_colors, mirror_half, rgb_from_u32, Hsv, Rgb};
use myrtio_light::effect::{EffectName, EffectSlot, StaticColorEffect};
use myrtio_light::gradient::{
    fill_gradient_fp, fill_gradient_three_fp, hue_distance_float, GradientDirection, HueDirection,
    RainbowEffect, RainbowFlowEffect,
};
use myrtio_light::math8::{blend8, progress8, scale8};
use myrtio_light::mode::{ModeId, ModeSlot};
use myrtio_light::processor::{BrightnessEnvelope, ColorCorrection, OutputProcessor};
use myrtio_light::state::{EffectId, LightSnapshot, SharedState};
use myrtio_light::transition::ColorTransition;

fn rgb(r: u8, g: u8, b: u8) -> Rgb {
    Rgb { r, g, b }
}

fn rgbs(v: &[(u8, u8, u8)]) -> Vec<Rgb> {
    v.iter().map(|&(r, g, b)| rgb(r, g, b)).collect()
}

#[test]
fn scale8_values() {
    assert_eq!(scale8(255, 255), 255);
    assert_eq!(scale8(128, 255), 128);
    assert_eq!(scale8(200, 128), 100);
    assert_eq!(scale8(100, 0), 0);
    assert_eq!(scale8(0, 200), 0);
    assert_eq!(scale8(1, 255), 1);
    assert_eq!(scale8(255, 0), 0);
}

#[test]
fn blend8_values() {
    assert_eq!(blend8(0, 255, 0), 0);
    assert_eq!(blend8(0, 255, 255), 255);
    assert_eq!(blend8(10, 20, 255), 20);
    assert_eq!(blend8(0, 100, 255), 100);
    assert_eq!(blend8(200, 100, 255), 100);
    assert_eq!(blend8(100, 200, 128), 150);
    // (256 * 200 + 100 - 128 * 100) / 256, rounded down
    assert_eq!(blend8(200, 100, 128), 150);
    assert_eq!(blend8(200, 100, 1), 200);
    assert_eq!(blend8(200, 100, 0), 200);
    assert_eq!(blend8(42, 42, 77), 42);
}

#[test]
fn progress8_values() {
    assert_eq!(progress8(0, 0), 0);
    assert_eq!(progress8(50, 0), 0);
    assert_eq!(progress8(0, 100), 0);
    assert_eq!(progress8(50, 100), 127);
    assert_eq!(progress8(99, 100), 252);
    assert_eq!(progress8(100, 100), 255);
    assert_eq!(progress8(1000, 100), 255);
}

#[test]
fn progress8_is_monotone_on_samples() {
    let mut last = 0u8;
    for e in 0..=300u64 {
        let p = progress8(e, 250);
        assert!(p >= last);
        last = p;
    }
    assert_eq!(last, 255);
}

#[test]
fn rgb_from_u32_splits_channels() {
    assert_eq!(rgb_from_u32(0x12_34_56), rgb(0x12, 0x34, 0x56));
    assert_eq!(rgb_from_u32(0xFF_00_80_40), rgb(0x00, 0x80, 0x40));
    assert_eq!(rgb_from_u32(0), rgb(0, 0, 0));
}

#[test]
fn blend_colors_channelwise() {
    let a = rgb(0, 100, 200);
    let b = rgb(255, 100, 0);
    assert_eq!(blend_colors(a, b, 0), a);
    assert_eq!(blend_colors(a, b, 128), rgb(128, 100, 100));
    assert_eq!(blend_colors(a, b, 255), b);
    assert_eq!(blend_colors(a, a, 99), a);
}

#[test]
fn mirror_half_odd_and_even() {
    let mut odd = rgbs(&[(1, 1, 1), (2, 2, 2), (3, 3, 3), (4, 4, 4), (5, 5, 5)]);
    mirror_half(&mut odd);
    assert_eq!(odd, rgbs(&[(1, 1, 1), (2, 2, 2), (3, 3, 3), (2, 2, 2), (1, 1, 1)]));
    let mut even = rgbs(&[(1, 0, 0), (2, 0, 0), (3, 0, 0), (4, 0, 0)]);
    mirror_half(&mut even);
    assert_eq!(even, rgbs(&[(1, 0, 0), (2, 0, 0), (2, 0, 0), (1, 0, 0)]));
    let mut again = even.clone();
    mirror_half(&mut again);
    assert_eq!(again, even);
    let mut empty: Vec<Rgb> = Vec::new();
    mirror_half(&mut empty);
    assert!(empty.is_empty());
}

#[test]
fn gradient_single_pixel_is_start_color() {
    let mut leds = vec![rgb(9, 9, 9); 3];
    let red = Hsv { hue: 0, sat: 255, val: 255 };
    let green = Hsv { hue: 85, sat: 255, val: 255 };
    fill_gradient_fp(&mut leds, 1, red, 1, green, GradientDirection::Forward);
    assert_eq!(leds, rgbs(&[(9, 9, 9), (255, 0, 0), (9, 9, 9)]));
}

#[test]
fn gradient_clips_to_strip_and_accepts_reversed_ends() {
    let mut leds = vec![rgb(0, 0, 0); 2];
    let red = Hsv { hue: 0, sat: 255, val: 255 };
    let blue = Hsv { hue: 170, sat: 255, val: 255 };
    fill_gradient_fp(&mut leds, 5, blue, 0, red, GradientDirection::Forward);
    // hue steps by 170/5 = 34 per pixel from red
    assert_eq!(leds[0], rgb(255, 0, 0));
    assert_eq!(leds[1], rgb(255, 204, 0));
}

#[test]
fn three_point_gradient_values() {
    let mut leds = vec![rgb(0, 0, 0); 4];
    let c1 = Hsv { hue: 0, sat: 255, val: 255 };
    let c2 = Hsv { hue: 60, sat: 255, val: 255 };
    let c3 = Hsv { hue: 120, sat: 255, val: 255 };
    fill_gradient_three_fp(&mut leds, c1, c2, c3);
    assert_eq!(leds, rgbs(&[(255, 0, 0), (255, 180, 0), (150, 255, 0), (0, 255, 210)]));
}

#[test]
fn rainbow_single_pixel_starts_red() {
    let e = RainbowEffect::new(1000, 255, 255);
    assert_eq!(e.render(0, 1), rgbs(&[(255, 0, 0)]));
}

#[test]
fn rainbow_frame_quarter_cycle() {
    let e = RainbowEffect::new(1000, 255, 255);
    let expected = rgbs(&[
        (132, 255, 0),
        (0, 255, 48),
        (0, 255, 228),
        (0, 102, 255),
        (78, 0, 255),
        (78, 0, 255),
        (0, 102, 255),
        (0, 255, 228),
        (0, 255, 48),
        (132, 255, 0),
    ]);
    assert_eq!(e.render(250, 10), expected);
}

#[test]
fn rainbow_frame_dim_and_desaturated() {
    let e = RainbowEffect::default_effect().with_value(128).with_saturation(200);
    let expected = rgbs(&[
        (79, 128, 27),
        (27, 128, 46),
        (27, 128, 117),
        (58, 27, 128),
        (27, 128, 117),
        (27, 128, 46),
        (79, 128, 27),
    ]);
    assert_eq!(e.render(3000, 7), expected);
}

#[test]
fn rainbow_zero_cycle_counts_as_one_ms() {
    let e = RainbowEffect::default_effect().with_cycle_duration(0);
    assert_eq!(e.render(5, 4), rgbs(&[(255, 0, 0), (150, 255, 0), (150, 255, 0), (255, 0, 0)]));
    assert!(e.render(5, 0).is_empty());
}

#[test]
fn rainbow_frames_are_symmetric() {
    let e = RainbowEffect::new(7000, 200, 180);
    for n in 0..20usize {
        let f = e.render(1234, n);
        assert_eq!(f.len(), n);
        for j in 0..n {
            assert_eq!(f[j], f[n - 1 - j]);
        }
    }
}

#[test]
fn rainbow_builders() {
    let e = RainbowEffect::default_effect();
    assert_eq!(e, RainbowEffect { cycle_ms: 12_000, value: 255, saturation: 255 });
    let f = RainbowFlowEffect::new(5, 6, 7).with_value(1).with_saturation(2).with_cycle_duration(3);
    assert_eq!(f, RainbowFlowEffect { cycle_ms: 3, value: 1, saturation: 2 });
}

#[test]
fn hue_distance_float_directions() {
    assert_eq!(hue_distance_float(10, 20, HueDirection::Forward), 10);
    assert_eq!(hue_distance_float(20, 10, HueDirection::Forward), 246);
    assert_eq!(hue_distance_float(10, 20, HueDirection::Backward), -246);
    assert_eq!(hue_distance_float(20, 10, HueDirection::Backward), -10);
    assert_eq!(hue_distance_float(7, 7, HueDirection::Backward), 0);
}

#[test]
fn transition_runs_to_target() {
    let mut t = ColorTransition::new(rgb(0, 0, 0));
    assert!(!t.is_transitioning());
    t.set(rgb(200, 100, 0), 100);
    assert!(t.is_transitioning());
    t.tick(50);
    assert!(t.is_transitioning());
    let mid = t.current();
    assert!(mid.r <= 200 && mid.g <= 100 && mid.b == 0);
    t.tick(60);
    assert!(!t.is_transitioning());
    assert_eq!(t.current(), rgb(200, 100, 0));
    t.tick(10);
    assert_eq!(t.current(), rgb(200, 100, 0));
}

#[test]
fn transition_zero_duration_is_immediate() {
    let mut t = ColorTransition::default_transition();
    t.set(rgb(1, 2, 3), 0);
    assert!(!t.is_transitioning());
    assert_eq!(t.current(), rgb(1, 2, 3));
    t.set_immediate(rgb(4, 5, 6));
    assert_eq!(t.current(), rgb(4, 5, 6));
}

#[test]
fn static_color_effect_renders_its_color() {
    let mut e = StaticColorEffect::from_rgb(10, 20, 30);
    assert_eq!(e.color(), rgb(10, 20, 30));
    assert_eq!(e.render(3), rgbs(&[(10, 20, 30); 3]));
    e.set_color(rgb(110, 20, 30), 1000);
    assert!(e.is_transitioning());
    let frame = e.render(2);
    assert_eq!(frame.len(), 2);
    assert_eq!(frame[0], frame[1]);
    assert!(frame[0].r >= 10 && frame[0].r <= 110);
    e.set_color_immediate(rgb(1, 1, 1));
    assert_eq!(e.render(1), rgbs(&[(1, 1, 1)]));
}

#[test]
fn effect_slot_colors() {
    let mut off = EffectSlot::default_slot();
    assert!(off.is_off());
    assert_eq!(off.effect_id(), EffectId::Off);
    assert_eq!(off.color_if_supported(), None);
    off.set_color_rgb(1, 2, 3, 0);
    assert!(off.is_off());

    let mut s = EffectName::Static.to_effect_slot(10, 20, 30);
    assert_eq!(s.effect_id(), EffectId::Static);
    assert_eq!(s.color(), (10, 20, 30));
    assert_eq!(s.color_if_supported(), Some((10, 20, 30)));
    s.set_color_rgb(40, 50, 60, 0);
    assert_eq!(s.color(), (40, 50, 60));

    let r = EffectName::Rainbow.to_effect_slot(1, 2, 3);
    assert_eq!(r.effect_id(), EffectId::Rainbow);
    assert_eq!(r.color_if_supported(), None);
    // the flowing rainbow reports itself as a rainbow
    let f = EffectName::RainbowFlow.to_effect_slot(1, 2, 3);
    assert_eq!(f.effect_id(), EffectId::Rainbow);
    assert_eq!(f.color(), (255, 255, 255));
}

#[test]
fn effect_names_round_trip() {
    for name in [EffectName::Static, EffectName::Rainbow, EffectName::RainbowFlow] {
        assert_eq!(EffectName::parse_from_str(name.as_str()), Some(name));
        let id = name.to_id().unwrap();
        assert_eq!(EffectName::from_id(id), Some(name));
    }
    assert_eq!(EffectName::Rainbow.as_str(), "rainbow");
    assert_eq!(EffectName::RainbowFlow.as_str(), "rainbow_flow");
    assert_eq!(EffectName::parse_from_str("RAINBOW"), None);
    assert_eq!(EffectName::parse_from_str(""), None);
    assert_eq!(EffectName::from_id(EffectId::Off), None);
}

#[test]
fn effect_id_codes() {
    assert_eq!(EffectId::from_u8(0), EffectId::Off);
    assert_eq!(EffectId::from_u8(EffectId::Rainbow.as_u8()), EffectId::Rainbow);
    assert_eq!(EffectId::from_u8(EffectId::Static.as_u8()), EffectId::Static);
    assert_eq!(EffectId::from_u8(EffectId::RainbowFlow.as_u8()), EffectId::RainbowFlow);
    assert_eq!(EffectId::from_u8(200), EffectId::Off);
}

#[test]
fn mode_ids_round_trip() {
    for m in [ModeId::Static, ModeId::Rainbow] {
        assert_eq!(ModeId::from_raw(m.as_raw()), Some(m));
        assert_eq!(ModeId::parse_from_str(m.as_str()), Some(m));
    }
    assert_eq!(ModeId::Static.as_raw(), 0);
    assert_eq!(ModeId::Rainbow.as_raw(), 1);
    assert_eq!(ModeId::from_raw(2), None);
    assert_eq!(ModeId::parse_from_str("off"), None);
}

#[test]
fn mode_slot_static_and_rainbow() {
    let mut s = ModeId::Static.to_mode_slot(rgb(5, 6, 7));
    assert_eq!(s.mode_id(), ModeId::Static);
    assert_eq!(s.render(0, 2), rgbs(&[(5, 6, 7), (5, 6, 7)]));
    let mut r = ModeSlot::default_slot();
    assert_eq!(r.mode_id(), ModeId::Rainbow);
    assert!(!r.is_transitioning());
    assert_eq!(r.render(0, 1), rgbs(&[(255, 0, 0)]));
}

#[test]
fn shared_state_and_snapshot() {
    let mut s = SharedState::new();
    s.set_brightness(77);
    s.set_on(true);
    s.set_effect(EffectId::Static);
    s.set_rgb(1, 2, 3);
    assert_eq!(s.brightness(), 77);
    assert!(s.is_on());
    assert_eq!(s.effect(), EffectId::Static);
    assert_eq!(s.rgb(), (1, 2, 3));
    let snap = LightSnapshot::from_shared(&s);
    let mut other = SharedState::new();
    other.set_from_snapshot(snap);
    assert_eq!(LightSnapshot::from_shared(&other), snap);
    let d = LightSnapshot::default_snapshot();
    let mut third = SharedState::new();
    third.set_from_snapshot(d);
    assert_eq!(LightSnapshot::from_shared(&third), d);
}

#[test]
fn color_correction_scales_channels() {
    let c = ColorCorrection::new();
    assert!(!c.is_active());
    let mut frame = rgbs(&[(200, 100, 50)]);
    c.apply(&mut frame);
    assert_eq!(frame, rgbs(&[(200, 100, 50)]));
    let mut warm = ColorCorrection::from_rgb(0xFF_80_00);
    assert!(warm.is_active());
    assert_eq!(warm.factors(), rgb(255, 128, 0));
    warm.apply(&mut frame);
    assert_eq!(frame, rgbs(&[(200, 50, 0)]));
    warm.set_rgb(255, 255, 255);
    assert!(!warm.is_active());
    // a factor of 0xFF keeps its channel at 100%
    let cc = ColorCorrection::from_rgb(0xFF_AA_78);
    let mut f = rgbs(&[(200, 255, 255)]);
    cc.apply(&mut f);
    assert_eq!(f, rgbs(&[(200, 170, 120)]));
}

fn lerp(start: u8, end: u8, elapsed: u64, duration: u64) -> u8 {
    let p = elapsed as f32 / duration as f32;
    (start as f32 + (end as f32 - start as f32) * p) as u8
}

#[test]
fn brightness_fade_out_and_in() {
    let mut b = BrightnessEnvelope::new(200, 10);
    assert_eq!(b.current(), 200);
    b.fade_out(40);
    assert!(b.is_transitioning());
    b.tick(lerp);
    assert_eq!(b.current(), 150);
    b.tick(lerp);
    b.tick(lerp);
    assert_eq!(b.current(), 50);
    b.tick(lerp);
    assert_eq!(b.current(), 0);
    assert!(b.is_faded_out());
    b.fade_in(100, 0);
    assert_eq!(b.current(), 100);
    assert!(!b.is_transitioning());
}

#[test]
fn brightness_scale_and_apply() {
    let mut b = BrightnessEnvelope::default_envelope();
    b.set_scale(128);
    assert_eq!(b.current(), 128);
    b.set_immediate(255);
    assert_eq!(b.current(), 128);
    let mut frame = rgbs(&[(200, 100, 2)]);
    b.apply(&mut frame);
    assert_eq!(frame, rgbs(&[(100, 50, 1)]));
    b.set_immediate(0);
    let mut frame2 = rgbs(&[(200, 100, 2)]);
    b.apply(&mut frame2);
    assert_eq!(frame2, rgbs(&[(0, 0, 0)]));
}

#[test]
fn output_processor_order() {
    let mut p = OutputProcessor::with_brightness(128, 16);
    p.color_correction.set(0x80_FF_FF);
    let mut frame = rgbs(&[(255, 255, 255)]);
    p.apply(&mut frame);
    assert_eq!(frame, rgbs(&[(64, 128, 128)]));
    assert!(!p.is_transitioning());
    p.brightness.set(0, 32);
    assert!(p.is_transitioning());
    p.tick(lerp);
    p.tick(lerp);
    assert!(!p.is_transitioning());
    assert_eq!(p.brightness.current(), 0);
    let q = OutputProcessor::new();
    let mut same = rgbs(&[(1, 2, 3)]);
    q.apply(&mut same);
    assert_eq!(same, rgbs(&[(1, 2, 3)]));
}
