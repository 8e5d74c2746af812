//! Smooth color transitions driven by frame deltas.

use vstd::prelude::*;

use crate::color::{blend_colors, spec_blend_colors, Rgb};
use crate::math8::{progress8, spec_progress8};

verus! {

/// The observable state of a [`ColorTransition`].
pub struct ColorTransitionModel {
    /// Current interpolated color
    pub current: Rgb,
    /// Color at the start of the transition
    pub from: Rgb,
    /// Target color, while a transition is in progress
    pub target: Option<Rgb>,
    /// Total transition duration, in milliseconds
    pub duration_ms: u64,
    /// Time elapsed since the transition started, in milliseconds
    pub elapsed_ms: u64,
}

/// Color transition with smooth blending from one color to a target.
#[derive(Clone, Copy, Debug)]
pub struct ColorTransition {
    current: Rgb,
    from: Rgb,
    target: Option<Rgb>,
    duration_ms: u64,
    elapsed_ms: u64,
}

impl View for ColorTransition {
    type V = ColorTransitionModel;

    closed spec fn view(&self) -> ColorTransitionModel {
        ColorTransitionModel {
            current: self.current,
            from: self.from,
            target: self.target,
            duration_ms: self.duration_ms,
            elapsed_ms: self.elapsed_ms,
        }
    }
}

/// The state reached by one frame of `delta_ms` from state `m`.
pub open spec fn spec_tick(m: ColorTransitionModel, delta_ms: u64) -> ColorTransitionModel {
    match m.target {
        None => m,
        Some(t) => {
            let elapsed = (m.elapsed_ms + delta_ms) as u64;
            if elapsed >= m.duration_ms {
                ColorTransitionModel { current: t, from: t, target: None, elapsed_ms: elapsed, ..m }
            } else {
                ColorTransitionModel {
                    current: spec_blend_colors(
                        m.from,
                        t,
                        spec_progress8(elapsed, m.duration_ms) as u8,
                    ),
                    elapsed_ms: elapsed,
                    ..m
                }
            }
        },
    }
}

impl ColorTransition {
    /// Create a transition resting at `initial`.
    pub fn new(initial: Rgb) -> (t: Self)
        ensures
            t@ == (ColorTransitionModel {
                current: initial,
                from: initial,
                target: None,
                duration_ms: 0,
                elapsed_ms: 0,
            }),
    {
        ColorTransition { current: initial, from: initial, target: None, duration_ms: 0, elapsed_ms: 0 }
    }

    /// A transition resting at black.
    pub fn default_transition() -> (t: Self)
        ensures
            t@ == (ColorTransitionModel {
                current: Rgb { r: 0, g: 0, b: 0 },
                from: Rgb { r: 0, g: 0, b: 0 },
                target: None,
                duration_ms: 0,
                elapsed_ms: 0,
            }),
    {
        Self::new(Rgb { r: 0, g: 0, b: 0 })
    }

    /// The current color.
    pub fn current(&self) -> (c: Rgb)
        ensures
            c == self@.current,
    {
        self.current
    }

    /// Whether a transition is in progress.
    pub fn is_transitioning(&self) -> (b: bool)
        ensures
            b == self@.target is Some,
    {
        self.target.is_some()
    }

    /// Set the color at once, ending any transition.
    pub fn set_immediate(&mut self, color: Rgb)
        ensures
            final(self)@ == (ColorTransitionModel {
                current: color,
                from: color,
                target: None,
                elapsed_ms: 0,
                ..old(self)@
            }),
    {
        self.current = color;
        self.from = color;
        self.target = None;
        self.elapsed_ms = 0;
    }

    /// Start a transition from the current color to `color` over `duration_ms`
    /// (a zero duration sets the color at once).
    pub fn set(&mut self, color: Rgb, duration_ms: u64)
        ensures
            duration_ms == 0 ==> final(self)@ == (ColorTransitionModel {
                current: color,
                from: color,
                target: None,
                elapsed_ms: 0,
                ..old(self)@
            }),
            duration_ms != 0 ==> final(self)@ == (ColorTransitionModel {
                current: old(self)@.current,
                from: old(self)@.current,
                target: Some(color),
                duration_ms,
                elapsed_ms: 0,
            }),
    {
        if duration_ms == 0 {
            self.set_immediate(color);
            return;
        }
        self.from = self.current;
        self.target = Some(color);
        self.duration_ms = duration_ms;
        self.elapsed_ms = 0;
    }

    /// Advance the transition by one frame of `delta_ms`.
    ///
    /// Once the elapsed time reaches the duration the target color is reached and the
    /// transition ends; before that the color is the blend of the start and target colors
    /// by the progress made.
    pub fn tick(&mut self, delta_ms: u64)
        requires
            old(self)@.target is Some ==> old(self)@.elapsed_ms + delta_ms <= u64::MAX,
        ensures
            final(self)@ == spec_tick(old(self)@, delta_ms),
    {
        if let Some(target) = self.target {
            self.elapsed_ms = self.elapsed_ms + delta_ms;
            if self.elapsed_ms >= self.duration_ms {
                self.current = target;
                self.from = target;
                self.target = None;
            } else {
                let progress = progress8(self.elapsed_ms, self.duration_ms);
                self.current = blend_colors(self.from, target, progress);
            }
        }
    }
}


/// A frame that brings the elapsed time to the duration ends the transition on the target.
pub proof fn law_transition_completes(m: ColorTransitionModel, delta_ms: u64, t: Rgb)
    requires
        m.target == Some(t),
        m.elapsed_ms + delta_ms <= u64::MAX,
        m.elapsed_ms + delta_ms >= m.duration_ms,
    ensures
        spec_tick(m, delta_ms).current == t,
        spec_tick(m, delta_ms).target is None,
{
}

/// During a transition every channel lies between its start and target values.
pub proof fn law_transition_between(m: ColorTransitionModel, delta_ms: u64, t: Rgb)
    requires
        m.target == Some(t),
        m.elapsed_ms + delta_ms <= u64::MAX,
    ensures
        crate::color::channel_between(m.from, t, spec_tick(m, delta_ms).current),
{
    let elapsed = (m.elapsed_ms + delta_ms) as u64;
    if elapsed < m.duration_ms {
        let p = spec_progress8(elapsed, m.duration_ms) as u8;
        crate::color::lemma_blend_colors_between(m.from, t, p);
    }
}

/// A running crossfade only ever closes in on its target: of two frames of the same
/// transition, the later one is, channel by channel, no farther from the target.
pub proof fn law_transition_approaches(m: ColorTransitionModel, d1: u64, d2: u64, t: Rgb)
    requires
        m.target == Some(t),
        d1 <= d2,
        m.elapsed_ms + d2 <= u64::MAX,
    ensures
        crate::math8::gap8(spec_tick(m, d2).current.r as int, t.r as int) <= crate::math8::gap8(
            spec_tick(m, d1).current.r as int,
            t.r as int,
        ),
        crate::math8::gap8(spec_tick(m, d2).current.g as int, t.g as int) <= crate::math8::gap8(
            spec_tick(m, d1).current.g as int,
            t.g as int,
        ),
        crate::math8::gap8(spec_tick(m, d2).current.b as int, t.b as int) <= crate::math8::gap8(
            spec_tick(m, d1).current.b as int,
            t.b as int,
        ),
{
    let e1 = (m.elapsed_ms + d1) as u64;
    let e2 = (m.elapsed_ms + d2) as u64;
    crate::math8::law_progress8_monotone(e1, e2, m.duration_ms);
    if e2 < m.duration_ms {
        assert(0 <= (e2 * 255) / (m.duration_ms as int) <= 255) by (nonlinear_arith)
            requires
                e2 < m.duration_ms,
                e2 >= 0,
        ;
        assert(0 <= (e1 * 255) / (m.duration_ms as int) <= 255) by (nonlinear_arith)
            requires
                e1 < m.duration_ms,
                e1 >= 0,
        ;
        let p1 = spec_progress8(e1, m.duration_ms) as u8;
        let p2 = spec_progress8(e2, m.duration_ms) as u8;
        crate::math8::lemma_blend8_approaches(m.from.r, t.r, p1, p2);
        crate::math8::lemma_blend8_approaches(m.from.g, t.g, p1, p2);
        crate::math8::lemma_blend8_approaches(m.from.b, t.b, p1, p2);
        crate::math8::lemma_blend8_bounds(m.from.r, t.r, p2);
        crate::math8::lemma_blend8_bounds(m.from.g, t.g, p2);
        crate::math8::lemma_blend8_bounds(m.from.b, t.b, p2);
        crate::math8::lemma_blend8_bounds(m.from.r, t.r, p1);
        crate::math8::lemma_blend8_bounds(m.from.g, t.g, p1);
        crate::math8::lemma_blend8_bounds(m.from.b, t.b, p1);
    }
}

/// A crossfade starts from its start color: while less than 1/255 of the duration has
/// passed, the color shown is still the color the transition started from.
pub proof fn law_transition_starts_at_from(m: ColorTransitionModel, delta_ms: u64, t: Rgb)
    requires
        m.target == Some(t),
        m.elapsed_ms + delta_ms <= u64::MAX,
        (m.elapsed_ms + delta_ms) * 255 < m.duration_ms,
    ensures
        spec_tick(m, delta_ms).current == m.from,
        spec_tick(m, delta_ms).target == Some(t),
{
    let e = (m.elapsed_ms + delta_ms) as u64;
    assert((e * 255) / (m.duration_ms as int) == 0) by (nonlinear_arith)
        requires
            e * 255 < m.duration_ms,
            e >= 0,
    ;
    crate::math8::lemma_blend8_bounds(m.from.r, t.r, 0);
    crate::math8::lemma_blend8_bounds(m.from.g, t.g, 0);
    crate::math8::lemma_blend8_bounds(m.from.b, t.b, 0);
}

/// Without a transition in progress a frame changes nothing.
pub proof fn law_transition_idle(m: ColorTransitionModel, delta_ms: u64)
    requires
        m.target is None,
    ensures
        spec_tick(m, delta_ms) == m,
{
}

} // verus!
