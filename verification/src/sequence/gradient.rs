//! A sequence in which the LEDs draw a gradient.

use vstd::prelude::*;

use super::ConfigWithMainColor;
use super::ConfigWithSecondaryColor;
use super::Sequence;
use super::frame_of;
use crate::color::Rgb8;
use crate::interpolate::interpolate;
use crate::interpolate::lemma_interpolate_first;
use crate::interpolate::lemma_interpolate_in_range;
use crate::interpolate::lemma_interpolate_last;
use crate::interpolate::spec_interpolate;

verus! {

/// A sequence in which the LEDs draw a gradient.
pub struct Gradient<const N: usize> {
    /// The configuration.
    config: GradientConfig,
    /// The counter.
    counter: usize,
}

/// The configuration for gradient sequences.
#[derive(Clone, Copy, Debug, PartialEq, Eq, Structural)]
pub struct GradientConfig {
    /// The departure color of the gradient.
    pub start_color: Rgb8,
    /// The arrival color of the gradient.
    pub end_color: Rgb8,
}

/// The color of gradient element `i` out of `n` elements: every channel
/// interpolated `i / (n - 1)` of the way from the start color to the end
/// color, so that element `0` shows the start color and element `n - 1` the
/// end color exactly. A one-element gradient is degenerate and shows the
/// start color.
pub open spec fn gradient_color_at(config: GradientConfig, i: int, n: int) -> Rgb8 {
    if n <= 1 {
        config.start_color
    } else {
        Rgb8 {
            r: spec_interpolate(config.start_color.r, config.end_color.r, i, n - 1) as u8,
            g: spec_interpolate(config.start_color.g, config.end_color.g, i, n - 1) as u8,
            b: spec_interpolate(config.start_color.b, config.end_color.b, i, n - 1) as u8,
        }
    }
}

impl<const N: usize> Sequence<N> for Gradient<N> {
    type Config = GradientConfig;

    open spec fn color_at(config: GradientConfig, i: int) -> Rgb8 {
        gradient_color_at(config, i, N as int)
    }

    open spec fn valid_config(config: GradientConfig) -> bool {
        true
    }

    closed spec fn wf(&self) -> bool {
        self.counter <= N
    }

    closed spec fn spec_config(&self) -> GradientConfig {
        self.config
    }

    closed spec fn emitted(&self) -> int {
        self.counter as int
    }

    proof fn wf_properties(&self) {
    }

    fn new(config: GradientConfig) -> (s: Self) {
        Gradient { config, counter: 0 }
    }

    fn config(&self) -> (c: GradientConfig) {
        self.config
    }

    fn next(&mut self) -> (r: Option<Rgb8>) {
        if self.counter < N {
            let color = if N == 1 {
                self.config.start_color
            } else {
                Rgb8 {
                    r: gradient_step::<N>(
                        self.config.start_color.r,
                        self.config.end_color.r,
                        self.counter,
                    ),
                    g: gradient_step::<N>(
                        self.config.start_color.g,
                        self.config.end_color.g,
                        self.counter,
                    ),
                    b: gradient_step::<N>(
                        self.config.start_color.b,
                        self.config.end_color.b,
                        self.counter,
                    ),
                }
            };
            self.counter = self.counter + 1;
            Some(color)
        } else {
            None
        }
    }
}

/// Returns the value of one color channel at gradient position `step` out of
/// `N` elements: `start + step * (end - start) / (N - 1)`, truncating toward
/// zero.
pub fn gradient_step<const N: usize>(start: u8, end: u8, step: usize) -> (r: u8)
    requires
        N >= 2,
        step <= N - 1,
    ensures
        r as int == spec_interpolate(start, end, step as int, N as int - 1),
{
    interpolate(start, end, step, N - 1)
}

/// A gradient starts at its start color and ends at its end color exactly:
/// with at least two elements, element `0` renders the start color and
/// element `N - 1` the end color, with no rounding drift at the endpoints.
pub proof fn lemma_gradient_endpoints<const N: usize>(config: GradientConfig)
    requires
        N >= 2,
    ensures
        frame_of::<Gradient<N>, N>(config)[0] == config.start_color,
        frame_of::<Gradient<N>, N>(config)[N as int - 1] == config.end_color,
{
    let n = N as int;
    lemma_interpolate_first(config.start_color.r, config.end_color.r, n - 1);
    lemma_interpolate_first(config.start_color.g, config.end_color.g, n - 1);
    lemma_interpolate_first(config.start_color.b, config.end_color.b, n - 1);
    lemma_interpolate_last(config.start_color.r, config.end_color.r, n - 1);
    lemma_interpolate_last(config.start_color.g, config.end_color.g, n - 1);
    lemma_interpolate_last(config.start_color.b, config.end_color.b, n - 1);
    lemma_interpolate_in_range(config.start_color.r, config.end_color.r, n - 1, n - 1);
    lemma_interpolate_in_range(config.start_color.g, config.end_color.g, n - 1, n - 1);
    lemma_interpolate_in_range(config.start_color.b, config.end_color.b, n - 1, n - 1);
}

impl ConfigWithMainColor for GradientConfig {
    open spec fn spec_main_color(&self) -> Rgb8 {
        self.start_color
    }

    open spec fn spec_with_main_color(&self, color: Rgb8) -> GradientConfig {
        GradientConfig { start_color: color, ..*self }
    }

    proof fn with_main_color_properties(&self, c1: Rgb8, c2: Rgb8) {
    }

    fn main_color(&self) -> (c: Rgb8) {
        self.start_color
    }

    fn set_main_color(&mut self, color: Rgb8) {
        self.start_color = color;
    }
}

impl ConfigWithSecondaryColor for GradientConfig {
    open spec fn spec_secondary_color(&self) -> Rgb8 {
        self.end_color
    }

    open spec fn spec_with_secondary_color(&self, color: Rgb8) -> GradientConfig {
        GradientConfig { end_color: color, ..*self }
    }

    proof fn with_secondary_color_properties(&self, c1: Rgb8, c2: Rgb8) {
    }

    fn secondary_color(&self) -> (c: Rgb8) {
        self.end_color
    }

    fn set_secondary_color(&mut self, color: Rgb8) {
        self.end_color = color;
    }
}

} // verus!
