//! A sequence in which the LEDs draw a rainbow.

use vstd::prelude::*;

use super::Sequence;
use crate::color::Hsv;
use crate::color::Rgb8;
use crate::color::hsv_to_rgb;
use crate::color::spec_hsv_to_rgb;

verus! {

/// A sequence in which the LEDs draw a rainbow.
pub struct Rainbow<const N: usize> {
    /// The configuration.
    config: RainbowConfig,
    /// The counter.
    counter: usize,
}

/// The configuration for rainbow sequences.
#[derive(Clone, Copy, Debug, PartialEq, Eq, Structural)]
pub struct RainbowConfig {
    /// The first color of the rainbow.
    pub first_color: Hsv,
    /// The color range.
    pub range: u8,
}

/// The hue of rainbow element `i` out of `n` elements: the first color's hue
/// advanced by `i` times the per-element hue increment `range / n`, wrapping
/// modulo 256.
pub open spec fn rainbow_hue_at(config: RainbowConfig, i: int, n: int) -> u8 {
    ((config.first_color.hue + i * (config.range as int / n)) % 256) as u8
}

/// The color of rainbow element `i` out of `n` elements: the first color with
/// its hue advanced, converted to RGB.
pub open spec fn rainbow_color_at(config: RainbowConfig, i: int, n: int) -> Rgb8 {
    spec_hsv_to_rgb(
        Hsv {
            hue: rainbow_hue_at(config, i, n),
            sat: config.first_color.sat,
            val: config.first_color.val,
        },
    )
}

impl<const N: usize> Sequence<N> for Rainbow<N> {
    type Config = RainbowConfig;

    open spec fn color_at(config: RainbowConfig, i: int) -> Rgb8 {
        rainbow_color_at(config, i, N as int)
    }

    open spec fn valid_config(config: RainbowConfig) -> bool {
        true
    }

    closed spec fn wf(&self) -> bool {
        self.counter <= N
    }

    closed spec fn spec_config(&self) -> RainbowConfig {
        self.config
    }

    closed spec fn emitted(&self) -> int {
        self.counter as int
    }

    proof fn wf_properties(&self) {
    }

    fn new(config: RainbowConfig) -> (s: Self) {
        Rainbow { config, counter: 0 }
    }

    fn config(&self) -> (c: RainbowConfig) {
        self.config
    }

    fn next(&mut self) -> (r: Option<Rgb8>) {
        if self.counter < N {
            let hue_increment = (self.config.range as usize) / N;
            proof {
                assert(self.counter * hue_increment < 255) by (nonlinear_arith)
                    requires
                        self.counter < N,
                        hue_increment == self.config.range as usize as int / N as int,
                        self.config.range <= 255,
                        N >= 1,
                ;
            }
            let advance = self.counter * hue_increment;
            let hue = ((self.config.first_color.hue as usize + advance) % 256) as u8;
            let color = hsv_to_rgb(
                Hsv { hue, sat: self.config.first_color.sat, val: self.config.first_color.val },
            );
            self.counter = self.counter + 1;
            Some(color)
        } else {
            None
        }
    }
}

} // verus!
