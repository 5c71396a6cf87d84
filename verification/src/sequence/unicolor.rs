//! A sequence in which all LEDs have the same color.

use vstd::prelude::*;

use super::ConfigWithMainColor;
use super::Sequence;
use crate::color::Rgb8;

verus! {

/// A sequence in which all LEDs have the same color.
pub struct Unicolor<const N: usize> {
    /// The configuration.
    config: UnicolorConfig,
    /// The counter.
    counter: usize,
}

/// The configuration for unicolor sequences.
#[derive(Clone, Copy, Debug, PartialEq, Eq, Structural)]
pub struct UnicolorConfig {
    /// The color for all LEDs.
    pub color: Rgb8,
}

impl<const N: usize> Sequence<N> for Unicolor<N> {
    type Config = UnicolorConfig;

    open spec fn color_at(config: UnicolorConfig, i: int) -> Rgb8 {
        config.color
    }

    open spec fn valid_config(config: UnicolorConfig) -> bool {
        true
    }

    closed spec fn wf(&self) -> bool {
        self.counter <= N
    }

    closed spec fn spec_config(&self) -> UnicolorConfig {
        self.config
    }

    closed spec fn emitted(&self) -> int {
        self.counter as int
    }

    proof fn wf_properties(&self) {
    }

    fn new(config: UnicolorConfig) -> (s: Self) {
        Unicolor { config, counter: 0 }
    }

    fn config(&self) -> (c: UnicolorConfig) {
        self.config
    }

    fn next(&mut self) -> (r: Option<Rgb8>) {
        if self.counter < N {
            self.counter = self.counter + 1;
            Some(self.config.color)
        } else {
            None
        }
    }
}

impl ConfigWithMainColor for UnicolorConfig {
    open spec fn spec_main_color(&self) -> Rgb8 {
        self.color
    }

    open spec fn spec_with_main_color(&self, color: Rgb8) -> UnicolorConfig {
        UnicolorConfig { color }
    }

    proof fn with_main_color_properties(&self, c1: Rgb8, c2: Rgb8) {
    }

    fn main_color(&self) -> (c: Rgb8) {
        self.color
    }

    fn set_main_color(&mut self, color: Rgb8) {
        self.color = color;
    }
}

} // verus!
